//! The tool's configuration: named script command lists, built once at
//! startup from whatever the caller read off disk and passed in as plain
//! values.

use vstd::prelude::*;

use crate::text::str_eq;

verus! {

/// One named script: its name and the commands it runs.
pub struct ScriptEntry {
    pub name: String,
    pub commands: Vec<String>,
}

/// The mathematical shape of a script entry.
pub ghost struct ScriptEntryModel {
    pub name: Seq<char>,
    pub commands: Seq<Seq<char>>,
}

impl View for ScriptEntry {
    type V = ScriptEntryModel;

    open spec fn view(&self) -> ScriptEntryModel {
        ScriptEntryModel { name: self.name@, commands: self.commands.deep_view() }
    }
}

impl DeepView for ScriptEntry {
    type V = ScriptEntryModel;

    open spec fn deep_view(&self) -> ScriptEntryModel {
        self@
    }
}

/// The configuration value: the scripts, in the order they were given.
pub struct Config {
    pub scripts: Vec<ScriptEntry>,
}

/// The first script with a name, if any.
pub open spec fn spec_script_lookup(
    scripts: Seq<ScriptEntryModel>,
    name: Seq<char>,
) -> Option<Seq<Seq<char>>>
    decreases scripts.len(),
{
    if scripts.len() == 0 {
        None
    } else if scripts[0].name == name {
        Some(scripts[0].commands)
    } else {
        spec_script_lookup(scripts.subrange(1, scripts.len() as int), name)
    }
}

proof fn lemma_script_lookup_hit(scripts: Seq<ScriptEntryModel>, name: Seq<char>, i: int)
    requires
        0 <= i < scripts.len(),
        scripts[i].name == name,
        forall|j: int| 0 <= j < i ==> scripts[j].name != name,
    ensures
        spec_script_lookup(scripts, name) == Some(scripts[i].commands),
    decreases i,
{
    if i > 0 {
        lemma_script_lookup_hit(scripts.subrange(1, scripts.len() as int), name, i - 1);
    }
}

proof fn lemma_script_lookup_miss(scripts: Seq<ScriptEntryModel>, name: Seq<char>)
    requires
        forall|j: int| 0 <= j < scripts.len() ==> scripts[j].name != name,
    ensures
        spec_script_lookup(scripts, name) is None,
    decreases scripts.len(),
{
    if scripts.len() > 0 {
        lemma_script_lookup_miss(scripts.subrange(1, scripts.len() as int), name);
    }
}

impl Config {
    /// Builds the shared configuration from the entries the caller read at
    /// startup; an absent configuration file is an empty entry list.
    pub fn get(scripts: Vec<ScriptEntry>) -> (c: Config)
        ensures
            c.scripts.deep_view() == scripts.deep_view(),
    {
        Config { scripts }
    }

    /// The commands of the first script under `name`, if any.
    pub fn script(&self, name: &str) -> (r: Option<&Vec<String>>)
        ensures
            match r {
                Some(commands) => spec_script_lookup(self.scripts.deep_view(), name@) == Some(
                    commands.deep_view(),
                ),
                None => spec_script_lookup(self.scripts.deep_view(), name@) is None,
            },
    {
        let n = self.scripts.len();
        let mut i: usize = 0;
        while i < n
            invariant
                0 <= i <= n,
                n == self.scripts.len(),
                forall|j: int| 0 <= j < i ==> self.scripts.deep_view()[j].name != name@,
            decreases n - i,
        {
            if str_eq(self.scripts[i].name.as_str(), name) {
                proof {
                    assert(self.scripts.deep_view()[i as int] == self.scripts@[i as int]@);
                    lemma_script_lookup_hit(self.scripts.deep_view(), name@, i as int);
                }
                return Some(&self.scripts[i].commands);
            }
            i = i + 1;
        }
        proof {
            lemma_script_lookup_miss(self.scripts.deep_view(), name@);
        }
        None
    }
}

} // verus!
