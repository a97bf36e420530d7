//! Dependency rolling for the JavaScript-family package managers: which
//! dependency tables name the package, and the exact install invocations and
//! human-readable summaries, with their shell escaping, that a roll performs.

use vstd::prelude::*;

use crate::command::{InvocationModel, ToolInvocation};
use crate::ecosystem::Ecosystem;
use crate::package_manager::{
    spec_package_manager_label, spec_preferred_package_manager, LockfileProbes, PackageManager,
};
use crate::text::{escape_single_quotes, spec_escape_single_quotes, spec_trim, str_eq, trim};
use crate::version::{semver_parsed, Version};

verus! {

/// A package name, as given on the command line.
#[derive(Debug)]
pub struct DependencyName(pub String);

/// The dependency tables a JavaScript manifest can name a package in.
#[derive(Debug, Clone, Copy, PartialEq, Eq, Structural)]
pub enum NpmDependencyType {
    Prod,
    Dev,
    Peer,
    Optional,
}

/// The JavaScript tool's save flag for a dependency table.
pub open spec fn spec_npm_install_arg(t: NpmDependencyType) -> Seq<char> {
    match t {
        NpmDependencyType::Prod => "--save"@,
        NpmDependencyType::Dev => "--save-dev"@,
        NpmDependencyType::Peer => "--save-peer"@,
        NpmDependencyType::Optional => "--save-optional"@,
    }
}

/// The Bun add flag for a dependency table; the default table needs none.
pub open spec fn spec_bun_add_arg(t: NpmDependencyType) -> Option<Seq<char>> {
    match t {
        NpmDependencyType::Prod => None,
        NpmDependencyType::Dev => Some("--dev"@),
        NpmDependencyType::Peer => Some("--peer"@),
        NpmDependencyType::Optional => Some("--optional"@),
    }
}

impl NpmDependencyType {
    /// Every dependency table, in the order rolls walk them.
    pub fn all_types() -> (r: Vec<NpmDependencyType>)
        ensures
            r@ == seq![
                NpmDependencyType::Prod,
                NpmDependencyType::Dev,
                NpmDependencyType::Peer,
                NpmDependencyType::Optional,
            ],
    {
        let mut r: Vec<NpmDependencyType> = Vec::new();
        r.push(NpmDependencyType::Prod);
        r.push(NpmDependencyType::Dev);
        r.push(NpmDependencyType::Peer);
        r.push(NpmDependencyType::Optional);
        proof {
            assert(r@ =~= seq![
                NpmDependencyType::Prod,
                NpmDependencyType::Dev,
                NpmDependencyType::Peer,
                NpmDependencyType::Optional,
            ]);
        }
        r
    }

    /// The JavaScript tool's save flag for this table.
    pub fn npm_install_arg(&self) -> (r: String)
        ensures
            r@ == spec_npm_install_arg(*self),
    {
        match self {
            NpmDependencyType::Prod => String::from_str("--save"),
            NpmDependencyType::Dev => String::from_str("--save-dev"),
            NpmDependencyType::Peer => String::from_str("--save-peer"),
            NpmDependencyType::Optional => String::from_str("--save-optional"),
        }
    }

    /// The Bun add flag for this table, if it needs one.
    pub fn bun_add_arg(&self) -> (r: Option<String>)
        ensures
            r.deep_view() == spec_bun_add_arg(*self),
    {
        match self {
            NpmDependencyType::Prod => None,
            NpmDependencyType::Dev => Some(String::from_str("--dev")),
            NpmDependencyType::Peer => Some(String::from_str("--peer")),
            NpmDependencyType::Optional => Some(String::from_str("--optional")),
        }
    }
}

/// One dependency as a manifest lists it: the package name and the version
/// requirement text.
pub struct DependencyRecord {
    pub name: String,
    pub requirement: String,
}

/// The mathematical shape of a dependency record.
pub ghost struct DependencyRecordModel {
    pub name: Seq<char>,
    pub requirement: Seq<char>,
}

impl View for DependencyRecord {
    type V = DependencyRecordModel;

    open spec fn view(&self) -> DependencyRecordModel {
        DependencyRecordModel { name: self.name@, requirement: self.requirement@ }
    }
}

impl DeepView for DependencyRecord {
    type V = DependencyRecordModel;

    open spec fn deep_view(&self) -> DependencyRecordModel {
        self@
    }
}

/// The dependency tables of a JavaScript manifest, each absent when the
/// manifest has no such table.
pub struct PackageJSONSubset {
    pub dependencies: Option<Vec<DependencyRecord>>,
    pub dev_dependencies: Option<Vec<DependencyRecord>>,
    pub peer_dependencies: Option<Vec<DependencyRecord>>,
    pub optional_dependencies: Option<Vec<DependencyRecord>>,
}

/// The mathematical shape of the manifest subset.
pub ghost struct PackageJSONSubsetModel {
    pub dependencies: Option<Seq<DependencyRecordModel>>,
    pub dev_dependencies: Option<Seq<DependencyRecordModel>>,
    pub peer_dependencies: Option<Seq<DependencyRecordModel>>,
    pub optional_dependencies: Option<Seq<DependencyRecordModel>>,
}

impl View for PackageJSONSubset {
    type V = PackageJSONSubsetModel;

    open spec fn view(&self) -> PackageJSONSubsetModel {
        PackageJSONSubsetModel {
            dependencies: self.dependencies.deep_view(),
            dev_dependencies: self.dev_dependencies.deep_view(),
            peer_dependencies: self.peer_dependencies.deep_view(),
            optional_dependencies: self.optional_dependencies.deep_view(),
        }
    }
}

/// The records of one dependency table.
pub open spec fn spec_records_of(p: PackageJSONSubsetModel, t: NpmDependencyType) -> Option<
    Seq<DependencyRecordModel>,
> {
    match t {
        NpmDependencyType::Prod => p.dependencies,
        NpmDependencyType::Dev => p.dev_dependencies,
        NpmDependencyType::Peer => p.peer_dependencies,
        NpmDependencyType::Optional => p.optional_dependencies,
    }
}

/// Whether a record list names the package.
pub open spec fn spec_contains_name(rs: Seq<DependencyRecordModel>, name: Seq<char>) -> bool
    decreases rs.len(),
{
    if rs.len() == 0 {
        false
    } else if rs[0].name == name {
        true
    } else {
        spec_contains_name(rs.subrange(1, rs.len() as int), name)
    }
}

proof fn lemma_contains_name_hit(rs: Seq<DependencyRecordModel>, name: Seq<char>, i: int)
    requires
        0 <= i < rs.len(),
        rs[i].name == name,
    ensures
        spec_contains_name(rs, name),
    decreases i,
{
    if rs[0].name != name {
        lemma_contains_name_hit(rs.subrange(1, rs.len() as int), name, i - 1);
    }
}

proof fn lemma_contains_name_miss(rs: Seq<DependencyRecordModel>, name: Seq<char>)
    requires
        forall|j: int| 0 <= j < rs.len() ==> rs[j].name != name,
    ensures
        !spec_contains_name(rs, name),
    decreases rs.len(),
{
    if rs.len() > 0 {
        lemma_contains_name_miss(rs.subrange(1, rs.len() as int), name);
    }
}

/// Whether a table names the package.
pub open spec fn spec_has_dependency(
    records: Option<Seq<DependencyRecordModel>>,
    name: Seq<char>,
) -> bool {
    match records {
        Some(rs) => spec_contains_name(rs, name),
        None => false,
    }
}

impl PackageJSONSubset {
    /// The dependency table of one kind.
    pub fn get_dependencies_of_type(&self, t: &NpmDependencyType) -> (r: &Option<
        Vec<DependencyRecord>,
    >)
        ensures
            r.deep_view() == spec_records_of(self@, *t),
    {
        match t {
            NpmDependencyType::Prod => &self.dependencies,
            NpmDependencyType::Dev => &self.dev_dependencies,
            NpmDependencyType::Peer => &self.peer_dependencies,
            NpmDependencyType::Optional => &self.optional_dependencies,
        }
    }

    /// Whether the table of the given kind names the package.
    pub fn has_dependency_of_type(
        &self,
        npm_dependency_type: &NpmDependencyType,
        dependency_name: &DependencyName,
    ) -> (r: bool)
        ensures
            r == spec_has_dependency(spec_records_of(self@, *npm_dependency_type),
            dependency_name.0@),
    {
        let records = self.get_dependencies_of_type(npm_dependency_type);
        match records {
            Some(rs) => {
                let n = rs.len();
                let mut i: usize = 0;
                while i < n
                    invariant
                        0 <= i <= n,
                        n == rs.len(),
                        spec_records_of(self@, *npm_dependency_type) == Some(rs.deep_view()),
                        forall|j: int| 0 <= j < i ==> rs.deep_view()[j].name != dependency_name.0@,
                    decreases n - i,
                {
                    if str_eq(rs[i].name.as_str(), dependency_name.0.as_str()) {
                        proof {
                            assert(rs.deep_view()[i as int] == rs@[i as int]@);
                            lemma_contains_name_hit(rs.deep_view(), dependency_name.0@, i as int);
                        }
                        return true;
                    }
                    i = i + 1;
                }
                proof {
                    lemma_contains_name_miss(rs.deep_view(), dependency_name.0@);
                }
                false
            },
            None => false,
        }
    }
}

/// The tables a roll touches for one package: those that name it, in the
/// fixed walking order.
pub open spec fn spec_roll_targets(p: PackageJSONSubsetModel, name: Seq<char>) -> Seq<
    NpmDependencyType,
> {
    (if spec_has_dependency(spec_records_of(p, NpmDependencyType::Prod), name) {
        seq![NpmDependencyType::Prod]
    } else {
        Seq::<NpmDependencyType>::empty()
    }) + (if spec_has_dependency(spec_records_of(p, NpmDependencyType::Dev), name) {
        seq![NpmDependencyType::Dev]
    } else {
        Seq::<NpmDependencyType>::empty()
    }) + (if spec_has_dependency(spec_records_of(p, NpmDependencyType::Peer), name) {
        seq![NpmDependencyType::Peer]
    } else {
        Seq::<NpmDependencyType>::empty()
    }) + (if spec_has_dependency(spec_records_of(p, NpmDependencyType::Optional), name) {
        seq![NpmDependencyType::Optional]
    } else {
        Seq::<NpmDependencyType>::empty()
    })
}

/// The tables whose roll the manifest asks for: each table that names the
/// package, in the fixed order.
pub fn roll_targets(package_json: &PackageJSONSubset, dependency_name: &DependencyName) -> (r: Vec<
    NpmDependencyType,
>)
    ensures
        r@ == spec_roll_targets(package_json@, dependency_name.0@),
{
    let mut r: Vec<NpmDependencyType> = Vec::new();
    if package_json.has_dependency_of_type(&NpmDependencyType::Prod, dependency_name) {
        r.push(NpmDependencyType::Prod);
    }
    if package_json.has_dependency_of_type(&NpmDependencyType::Dev, dependency_name) {
        r.push(NpmDependencyType::Dev);
    }
    if package_json.has_dependency_of_type(&NpmDependencyType::Peer, dependency_name) {
        r.push(NpmDependencyType::Peer);
    }
    if package_json.has_dependency_of_type(&NpmDependencyType::Optional, dependency_name) {
        r.push(NpmDependencyType::Optional);
    }
    proof {
        assert(r@ =~= spec_roll_targets(package_json@, dependency_name.0@));
    }
    r
}

/// The caret version argument a roll hands the installer: `name@^version`.
pub open spec fn spec_dependency_arg(name: Seq<char>, version: Seq<char>) -> Seq<char> {
    name + "@^"@ + version
}

/// Builds the caret version argument for a roll.
pub fn dependency_arg(name: &DependencyName, version: &str) -> (r: String)
    ensures
        r@ == spec_dependency_arg(name.0@, version@),
{
    let mut r = name.0.clone();
    r.append("@^");
    r.append(version);
    r
}

/// The version lookup for a package: `npm show -- <name> version`; the
/// separator keeps a name that opens with a dash from being read as a flag.
pub open spec fn spec_npm_show_version_invocation(name: Seq<char>) -> InvocationModel {
    InvocationModel { program: "npm"@, args: seq!["show"@, "--"@, name, "version"@] }
}

/// Plans the version lookup for a package.
pub fn npm_show_version_invocation(name: &DependencyName) -> (r: ToolInvocation)
    ensures
        r@ == spec_npm_show_version_invocation(name.0@),
{
    let mut r = ToolInvocation::new("npm");
    r.arg("show");
    r.arg("--");
    r.arg(name.0.as_str());
    r.arg("version");
    proof {
        assert(r@.args =~= spec_npm_show_version_invocation(name.0@).args);
    }
    r
}

/// Reads the version lookup's output: the trimmed text parsed as a semantic
/// version; no output, or text that is not a version, yields `None`.
pub fn version_from_show_output(output: Option<&String>) -> (r: Option<Version>)
    ensures
        match output {
            Some(out) => match r {
                Some(v) => semver_parsed(spec_trim(out@)) == Some(v@),
                None => semver_parsed(spec_trim(out@)) is None,
            },
            None => r is None,
        },
{
    match output {
        Some(out) => {
            let trimmed = trim(out.as_str());
            crate::version::Version::parse_str(trimmed.as_str())
        },
        None => None,
    }
}

/// The JavaScript tool's roll invocation for one table: install under the
/// table's save flag, behind the argument separator.
pub open spec fn spec_npm_roll_invocation(
    t: NpmDependencyType,
    dep_arg: Seq<char>,
) -> InvocationModel {
    InvocationModel {
        program: "npm"@,
        args: seq!["install"@, spec_npm_install_arg(t), "--"@, dep_arg],
    }
}

/// The human-readable summary of a roll through the JavaScript tool, with the
/// version argument single-quoted and its own quotes escaped.
pub open spec fn spec_npm_roll_summary(t: NpmDependencyType, dep_arg: Seq<char>) -> Seq<char> {
    "npm install "@ + spec_npm_install_arg(t) + " -- '"@ + spec_escape_single_quotes(dep_arg)
        + "'"@
}

/// Plans a roll through the JavaScript tool: the invocation and its summary.
pub fn npm_roll_invocation(t: NpmDependencyType, dep_arg: &str) -> (r: (ToolInvocation, String))
    ensures
        r.0@ == spec_npm_roll_invocation(t, dep_arg@),
        r.1@ == spec_npm_roll_summary(t, dep_arg@),
{
    let mut inv = ToolInvocation::new("npm");
    inv.arg("install");
    let flag = t.npm_install_arg();
    inv.arg(flag.as_str());
    inv.arg("--");
    inv.arg(dep_arg);
    proof {
        assert(inv@.args =~= spec_npm_roll_invocation(t, dep_arg@).args);
    }
    let mut summary = String::from_str("npm install ");
    summary.append(flag.as_str());
    summary.append(" -- '");
    let escaped = escape_single_quotes(dep_arg);
    summary.append(escaped.as_str());
    summary.append("'");
    (inv, summary)
}

/// The Bun roll invocation for one table: add under the table's flag when it
/// has one, behind the argument separator.
pub open spec fn spec_bun_roll_invocation(
    t: NpmDependencyType,
    dep_arg: Seq<char>,
) -> InvocationModel {
    InvocationModel {
        program: "bun"@,
        args: (match spec_bun_add_arg(t) {
            Some(flag) => seq!["add"@, flag],
            None => seq!["add"@],
        }) + seq!["--"@, dep_arg],
    }
}

/// The human-readable summary of a roll through Bun: the subcommand and flag
/// without the separator, then the quoted version argument.
pub open spec fn spec_bun_roll_summary(t: NpmDependencyType, dep_arg: Seq<char>) -> Seq<char> {
    "bun add"@ + (match spec_bun_add_arg(t) {
        Some(flag) => " "@ + flag,
        None => Seq::<char>::empty(),
    }) + " '"@ + spec_escape_single_quotes(dep_arg) + "'"@
}

/// Plans a roll through Bun: the invocation and its summary.
pub fn bun_roll_invocation(t: NpmDependencyType, dep_arg: &str) -> (r: (ToolInvocation, String))
    ensures
        r.0@ == spec_bun_roll_invocation(t, dep_arg@),
        r.1@ == spec_bun_roll_summary(t, dep_arg@),
{
    let mut inv = ToolInvocation::new("bun");
    inv.arg("add");
    let mut summary = String::from_str("bun add");
    match t.bun_add_arg() {
        Some(flag) => {
            inv.arg(flag.as_str());
            summary.append(" ");
            summary.append(flag.as_str());
        },
        None => {},
    }
    inv.arg("--");
    inv.arg(dep_arg);
    proof {
        assert(inv@.args =~= spec_bun_roll_invocation(t, dep_arg@).args);
    }
    summary.append(" '");
    let escaped = escape_single_quotes(dep_arg);
    summary.append(escaped.as_str());
    summary.append("'");
    proof {
        assert(summary@ =~= spec_bun_roll_summary(t, dep_arg@));
    }
    (inv, summary)
}

/// What can go wrong resolving and running a roll.
#[derive(Debug, Clone, Copy, PartialEq, Eq, Structural)]
pub enum DependencyError {
    /// No ecosystem could be detected to pick a package manager from.
    NoEcosystem,
    /// The detected ecosystem selected no package manager.
    NoPackageManager,
    /// Rolling is only implemented for the npm and Bun package managers.
    UnsupportedPackageManager(PackageManager),
}

/// The message of a dependency error, as printed to the user.
pub open spec fn spec_dependency_error_message(e: DependencyError) -> Seq<char> {
    match e {
        DependencyError::NoEcosystem => "Could not detect ecosystem."@,
        DependencyError::NoPackageManager => "Could not detect package manager."@,
        DependencyError::UnsupportedPackageManager(pm) => {
            "Dependency rolling is not implemented for package manager: "@
                + spec_package_manager_label(pm)
        },
    }
}

impl DependencyError {
    /// The user-facing message for this error.
    pub fn message(&self) -> (r: String)
        ensures
            r@ == spec_dependency_error_message(*self),
    {
        match self {
            DependencyError::NoEcosystem => String::from_str("Could not detect ecosystem."),
            DependencyError::NoPackageManager => String::from_str(
                "Could not detect package manager.",
            ),
            DependencyError::UnsupportedPackageManager(pm) => {
                let mut r = String::from_str(
                    "Dependency rolling is not implemented for package manager: ",
                );
                let label = pm.label();
                r.append(label.as_str());
                r
            },
        }
    }
}

/// The package manager a roll uses: the explicitly named one, else whatever
/// the detected ecosystem's litmus files select; with no detected ecosystem,
/// or none selected, the roll cannot proceed.
pub fn resolve_roll_package_manager(
    explicit: Option<PackageManager>,
    detected_ecosystem: Option<Ecosystem>,
    lockfiles: &LockfileProbes,
) -> (r: Result<PackageManager, DependencyError>)
    ensures
        r == (match explicit {
            Some(pm) => Ok::<PackageManager, DependencyError>(pm),
            None => match detected_ecosystem {
                Some(eco) => match spec_preferred_package_manager(eco, *lockfiles) {
                    Some(pm) => Ok::<PackageManager, DependencyError>(pm),
                    None => Err::<PackageManager, DependencyError>(
                        DependencyError::NoPackageManager,
                    ),
                },
                None => Err::<PackageManager, DependencyError>(DependencyError::NoEcosystem),
            },
        }),
{
    match explicit {
        Some(pm) => Ok(pm),
        None => match detected_ecosystem {
            Some(eco) => match PackageManager::preferred_detected_package_manager_for_ecosystem(
                eco,
                lockfiles,
            ) {
                Some(pm) => Ok(pm),
                None => Err(DependencyError::NoPackageManager),
            },
            None => Err(DependencyError::NoEcosystem),
        },
    }
}

} // verus!
