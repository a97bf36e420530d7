//! Version-control detection over plain probe values, and the planned
//! invocations and output readers for the VCS queries the tool makes. The
//! caller runs the probe commands and checks the marker files; every decision
//! about their results is made, verified, here.

use vstd::prelude::*;

use crate::command::{InvocationModel, ToolInvocation};
use crate::text::{spec_decimal, spec_split, spec_trim, split_char, trim, u64_to_string};

verus! {

/// A version-control system the tool can recognise. Git and Jj support the
/// commit-wrapped mutations; Mercurial is detected but unsupported for them.
#[derive(Debug, Clone, Copy, PartialEq, Eq, Structural)]
pub enum VcsKind {
    Git,
    Jj,
    Mercurial,
}

/// The label of a VCS kind, as commands print it.
pub open spec fn spec_vcs_label(k: VcsKind) -> Seq<char> {
    match k {
        VcsKind::Git => "git"@,
        VcsKind::Jj => "jj"@,
        VcsKind::Mercurial => "Mercurial"@,
    }
}

impl VcsKind {
    /// The user-facing name of the VCS.
    pub fn label(&self) -> (r: String)
        ensures
            r@ == spec_vcs_label(*self),
    {
        match self {
            VcsKind::Git => String::from_str("git"),
            VcsKind::Jj => String::from_str("jj"),
            VcsKind::Mercurial => String::from_str("Mercurial"),
        }
    }
}

/// What can go wrong while detecting a VCS or reading its answers.
#[derive(Debug, Clone, Copy, PartialEq, Eq, Structural)]
pub enum VcsError {
    /// No VCS was named and none could be inferred.
    NoVcsFound,
    /// No repository was detected around the working directory.
    NoRepoDetected,
    /// The operation is not supported on the detected VCS.
    Unsupported,
    /// The latest-commit query of this VCS gave no output.
    NoHashOutput(VcsKind),
    /// The describe query of this VCS gave no output.
    NoDescribeOutput(VcsKind),
    /// The Jj describe log did not hold a line with a tag.
    NoTagFound,
}

/// The message of a VCS error, as printed to the user.
pub open spec fn spec_vcs_error_message(e: VcsError) -> Seq<char> {
    match e {
        VcsError::NoVcsFound => "No VCS specified or found."@,
        VcsError::NoRepoDetected => "Could not detect a VCS repo."@,
        VcsError::Unsupported => "Mercurial is unsupported for this operation."@,
        VcsError::NoHashOutput(k) => "Could not get latest hash from `"@ + spec_vcs_label(k)
            + "`."@,
        VcsError::NoDescribeOutput(k) => "Could not get description using `"@ + spec_vcs_label(k)
            + "`."@,
        VcsError::NoTagFound => "Could not get tag to describe using `jj`."@,
    }
}

impl VcsError {
    /// The user-facing message for this error.
    pub fn message(&self) -> (r: String)
        ensures
            r@ == spec_vcs_error_message(*self),
    {
        match self {
            VcsError::NoVcsFound => String::from_str("No VCS specified or found."),
            VcsError::NoRepoDetected => String::from_str("Could not detect a VCS repo."),
            VcsError::Unsupported => String::from_str(
                "Mercurial is unsupported for this operation.",
            ),
            VcsError::NoHashOutput(k) => {
                let mut r = String::from_str("Could not get latest hash from `");
                let label = k.label();
                r.append(label.as_str());
                r.append("`.");
                r
            },
            VcsError::NoDescribeOutput(k) => {
                let mut r = String::from_str("Could not get description using `");
                let label = k.label();
                r.append(label.as_str());
                r.append("`.");
                r
            },
            VcsError::NoTagFound => String::from_str("Could not get tag to describe using `jj`."),
        }
    }
}

/// One directory on the walk from the starting directory up to the
/// filesystem root, and whether it holds the Mercurial marker `.hg`.
pub struct Ancestor {
    pub path: String,
    pub has_hg: bool,
}

/// The mathematical shape of an ancestor directory probe.
pub ghost struct AncestorModel {
    pub path: Seq<char>,
    pub has_hg: bool,
}

impl View for Ancestor {
    type V = AncestorModel;

    open spec fn view(&self) -> AncestorModel {
        AncestorModel { path: self.path@, has_hg: self.has_hg }
    }
}

impl DeepView for Ancestor {
    type V = AncestorModel;

    open spec fn deep_view(&self) -> AncestorModel {
        self@
    }
}

/// Everything the filesystem and the VCS tools answered when probed from one
/// starting directory: the raw standard output of the Jj and Git root
/// queries when they exited cleanly, and the ancestor walk for the Mercurial
/// marker, closest directory first.
pub struct VcsProbes {
    pub jj_root: Option<String>,
    pub git_toplevel: Option<String>,
    pub ancestors: Vec<Ancestor>,
}

/// The mathematical shape of a full probe snapshot.
pub ghost struct VcsProbesModel {
    pub jj_root: Option<Seq<char>>,
    pub git_toplevel: Option<Seq<char>>,
    pub ancestors: Seq<AncestorModel>,
}

impl View for VcsProbes {
    type V = VcsProbesModel;

    open spec fn view(&self) -> VcsProbesModel {
        VcsProbesModel {
            jj_root: self.jj_root.deep_view(),
            git_toplevel: self.git_toplevel.deep_view(),
            ancestors: self.ancestors.deep_view(),
        }
    }
}

/// The closest ancestor that holds the Mercurial marker, if any.
pub open spec fn spec_mercurial_scan(ancestors: Seq<AncestorModel>) -> Option<Seq<char>>
    decreases ancestors.len(),
{
    if ancestors.len() == 0 {
        None
    } else if ancestors[0].has_hg {
        Some(ancestors[0].path)
    } else {
        spec_mercurial_scan(ancestors.subrange(1, ancestors.len() as int))
    }
}

proof fn lemma_mercurial_scan_hit(ancestors: Seq<AncestorModel>, i: int)
    requires
        0 <= i < ancestors.len(),
        ancestors[i].has_hg,
        forall|j: int| 0 <= j < i ==> !ancestors[j].has_hg,
    ensures
        spec_mercurial_scan(ancestors) == Some(ancestors[i].path),
    decreases i,
{
    if i > 0 {
        let t = ancestors.subrange(1, ancestors.len() as int);
        lemma_mercurial_scan_hit(t, i - 1);
    }
}

proof fn lemma_mercurial_scan_miss(ancestors: Seq<AncestorModel>)
    requires
        forall|j: int| 0 <= j < ancestors.len() ==> !ancestors[j].has_hg,
    ensures
        spec_mercurial_scan(ancestors) is None,
    decreases ancestors.len(),
{
    if ancestors.len() > 0 {
        lemma_mercurial_scan_miss(ancestors.subrange(1, ancestors.len() as int));
    }
}

/// The VCS that governs the probed directory, with its root: Jj wins when its
/// root query answered (so a Jj-and-Git colocated repository is always
/// reported as Jj), Git is next, and the Mercurial marker walk is the last
/// resort. Tool outputs are trimmed; the marker walk reports the directory
/// path as it was probed.
pub open spec fn spec_detect_vcs(p: VcsProbesModel) -> Option<(VcsKind, Seq<char>)> {
    if p.jj_root is Some {
        Some((VcsKind::Jj, spec_trim(p.jj_root.unwrap())))
    } else if p.git_toplevel is Some {
        Some((VcsKind::Git, spec_trim(p.git_toplevel.unwrap())))
    } else {
        match spec_mercurial_scan(p.ancestors) {
            Some(path) => Some((VcsKind::Mercurial, path)),
            None => None,
        }
    }
}

/// Decides which VCS governs the probed directory and where its root is, in
/// strict priority order: the Jj root query, then the Git toplevel query,
/// then the walk for a Mercurial marker, closest ancestor first.
pub fn auto_detect_preferred_vcs_and_repo_root(probes: &VcsProbes) -> (r: Option<
    (VcsKind, String),
>)
    ensures
        match r {
            Some(found) => spec_detect_vcs(probes@) == Some((found.0, found.1@)),
            None => spec_detect_vcs(probes@) is None,
        },
{
    if let Some(out) = &probes.jj_root {
        return Some((VcsKind::Jj, trim(out.as_str())));
    }
    if let Some(out) = &probes.git_toplevel {
        return Some((VcsKind::Git, trim(out.as_str())));
    }
    let n = probes.ancestors.len();
    let mut i: usize = 0;
    while i < n
        invariant
            0 <= i <= n,
            n == probes.ancestors.len(),
            probes.jj_root is None,
            probes.git_toplevel is None,
            forall|j: int| 0 <= j < i ==> !probes.ancestors.deep_view()[j].has_hg,
        decreases n - i,
    {
        if probes.ancestors[i].has_hg {
            proof {
                assert(probes.ancestors.deep_view()[i as int] == probes.ancestors@[i as int]@);
                lemma_mercurial_scan_hit(probes.ancestors.deep_view(), i as int);
            }
            return Some((VcsKind::Mercurial, probes.ancestors[i].path.clone()));
        }
        i = i + 1;
    }
    proof {
        lemma_mercurial_scan_miss(probes.ancestors.deep_view());
    }
    None
}

/// Picks the VCS to operate with: an explicit choice wins; otherwise the
/// detected one is used; with neither, the operation cannot proceed.
pub fn vcs_or_infer(vcs: Option<VcsKind>, detected: &Option<(VcsKind, String)>) -> (r: Result<
    VcsKind,
    VcsError,
>)
    ensures
        r == (match vcs {
            Some(k) => Ok::<VcsKind, VcsError>(k),
            None => match detected {
                Some(d) => Ok::<VcsKind, VcsError>(d.0),
                None => Err::<VcsKind, VcsError>(VcsError::NoVcsFound),
            },
        }),
{
    match vcs {
        Some(kind) => Ok(kind),
        None => match detected {
            Some(found) => Ok(found.0),
            None => Err(VcsError::NoVcsFound),
        },
    }
}

/// A human-readable description of the current position relative to the
/// latest tag, built from the Jj describe log: the log holds one line per
/// commit since (and including) the latest tagged one, oldest first, each
/// line a short commit id, a space, and the commit's tags. The description is
/// the tag alone when the tag is the latest commit, and otherwise
/// `tag-count-gshortid` with the number of commits since the tag and the
/// newest commit's short id.
pub open spec fn spec_describe_from_jj_log(s: Seq<char>) -> Result<Seq<char>, VcsError> {
    let lines = spec_split(s, '\n');
    let parts = spec_split(lines[0], ' ');
    if parts.len() < 2 {
        Err(VcsError::NoTagFound)
    } else {
        let tag = parts[1];
        if lines.len() == 1 {
            Ok(tag)
        } else {
            let latest = spec_split(lines[lines.len() - 1], ' ')[0];
            Ok(
                tag + seq!['-'] + spec_decimal((lines.len() - 1) as nat) + seq!['-', 'g'] + latest,
            )
        }
    }
}

/// Builds the describe text from the Jj log output, already trimmed.
pub fn describe_from_jj_log(commits: &str) -> (r: Result<String, VcsError>)
    ensures
        match r {
            Ok(s) => spec_describe_from_jj_log(commits@) == Ok::<Seq<char>, VcsError>(s@),
            Err(e) => spec_describe_from_jj_log(commits@) == Err::<Seq<char>, VcsError>(e),
        },
{
    proof {
        crate::text::lemma_split_len(commits@, '\n');
    }
    let lines = split_char(commits, '\n');
    let parts = split_char(lines[0].as_str(), ' ');
    if parts.len() < 2 {
        return Err(VcsError::NoTagFound);
    }
    let tag = parts[1].clone();
    if lines.len() == 1 {
        Ok(tag)
    } else {
        let mut r = tag;
        let dash = "-";
        let dash_g = "-g";
        proof {
            reveal_strlit("-");
            reveal_strlit("-g");
            assert(dash@ =~= seq!['-']);
            assert(dash_g@ =~= seq!['-', 'g']);
        }
        r.append(dash);
        let count = u64_to_string((lines.len() - 1) as u64);
        r.append(count.as_str());
        r.append(dash_g);
        let ghost last_line_view = spec_split(commits@, '\n')[spec_split(commits@, '\n').len()
            - 1];
        proof {
            crate::text::lemma_split_len(last_line_view, ' ');
        }
        let last_parts = split_char(lines[lines.len() - 1].as_str(), ' ');
        r.append(last_parts[0].as_str());
        proof {
            assert(r@ =~= spec_describe_from_jj_log(commits@).unwrap());
        }
        Ok(r)
    }
}

/// The describe query for a VCS: `git describe --tags`, or the Jj log over
/// the commits since the latest tag, oldest first, with short ids and tags.
pub open spec fn spec_describe_invocation(k: VcsKind) -> Result<InvocationModel, VcsError> {
    match k {
        VcsKind::Git => Ok(
            InvocationModel { program: "git"@, args: seq!["describe"@, "--tags"@] },
        ),
        VcsKind::Jj => Ok(
            InvocationModel {
                program: "jj"@,
                args: seq![
                    "log"@,
                    "-r"@,
                    "latest(tags())::@-"@,
                    "--no-graph"@,
                    "--reversed"@,
                    "-T"@,
                    "commit_id.short(8) ++ \" \" ++ tags ++ \"\n\""@,
                ],
            },
        ),
        VcsKind::Mercurial => Err(VcsError::Unsupported),
    }
}

/// Plans the describe query for a VCS; Mercurial is unsupported.
pub fn describe_invocation(kind: VcsKind) -> (r: Result<ToolInvocation, VcsError>)
    ensures
        match r {
            Ok(inv) => spec_describe_invocation(kind) == Ok::<InvocationModel, VcsError>(inv@),
            Err(e) => spec_describe_invocation(kind) == Err::<InvocationModel, VcsError>(e),
        },
{
    match kind {
        VcsKind::Git => {
            let mut inv = ToolInvocation::new("git");
            inv.arg("describe");
            inv.arg("--tags");
            proof {
                assert(inv@.args =~= spec_describe_invocation(kind).unwrap().args);
            }
            Ok(inv)
        },
        VcsKind::Jj => {
            let mut inv = ToolInvocation::new("jj");
            inv.arg("log");
            inv.arg("-r");
            inv.arg("latest(tags())::@-");
            inv.arg("--no-graph");
            inv.arg("--reversed");
            inv.arg("-T");
            inv.arg("commit_id.short(8) ++ \" \" ++ tags ++ \"\n\"");
            proof {
                assert(inv@.args =~= spec_describe_invocation(kind).unwrap().args);
            }
            Ok(inv)
        },
        VcsKind::Mercurial => Err(VcsError::Unsupported),
    }
}

/// What the describe query's output means: no output is a failure; Git's
/// output is the description itself, trimmed; Jj's output is read through
/// `spec_describe_from_jj_log` after trimming.
pub open spec fn spec_describe_from_output(k: VcsKind, output: Option<Seq<char>>) -> Result<
    Seq<char>,
    VcsError,
> {
    match k {
        VcsKind::Git => match output {
            Some(s) => Ok(spec_trim(s)),
            None => Err(VcsError::NoDescribeOutput(VcsKind::Git)),
        },
        VcsKind::Jj => match output {
            Some(s) => spec_describe_from_jj_log(spec_trim(s)),
            None => Err(VcsError::NoDescribeOutput(VcsKind::Jj)),
        },
        VcsKind::Mercurial => Err(VcsError::Unsupported),
    }
}

/// Reads the describe query's output for a VCS.
pub fn describe_from_output(kind: VcsKind, output: Option<&String>) -> (r: Result<
    String,
    VcsError,
>)
    ensures
        match r {
            Ok(s) => spec_describe_from_output(kind, deep_view_of_opt(output)) == Ok::<
                Seq<char>,
                VcsError,
            >(s@),
            Err(e) => spec_describe_from_output(kind, deep_view_of_opt(output)) == Err::<
                Seq<char>,
                VcsError,
            >(e),
        },
{
    match kind {
        VcsKind::Git => match output {
            Some(s) => Ok(trim(s.as_str())),
            None => Err(VcsError::NoDescribeOutput(VcsKind::Git)),
        },
        VcsKind::Jj => match output {
            Some(s) => {
                let trimmed = trim(s.as_str());
                describe_from_jj_log(trimmed.as_str())
            },
            None => Err(VcsError::NoDescribeOutput(VcsKind::Jj)),
        },
        VcsKind::Mercurial => Err(VcsError::Unsupported),
    }
}

/// The view of an optional borrowed string.
pub open spec fn deep_view_of_opt(o: Option<&String>) -> Option<Seq<char>> {
    match o {
        Some(s) => Some(s@),
        None => None,
    }
}

/// The latest-commit hash query: `git rev-parse HEAD`, or the Jj log limited
/// to the newest commit that is not an empty, undescribed working copy.
pub open spec fn spec_latest_commit_hash_invocation(k: VcsKind) -> Result<
    InvocationModel,
    VcsError,
> {
    match k {
        VcsKind::Git => Ok(
            InvocationModel { program: "git"@, args: seq!["rev-parse"@, "HEAD"@] },
        ),
        VcsKind::Jj => Ok(
            InvocationModel {
                program: "jj"@,
                args: seq![
                    "--no-graph"@,
                    "--ignore-working-copy"@,
                    "--color=never"@,
                    "--revisions"@,
                    "::@ & ((~description(exact:\"\") & ~empty()) | merges())"@,
                    "--limit=1"@,
                    "--template"@,
                    "commit_id"@,
                ],
            },
        ),
        VcsKind::Mercurial => Err(VcsError::Unsupported),
    }
}

/// Plans the latest-commit hash query; Mercurial is unsupported.
pub fn latest_commit_hash_invocation(kind: VcsKind) -> (r: Result<ToolInvocation, VcsError>)
    ensures
        match r {
            Ok(inv) => spec_latest_commit_hash_invocation(kind) == Ok::<
                InvocationModel,
                VcsError,
            >(inv@),
            Err(e) => spec_latest_commit_hash_invocation(kind) == Err::<
                InvocationModel,
                VcsError,
            >(e),
        },
{
    match kind {
        VcsKind::Git => {
            let mut inv = ToolInvocation::new("git");
            inv.arg("rev-parse");
            inv.arg("HEAD");
            proof {
                assert(inv@.args =~= spec_latest_commit_hash_invocation(kind).unwrap().args);
            }
            Ok(inv)
        },
        VcsKind::Jj => {
            let mut inv = ToolInvocation::new("jj");
            inv.arg("--no-graph");
            inv.arg("--ignore-working-copy");
            inv.arg("--color=never");
            inv.arg("--revisions");
            inv.arg("::@ & ((~description(exact:\"\") & ~empty()) | merges())");
            inv.arg("--limit=1");
            inv.arg("--template");
            inv.arg("commit_id");
            proof {
                assert(inv@.args =~= spec_latest_commit_hash_invocation(kind).unwrap().args);
            }
            Ok(inv)
        },
        VcsKind::Mercurial => Err(VcsError::Unsupported),
    }
}

/// What the hash query's output means: the trimmed hash, or a failure when
/// there was no output.
pub open spec fn spec_latest_commit_hash_from_output(
    k: VcsKind,
    output: Option<Seq<char>>,
) -> Result<Seq<char>, VcsError> {
    match output {
        Some(s) => Ok(spec_trim(s)),
        None => Err(VcsError::NoHashOutput(k)),
    }
}

/// Reads the latest-commit hash out of the query's output.
pub fn latest_commit_hash_from_output(kind: VcsKind, output: Option<&String>) -> (r: Result<
    String,
    VcsError,
>)
    ensures
        match r {
            Ok(s) => spec_latest_commit_hash_from_output(kind, deep_view_of_opt(output)) == Ok::<
                Seq<char>,
                VcsError,
            >(s@),
            Err(e) => spec_latest_commit_hash_from_output(kind, deep_view_of_opt(output)) == Err::<
                Seq<char>,
                VcsError,
            >(e),
        },
{
    match output {
        Some(s) => Ok(trim(s.as_str())),
        None => Err(VcsError::NoHashOutput(kind)),
    }
}

/// The Jj root query: `jj root`.
pub open spec fn spec_jj_root_invocation() -> InvocationModel {
    InvocationModel { program: "jj"@, args: seq!["root"@] }
}

/// Plans the Jj root query.
pub fn jj_root_invocation() -> (r: ToolInvocation)
    ensures
        r@ == spec_jj_root_invocation(),
{
    let mut r = ToolInvocation::new("jj");
    r.arg("root");
    proof {
        assert(r@.args =~= spec_jj_root_invocation().args);
    }
    r
}

/// The Git root query: `git rev-parse --show-toplevel`.
pub open spec fn spec_git_toplevel_invocation() -> InvocationModel {
    InvocationModel { program: "git"@, args: seq!["rev-parse"@, "--show-toplevel"@] }
}

/// Plans the Git toplevel query.
pub fn git_toplevel_invocation() -> (r: ToolInvocation)
    ensures
        r@ == spec_git_toplevel_invocation(),
{
    let mut r = ToolInvocation::new("git");
    r.arg("rev-parse");
    r.arg("--show-toplevel");
    proof {
        assert(r@.args =~= spec_git_toplevel_invocation().args);
    }
    r
}

/// Law: with no VCS root answers and no Mercurial marker anywhere on the
/// ancestor walk, VCS detection finds nothing.
pub proof fn lemma_no_markers_no_vcs(p: VcsProbesModel)
    requires
        p.jj_root is None,
        p.git_toplevel is None,
        forall|j: int| 0 <= j < p.ancestors.len() ==> !p.ancestors[j].has_hg,
    ensures
        spec_detect_vcs(p) is None,
{
    lemma_mercurial_scan_miss(p.ancestors);
}

/// Law (colocated repositories): whenever the Jj root query answered, the
/// detected VCS is Jj — never Git, whatever the Git query said.
pub proof fn lemma_jj_wins_over_git(p: VcsProbesModel)
    requires
        p.jj_root is Some,
    ensures
        spec_detect_vcs(p) == Some((VcsKind::Jj, spec_trim(p.jj_root.unwrap()))),
        !(spec_detect_vcs(p) matches Some(found) && found.0 == VcsKind::Git),
{
}

} // verus!
