//! Workspace-root detection: the VCS root when there is one, then the Rust
//! package tool's workspace metadata, then a litmus-file walk up the
//! ancestors. The caller runs the probes; the decisions are verified here.

use vstd::prelude::*;

use crate::command::{InvocationModel, ToolInvocation};
use crate::json::{json_string_field, json_string_field_of};
use crate::vcs::{auto_detect_preferred_vcs_and_repo_root, spec_detect_vcs, VcsProbes};

verus! {

/// One directory on the walk from the starting directory upward, and whether
/// it holds a JavaScript manifest or a Go module file.
pub struct LitmusAncestor {
    pub path: String,
    pub has_package_json: bool,
    pub has_go_mod: bool,
}

/// The mathematical shape of a litmus-file probe.
pub ghost struct LitmusAncestorModel {
    pub path: Seq<char>,
    pub has_package_json: bool,
    pub has_go_mod: bool,
}

impl View for LitmusAncestor {
    type V = LitmusAncestorModel;

    open spec fn view(&self) -> LitmusAncestorModel {
        LitmusAncestorModel {
            path: self.path@,
            has_package_json: self.has_package_json,
            has_go_mod: self.has_go_mod,
        }
    }
}

impl DeepView for LitmusAncestor {
    type V = LitmusAncestorModel;

    open spec fn deep_view(&self) -> LitmusAncestorModel {
        self@
    }
}

/// Everything probed for workspace detection: the VCS probes, the raw output
/// of the Rust package tool's metadata query when it exited cleanly, and the
/// litmus walk, closest directory first.
pub struct WorkspaceProbes {
    pub vcs: VcsProbes,
    pub cargo_metadata_output: Option<String>,
    pub litmus_ancestors: Vec<LitmusAncestor>,
}

/// The mathematical shape of the workspace probes.
pub ghost struct WorkspaceProbesModel {
    pub vcs: crate::vcs::VcsProbesModel,
    pub cargo_metadata_output: Option<Seq<char>>,
    pub litmus_ancestors: Seq<LitmusAncestorModel>,
}

impl View for WorkspaceProbes {
    type V = WorkspaceProbesModel;

    open spec fn view(&self) -> WorkspaceProbesModel {
        WorkspaceProbesModel {
            vcs: self.vcs@,
            cargo_metadata_output: self.cargo_metadata_output.deep_view(),
            litmus_ancestors: self.litmus_ancestors.deep_view(),
        }
    }
}

/// Whether a directory holds one of the litmus files.
pub open spec fn has_litmus(a: LitmusAncestorModel) -> bool {
    a.has_package_json || a.has_go_mod
}

/// The closest ancestor that holds a litmus file, if any.
pub open spec fn spec_litmus_scan(ancestors: Seq<LitmusAncestorModel>) -> Option<Seq<char>>
    decreases ancestors.len(),
{
    if ancestors.len() == 0 {
        None
    } else if has_litmus(ancestors[0]) {
        Some(ancestors[0].path)
    } else {
        spec_litmus_scan(ancestors.subrange(1, ancestors.len() as int))
    }
}

proof fn lemma_litmus_scan_hit(ancestors: Seq<LitmusAncestorModel>, i: int)
    requires
        0 <= i < ancestors.len(),
        has_litmus(ancestors[i]),
        forall|j: int| 0 <= j < i ==> !has_litmus(ancestors[j]),
    ensures
        spec_litmus_scan(ancestors) == Some(ancestors[i].path),
    decreases i,
{
    if i > 0 {
        lemma_litmus_scan_hit(ancestors.subrange(1, ancestors.len() as int), i - 1);
    }
}

proof fn lemma_litmus_scan_miss(ancestors: Seq<LitmusAncestorModel>)
    requires
        forall|j: int| 0 <= j < ancestors.len() ==> !has_litmus(ancestors[j]),
    ensures
        spec_litmus_scan(ancestors) is None,
    decreases ancestors.len(),
{
    if ancestors.len() > 0 {
        lemma_litmus_scan_miss(ancestors.subrange(1, ancestors.len() as int));
    }
}

/// The workspace-metadata fallback: what the Rust package tool's metadata
/// output yields, namely its top-level `workspace_root` string field.
pub open spec fn spec_cargo_workspace_root(output: Option<Seq<char>>) -> Option<Seq<char>> {
    match output {
        Some(out) => json_string_field_of(out, "workspace_root"@),
        None => None,
    }
}

/// The workspace root for a probe snapshot: the VCS root when one was
/// detected, else the root declared by the Rust package tool's metadata, else
/// the closest ancestor with a litmus file.
pub open spec fn spec_detect_workspace_root(p: WorkspaceProbesModel) -> Option<Seq<char>> {
    match spec_detect_vcs(p.vcs) {
        Some(found) => Some(found.1),
        None => match spec_cargo_workspace_root(p.cargo_metadata_output) {
            Some(root) => Some(root),
            None => spec_litmus_scan(p.litmus_ancestors),
        },
    }
}

/// Decides the workspace root from the probe snapshot, in priority order: a
/// VCS root is the strongest signal, the Rust package tool's declared
/// workspace root is next, and the litmus-file walk is the weakest fallback.
pub fn auto_detect_workspace_root(probes: &WorkspaceProbes) -> (r: Option<String>)
    ensures
        match r {
            Some(root) => spec_detect_workspace_root(probes@) == Some(root@),
            None => spec_detect_workspace_root(probes@) is None,
        },
{
    if let Some(found) = auto_detect_preferred_vcs_and_repo_root(&probes.vcs) {
        return Some(found.1);
    }
    if let Some(out) = &probes.cargo_metadata_output {
        if let Some(root) = json_string_field(out.as_str(), "workspace_root") {
            return Some(root);
        }
        proof {
            assert(spec_cargo_workspace_root(probes@.cargo_metadata_output) is None);
        }
    }
    let n = probes.litmus_ancestors.len();
    let mut i: usize = 0;
    while i < n
        invariant
            0 <= i <= n,
            n == probes.litmus_ancestors.len(),
            spec_detect_vcs(probes@.vcs) is None,
            spec_cargo_workspace_root(probes@.cargo_metadata_output) is None,
            forall|j: int| 0 <= j < i ==> !has_litmus(probes.litmus_ancestors.deep_view()[j]),
        decreases n - i,
    {
        if probes.litmus_ancestors[i].has_package_json || probes.litmus_ancestors[i].has_go_mod {
            proof {
                assert(probes.litmus_ancestors.deep_view()[i as int] == probes.litmus_ancestors@[i
                    as int]@);
                lemma_litmus_scan_hit(probes.litmus_ancestors.deep_view(), i as int);
            }
            return Some(probes.litmus_ancestors[i].path.clone());
        }
        i = i + 1;
    }
    proof {
        lemma_litmus_scan_miss(probes.litmus_ancestors.deep_view());
    }
    None
}

/// The Rust package tool's metadata query, run in and pointed at the probed
/// directory: `cargo -C <dir> metadata --format-version 1`.
pub open spec fn spec_cargo_metadata_invocation(dir: Seq<char>) -> InvocationModel {
    InvocationModel {
        program: "cargo"@,
        args: seq!["-C"@, dir, "metadata"@, "--format-version"@, "1"@],
    }
}

/// Plans the Rust package tool's metadata query for a directory.
pub fn cargo_metadata_invocation(dir: &str) -> (r: ToolInvocation)
    ensures
        r@ == spec_cargo_metadata_invocation(dir@),
{
    let mut r = ToolInvocation::new("cargo");
    r.arg("-C");
    r.arg(dir);
    r.arg("metadata");
    r.arg("--format-version");
    r.arg("1");
    proof {
        assert(r@.args =~= spec_cargo_metadata_invocation(dir@).args);
    }
    r
}

/// The fallback a root query may ask for when no workspace is found.
#[derive(Debug, Clone, Copy, PartialEq, Eq, Structural)]
pub enum RootFallback {
    /// Use the path itself when it is an existing directory, else its parent.
    ClosestDir,
}

/// What can go wrong resolving a workspace root.
#[derive(Debug, Clone, Copy, PartialEq, Eq, Structural)]
pub enum WorkspaceError {
    /// No workspace was found and no fallback was asked for.
    NoWorkspaceFound,
    /// The fallback needed the path's parent, and there is none.
    NoParentPath,
}

/// The message of a workspace error, as printed to the user.
pub open spec fn spec_workspace_error_message(e: WorkspaceError) -> Seq<char> {
    match e {
        WorkspaceError::NoWorkspaceFound => "No workspace found. Consider passing: `--fallback closest-dir`"@,
        WorkspaceError::NoParentPath => "Could not get parent path"@,
    }
}

impl WorkspaceError {
    /// The user-facing message for this error.
    pub fn message(&self) -> (r: String)
        ensures
            r@ == spec_workspace_error_message(*self),
    {
        match self {
            WorkspaceError::NoWorkspaceFound => String::from_str(
                "No workspace found. Consider passing: `--fallback closest-dir`",
            ),
            WorkspaceError::NoParentPath => String::from_str("Could not get parent path"),
        }
    }
}

/// Resolves the root to print: the detected root when there is one; else,
/// under the closest-dir fallback, the queried path itself when it is a
/// directory, else its parent; with no fallback, an error.
pub fn workspace_root_or_fallback(
    root: Option<String>,
    fallback: Option<RootFallback>,
    path: &String,
    path_is_dir: bool,
    parent: Option<&String>,
) -> (r: Result<String, WorkspaceError>)
    ensures
        r == (match root {
            Some(found) => Ok::<String, WorkspaceError>(found),
            None => match fallback {
                Some(RootFallback::ClosestDir) => {
                    if path_is_dir {
                        Ok::<String, WorkspaceError>(*path)
                    } else {
                        match parent {
                            Some(p) => Ok::<String, WorkspaceError>(*p),
                            None => Err::<String, WorkspaceError>(WorkspaceError::NoParentPath),
                        }
                    }
                },
                None => Err::<String, WorkspaceError>(WorkspaceError::NoWorkspaceFound),
            },
        }),
{
    match root {
        Some(found) => Ok(found),
        None => match fallback {
            Some(RootFallback::ClosestDir) => {
                if path_is_dir {
                    Ok(path.clone())
                } else {
                    match parent {
                        Some(p) => Ok(p.clone()),
                        None => Err(WorkspaceError::NoParentPath),
                    }
                }
            },
            None => Err(WorkspaceError::NoWorkspaceFound),
        },
    }
}

/// Law: a starting directory with no VCS markers, no workspace-metadata
/// answer and no litmus file anywhere on the walk has no VCS and no
/// workspace root: both detectors find nothing.
pub proof fn lemma_no_markers_no_roots(p: WorkspaceProbesModel)
    requires
        p.vcs.jj_root is None,
        p.vcs.git_toplevel is None,
        forall|j: int| 0 <= j < p.vcs.ancestors.len() ==> !p.vcs.ancestors[j].has_hg,
        spec_cargo_workspace_root(p.cargo_metadata_output) is None,
        forall|j: int| 0 <= j < p.litmus_ancestors.len() ==> !has_litmus(p.litmus_ancestors[j]),
    ensures
        spec_detect_vcs(p.vcs) is None,
        spec_detect_workspace_root(p) is None,
{
    crate::vcs::lemma_no_markers_no_vcs(p.vcs);
    lemma_litmus_scan_miss(p.litmus_ancestors);
}

} // verus!
