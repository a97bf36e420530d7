//! The two ecosystems whose manifests carry a project version, and the
//! reader that infers the governing ecosystem by probing those manifests in a
//! fixed order.

use vstd::prelude::*;

use crate::command::{InvocationModel, ToolInvocation};
use crate::json::{json_string_field, json_string_field_of};
use crate::text::{spec_strip_v, strip_v_prefix};

verus! {

/// A language/package-manager family whose manifest holds the project
/// version.
#[derive(Debug, Clone, Copy, PartialEq, Eq, Structural)]
pub enum Ecosystem {
    JavaScript,
    Rust,
}

/// The label of an ecosystem, as commands print it.
pub open spec fn spec_ecosystem_label(e: Ecosystem) -> Seq<char> {
    match e {
        Ecosystem::JavaScript => "javascript"@,
        Ecosystem::Rust => "rust"@,
    }
}

impl Ecosystem {
    /// The user-facing name of the ecosystem.
    pub fn label(&self) -> (r: String)
        ensures
            r@ == spec_ecosystem_label(*self),
    {
        match self {
            Ecosystem::JavaScript => String::from_str("javascript"),
            Ecosystem::Rust => String::from_str("rust"),
        }
    }
}

/// The version that the JavaScript manifest text yields: its top-level
/// `version` string field with one optional leading `v` stripped.
pub open spec fn spec_npm_version_from_manifest(text: Seq<char>) -> Option<Seq<char>> {
    match json_string_field_of(text, "version"@) {
        Some(field) => Some(spec_strip_v(field)),
        None => None,
    }
}

/// Reads the `version` field out of JavaScript manifest text. A missing or
/// non-string field, like unparsable JSON, yields `None`; a present value has
/// one optional leading `v` stripped, so the result never keeps the prefix
/// that was on disk.
pub fn npm_version_from_manifest(text: &str) -> (r: Option<String>)
    ensures
        r.deep_view() == spec_npm_version_from_manifest(text@),
{
    match json_string_field(text, "version") {
        Some(field) => Some(strip_v_prefix(field.as_str())),
        None => None,
    }
}

/// One package as the Rust package tool's metadata reports it: its name and
/// its version text.
pub struct PackageInfo {
    pub name: String,
    pub version: String,
}

/// The mathematical shape of a package entry.
pub ghost struct PackageInfoModel {
    pub name: Seq<char>,
    pub version: Seq<char>,
}

impl View for PackageInfo {
    type V = PackageInfoModel;

    open spec fn view(&self) -> PackageInfoModel {
        PackageInfoModel { name: self.name@, version: self.version@ }
    }
}

impl DeepView for PackageInfo {
    type V = PackageInfoModel;

    open spec fn deep_view(&self) -> PackageInfoModel {
        self@
    }
}

/// What the Rust package tool's metadata holds that version reading needs:
/// the root package if the workspace has one, the default workspace members,
/// and all workspace members, each in the tool's order.
pub struct CargoMetadataSummary {
    pub root_package: Option<PackageInfo>,
    pub workspace_default_packages: Vec<PackageInfo>,
    pub workspace_packages: Vec<PackageInfo>,
}

/// The mathematical shape of the metadata summary.
pub ghost struct CargoMetadataSummaryModel {
    pub root_package: Option<PackageInfoModel>,
    pub workspace_default_packages: Seq<PackageInfoModel>,
    pub workspace_packages: Seq<PackageInfoModel>,
}

impl View for CargoMetadataSummary {
    type V = CargoMetadataSummaryModel;

    open spec fn view(&self) -> CargoMetadataSummaryModel {
        CargoMetadataSummaryModel {
            root_package: self.root_package.deep_view(),
            workspace_default_packages: self.workspace_default_packages.deep_view(),
            workspace_packages: self.workspace_packages.deep_view(),
        }
    }
}

/// Where a Rust version reading came from, for the diagnostic that reports a
/// fallback: the root package needs none; a workspace member is reported with
/// its name and whether it was the sole member or merely the first.
#[derive(Debug)]
pub enum CargoVersionSource {
    RootPackage,
    WorkspaceDefaultPackage { sole: bool, name: String },
    WorkspacePackage { sole: bool, name: String },
}

/// The mathematical shape of a version source.
pub ghost enum CargoVersionSourceModel {
    RootPackage,
    WorkspaceDefaultPackage { sole: bool, name: Seq<char> },
    WorkspacePackage { sole: bool, name: Seq<char> },
}

impl View for CargoVersionSource {
    type V = CargoVersionSourceModel;

    open spec fn view(&self) -> CargoVersionSourceModel {
        match self {
            CargoVersionSource::RootPackage => CargoVersionSourceModel::RootPackage,
            CargoVersionSource::WorkspaceDefaultPackage { sole, name } => {
                CargoVersionSourceModel::WorkspaceDefaultPackage { sole: *sole, name: name@ }
            },
            CargoVersionSource::WorkspacePackage { sole, name } => {
                CargoVersionSourceModel::WorkspacePackage { sole: *sole, name: name@ }
            },
        }
    }
}

/// The Rust version reading for a metadata summary: the root package's
/// version when there is one; else the first default workspace member's,
/// else the first workspace member's, each with its source for the
/// diagnostic; `None` for an empty workspace.
pub open spec fn spec_cargo_version(m: CargoMetadataSummaryModel) -> Option<
    (Seq<char>, CargoVersionSourceModel),
> {
    match m.root_package {
        Some(p) => Some((p.version, CargoVersionSourceModel::RootPackage)),
        None => {
            if m.workspace_default_packages.len() > 0 {
                Some(
                    (
                        m.workspace_default_packages[0].version,
                        CargoVersionSourceModel::WorkspaceDefaultPackage {
                            sole: m.workspace_default_packages.len() == 1,
                            name: m.workspace_default_packages[0].name,
                        },
                    ),
                )
            } else if m.workspace_packages.len() > 0 {
                Some(
                    (
                        m.workspace_packages[0].version,
                        CargoVersionSourceModel::WorkspacePackage {
                            sole: m.workspace_packages.len() == 1,
                            name: m.workspace_packages[0].name,
                        },
                    ),
                )
            } else {
                None
            }
        },
    }
}

/// Reads the project version out of the Rust package tool's metadata,
/// falling back from the root package to the first default workspace member,
/// then the first workspace member of any kind.
pub fn cargo_version_from_summary(m: &CargoMetadataSummary) -> (r: Option<
    (String, CargoVersionSource),
>)
    ensures
        match r {
            Some(found) => spec_cargo_version(m@) == Some((found.0@, found.1@)),
            None => spec_cargo_version(m@) is None,
        },
{
    match &m.root_package {
        Some(p) => Some((p.version.clone(), CargoVersionSource::RootPackage)),
        None => {
            if m.workspace_default_packages.len() > 0 {
                let p = &m.workspace_default_packages[0];
                proof {
                    assert(m.workspace_default_packages.deep_view()[0]
                        == m.workspace_default_packages@[0]@);
                }
                Some(
                    (
                        p.version.clone(),
                        CargoVersionSource::WorkspaceDefaultPackage {
                            sole: m.workspace_default_packages.len() == 1,
                            name: p.name.clone(),
                        },
                    ),
                )
            } else if m.workspace_packages.len() > 0 {
                let p = &m.workspace_packages[0];
                proof {
                    assert(m.workspace_packages.deep_view()[0] == m.workspace_packages@[0]@);
                }
                Some(
                    (
                        p.version.clone(),
                        CargoVersionSource::WorkspacePackage {
                            sole: m.workspace_packages.len() == 1,
                            name: p.name.clone(),
                        },
                    ),
                )
            } else {
                None
            }
        },
    }
}

/// The diagnostic that reports a version-reading fallback, or nothing when
/// the root package answered.
pub open spec fn spec_fallback_notice(s: CargoVersionSourceModel) -> Option<Seq<char>> {
    match s {
        CargoVersionSourceModel::RootPackage => None,
        CargoVersionSourceModel::WorkspaceDefaultPackage { sole, name } => Some(
            "Getting the Rust package version from the "@ + (if sole {
                "sole"@
            } else {
                "first"@
            }) + " workspace default package: "@ + name,
        ),
        CargoVersionSourceModel::WorkspacePackage { sole, name } => Some(
            "Getting the Rust package version from the "@ + (if sole {
                "sole"@
            } else {
                "first"@
            }) + " workspace package: "@ + name,
        ),
    }
}

/// Builds the fallback diagnostic for a version source.
pub fn fallback_notice(s: &CargoVersionSource) -> (r: Option<String>)
    ensures
        r.deep_view() == spec_fallback_notice(s@),
{
    match s {
        CargoVersionSource::RootPackage => None,
        CargoVersionSource::WorkspaceDefaultPackage { sole, name } => {
            let mut r = String::from_str("Getting the Rust package version from the ");
            if *sole {
                r.append("sole");
            } else {
                r.append("first");
            }
            r.append(" workspace default package: ");
            r.append(name.as_str());
            Some(r)
        },
        CargoVersionSource::WorkspacePackage { sole, name } => {
            let mut r = String::from_str("Getting the Rust package version from the ");
            if *sole {
                r.append("sole");
            } else {
                r.append("first");
            }
            r.append(" workspace package: ");
            r.append(name.as_str());
            Some(r)
        },
    }
}

/// The ecosystem reading for one probe snapshot: the JavaScript manifest is
/// tried first, then the Rust metadata, each skipped when an explicit
/// override names the other ecosystem; the first probe that yields a version
/// wins.
pub open spec fn spec_detect_ecosystem(
    ecosystem_override: Option<Ecosystem>,
    manifest_text: Option<Seq<char>>,
    cargo: Option<CargoMetadataSummaryModel>,
) -> Option<(Ecosystem, Seq<char>)> {
    let js = if ecosystem_override != Some(Ecosystem::Rust) {
        match manifest_text {
            Some(text) => spec_npm_version_from_manifest(text),
            None => None,
        }
    } else {
        None
    };
    match js {
        Some(v) => Some((Ecosystem::JavaScript, v)),
        None => {
            if ecosystem_override != Some(Ecosystem::JavaScript) {
                match cargo {
                    Some(m) => match spec_cargo_version(m) {
                        Some(found) => Some((Ecosystem::Rust, found.0)),
                        None => None,
                    },
                    None => None,
                }
            } else {
                None
            }
        },
    }
}

/// The view of an optional borrowed metadata summary.
pub open spec fn summary_view_of_opt(o: Option<&CargoMetadataSummary>) -> Option<
    CargoMetadataSummaryModel,
> {
    match o {
        Some(m) => Some(m@),
        None => None,
    }
}

/// The view of an optional borrowed string.
pub open spec fn text_view_of_opt(o: Option<&String>) -> Option<Seq<char>> {
    match o {
        Some(s) => Some(s@),
        None => None,
    }
}

/// Detects the governing ecosystem by trying to read each ecosystem's
/// version, in the fixed order JavaScript then Rust, skipping any entry that
/// an explicit override rules out; the first successful reading names the
/// ecosystem and the version. `manifest_text` is the JavaScript manifest's
/// contents when one could be read; `cargo` is the Rust metadata summary
/// when the metadata query succeeded.
pub fn detect_ecosystem_by_getting_version(
    ecosystem_override: Option<Ecosystem>,
    manifest_text: Option<&String>,
    cargo: Option<&CargoMetadataSummary>,
) -> (r: Option<(Ecosystem, String)>)
    ensures
        match r {
            Some(found) => spec_detect_ecosystem(
                ecosystem_override,
                text_view_of_opt(manifest_text),
                summary_view_of_opt(cargo),
            ) == Some((found.0, found.1@)),
            None => spec_detect_ecosystem(
                ecosystem_override,
                text_view_of_opt(manifest_text),
                summary_view_of_opt(cargo),
            ) is None,
        },
{
    let skip_js = match ecosystem_override {
        Some(Ecosystem::Rust) => true,
        _ => false,
    };
    let skip_rust = match ecosystem_override {
        Some(Ecosystem::JavaScript) => true,
        _ => false,
    };
    if !skip_js {
        if let Some(text) = manifest_text {
            if let Some(version) = npm_version_from_manifest(text.as_str()) {
                return Some((Ecosystem::JavaScript, version));
            }
        }
    }
    if !skip_rust {
        if let Some(summary) = cargo {
            if let Some(found) = cargo_version_from_summary(summary) {
                return Some((Ecosystem::Rust, found.0));
            }
        }
    }
    None
}

/// The publish invocation of an ecosystem: its native tool's publish
/// subcommand.
pub open spec fn spec_publish_invocation(eco: Ecosystem) -> InvocationModel {
    match eco {
        Ecosystem::JavaScript => InvocationModel { program: "npm"@, args: seq!["publish"@] },
        Ecosystem::Rust => InvocationModel { program: "cargo"@, args: seq!["publish"@] },
    }
}

/// Plans the publish invocation for an ecosystem.
pub fn publish_invocation(eco: Ecosystem) -> (r: ToolInvocation)
    ensures
        r@ == spec_publish_invocation(eco),
{
    match eco {
        Ecosystem::JavaScript => {
            let mut r = ToolInvocation::new("npm");
            r.arg("publish");
            proof {
                assert(r@.args =~= spec_publish_invocation(eco).args);
            }
            r
        },
        Ecosystem::Rust => {
            let mut r = ToolInvocation::new("cargo");
            r.arg("publish");
            proof {
                assert(r@.args =~= spec_publish_invocation(eco).args);
            }
            r
        },
    }
}

} // verus!
