//! Semantic versions as plain values, verified bump arithmetic, and the plans
//! that decide between local arithmetic and delegation to the native bump
//! tool of each ecosystem.

use vstd::prelude::*;

use crate::command::{InvocationModel, ToolInvocation};
use crate::ecosystem::Ecosystem;
use crate::text::{
    lemma_decimal_starts_with_digit, prefix_v, spec_decimal, spec_prefix_v, spec_strip_v,
    strip_v_prefix, u64_to_string,
};

verus! {

/// The mathematical shape of a semantic version.
pub ghost struct VersionModel {
    pub major: nat,
    pub minor: nat,
    pub patch: nat,
    pub pre: Seq<char>,
    pub build: Seq<char>,
}

/// A semantic version: three numeric components, an optional prerelease label
/// and optional build metadata, both empty when absent.
#[derive(Debug, Clone)]
pub struct Version {
    pub major: u64,
    pub minor: u64,
    pub patch: u64,
    pub pre: String,
    pub build: String,
}

impl View for Version {
    type V = VersionModel;

    open spec fn view(&self) -> VersionModel {
        VersionModel {
            major: self.major as nat,
            minor: self.minor as nat,
            patch: self.patch as nat,
            pre: self.pre@,
            build: self.build@,
        }
    }
}

/// What `semver::Version::parse` makes of a text: the parsed components when
/// the text is a valid semantic version (three dot-separated numeric
/// components with optional prerelease and build suffixes), `None` otherwise.
/// A pure function of the text alone, known only through `parse_semver`.
pub uninterp spec fn semver_parsed(text: Seq<char>) -> Option<VersionModel>;

/// Relies on `semver::Version::parse`: returns the parsed version exactly
/// when the input is a valid semantic version, and an error otherwise, as a
/// pure function of the input text.
#[verifier::external_body]
fn parse_semver(text: &str) -> (r: Option<Version>)
    ensures
        match r {
            Some(v) => semver_parsed(text@) == Some(v@),
            None => semver_parsed(text@) is None,
        },
{
    match semver::Version::parse(text) {
        Ok(v) => Some(
            Version {
                major: v.major,
                minor: v.minor,
                patch: v.patch,
                pre: v.pre.as_str().to_owned(),
                build: v.build.as_str().to_owned(),
            },
        ),
        Err(_) => None,
    }
}

/// The rendering of a version: `major.minor.patch`, then `-pre` when a
/// prerelease label is present, then `+build` when build metadata is present.
pub open spec fn spec_render(v: VersionModel) -> Seq<char> {
    spec_decimal(v.major) + seq!['.'] + spec_decimal(v.minor) + seq!['.'] + spec_decimal(v.patch) + (
    if v.pre.len() > 0 {
        seq!['-'] + v.pre
    } else {
        Seq::<char>::empty()
    }) + (if v.build.len() > 0 {
        seq!['+'] + v.build
    } else {
        Seq::<char>::empty()
    })
}

/// A version after a dev bump: the patch component one higher, the prerelease
/// label the literal `dev`, the rest unchanged.
pub open spec fn spec_dev_bump(v: VersionModel) -> VersionModel {
    VersionModel { patch: v.patch + 1, pre: "dev"@, ..v }
}

/// A version with its prerelease label removed and everything else unchanged.
pub open spec fn spec_remove_prerelease(v: VersionModel) -> VersionModel {
    VersionModel { pre: Seq::<char>::empty(), ..v }
}

impl Version {
    /// Parses a version text that may carry one optional leading `v`, the
    /// form every user-supplied version goes through before any file is
    /// touched. `None` exactly when the remainder is not a valid semantic
    /// version.
    pub fn parse_input(text: &str) -> (r: Option<Version>)
        ensures
            match r {
                Some(v) => semver_parsed(spec_strip_v(text@)) == Some(v@),
                None => semver_parsed(spec_strip_v(text@)) is None,
            },
    {
        let stripped = strip_v_prefix(text);
        parse_semver(stripped.as_str())
    }

    /// Parses a bare semantic version text; `None` exactly when the text is
    /// not a valid semantic version.
    pub fn parse_str(text: &str) -> (r: Option<Version>)
        ensures
            match r {
                Some(v) => semver_parsed(text@) == Some(v@),
                None => semver_parsed(text@) is None,
            },
    {
        parse_semver(text)
    }

    /// Renders the version without any `v` prefix.
    pub fn render(&self) -> (r: String)
        ensures
            r@ == spec_render(self@),
    {
        let mut r = u64_to_string(self.major);
        let dot = ".";
        proof {
            reveal_strlit(".");
            assert(dot@ =~= seq!['.']);
        }
        r.append(dot);
        let minor = u64_to_string(self.minor);
        r.append(minor.as_str());
        r.append(dot);
        let patch = u64_to_string(self.patch);
        r.append(patch.as_str());
        if self.pre.as_str().unicode_len() > 0 {
            let dash = "-";
            proof {
                reveal_strlit("-");
                assert(dash@ =~= seq!['-']);
            }
            r.append(dash);
            r.append(self.pre.as_str());
        }
        if self.build.as_str().unicode_len() > 0 {
            let plus = "+";
            proof {
                reveal_strlit("+");
                assert(plus@ =~= seq!['+']);
            }
            r.append(plus);
            r.append(self.build.as_str());
        }
        proof {
            assert(r@ =~= spec_render(self@));
        }
        r
    }

    /// Whether the version carries a prerelease label.
    pub fn has_prerelease(&self) -> (r: bool)
        ensures
            r == (self@.pre.len() > 0),
    {
        self.pre.as_str().unicode_len() > 0
    }
}

/// The dev bump: patch goes up by one and the prerelease label becomes the
/// literal `dev`, whatever label was there before.
pub fn dev_bump(version: Version) -> (r: Version)
    requires
        version@.patch < u64::MAX,
    ensures
        r@ == spec_dev_bump(version@),
{
    let dev = String::from_str("dev");
    Version { patch: version.patch + 1, pre: dev, ..version }
}

/// Removes the prerelease label, keeping the numeric components and build
/// metadata as they are.
pub fn remove_prerelease(version: Version) -> (r: Version)
    ensures
        r@ == spec_remove_prerelease(version@),
{
    Version { pre: String::new(), ..version }
}

/// How far a version bump reaches.
#[derive(Debug, Clone, Copy, PartialEq, Eq, Structural)]
pub enum VersionBumpMagnitude {
    Major,
    Minor,
    Patch,
    Dev,
}

/// The label of a bump magnitude, as the native bump tools take it.
pub open spec fn spec_magnitude_label(m: VersionBumpMagnitude) -> Seq<char> {
    match m {
        VersionBumpMagnitude::Major => "major"@,
        VersionBumpMagnitude::Minor => "minor"@,
        VersionBumpMagnitude::Patch => "patch"@,
        VersionBumpMagnitude::Dev => "dev"@,
    }
}

impl VersionBumpMagnitude {
    /// The name of the magnitude, as handed to the native bump tools.
    pub fn label(&self) -> (r: String)
        ensures
            r@ == spec_magnitude_label(*self),
    {
        match self {
            VersionBumpMagnitude::Major => String::from_str("major"),
            VersionBumpMagnitude::Minor => String::from_str("minor"),
            VersionBumpMagnitude::Patch => String::from_str("patch"),
            VersionBumpMagnitude::Dev => String::from_str("dev"),
        }
    }
}

/// How a bump is to be carried out: by setting a locally computed version, or
/// by delegating to the ecosystem's native bump tool, whose semantics are
/// authoritative for the plain magnitudes.
#[derive(Debug)]
pub enum BumpPlan {
    SetExact(Version),
    Delegate,
}

/// The mathematical shape of a bump plan.
pub ghost enum BumpPlanModel {
    SetExact(VersionModel),
    Delegate,
}

impl View for BumpPlan {
    type V = BumpPlanModel;

    open spec fn view(&self) -> BumpPlanModel {
        match self {
            BumpPlan::SetExact(v) => BumpPlanModel::SetExact(v@),
            BumpPlan::Delegate => BumpPlanModel::Delegate,
        }
    }
}

/// The bump plan under the JavaScript ecosystem: a dev bump is computed
/// locally, since the native tool has no dev concept; everything else is
/// delegated to `npm version`, whose semantics (prerelease stripping
/// included) are authoritative.
pub open spec fn spec_npm_bump_plan(
    magnitude: VersionBumpMagnitude,
    current: VersionModel,
) -> BumpPlanModel {
    if magnitude == VersionBumpMagnitude::Dev {
        BumpPlanModel::SetExact(spec_dev_bump(current))
    } else {
        BumpPlanModel::Delegate
    }
}

/// The bump plan under the Rust ecosystem: a dev bump is computed locally; a
/// patch bump of a version that carries a prerelease label strips the label
/// and keeps the numeric components, mirroring the JavaScript tool's native
/// behaviour, which the Rust bump tool lacks; everything else is delegated.
pub open spec fn spec_cargo_bump_plan(
    magnitude: VersionBumpMagnitude,
    current: VersionModel,
) -> BumpPlanModel {
    if magnitude == VersionBumpMagnitude::Dev {
        BumpPlanModel::SetExact(spec_dev_bump(current))
    } else if magnitude == VersionBumpMagnitude::Patch && current.pre.len() > 0 {
        BumpPlanModel::SetExact(spec_remove_prerelease(current))
    } else {
        BumpPlanModel::Delegate
    }
}

/// The bump plan for a current version under an ecosystem.
pub open spec fn spec_bump_plan(
    eco: Ecosystem,
    magnitude: VersionBumpMagnitude,
    current: VersionModel,
) -> BumpPlanModel {
    match eco {
        Ecosystem::JavaScript => spec_npm_bump_plan(magnitude, current),
        Ecosystem::Rust => spec_cargo_bump_plan(magnitude, current),
    }
}

/// Decides how to bump `current` by `magnitude` under `eco`: locally computed
/// dev bumps and the Rust patch-on-prerelease quirk yield an exact version to
/// set; every other bump is delegated to the ecosystem's native tool.
pub fn bump_plan(eco: Ecosystem, magnitude: VersionBumpMagnitude, current: Version) -> (r:
    BumpPlan)
    requires
        magnitude == VersionBumpMagnitude::Dev ==> current@.patch < u64::MAX,
    ensures
        r@ == spec_bump_plan(eco, magnitude, current@),
{
    match eco {
        Ecosystem::JavaScript => {
            if magnitude == VersionBumpMagnitude::Dev {
                BumpPlan::SetExact(dev_bump(current))
            } else {
                BumpPlan::Delegate
            }
        },
        Ecosystem::Rust => {
            if magnitude == VersionBumpMagnitude::Dev {
                BumpPlan::SetExact(dev_bump(current))
            } else if magnitude == VersionBumpMagnitude::Patch && current.has_prerelease() {
                BumpPlan::SetExact(remove_prerelease(current))
            } else {
                BumpPlan::Delegate
            }
        },
    }
}

/// The invocation that sets an exact version: the JavaScript tool's `version`
/// subcommand without git tagging, or the Rust bump helper's exact form.
pub open spec fn spec_set_version_invocation(eco: Ecosystem, v: VersionModel) -> InvocationModel {
    match eco {
        Ecosystem::JavaScript => InvocationModel {
            program: "npm"@,
            args: seq!["version"@, "--no-git-tag-version"@, spec_render(v)],
        },
        Ecosystem::Rust => InvocationModel {
            program: "cargo"@,
            args: seq!["bump"@, spec_render(v)],
        },
    }
}

/// Plans the invocation that sets `version` exactly under `eco`.
pub fn set_version_invocation(eco: Ecosystem, version: &Version) -> (r: ToolInvocation)
    ensures
        r@ == spec_set_version_invocation(eco, version@),
{
    let rendered = version.render();
    match eco {
        Ecosystem::JavaScript => {
            let mut r = ToolInvocation::new("npm");
            r.arg("version");
            r.arg("--no-git-tag-version");
            r.arg_string(rendered);
            proof {
                assert(r@.args =~= spec_set_version_invocation(eco, version@).args);
            }
            r
        },
        Ecosystem::Rust => {
            let mut r = ToolInvocation::new("cargo");
            r.arg("bump");
            r.arg_string(rendered);
            proof {
                assert(r@.args =~= spec_set_version_invocation(eco, version@).args);
            }
            r
        },
    }
}

/// The invocation that delegates a plain bump to the ecosystem's native tool.
pub open spec fn spec_delegate_bump_invocation(
    eco: Ecosystem,
    magnitude: VersionBumpMagnitude,
) -> InvocationModel {
    match eco {
        Ecosystem::JavaScript => InvocationModel {
            program: "npm"@,
            args: seq!["version"@, "--no-git-tag-version"@, spec_magnitude_label(magnitude)],
        },
        Ecosystem::Rust => InvocationModel {
            program: "cargo"@,
            args: seq!["bump"@, spec_magnitude_label(magnitude)],
        },
    }
}

/// Plans the invocation that hands a plain bump to the native tool.
pub fn delegate_bump_invocation(eco: Ecosystem, magnitude: VersionBumpMagnitude) -> (r:
    ToolInvocation)
    ensures
        r@ == spec_delegate_bump_invocation(eco, magnitude),
{
    let label = magnitude.label();
    match eco {
        Ecosystem::JavaScript => {
            let mut r = ToolInvocation::new("npm");
            r.arg("version");
            r.arg("--no-git-tag-version");
            r.arg_string(label);
            proof {
                assert(r@.args =~= spec_delegate_bump_invocation(eco, magnitude).args);
            }
            r
        },
        Ecosystem::Rust => {
            let mut r = ToolInvocation::new("cargo");
            r.arg("bump");
            r.arg_string(label);
            proof {
                assert(r@.args =~= spec_delegate_bump_invocation(eco, magnitude).args);
            }
            r
        },
    }
}

/// The version as printed: bare, or under the presentation prefix `v`.
pub open spec fn spec_display_version(version: Seq<char>, no_prefix: bool) -> Seq<char> {
    if no_prefix {
        version
    } else {
        spec_prefix_v(version)
    }
}

/// Formats a version for printing: the optional `v` prefix is added only
/// here, at the presentation boundary.
pub fn display_version(version: &str, no_prefix: bool) -> (r: String)
    ensures
        r@ == spec_display_version(version@, no_prefix),
{
    if no_prefix {
        version.to_owned()
    } else {
        prefix_v(version)
    }
}

/// The commit summary of a set operation.
pub open spec fn spec_set_summary(v: VersionModel) -> Seq<char> {
    "Set version to: `v"@ + spec_render(v) + "`"@
}

/// Builds the commit summary for setting `version` exactly.
pub fn set_summary(version: &Version) -> (r: String)
    ensures
        r@ == spec_set_summary(version@),
{
    let mut r = String::from_str("Set version to: `v");
    let rendered = version.render();
    r.append(rendered.as_str());
    r.append("`");
    r
}

/// The commit summary of a bump operation, over the version text read back
/// after the bump.
pub open spec fn spec_bump_summary(m: VersionBumpMagnitude, new_version: Seq<char>) -> Seq<char> {
    "Bump to next "@ + spec_magnitude_label(m) + " version: `v"@ + new_version + "`"@
}

/// Builds the commit summary for a bump, from the version read back after it.
pub fn bump_summary(magnitude: VersionBumpMagnitude, new_version: &str) -> (r: String)
    ensures
        r@ == spec_bump_summary(magnitude, new_version@),
{
    let mut r = String::from_str("Bump to next ");
    let label = magnitude.label();
    r.append(label.as_str());
    r.append(" version: `v");
    r.append(new_version);
    r.append("`");
    r
}

/// Law: a rendered version opens with a decimal digit, never with the
/// presentation prefix, so a set-then-get round trip is exact: displaying
/// with the prefix then stripping it reads back the rendered text unchanged,
/// and stripping the bare rendering changes nothing.
pub proof fn lemma_version_display_round_trip(v: VersionModel)
    ensures
        spec_strip_v(spec_render(v)) == spec_render(v),
        spec_strip_v(spec_display_version(spec_render(v), false)) == spec_render(v),
        spec_display_version(spec_render(v), true) == spec_render(v),
{
    lemma_decimal_starts_with_digit(v.major);
    assert(spec_render(v)[0] == spec_decimal(v.major)[0]);
    assert(spec_strip_v(spec_render(v)) == spec_render(v));
    assert(spec_prefix_v(spec_render(v))[0] == 'v');
    assert(spec_prefix_v(spec_render(v)).subrange(
        1,
        spec_prefix_v(spec_render(v)).len() as int,
    ) =~= spec_render(v));
}

/// Law: a dev bump always advances the patch component and pins the
/// prerelease label to `dev`; a second dev bump advances the patch again
/// rather than treating an existing `dev` label as settled.
pub proof fn lemma_dev_bump_never_settles(v: VersionModel)
    ensures
        spec_dev_bump(v).patch == v.patch + 1,
        spec_dev_bump(v).pre == "dev"@,
        spec_dev_bump(v).major == v.major,
        spec_dev_bump(v).minor == v.minor,
        spec_dev_bump(spec_dev_bump(v)).patch == v.patch + 2,
        spec_dev_bump(spec_dev_bump(v)).pre == "dev"@,
{
}

/// Law: under the Rust ecosystem, a patch bump of a version that carries a
/// prerelease label is planned as setting exactly the label-stripped
/// version: every numeric component is unchanged, the patch does not
/// advance, and nothing is delegated.
pub proof fn lemma_rust_patch_bump_on_prerelease(v: VersionModel)
    requires
        v.pre.len() > 0,
    ensures
        spec_bump_plan(Ecosystem::Rust, VersionBumpMagnitude::Patch, v)
            == BumpPlanModel::SetExact(spec_remove_prerelease(v)),
        spec_remove_prerelease(v).major == v.major,
        spec_remove_prerelease(v).minor == v.minor,
        spec_remove_prerelease(v).patch == v.patch,
        spec_remove_prerelease(v).pre.len() == 0,
{
}

/// A version text the user supplied that does not parse as a semantic
/// version, after the optional `v` prefix is stripped.
#[derive(Debug, Clone, Copy, PartialEq, Eq, Structural)]
pub enum VersionInputError {
    Invalid,
}

/// The message of a rejected version input.
pub open spec fn spec_version_input_error_message(e: VersionInputError) -> Seq<char> {
    "Invalid version specified"@
}

impl VersionInputError {
    /// The user-facing message for this error.
    pub fn message(&self) -> (r: String)
        ensures
            r@ == spec_version_input_error_message(*self),
    {
        String::from_str("Invalid version specified")
    }
}

/// Plans a whole set operation from the user's version text: the parsed
/// version, the invocation that sets it under the ecosystem, and the commit
/// summary. Invalid input is rejected before anything would be touched.
pub fn set_version_plan(eco: Ecosystem, input: &str) -> (r: Result<
    (Version, ToolInvocation, String),
    VersionInputError,
>)
    ensures
        match r {
            Ok(planned) => {
                &&& semver_parsed(spec_strip_v(input@)) == Some(planned.0@)
                &&& planned.1@ == spec_set_version_invocation(eco, planned.0@)
                &&& planned.2@ == spec_set_summary(planned.0@)
            },
            Err(e) => semver_parsed(spec_strip_v(input@)) is None && e
                == VersionInputError::Invalid,
        },
{
    match Version::parse_input(input) {
        Some(version) => {
            let invocation = set_version_invocation(eco, &version);
            let summary = set_summary(&version);
            Ok((version, invocation, summary))
        },
        None => Err(VersionInputError::Invalid),
    }
}

/// The invocation a bump runs: the exact set when the plan computes the next
/// version locally, and the native tool's bump otherwise.
pub open spec fn spec_bump_invocation(
    eco: Ecosystem,
    magnitude: VersionBumpMagnitude,
    current: VersionModel,
) -> InvocationModel {
    match spec_bump_plan(eco, magnitude, current) {
        BumpPlanModel::SetExact(next) => spec_set_version_invocation(eco, next),
        BumpPlanModel::Delegate => spec_delegate_bump_invocation(eco, magnitude),
    }
}

/// Plans the single invocation that carries out a bump of `current`.
pub fn bump_invocation(eco: Ecosystem, magnitude: VersionBumpMagnitude, current: Version) -> (r:
    ToolInvocation)
    requires
        magnitude == VersionBumpMagnitude::Dev ==> current@.patch < u64::MAX,
    ensures
        r@ == spec_bump_invocation(eco, magnitude, current@),
{
    match bump_plan(eco, magnitude, current) {
        BumpPlan::SetExact(next) => set_version_invocation(eco, &next),
        BumpPlan::Delegate => delegate_bump_invocation(eco, magnitude),
    }
}

} // verus!
