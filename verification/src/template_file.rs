//! Template files: where each boilerplate file lives, and the decisions that
//! surround writing one — whether an existing file may be overwritten, and
//! what follows the write. Writing, editing and revealing are I/O the caller
//! performs.

use vstd::prelude::*;

verus! {

/// The boilerplate files the tool can scaffold.
#[derive(Debug, Clone, Copy, PartialEq, Eq, Structural)]
pub enum TemplateKind {
    Ci,
    AutoPublishGithubRelease,
    Biome,
    Tsconfig,
    ReadmeCliHelp,
    Bunfig,
    RustToolchain,
}

/// The repository-relative path of each template file.
pub open spec fn spec_template_path(k: TemplateKind) -> Seq<char> {
    match k {
        TemplateKind::Ci => "./.github/workflows/CI.yaml"@,
        TemplateKind::AutoPublishGithubRelease => "./.github/workflows/publish-github-release.yaml"@,
        TemplateKind::Biome => "./biome.json"@,
        TemplateKind::Tsconfig => "./tsconfig.json"@,
        TemplateKind::ReadmeCliHelp => "./.config/readme-cli-help.json"@,
        TemplateKind::Bunfig => "./bunfig.toml"@,
        TemplateKind::RustToolchain => "./rust-toolchain.toml"@,
    }
}

impl TemplateKind {
    /// The repository-relative path the template is written to.
    pub fn path(&self) -> (r: String)
        ensures
            r@ == spec_template_path(*self),
    {
        match self {
            TemplateKind::Ci => String::from_str("./.github/workflows/CI.yaml"),
            TemplateKind::AutoPublishGithubRelease => String::from_str(
                "./.github/workflows/publish-github-release.yaml",
            ),
            TemplateKind::Biome => String::from_str("./biome.json"),
            TemplateKind::Tsconfig => String::from_str("./tsconfig.json"),
            TemplateKind::ReadmeCliHelp => String::from_str("./.config/readme-cli-help.json"),
            TemplateKind::Bunfig => String::from_str("./bunfig.toml"),
            TemplateKind::RustToolchain => String::from_str("./rust-toolchain.toml"),
        }
    }
}

/// What happens after a template file is written: open it for editing,
/// reveal it in the file manager, or nothing.
#[derive(Debug, Clone, Copy, PartialEq, Eq, Structural)]
pub enum TemplateFollowup {
    Edit,
    Reveal,
    Skip,
}

/// Creating a template file over an existing one is refused unless
/// overwriting was asked for.
#[derive(Debug, Clone, Copy, PartialEq, Eq, Structural)]
pub enum CreateError {
    AlreadyExists,
}

/// Whether a create may go ahead, and whether it overwrites: an existing file
/// is overwritten only under the overwrite flag, and refused otherwise; a
/// fresh file is simply written.
pub open spec fn spec_create_decision(file_exists: bool, overwrite: bool) -> Result<
    bool,
    CreateError,
> {
    if file_exists {
        if overwrite {
            Ok(true)
        } else {
            Err(CreateError::AlreadyExists)
        }
    } else {
        Ok(false)
    }
}

/// Decides whether the write may go ahead; `Ok(true)` means an existing file
/// is being overwritten, which the caller reports before writing.
pub fn create_decision(file_exists: bool, overwrite: bool) -> (r: Result<bool, CreateError>)
    ensures
        r == spec_create_decision(file_exists, overwrite),
{
    if file_exists {
        if overwrite {
            Ok(true)
        } else {
            Err(CreateError::AlreadyExists)
        }
    } else {
        Ok(false)
    }
}

/// The followup a create performs: the requested one, or editing when none
/// was named.
pub open spec fn spec_effective_followup(f: Option<TemplateFollowup>) -> TemplateFollowup {
    match f {
        Some(followup) => followup,
        None => TemplateFollowup::Edit,
    }
}

/// Resolves the followup of a create; the default is to open for editing.
pub fn effective_followup(f: Option<TemplateFollowup>) -> (r: TemplateFollowup)
    ensures
        r == spec_effective_followup(f),
{
    match f {
        Some(followup) => followup,
        None => TemplateFollowup::Edit,
    }
}

/// The notice printed when an existing file is overwritten under the flag.
pub open spec fn spec_overwrite_notice(path: Seq<char>) -> Seq<char> {
    "Overwriting file due to `--overwrite` flag: "@ + path
}

/// Builds the overwrite notice for a path.
pub fn overwrite_notice(path: &str) -> (r: String)
    ensures
        r@ == spec_overwrite_notice(path@),
{
    let mut r = String::from_str("Overwriting file due to `--overwrite` flag: ");
    r.append(path);
    r
}

/// The message of a refused create.
pub open spec fn spec_create_error_message(e: CreateError, path: Seq<char>) -> Seq<char> {
    "File already exists (pass `--overwrite` to overwrite): "@ + path
}

impl CreateError {
    /// The user-facing message for this error at a path.
    pub fn message(&self, path: &str) -> (r: String)
        ensures
            r@ == spec_create_error_message(*self, path@),
    {
        let mut r = String::from_str("File already exists (pass `--overwrite` to overwrite): ");
        r.append(path);
        r
    }
}

} // verus!
