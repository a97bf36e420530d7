//! Boilerplate setup around the template files: the development-dependency
//! installs each linting or config scaffold performs for the detected
//! JavaScript package manager, and the command prefix the user is told to
//! lint with afterwards.

use vstd::prelude::*;

use crate::command::{InvocationModel, ToolInvocation};
use crate::package_manager::PackageManager;

verus! {

/// Boilerplate that installs JavaScript development dependencies cannot
/// proceed without a JavaScript package manager.
#[derive(Debug, Clone, Copy, PartialEq, Eq, Structural)]
pub enum BoilerplateError {
    /// The package manager is not a JavaScript-family one.
    NotJavaScript,
}

/// The development-dependency install that the lint scaffold performs, per
/// JavaScript package manager.
pub open spec fn spec_biome_install_invocation(pm: PackageManager) -> Result<
    InvocationModel,
    BoilerplateError,
> {
    match pm {
        PackageManager::Npm => Ok(
            InvocationModel {
                program: "npm"@,
                args: seq!["install"@, "--save-dev"@, "@biomejs/biome"@, "@cubing/dev-config"@],
            },
        ),
        PackageManager::Bun => Ok(
            InvocationModel {
                program: "bun"@,
                args: seq!["add"@, "--development"@, "@biomejs/biome"@, "@cubing/dev-config"@],
            },
        ),
        PackageManager::Yarn => Ok(
            InvocationModel {
                program: "yarn"@,
                args: seq!["add"@, "--dev"@, "@biomejs/biome"@, "@cubing/dev-config"@],
            },
        ),
        PackageManager::Pnpm => Ok(
            InvocationModel {
                program: "pnpm"@,
                args: seq!["install"@, "--save-dev"@, "@biomejs/biome"@, "@cubing/dev-config"@],
            },
        ),
        PackageManager::Cargo => Err(BoilerplateError::NotJavaScript),
    }
}

/// The command prefix the user is told to lint with, per JavaScript package
/// manager.
pub open spec fn spec_biome_command_prefix(pm: PackageManager) -> Result<
    Seq<char>,
    BoilerplateError,
> {
    match pm {
        PackageManager::Npm => Ok("bun x @biomejs/biome"@),
        PackageManager::Bun => Ok("bun x @biomejs/biome"@),
        PackageManager::Yarn => Ok("npx yarn exec @biomejs/biome"@),
        PackageManager::Pnpm => Ok("npx pnpm exec biome"@),
        PackageManager::Cargo => Err(BoilerplateError::NotJavaScript),
    }
}

/// Plans the lint scaffold's development-dependency install and the lint
/// command prefix for a JavaScript package manager.
pub fn biome_install_invocation(pm: PackageManager) -> (r: Result<
    (ToolInvocation, String),
    BoilerplateError,
>)
    ensures
        match r {
            Ok(planned) => spec_biome_install_invocation(pm) == Ok::<
                InvocationModel,
                BoilerplateError,
            >(planned.0@) && spec_biome_command_prefix(pm) == Ok::<Seq<char>, BoilerplateError>(
                planned.1@,
            ),
            Err(e) => spec_biome_install_invocation(pm) == Err::<
                InvocationModel,
                BoilerplateError,
            >(e),
        },
{
    match pm {
        PackageManager::Npm => {
            let mut inv = ToolInvocation::new("npm");
            inv.arg("install");
            inv.arg("--save-dev");
            inv.arg("@biomejs/biome");
            inv.arg("@cubing/dev-config");
            proof {
                assert(inv@.args =~= spec_biome_install_invocation(pm).unwrap().args);
            }
            Ok((inv, String::from_str("bun x @biomejs/biome")))
        },
        PackageManager::Bun => {
            let mut inv = ToolInvocation::new("bun");
            inv.arg("add");
            inv.arg("--development");
            inv.arg("@biomejs/biome");
            inv.arg("@cubing/dev-config");
            proof {
                assert(inv@.args =~= spec_biome_install_invocation(pm).unwrap().args);
            }
            Ok((inv, String::from_str("bun x @biomejs/biome")))
        },
        PackageManager::Yarn => {
            let mut inv = ToolInvocation::new("yarn");
            inv.arg("add");
            inv.arg("--dev");
            inv.arg("@biomejs/biome");
            inv.arg("@cubing/dev-config");
            proof {
                assert(inv@.args =~= spec_biome_install_invocation(pm).unwrap().args);
            }
            Ok((inv, String::from_str("npx yarn exec @biomejs/biome")))
        },
        PackageManager::Pnpm => {
            let mut inv = ToolInvocation::new("pnpm");
            inv.arg("install");
            inv.arg("--save-dev");
            inv.arg("@biomejs/biome");
            inv.arg("@cubing/dev-config");
            proof {
                assert(inv@.args =~= spec_biome_install_invocation(pm).unwrap().args);
            }
            Ok((inv, String::from_str("npx pnpm exec biome")))
        },
        PackageManager::Cargo => Err(BoilerplateError::NotJavaScript),
    }
}

/// The development-dependency install that the TypeScript config scaffold
/// performs, per JavaScript package manager. The TypeScript compiler itself
/// is not installed: the config alone is what editors need.
pub open spec fn spec_tsconfig_install_invocation(pm: PackageManager) -> Result<
    InvocationModel,
    BoilerplateError,
> {
    match pm {
        PackageManager::Npm => Ok(
            InvocationModel {
                program: "npm"@,
                args: seq!["install"@, "--save-dev"@, "@cubing/dev-config"@],
            },
        ),
        PackageManager::Bun => Ok(
            InvocationModel {
                program: "bun"@,
                args: seq!["add"@, "--development"@, "@cubing/dev-config"@],
            },
        ),
        PackageManager::Yarn => Ok(
            InvocationModel { program: "yarn"@, args: seq!["add"@, "--dev"@, "@cubing/dev-config"@] },
        ),
        PackageManager::Pnpm => Ok(
            InvocationModel {
                program: "pnpm"@,
                args: seq!["install"@, "--save-dev"@, "@cubing/dev-config"@],
            },
        ),
        PackageManager::Cargo => Err(BoilerplateError::NotJavaScript),
    }
}

/// Plans the TypeScript config scaffold's development-dependency install.
pub fn tsconfig_install_invocation(pm: PackageManager) -> (r: Result<
    ToolInvocation,
    BoilerplateError,
>)
    ensures
        match r {
            Ok(inv) => spec_tsconfig_install_invocation(pm) == Ok::<
                InvocationModel,
                BoilerplateError,
            >(inv@),
            Err(e) => spec_tsconfig_install_invocation(pm) == Err::<
                InvocationModel,
                BoilerplateError,
            >(e),
        },
{
    match pm {
        PackageManager::Npm => {
            let mut inv = ToolInvocation::new("npm");
            inv.arg("install");
            inv.arg("--save-dev");
            inv.arg("@cubing/dev-config");
            proof {
                assert(inv@.args =~= spec_tsconfig_install_invocation(pm).unwrap().args);
            }
            Ok(inv)
        },
        PackageManager::Bun => {
            let mut inv = ToolInvocation::new("bun");
            inv.arg("add");
            inv.arg("--development");
            inv.arg("@cubing/dev-config");
            proof {
                assert(inv@.args =~= spec_tsconfig_install_invocation(pm).unwrap().args);
            }
            Ok(inv)
        },
        PackageManager::Yarn => {
            let mut inv = ToolInvocation::new("yarn");
            inv.arg("add");
            inv.arg("--dev");
            inv.arg("@cubing/dev-config");
            proof {
                assert(inv@.args =~= spec_tsconfig_install_invocation(pm).unwrap().args);
            }
            Ok(inv)
        },
        PackageManager::Pnpm => {
            let mut inv = ToolInvocation::new("pnpm");
            inv.arg("install");
            inv.arg("--save-dev");
            inv.arg("@cubing/dev-config");
            proof {
                assert(inv@.args =~= spec_tsconfig_install_invocation(pm).unwrap().args);
            }
            Ok(inv)
        },
        PackageManager::Cargo => Err(BoilerplateError::NotJavaScript),
    }
}

} // verus!
