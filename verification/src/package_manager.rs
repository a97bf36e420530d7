//! Package-manager selection by lockfile litmus files, and the planned
//! install invocations for each manager.

use vstd::prelude::*;

use crate::command::{InvocationModel, ToolInvocation};
use crate::ecosystem::Ecosystem;

verus! {

/// A concrete package manager, subordinate to an ecosystem: the JavaScript
/// ecosystem maps to one of the first four, the Rust ecosystem only to Cargo.
#[derive(Debug, Clone, Copy, PartialEq, Eq, Structural)]
pub enum PackageManager {
    Npm,
    Bun,
    Yarn,
    Pnpm,
    Cargo,
}

/// The label of a package manager, as commands print it.
pub open spec fn spec_package_manager_label(pm: PackageManager) -> Seq<char> {
    match pm {
        PackageManager::Npm => "npm"@,
        PackageManager::Bun => "bun"@,
        PackageManager::Yarn => "yarn"@,
        PackageManager::Pnpm => "pnpm"@,
        PackageManager::Cargo => "cargo"@,
    }
}

/// Which litmus files are present in the probed directory.
#[derive(Debug, Clone, Copy, PartialEq, Eq, Structural)]
pub struct LockfileProbes {
    pub bun_lockb: bool,
    pub yarn_lock: bool,
    pub pnpm_lock_yaml: bool,
    pub package_json: bool,
    pub cargo_toml: bool,
}

/// The preferred package manager for an ecosystem, given the litmus files:
/// for JavaScript the lockfiles win over the bare manifest, in the order
/// Bun, then Yarn, then pnpm, then npm; for Rust the manifest decides.
pub open spec fn spec_preferred_package_manager(
    ecosystem: Ecosystem,
    probes: LockfileProbes,
) -> Option<PackageManager> {
    match ecosystem {
        Ecosystem::JavaScript => {
            if probes.bun_lockb {
                Some(PackageManager::Bun)
            } else if probes.yarn_lock {
                Some(PackageManager::Yarn)
            } else if probes.pnpm_lock_yaml {
                Some(PackageManager::Pnpm)
            } else if probes.package_json {
                Some(PackageManager::Npm)
            } else {
                None
            }
        },
        Ecosystem::Rust => {
            if probes.cargo_toml {
                Some(PackageManager::Cargo)
            } else {
                None
            }
        },
    }
}

impl PackageManager {
    /// The user-facing name of the package manager.
    pub fn label(&self) -> (r: String)
        ensures
            r@ == spec_package_manager_label(*self),
    {
        match self {
            PackageManager::Npm => String::from_str("npm"),
            PackageManager::Bun => String::from_str("bun"),
            PackageManager::Yarn => String::from_str("yarn"),
            PackageManager::Pnpm => String::from_str("pnpm"),
            PackageManager::Cargo => String::from_str("cargo"),
        }
    }

    /// Selects the package manager in use for an ecosystem by the presence of
    /// its litmus files, lockfiles first: a lockfile is a stronger signal of
    /// deliberate choice than the generic manifest.
    pub fn preferred_detected_package_manager_for_ecosystem(
        ecosystem: Ecosystem,
        probes: &LockfileProbes,
    ) -> (r: Option<PackageManager>)
        ensures
            r == spec_preferred_package_manager(ecosystem, *probes),
    {
        match ecosystem {
            Ecosystem::JavaScript => {
                if probes.bun_lockb {
                    Some(PackageManager::Bun)
                } else if probes.yarn_lock {
                    Some(PackageManager::Yarn)
                } else if probes.pnpm_lock_yaml {
                    Some(PackageManager::Pnpm)
                } else if probes.package_json {
                    Some(PackageManager::Npm)
                } else {
                    None
                }
            },
            Ecosystem::Rust => {
                if probes.cargo_toml {
                    Some(PackageManager::Cargo)
                } else {
                    None
                }
            },
        }
    }
}

/// The install invocation for a package manager. The JavaScript tool uses its
/// clean-install subcommand when its lockfile is present and plain install
/// otherwise; Rust dependencies are fetched by building the default target.
pub open spec fn spec_install_invocation(
    pm: PackageManager,
    package_lock_exists: bool,
) -> InvocationModel {
    match pm {
        PackageManager::Npm => InvocationModel {
            program: "npm"@,
            args: seq![if package_lock_exists {
                "ci"@
            } else {
                "install"@
            }],
        },
        PackageManager::Bun => InvocationModel {
            program: "bun"@,
            args: seq!["install"@, "--no-save"@],
        },
        PackageManager::Yarn => InvocationModel {
            program: "npx"@,
            args: seq!["yarn"@, "install"@, "--frozen-lockfile"@],
        },
        PackageManager::Pnpm => InvocationModel {
            program: "npx"@,
            args: seq!["pnpm"@, "install"@, "--frozen-lockfile"@],
        },
        PackageManager::Cargo => InvocationModel { program: "cargo"@, args: seq!["build"@] },
    }
}

/// Plans the dependency-install invocation for a package manager.
pub fn install_invocation(pm: PackageManager, package_lock_exists: bool) -> (r: ToolInvocation)
    ensures
        r@ == spec_install_invocation(pm, package_lock_exists),
{
    match pm {
        PackageManager::Npm => {
            let mut r = ToolInvocation::new("npm");
            if package_lock_exists {
                r.arg("ci");
            } else {
                r.arg("install");
            }
            proof {
                assert(r@.args =~= spec_install_invocation(pm, package_lock_exists).args);
            }
            r
        },
        PackageManager::Bun => {
            let mut r = ToolInvocation::new("bun");
            r.arg("install");
            r.arg("--no-save");
            proof {
                assert(r@.args =~= spec_install_invocation(pm, package_lock_exists).args);
            }
            r
        },
        PackageManager::Yarn => {
            let mut r = ToolInvocation::new("npx");
            r.arg("yarn");
            r.arg("install");
            r.arg("--frozen-lockfile");
            proof {
                assert(r@.args =~= spec_install_invocation(pm, package_lock_exists).args);
            }
            r
        },
        PackageManager::Pnpm => {
            let mut r = ToolInvocation::new("npx");
            r.arg("pnpm");
            r.arg("install");
            r.arg("--frozen-lockfile");
            proof {
                assert(r@.args =~= spec_install_invocation(pm, package_lock_exists).args);
            }
            r
        },
        PackageManager::Cargo => {
            let mut r = ToolInvocation::new("cargo");
            r.arg("build");
            proof {
                assert(r@.args =~= spec_install_invocation(pm, package_lock_exists).args);
            }
            r
        },
    }
}

impl DeepView for ToolInvocation {
    type V = InvocationModel;

    open spec fn deep_view(&self) -> InvocationModel {
        self@
    }
}

/// The installs that a dependency setup performs: the explicitly chosen
/// manager's install alone when one is named; otherwise one install per
/// ecosystem whose litmus files select a manager, JavaScript first.
pub open spec fn spec_setup_dependencies_plan(
    explicit: Option<PackageManager>,
    probes: LockfileProbes,
    package_lock_exists: bool,
) -> Seq<InvocationModel> {
    match explicit {
        Some(pm) => seq![spec_install_invocation(pm, package_lock_exists)],
        None => {
            let js = match spec_preferred_package_manager(Ecosystem::JavaScript, probes) {
                Some(pm) => seq![spec_install_invocation(pm, package_lock_exists)],
                None => Seq::<InvocationModel>::empty(),
            };
            let rust = match spec_preferred_package_manager(Ecosystem::Rust, probes) {
                Some(pm) => seq![spec_install_invocation(pm, package_lock_exists)],
                None => Seq::<InvocationModel>::empty(),
            };
            js + rust
        },
    }
}

/// Plans the installs for a dependency setup: the named manager when one was
/// given, else whatever the litmus files select, per ecosystem.
pub fn setup_dependencies_plan(
    explicit: Option<PackageManager>,
    probes: &LockfileProbes,
    package_lock_exists: bool,
) -> (r: Vec<ToolInvocation>)
    ensures
        r.deep_view() == spec_setup_dependencies_plan(explicit, *probes, package_lock_exists),
{
    let mut r: Vec<ToolInvocation> = Vec::new();
    match explicit {
        Some(pm) => {
            r.push(install_invocation(pm, package_lock_exists));
        },
        None => {
            if let Some(pm) = PackageManager::preferred_detected_package_manager_for_ecosystem(
                Ecosystem::JavaScript,
                probes,
            ) {
                r.push(install_invocation(pm, package_lock_exists));
            }
            if let Some(pm) = PackageManager::preferred_detected_package_manager_for_ecosystem(
                Ecosystem::Rust,
                probes,
            ) {
                r.push(install_invocation(pm, package_lock_exists));
            }
        },
    }
    proof {
        assert(r.deep_view() =~= spec_setup_dependencies_plan(
            explicit,
            *probes,
            package_lock_exists,
        ));
    }
    r
}

/// The probe for a `setup` target in the Makefile: `make -n setup`.
pub open spec fn spec_make_setup_probe_invocation() -> InvocationModel {
    InvocationModel { program: "make"@, args: seq!["-n"@, "setup"@] }
}

/// Plans the probe that asks whether `make setup` exists.
pub fn make_setup_probe_invocation() -> (r: ToolInvocation)
    ensures
        r@ == spec_make_setup_probe_invocation(),
{
    let mut r = ToolInvocation::new("make");
    r.arg("-n");
    r.arg("setup");
    proof {
        assert(r@.args =~= spec_make_setup_probe_invocation().args);
    }
    r
}

/// Running the repository's own setup target: `make setup`.
pub open spec fn spec_make_setup_invocation() -> InvocationModel {
    InvocationModel { program: "make"@, args: seq!["setup"@] }
}

/// Plans the `make setup` run.
pub fn make_setup_invocation() -> (r: ToolInvocation)
    ensures
        r@ == spec_make_setup_invocation(),
{
    let mut r = ToolInvocation::new("make");
    r.arg("setup");
    proof {
        assert(r@.args =~= spec_make_setup_invocation().args);
    }
    r
}

/// The whole setup plan: the repository's own `make setup` when the probe
/// found one, else the dependency installs that the litmus files select.
pub open spec fn spec_setup_plan(
    make_setup_exists: bool,
    explicit: Option<PackageManager>,
    probes: LockfileProbes,
    package_lock_exists: bool,
) -> Seq<InvocationModel> {
    if make_setup_exists {
        seq![spec_make_setup_invocation()]
    } else {
        spec_setup_dependencies_plan(explicit, probes, package_lock_exists)
    }
}

/// Plans a repository setup, preferring the repository's own `make setup`.
pub fn setup_plan(
    make_setup_exists: bool,
    explicit: Option<PackageManager>,
    probes: &LockfileProbes,
    package_lock_exists: bool,
) -> (r: Vec<ToolInvocation>)
    ensures
        r.deep_view() == spec_setup_plan(make_setup_exists, explicit, *probes, package_lock_exists),
{
    if make_setup_exists {
        let mut r: Vec<ToolInvocation> = Vec::new();
        r.push(make_setup_invocation());
        proof {
            assert(r.deep_view() =~= spec_setup_plan(
                make_setup_exists,
                explicit,
                *probes,
                package_lock_exists,
            ));
        }
        r
    } else {
        setup_dependencies_plan(explicit, probes, package_lock_exists)
    }
}

} // verus!
