use repo::config::{Config, ScriptEntry};
use repo::dependencies::{
    bun_roll_invocation, dependency_arg, npm_roll_invocation, npm_show_version_invocation,
    resolve_roll_package_manager, roll_targets, version_from_show_output, DependencyError,
    DependencyName, DependencyRecord, NpmDependencyType, PackageJSONSubset,
};
use repo::ecosystem::Ecosystem;
use repo::package_manager::{LockfileProbes, PackageManager};
use repo::template_file::{
    create_decision, effective_followup, overwrite_notice, CreateError, TemplateFollowup,
    TemplateKind,
};
use repo::boilerplate::{biome_install_invocation, tsconfig_install_invocation, BoilerplateError};

fn record(name: &str, requirement: &str) -> DependencyRecord {
    DependencyRecord { name: String::from(name), requirement: String::from(requirement) }
}

fn sample_manifest() -> PackageJSONSubset {
    PackageJSONSubset {
        dependencies: Some(vec![record("left-pad", "^1.0.0"), record("chalk", "^5.0.0")]),
        dev_dependencies: Some(vec![record("left-pad", "^1.0.0")]),
        peer_dependencies: None,
        optional_dependencies: Some(Vec::new()),
    }
}

#[test]
fn dependency_tables_are_read_exactly() {
    let manifest = sample_manifest();
    let name = DependencyName(String::from("left-pad"));
    assert!(manifest.has_dependency_of_type(&NpmDependencyType::Prod, &name));
    assert!(manifest.has_dependency_of_type(&NpmDependencyType::Dev, &name));
    assert!(!manifest.has_dependency_of_type(&NpmDependencyType::Peer, &name));
    assert!(!manifest.has_dependency_of_type(&NpmDependencyType::Optional, &name));
    let other = DependencyName(String::from("chalk"));
    assert!(manifest.has_dependency_of_type(&NpmDependencyType::Prod, &other));
    assert!(!manifest.has_dependency_of_type(&NpmDependencyType::Dev, &other));
}

#[test]
fn roll_targets_walk_tables_in_order() {
    let manifest = sample_manifest();
    let targets = roll_targets(&manifest, &DependencyName(String::from("left-pad")));
    assert_eq!(targets, vec![NpmDependencyType::Prod, NpmDependencyType::Dev]);
    let none = roll_targets(&manifest, &DependencyName(String::from("unknown")));
    assert!(none.is_empty());
}

#[test]
fn all_types_order_matches_the_walk() {
    assert_eq!(
        NpmDependencyType::all_types(),
        vec![
            NpmDependencyType::Prod,
            NpmDependencyType::Dev,
            NpmDependencyType::Peer,
            NpmDependencyType::Optional,
        ]
    );
    assert_eq!(NpmDependencyType::Prod.npm_install_arg(), "--save");
    assert_eq!(NpmDependencyType::Dev.npm_install_arg(), "--save-dev");
    assert_eq!(NpmDependencyType::Peer.npm_install_arg(), "--save-peer");
    assert_eq!(NpmDependencyType::Optional.npm_install_arg(), "--save-optional");
    assert_eq!(NpmDependencyType::Prod.bun_add_arg(), None);
    assert_eq!(NpmDependencyType::Dev.bun_add_arg().as_deref(), Some("--dev"));
    assert_eq!(NpmDependencyType::Peer.bun_add_arg().as_deref(), Some("--peer"));
    assert_eq!(NpmDependencyType::Optional.bun_add_arg().as_deref(), Some("--optional"));
}

#[test]
fn roll_invocations_and_summaries() {
    let name = DependencyName(String::from("left-pad"));
    let arg = dependency_arg(&name, "1.3.0");
    assert_eq!(arg, "left-pad@^1.3.0");

    let (inv, summary) = npm_roll_invocation(NpmDependencyType::Dev, &arg);
    assert_eq!(inv.program, "npm");
    assert_eq!(inv.args, vec!["install", "--save-dev", "--", "left-pad@^1.3.0"]);
    assert_eq!(summary, "npm install --save-dev -- 'left-pad@^1.3.0'");

    let (inv, summary) = bun_roll_invocation(NpmDependencyType::Prod, &arg);
    assert_eq!(inv.program, "bun");
    assert_eq!(inv.args, vec!["add", "--", "left-pad@^1.3.0"]);
    assert_eq!(summary, "bun add 'left-pad@^1.3.0'");

    let (inv, summary) = bun_roll_invocation(NpmDependencyType::Peer, &arg);
    assert_eq!(inv.args, vec!["add", "--peer", "--", "left-pad@^1.3.0"]);
    assert_eq!(summary, "bun add --peer 'left-pad@^1.3.0'");
}

#[test]
fn roll_summary_escapes_quotes() {
    let (_, summary) = npm_roll_invocation(NpmDependencyType::Prod, "odd'name@^1.0.0");
    assert_eq!(summary, "npm install --save -- 'odd\\'name@^1.0.0'");
}

#[test]
fn version_lookup_invocation_and_output() {
    let inv = npm_show_version_invocation(&DependencyName(String::from("left-pad")));
    assert_eq!(inv.program, "npm");
    assert_eq!(inv.args, vec!["show", "--", "left-pad", "version"]);
    let out = String::from("1.3.0\n");
    let v = version_from_show_output(Some(&out)).expect("a version");
    assert_eq!(v.render(), "1.3.0");
    assert!(version_from_show_output(None).is_none());
    let bad = String::from("no version here");
    assert!(version_from_show_output(Some(&bad)).is_none());
}

#[test]
fn roll_package_manager_resolution() {
    let probes = LockfileProbes {
        bun_lockb: false,
        yarn_lock: false,
        pnpm_lock_yaml: false,
        package_json: true,
        cargo_toml: false,
    };
    assert_eq!(
        resolve_roll_package_manager(Some(PackageManager::Bun), None, &probes),
        Ok(PackageManager::Bun)
    );
    assert_eq!(
        resolve_roll_package_manager(None, Some(Ecosystem::JavaScript), &probes),
        Ok(PackageManager::Npm)
    );
    assert_eq!(
        resolve_roll_package_manager(None, None, &probes),
        Err(DependencyError::NoEcosystem)
    );
    assert_eq!(
        resolve_roll_package_manager(None, Some(Ecosystem::Rust), &probes),
        Err(DependencyError::NoPackageManager)
    );
    assert_eq!(DependencyError::NoEcosystem.message(), "Could not detect ecosystem.");
    assert_eq!(
        DependencyError::NoPackageManager.message(),
        "Could not detect package manager."
    );
    assert_eq!(
        DependencyError::UnsupportedPackageManager(PackageManager::Yarn).message(),
        "Dependency rolling is not implemented for package manager: yarn"
    );
}

#[test]
fn config_scripts_are_looked_up_by_first_name() {
    let config = Config::get(vec![
        ScriptEntry {
            name: String::from("lint"),
            commands: vec![String::from("make lint")],
        },
        ScriptEntry {
            name: String::from("test"),
            commands: vec![String::from("make test"), String::from("make check")],
        },
        ScriptEntry {
            name: String::from("lint"),
            commands: vec![String::from("shadowed")],
        },
    ]);
    assert_eq!(
        config.script("lint"),
        Some(&vec![String::from("make lint")])
    );
    assert_eq!(
        config.script("test"),
        Some(&vec![String::from("make test"), String::from("make check")])
    );
    assert_eq!(config.script("absent"), None);
    let empty = Config::get(Vec::new());
    assert_eq!(empty.script("anything"), None);
}

#[test]
fn template_paths_are_fixed() {
    assert_eq!(TemplateKind::Ci.path(), "./.github/workflows/CI.yaml");
    assert_eq!(
        TemplateKind::AutoPublishGithubRelease.path(),
        "./.github/workflows/publish-github-release.yaml"
    );
    assert_eq!(TemplateKind::Biome.path(), "./biome.json");
    assert_eq!(TemplateKind::Tsconfig.path(), "./tsconfig.json");
    assert_eq!(TemplateKind::ReadmeCliHelp.path(), "./.config/readme-cli-help.json");
    assert_eq!(TemplateKind::Bunfig.path(), "./bunfig.toml");
    assert_eq!(TemplateKind::RustToolchain.path(), "./rust-toolchain.toml");
}

#[test]
fn create_decisions_and_followups() {
    assert_eq!(create_decision(false, false), Ok(false));
    assert_eq!(create_decision(false, true), Ok(false));
    assert_eq!(create_decision(true, true), Ok(true));
    assert_eq!(create_decision(true, false), Err(CreateError::AlreadyExists));
    assert_eq!(
        CreateError::AlreadyExists.message("./biome.json"),
        "File already exists (pass `--overwrite` to overwrite): ./biome.json"
    );
    assert_eq!(
        overwrite_notice("./biome.json"),
        "Overwriting file due to `--overwrite` flag: ./biome.json"
    );
    assert_eq!(effective_followup(None), TemplateFollowup::Edit);
    assert_eq!(effective_followup(Some(TemplateFollowup::Reveal)), TemplateFollowup::Reveal);
    assert_eq!(effective_followup(Some(TemplateFollowup::Skip)), TemplateFollowup::Skip);
}

#[test]
fn boilerplate_installs_per_package_manager() {
    let (inv, prefix) = biome_install_invocation(PackageManager::Npm).expect("javascript");
    assert_eq!(inv.program, "npm");
    assert_eq!(inv.args, vec!["install", "--save-dev", "@biomejs/biome", "@cubing/dev-config"]);
    assert_eq!(prefix, "bun x @biomejs/biome");
    let (inv, prefix) = biome_install_invocation(PackageManager::Yarn).expect("javascript");
    assert_eq!(inv.program, "yarn");
    assert_eq!(inv.args, vec!["add", "--dev", "@biomejs/biome", "@cubing/dev-config"]);
    assert_eq!(prefix, "npx yarn exec @biomejs/biome");
    assert!(matches!(
        biome_install_invocation(PackageManager::Cargo),
        Err(BoilerplateError::NotJavaScript)
    ));

    let inv = tsconfig_install_invocation(PackageManager::Bun).expect("javascript");
    assert_eq!(inv.program, "bun");
    assert_eq!(inv.args, vec!["add", "--development", "@cubing/dev-config"]);
    assert!(matches!(
        tsconfig_install_invocation(PackageManager::Cargo),
        Err(BoilerplateError::NotJavaScript)
    ));
}
