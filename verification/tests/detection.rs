use repo::ecosystem::{
    cargo_version_from_summary, detect_ecosystem_by_getting_version, fallback_notice,
    npm_version_from_manifest, publish_invocation, CargoMetadataSummary, CargoVersionSource,
    Ecosystem, PackageInfo,
};
use repo::package_manager::{
    install_invocation, make_setup_invocation, make_setup_probe_invocation,
    setup_dependencies_plan, setup_plan, LockfileProbes, PackageManager,
};
use repo::vcs::{
    auto_detect_preferred_vcs_and_repo_root, describe_from_jj_log, describe_from_output,
    describe_invocation, git_toplevel_invocation, jj_root_invocation,
    latest_commit_hash_from_output, latest_commit_hash_invocation, vcs_or_infer, Ancestor,
    VcsError, VcsKind, VcsProbes,
};
use repo::workspace::{
    auto_detect_workspace_root, cargo_metadata_invocation, workspace_root_or_fallback,
    LitmusAncestor, RootFallback, WorkspaceError, WorkspaceProbes,
};

fn no_vcs_probes() -> VcsProbes {
    VcsProbes { jj_root: None, git_toplevel: None, ancestors: Vec::new() }
}

#[test]
fn no_markers_means_no_vcs_and_no_workspace() {
    let vcs = VcsProbes {
        jj_root: None,
        git_toplevel: None,
        ancestors: vec![
            Ancestor { path: String::from("/home/user/project"), has_hg: false },
            Ancestor { path: String::from("/home/user"), has_hg: false },
            Ancestor { path: String::from("/home"), has_hg: false },
            Ancestor { path: String::from("/"), has_hg: false },
        ],
    };
    assert!(auto_detect_preferred_vcs_and_repo_root(&vcs).is_none());
    let workspace = WorkspaceProbes {
        vcs,
        cargo_metadata_output: None,
        litmus_ancestors: vec![
            LitmusAncestor {
                path: String::from("/home/user/project"),
                has_package_json: false,
                has_go_mod: false,
            },
            LitmusAncestor {
                path: String::from("/home/user"),
                has_package_json: false,
                has_go_mod: false,
            },
        ],
    };
    assert!(auto_detect_workspace_root(&workspace).is_none());
}

#[test]
fn colocated_repository_is_reported_as_jj_never_git() {
    let probes = VcsProbes {
        jj_root: Some(String::from("/repo/colocated\n")),
        git_toplevel: Some(String::from("/repo/colocated\n")),
        ancestors: Vec::new(),
    };
    let found = auto_detect_preferred_vcs_and_repo_root(&probes).expect("a VCS");
    assert_eq!(found.0, VcsKind::Jj);
    assert_eq!(found.1, "/repo/colocated");
}

#[test]
fn git_answers_when_jj_does_not() {
    let probes = VcsProbes {
        jj_root: None,
        git_toplevel: Some(String::from("/repo/plain-git\n")),
        ancestors: Vec::new(),
    };
    let found = auto_detect_preferred_vcs_and_repo_root(&probes).expect("a VCS");
    assert_eq!(found.0, VcsKind::Git);
    assert_eq!(found.1, "/repo/plain-git");
}

#[test]
fn mercurial_marker_walk_takes_the_closest_hit() {
    let probes = VcsProbes {
        jj_root: None,
        git_toplevel: None,
        ancestors: vec![
            Ancestor { path: String::from("/a/b/c"), has_hg: false },
            Ancestor { path: String::from("/a/b"), has_hg: true },
            Ancestor { path: String::from("/a"), has_hg: true },
        ],
    };
    let found = auto_detect_preferred_vcs_and_repo_root(&probes).expect("a VCS");
    assert_eq!(found.0, VcsKind::Mercurial);
    assert_eq!(found.1, "/a/b");
}

#[test]
fn vcs_or_infer_prefers_the_explicit_choice() {
    let detected = Some((VcsKind::Jj, String::from("/repo")));
    assert_eq!(vcs_or_infer(Some(VcsKind::Git), &detected), Ok(VcsKind::Git));
    assert_eq!(vcs_or_infer(None, &detected), Ok(VcsKind::Jj));
    assert_eq!(vcs_or_infer(None, &None), Err(VcsError::NoVcsFound));
    assert_eq!(
        VcsError::NoVcsFound.message(),
        "No VCS specified or found."
    );
}

#[test]
fn probe_invocations_are_exact() {
    let inv = jj_root_invocation();
    assert_eq!(inv.program, "jj");
    assert_eq!(inv.args, vec!["root"]);
    let inv = git_toplevel_invocation();
    assert_eq!(inv.program, "git");
    assert_eq!(inv.args, vec!["rev-parse", "--show-toplevel"]);
    let inv = cargo_metadata_invocation("/some/dir");
    assert_eq!(inv.program, "cargo");
    assert_eq!(inv.args, vec!["-C", "/some/dir", "metadata", "--format-version", "1"]);
}

#[test]
fn workspace_root_prefers_vcs_then_metadata_then_litmus() {
    let with_vcs = WorkspaceProbes {
        vcs: VcsProbes {
            jj_root: Some(String::from("/vcs-root\n")),
            git_toplevel: None,
            ancestors: Vec::new(),
        },
        cargo_metadata_output: Some(String::from("{\"workspace_root\":\"/meta-root\"}")),
        litmus_ancestors: Vec::new(),
    };
    assert_eq!(auto_detect_workspace_root(&with_vcs).as_deref(), Some("/vcs-root"));

    let with_metadata = WorkspaceProbes {
        vcs: no_vcs_probes(),
        cargo_metadata_output: Some(String::from("{\"workspace_root\":\"/meta-root\"}")),
        litmus_ancestors: Vec::new(),
    };
    assert_eq!(auto_detect_workspace_root(&with_metadata).as_deref(), Some("/meta-root"));

    let with_litmus = WorkspaceProbes {
        vcs: no_vcs_probes(),
        cargo_metadata_output: Some(String::from("not json at all")),
        litmus_ancestors: vec![
            LitmusAncestor {
                path: String::from("/p/q"),
                has_package_json: false,
                has_go_mod: false,
            },
            LitmusAncestor {
                path: String::from("/p"),
                has_package_json: false,
                has_go_mod: true,
            },
        ],
    };
    assert_eq!(auto_detect_workspace_root(&with_litmus).as_deref(), Some("/p"));
}

#[test]
fn workspace_fallback_resolution() {
    let path = String::from("/work/here");
    let parent = String::from("/work");
    assert_eq!(
        workspace_root_or_fallback(Some(String::from("/found")), None, &path, true, None),
        Ok(String::from("/found"))
    );
    assert_eq!(
        workspace_root_or_fallback(None, Some(RootFallback::ClosestDir), &path, true, None),
        Ok(String::from("/work/here"))
    );
    assert_eq!(
        workspace_root_or_fallback(
            None,
            Some(RootFallback::ClosestDir),
            &path,
            false,
            Some(&parent)
        ),
        Ok(String::from("/work"))
    );
    assert_eq!(
        workspace_root_or_fallback(None, Some(RootFallback::ClosestDir), &path, false, None),
        Err(WorkspaceError::NoParentPath)
    );
    assert_eq!(
        workspace_root_or_fallback(None, None, &path, true, None),
        Err(WorkspaceError::NoWorkspaceFound)
    );
    assert_eq!(
        WorkspaceError::NoWorkspaceFound.message(),
        "No workspace found. Consider passing: `--fallback closest-dir`"
    );
}

#[test]
fn manifest_version_is_always_stripped_of_its_prefix() {
    assert_eq!(
        npm_version_from_manifest("{\"version\": \"v1.2.3\"}").as_deref(),
        Some("1.2.3")
    );
    assert_eq!(
        npm_version_from_manifest("{\"version\": \"1.2.3\"}").as_deref(),
        Some("1.2.3")
    );
    assert!(npm_version_from_manifest("{}").is_none());
    assert!(npm_version_from_manifest("{\"version\": 5}").is_none());
    assert!(npm_version_from_manifest("not json").is_none());
}

#[test]
fn ecosystem_reader_returns_javascript_with_stripped_version() {
    let manifest = String::from("{\"version\": \"v1.2.3\"}");
    let found =
        detect_ecosystem_by_getting_version(None, Some(&manifest), None).expect("an ecosystem");
    assert_eq!(found.0, Ecosystem::JavaScript);
    assert_eq!(found.1, "1.2.3");
}

fn rust_summary() -> CargoMetadataSummary {
    CargoMetadataSummary {
        root_package: Some(PackageInfo {
            name: String::from("tool"),
            version: String::from("0.9.1"),
        }),
        workspace_default_packages: Vec::new(),
        workspace_packages: Vec::new(),
    }
}

#[test]
fn ecosystem_reader_falls_back_to_rust() {
    let found = detect_ecosystem_by_getting_version(None, None, Some(&rust_summary()))
        .expect("an ecosystem");
    assert_eq!(found.0, Ecosystem::Rust);
    assert_eq!(found.1, "0.9.1");
}

#[test]
fn ecosystem_override_skips_the_other_probe() {
    let manifest = String::from("{\"version\": \"2.0.0\"}");
    let found = detect_ecosystem_by_getting_version(
        Some(Ecosystem::Rust),
        Some(&manifest),
        Some(&rust_summary()),
    )
    .expect("an ecosystem");
    assert_eq!(found.0, Ecosystem::Rust);
    let found = detect_ecosystem_by_getting_version(
        Some(Ecosystem::JavaScript),
        Some(&manifest),
        Some(&rust_summary()),
    )
    .expect("an ecosystem");
    assert_eq!(found.0, Ecosystem::JavaScript);
    assert_eq!(found.1, "2.0.0");
    assert!(detect_ecosystem_by_getting_version(Some(Ecosystem::JavaScript), None, None).is_none());
}

#[test]
fn cargo_version_fallbacks_and_notices() {
    let root = rust_summary();
    let found = cargo_version_from_summary(&root).expect("a version");
    assert_eq!(found.0, "0.9.1");
    assert!(fallback_notice(&found.1).is_none());

    let default_member = CargoMetadataSummary {
        root_package: None,
        workspace_default_packages: vec![PackageInfo {
            name: String::from("member-a"),
            version: String::from("1.0.0"),
        }],
        workspace_packages: vec![
            PackageInfo { name: String::from("member-a"), version: String::from("1.0.0") },
            PackageInfo { name: String::from("member-b"), version: String::from("2.0.0") },
        ],
    };
    let found = cargo_version_from_summary(&default_member).expect("a version");
    assert_eq!(found.0, "1.0.0");
    assert_eq!(
        fallback_notice(&found.1).as_deref(),
        Some("Getting the Rust package version from the sole workspace default package: member-a")
    );

    let any_member = CargoMetadataSummary {
        root_package: None,
        workspace_default_packages: Vec::new(),
        workspace_packages: vec![
            PackageInfo { name: String::from("member-a"), version: String::from("1.0.0") },
            PackageInfo { name: String::from("member-b"), version: String::from("2.0.0") },
        ],
    };
    let found = cargo_version_from_summary(&any_member).expect("a version");
    assert_eq!(found.0, "1.0.0");
    assert_eq!(
        fallback_notice(&found.1).as_deref(),
        Some("Getting the Rust package version from the first workspace package: member-a")
    );

    let empty = CargoMetadataSummary {
        root_package: None,
        workspace_default_packages: Vec::new(),
        workspace_packages: Vec::new(),
    };
    assert!(cargo_version_from_summary(&empty).is_none());
}

#[test]
fn lockfile_priority_selects_bun_over_npm() {
    // A directory holding both `bun.lockb` and `package-lock.json`: the Bun
    // lockfile wins; the npm lockfile is not even a probe, only the manifest.
    let probes = LockfileProbes {
        bun_lockb: true,
        yarn_lock: false,
        pnpm_lock_yaml: false,
        package_json: true,
        cargo_toml: false,
    };
    assert_eq!(
        PackageManager::preferred_detected_package_manager_for_ecosystem(
            Ecosystem::JavaScript,
            &probes
        ),
        Some(PackageManager::Bun)
    );
}

#[test]
fn lockfile_priority_order_is_bun_yarn_pnpm_npm() {
    let mut probes = LockfileProbes {
        bun_lockb: true,
        yarn_lock: true,
        pnpm_lock_yaml: true,
        package_json: true,
        cargo_toml: true,
    };
    let pick = |p: &LockfileProbes| {
        PackageManager::preferred_detected_package_manager_for_ecosystem(Ecosystem::JavaScript, p)
    };
    assert_eq!(pick(&probes), Some(PackageManager::Bun));
    probes.bun_lockb = false;
    assert_eq!(pick(&probes), Some(PackageManager::Yarn));
    probes.yarn_lock = false;
    assert_eq!(pick(&probes), Some(PackageManager::Pnpm));
    probes.pnpm_lock_yaml = false;
    assert_eq!(pick(&probes), Some(PackageManager::Npm));
    probes.package_json = false;
    assert_eq!(pick(&probes), None);
    assert_eq!(
        PackageManager::preferred_detected_package_manager_for_ecosystem(Ecosystem::Rust, &probes),
        Some(PackageManager::Cargo)
    );
    probes.cargo_toml = false;
    assert_eq!(
        PackageManager::preferred_detected_package_manager_for_ecosystem(Ecosystem::Rust, &probes),
        None
    );
}

#[test]
fn install_invocations_are_exact() {
    let inv = install_invocation(PackageManager::Npm, true);
    assert_eq!(inv.program, "npm");
    assert_eq!(inv.args, vec!["ci"]);
    let inv = install_invocation(PackageManager::Npm, false);
    assert_eq!(inv.args, vec!["install"]);
    let inv = install_invocation(PackageManager::Bun, false);
    assert_eq!(inv.program, "bun");
    assert_eq!(inv.args, vec!["install", "--no-save"]);
    let inv = install_invocation(PackageManager::Yarn, false);
    assert_eq!(inv.program, "npx");
    assert_eq!(inv.args, vec!["yarn", "install", "--frozen-lockfile"]);
    let inv = install_invocation(PackageManager::Pnpm, false);
    assert_eq!(inv.program, "npx");
    assert_eq!(inv.args, vec!["pnpm", "install", "--frozen-lockfile"]);
    let inv = install_invocation(PackageManager::Cargo, false);
    assert_eq!(inv.program, "cargo");
    assert_eq!(inv.args, vec!["build"]);
}

#[test]
fn setup_plans_install_per_detected_ecosystem() {
    let probes = LockfileProbes {
        bun_lockb: true,
        yarn_lock: false,
        pnpm_lock_yaml: false,
        package_json: true,
        cargo_toml: true,
    };
    let plan = setup_dependencies_plan(None, &probes, false);
    assert_eq!(plan.len(), 2);
    assert_eq!(plan[0].program, "bun");
    assert_eq!(plan[1].program, "cargo");
    let plan = setup_dependencies_plan(Some(PackageManager::Yarn), &probes, false);
    assert_eq!(plan.len(), 1);
    assert_eq!(plan[0].program, "npx");

    let plan = setup_plan(true, None, &probes, false);
    assert_eq!(plan.len(), 1);
    assert_eq!(plan[0].program, "make");
    assert_eq!(plan[0].args, vec!["setup"]);
    let probe = make_setup_probe_invocation();
    assert_eq!(probe.program, "make");
    assert_eq!(probe.args, vec!["-n", "setup"]);
    assert_eq!(make_setup_invocation().args, vec!["setup"]);
}

#[test]
fn describe_invocations_and_outputs() {
    let inv = describe_invocation(VcsKind::Git).expect("supported");
    assert_eq!(inv.program, "git");
    assert_eq!(inv.args, vec!["describe", "--tags"]);
    let inv = describe_invocation(VcsKind::Jj).expect("supported");
    assert_eq!(inv.program, "jj");
    assert_eq!(inv.args.len(), 7);
    assert!(matches!(describe_invocation(VcsKind::Mercurial), Err(VcsError::Unsupported)));

    let git_out = String::from("v1.4.0-3-gabcdef12\n");
    assert_eq!(
        describe_from_output(VcsKind::Git, Some(&git_out)),
        Ok(String::from("v1.4.0-3-gabcdef12"))
    );
    assert_eq!(
        describe_from_output(VcsKind::Git, None),
        Err(VcsError::NoDescribeOutput(VcsKind::Git))
    );
    assert_eq!(
        VcsError::NoDescribeOutput(VcsKind::Jj).message(),
        "Could not get description using `jj`."
    );
}

#[test]
fn jj_describe_log_reading() {
    // The tag is the latest commit: the description is the tag alone.
    assert_eq!(describe_from_jj_log("abcd1234 v1.2.3"), Ok(String::from("v1.2.3")));
    // Two commits since the tag: tag, count, and the newest short id.
    assert_eq!(
        describe_from_jj_log("aaaa1111 v1.0.0\nbbbb2222 \ncccc3333 "),
        Ok(String::from("v1.0.0-2-gcccc3333"))
    );
    // A first line without a tag column.
    assert_eq!(describe_from_jj_log("loneword"), Err(VcsError::NoTagFound));
    assert_eq!(
        VcsError::NoTagFound.message(),
        "Could not get tag to describe using `jj`."
    );
    // Through the Jj output reader, which trims first.
    let out = String::from("abcd1234 v1.2.3\n");
    assert_eq!(describe_from_output(VcsKind::Jj, Some(&out)), Ok(String::from("v1.2.3")));
}

#[test]
fn latest_commit_hash_planning_and_reading() {
    let inv = latest_commit_hash_invocation(VcsKind::Git).expect("supported");
    assert_eq!(inv.program, "git");
    assert_eq!(inv.args, vec!["rev-parse", "HEAD"]);
    let inv = latest_commit_hash_invocation(VcsKind::Jj).expect("supported");
    assert_eq!(inv.program, "jj");
    assert_eq!(inv.args.len(), 8);
    assert!(matches!(
        latest_commit_hash_invocation(VcsKind::Mercurial),
        Err(VcsError::Unsupported)
    ));
    let out = String::from("abc123\n");
    assert_eq!(
        latest_commit_hash_from_output(VcsKind::Git, Some(&out)),
        Ok(String::from("abc123"))
    );
    assert_eq!(
        latest_commit_hash_from_output(VcsKind::Jj, None),
        Err(VcsError::NoHashOutput(VcsKind::Jj))
    );
    assert_eq!(
        VcsError::NoHashOutput(VcsKind::Git).message(),
        "Could not get latest hash from `git`."
    );
    assert_eq!(
        VcsError::NoRepoDetected.message(),
        "Could not detect a VCS repo."
    );
}

#[test]
fn publish_invocations_are_exact() {
    let inv = publish_invocation(Ecosystem::JavaScript);
    assert_eq!(inv.program, "npm");
    assert_eq!(inv.args, vec!["publish"]);
    let inv = publish_invocation(Ecosystem::Rust);
    assert_eq!(inv.program, "cargo");
    assert_eq!(inv.args, vec!["publish"]);
}
