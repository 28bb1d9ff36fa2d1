use builder_rs::rom_plan::{effective_jobs, parallel_jobs, variant_name, BuildVariant,
    ConfigKind, RomError};
use builder_rs::rom_state::{BuildResultPlan, RomBuildState, Settings, UploadMethod, UploadTask};
use builder_rs::rom_steps::{askpass_script, build_shell_lines, detect_release, detect_vendor,
    find_artifact, local_manifest_action, need_repo_reinit, phase_log_name,
    recovery_manifest_xml, repo_init_args, repo_sync_args, repo_sync_project_args,
    submodule_sync_log_name, ManifestAction, ReleaseProbe};
use builder_rs::rom_types::{CloneMappingsEntry, ManifestBranchesEntry, ManifestEntry,
    ROMArtifactEntry, ROMArtifactMatcher, ROMBranchEntry, ROMBuildConfig, ROMEntry,
    RecoveryManifestEntry, TargetsEntry};
use builder_rs::strutil::base_name;

fn target(codename: &str) -> TargetsEntry {
    TargetsEntry {
        name: "Phone".to_string(),
        codename: codename.to_string(),
        manufacturer: "Acme".to_string(),
    }
}

fn manifest(name: &str, branches: Vec<ManifestBranchesEntry>) -> ManifestEntry {
    ManifestEntry {
        name: name.to_string(),
        url: "https://example.com/manifest.git".to_string(),
        branches,
    }
}

fn branch(target_rom: &str, ver: u32, device: &str, use_regex: bool) -> ManifestBranchesEntry {
    ManifestBranchesEntry {
        name: "lineage-21".to_string(),
        target_rom: target_rom.to_string(),
        android_version: ver,
        device: device.to_string(),
        use_regex,
    }
}

fn rom(name: &str) -> ROMEntry {
    ROMEntry {
        name: name.to_string(),
        link: "https://example.com/android.git".to_string(),
        target: "bacon".to_string(),
        artifact: ROMArtifactEntry {
            matcher: ROMArtifactMatcher::ZipFilePrefixer,
            data: "lineage-".to_string(),
        },
        branches: vec![ROMBranchEntry { android_version: 140, branch: "lineage-21".to_string() }],
    }
}

fn recovery_manifest(name: &str) -> RecoveryManifestEntry {
    RecoveryManifestEntry {
        name: name.to_string(),
        clone_mappings: vec![CloneMappingsEntry {
            repo: "acme/recovery_device".to_string(),
            branch: "twrp-14".to_string(),
            path: "device/acme/dev".to_string(),
        }],
        android_version: 140,
        target_recovery: "twrp".to_string(),
        device: "dev".to_string(),
        use_regex: false,
    }
}

fn config_tables() -> ROMBuildConfig {
    ROMBuildConfig {
        roms: vec![rom("lineage")],
        recoveries: vec![rom("twrp")],
        targets: vec![target("dev")],
        manifests: vec![manifest("lineage-dev", vec![branch("lineage", 140, "dev", false)])],
        recovery_manifests: vec![recovery_manifest("twrp-dev")],
    }
}

#[test]
fn test_resolve_config_standard() {
    let cfg = config_tables();
    match cfg.resolve_config(&"lineage-dev".to_string()) {
        Ok(ConfigKind::Standard(i)) => assert_eq!(i, 0),
        other => panic!("unexpected: {:?}", other),
    }
}

#[test]
fn test_resolve_config_recovery() {
    let cfg = config_tables();
    match cfg.resolve_config(&"twrp-dev".to_string()) {
        Ok(ConfigKind::Recovery(i)) => assert_eq!(i, 0),
        other => panic!("unexpected: {:?}", other),
    }
}

#[test]
fn test_resolve_config_unknown_or_ambiguous() {
    let mut cfg = config_tables();
    assert_eq!(cfg.resolve_config(&"nope".to_string()).unwrap_err(), RomError::InvalidArgument);
    // The same name in both tables is ambiguous.
    cfg.recovery_manifests.push(recovery_manifest("lineage-dev"));
    assert_eq!(
        cfg.resolve_config(&"lineage-dev".to_string()).unwrap_err(),
        RomError::InvalidArgument
    );
}

#[test]
fn test_resolve_target_unique() {
    let mut cfg = config_tables();
    assert_eq!(cfg.resolve_target(&"dev".to_string()), Ok(0));
    cfg.targets.push(target("dev"));
    assert_eq!(cfg.resolve_target(&"dev".to_string()).unwrap_err(), RomError::InvalidArgument);
    assert_eq!(cfg.resolve_target(&"zz".to_string()).unwrap_err(), RomError::InvalidArgument);
}

#[test]
fn test_resolve_branch_exact_device() {
    let branches = vec![
        branch("lineage", 140, "other", false),
        branch("lineage", 140, "dev", false),
        branch("lineage", 150, "dev", false),
    ];
    let found = ROMBuildConfig::resolve_branch(
        &branches,
        &"lineage".to_string(),
        140,
        &"dev".to_string(),
    );
    assert_eq!(found, Ok(1));
}

#[test]
fn test_resolve_branch_by_pattern() {
    // A pattern entry matches anywhere inside the device name.
    let branches = vec![branch("lineage", 140, "dev[0-9]+", true)];
    let found = ROMBuildConfig::resolve_branch(
        &branches,
        &"lineage".to_string(),
        140,
        &"dev42".to_string(),
    );
    assert_eq!(found, Ok(0));
    let missed = ROMBuildConfig::resolve_branch(
        &branches,
        &"lineage".to_string(),
        140,
        &"phone".to_string(),
    );
    assert_eq!(missed.unwrap_err(), RomError::InvalidArgument);
}

#[test]
fn test_resolve_rom_and_rom_branch() {
    let cfg = config_tables();
    let ri = ROMBuildConfig::resolve_rom_in(&cfg.roms, &"lineage".to_string()).unwrap();
    assert_eq!(ri, 0);
    let bi = ROMBuildConfig::resolve_rom_branch(&cfg.roms[ri].branches, 140).unwrap();
    assert_eq!(bi, 0);
    assert!(ROMBuildConfig::resolve_rom_branch(&cfg.roms[ri].branches, 150).is_err());
}

#[test]
fn test_parallel_jobs_uses_cpu_count_when_absent() {
    // With a requested value the value wins; absent, the logical CPU
    // count is used, which is at least one.
    assert_eq!(parallel_jobs(Some(7)), 7);
    assert!(parallel_jobs(None) >= 1);
    assert_eq!(effective_jobs(None, 12), 12);
    assert_eq!(effective_jobs(Some(3), 12), 3);
}

#[test]
fn test_variant_names() {
    assert_eq!(variant_name(&BuildVariant::User), "user");
    assert_eq!(variant_name(&BuildVariant::UserDebug), "userdebug");
    assert_eq!(variant_name(&BuildVariant::Eng), "eng");
}

#[test]
fn test_single_build_gate_rejects_second_start() {
    // While a build is active a second start is rejected outright with
    // the fixed message and an empty id, and nothing changes.
    let mut state = RomBuildState::new();
    let first = state.try_start_build(BuildVariant::UserDebug, target("dev"), "c".to_string());
    assert!(first.accepted);
    assert!(first.build_id.starts_with("build-"));
    assert_eq!(first.build_id.len(), 42);

    let second = state.try_start_build(BuildVariant::UserDebug, target("dev"), "c".to_string());
    assert!(!second.accepted);
    assert_eq!(second.build_id, "");
    assert_eq!(second.status_message, "A build is already running.");

    state.finish_active();
    let third = state.try_start_build(BuildVariant::Eng, target("dev"), "c".to_string());
    assert!(third.accepted);
}

#[test]
fn test_cancel_decision_routes_to_active_build() {
    let mut state = RomBuildState::new();
    let started = state.try_start_build(BuildVariant::User, target("dev"), "c".to_string());
    assert!(state.cancel_decision(&started.build_id).is_ok());
    assert_eq!(
        state.cancel_decision(&"build-unknown".to_string()).unwrap_err(),
        RomError::InvalidArgument
    );
    state.finish_active();
    // After the build finished there is nothing to cancel: no state
    // changes and the same id now reports an error.
    assert!(state.cancel_decision(&started.build_id).is_err());
}

#[test]
fn test_settings_merge_only_set_fields() {
    let mut s = Settings::defaults();
    let patch = Settings {
        do_repo_sync: None,
        do_clean_build: Some(true),
        use_ccache: None,
        use_rbe_service: None,
        rbe_api_token: Some("SECRET-REDACTED".to_string()),
        do_upload: None,
    };
    s.merge(patch);
    assert_eq!(s.do_repo_sync, Some(true));
    assert_eq!(s.do_clean_build, Some(true));
    assert_eq!(s.use_ccache, Some(false));
    assert_eq!(s.rbe_api_token, Some("SECRET-REDACTED".to_string()));
    assert_eq!(s.do_upload, Some(false));
}

#[test]
fn test_release_detection_prefers_map_file() {
    // A release_config_map.textproto names aosp_current directly.
    let probes = vec![ReleaseProbe {
        has_release_config_map: true,
        build_config_files: vec![],
        release_config_files: vec![],
    }];
    assert_eq!(detect_release(&probes), Some("aosp_current".to_string()));
}

#[test]
fn test_release_detection_from_release_configs() {
    // root and trunk are passed over; the first other .textproto names
    // the release.
    let probes = vec![
        ReleaseProbe {
            has_release_config_map: false,
            build_config_files: vec![],
            release_config_files: vec![
                "root.textproto".to_string(),
                "trunk.textproto".to_string(),
                "next.textproto".to_string(),
            ],
        },
        ReleaseProbe {
            has_release_config_map: true,
            build_config_files: vec![],
            release_config_files: vec![],
        },
    ];
    assert_eq!(detect_release(&probes), Some("next".to_string()));
}

#[test]
fn test_release_detection_from_build_config_scl() {
    let probes = vec![ReleaseProbe {
        has_release_config_map: false,
        build_config_files: vec!["notes.txt".to_string(), "ap2a.scl".to_string()],
        release_config_files: vec!["root.textproto".to_string()],
    }];
    assert_eq!(detect_release(&probes), Some("ap2a".to_string()));
}

#[test]
fn test_release_detection_none() {
    let probes = vec![ReleaseProbe {
        has_release_config_map: false,
        build_config_files: vec![],
        release_config_files: vec!["root.textproto".to_string(), "trunk.textproto".to_string()],
    }];
    assert_eq!(detect_release(&probes), None);
}

#[test]
fn test_vendor_detection_first_with_board_config() {
    let dirs = vec![
        ("google".to_string(), false),
        ("acme".to_string(), true),
        ("lineage".to_string(), true),
    ];
    assert_eq!(detect_vendor(&dirs), "acme");
    assert_eq!(detect_vendor(&vec![("x".to_string(), false)]), "lineage");
}

#[test]
fn test_build_shell_lines_with_release() {
    let lines = build_shell_lines(
        false,
        "acme",
        "dev",
        &Some("next".to_string()),
        "userdebug",
        "bacon",
        16,
    );
    assert_eq!(
        lines,
        vec![
            "set -e".to_string(),
            "source build/envsetup.sh".to_string(),
            "unset USE_CCACHE; unset CCACHE_EXEC;".to_string(),
            "lunch acme_dev-next-userdebug".to_string(),
            "m bacon -j16".to_string(),
            "exit 0".to_string(),
        ]
    );
}

#[test]
fn test_build_shell_lines_without_release_uses_llunch() {
    let lines = build_shell_lines(true, "acme", "dev", &None, "eng", "bacon", 4);
    assert_eq!(lines[2], "true");
    assert_eq!(lines[3], "llunch acme_dev-eng");
}

#[test]
fn test_find_artifact_prefix_and_exact() {
    let files = vec![
        "lineage-21.0-dev.zip.md5".to_string(),
        "lineage-21.0-dev.zip".to_string(),
        "boot.img".to_string(),
    ];
    let prefix = ROMArtifactEntry {
        matcher: ROMArtifactMatcher::ZipFilePrefixer,
        data: "lineage-".to_string(),
    };
    assert_eq!(find_artifact(&prefix, &files), Some("lineage-21.0-dev.zip".to_string()));

    let exact = ROMArtifactEntry {
        matcher: ROMArtifactMatcher::ExactMatcher,
        data: "boot.img".to_string(),
    };
    assert_eq!(find_artifact(&exact, &files), Some("boot.img".to_string()));

    let missing = ROMArtifactEntry {
        matcher: ROMArtifactMatcher::ExactMatcher,
        data: "vendor.img".to_string(),
    };
    assert_eq!(find_artifact(&missing, &files), None);
}

#[test]
fn test_repo_commands_and_reinit() {
    assert_eq!(
        repo_init_args("https://example.com/android.git", "lineage-21"),
        vec![
            "init".to_string(),
            "-u".to_string(),
            "https://example.com/android.git".to_string(),
            "-b".to_string(),
            "lineage-21".to_string(),
            "--git-lfs".to_string(),
            "--depth=1".to_string(),
        ]
    );
    assert_eq!(
        repo_sync_args(8, false),
        vec![
            "sync".to_string(),
            "-c".to_string(),
            "--force-sync".to_string(),
            "--no-clone-bundle".to_string(),
            "--no-tags".to_string(),
            "-j8".to_string(),
        ]
    );
    assert_eq!(repo_sync_args(8, true).last().unwrap(), "--force-remove-dirty");
    assert_eq!(repo_sync_project_args(2, "device/acme").last().unwrap(), "device/acme");

    // Trailing slashes on either URL do not force a re-init.
    assert!(!need_repo_reinit(true, "https://e.com/a/", "https://e.com/a", true));
    assert!(need_repo_reinit(true, "https://e.com/b", "https://e.com/a", true));
    assert!(need_repo_reinit(true, "https://e.com/a", "https://e.com/a", false));
    assert!(need_repo_reinit(false, "", "https://e.com/a", true));
}

#[test]
fn test_local_manifest_action_cases() {
    assert_eq!(local_manifest_action(false, false, false), ManifestAction::CloneFresh);
    assert_eq!(local_manifest_action(true, false, true), ManifestAction::RemoveAndClone);
    assert_eq!(
        local_manifest_action(true, true, false),
        ManifestAction::CheckoutThenFastForward
    );
    assert_eq!(local_manifest_action(true, true, true), ManifestAction::FastForwardOnly);
}

#[test]
fn test_recovery_manifest_xml_shape() {
    let xml = recovery_manifest_xml(&recovery_manifest("twrp-dev").clone_mappings);
    assert!(xml.starts_with("<?xml version=\"1.0\" encoding=\"UTF-8\" standalone=\"yes\"?>\n"));
    assert!(xml.contains("<remote name=\"cppbot_github\" fetch=\"https://github.com\" />"));
    assert!(xml.contains(
        "<project name=\"acme/recovery_device\" path=\"device/acme/dev\" revision=\"twrp-14\" remote=\"cppbot_github\" />"
    ));
    assert!(xml.ends_with("</manifest>\n"));
}

#[test]
fn test_askpass_script_embeds_token() {
    assert_eq!(
        askpass_script("SECRET-REDACTED"),
        "#!/bin/sh\necho \"SECRET-REDACTED\"\n"
    );
}

#[test]
fn test_phase_log_names() {
    assert_eq!(phase_log_name("repo-init", "build-x"), "repo-init-build-build-x.log");
    assert_eq!(submodule_sync_log_name("build-x"), "repo-sync-build-x-submodule-sync.log");
}

#[test]
fn test_build_result_plan_paths() {
    let mut state = RomBuildState::new();
    let started = state.try_start_build(BuildVariant::User, target("dev"), "c".to_string());
    let id = started.build_id.clone();

    // Unknown id first.
    assert!(matches!(
        state.build_result_plan(&"build-zzz".to_string()),
        BuildResultPlan::UnknownId
    ));

    // A build that has not succeeded reports its failure message, or a
    // fixed line when none was recorded.
    match state.build_result_plan(&id) {
        BuildResultPlan::Failure(m) => assert_eq!(m, "Build failed for unknown reasons."),
        other => panic!("unexpected: {:?}", other),
    }
    state.append_error(&id, &"repo sync failed".to_string());
    match state.build_result_plan(&id) {
        BuildResultPlan::Failure(m) => assert_eq!(m, "repo sync failed"),
        other => panic!("unexpected: {:?}", other),
    }

    // Errors accumulate rather than overwrite.
    state.append_error(&id, &"builder gave up".to_string());
    match state.build_result_plan(&id) {
        BuildResultPlan::Failure(m) => {
            assert_eq!(m, "repo sync failed\nWhich caused builder error: builder gave up")
        },
        other => panic!("unexpected: {:?}", other),
    }

    // A successful build without an upload task cannot serve a result.
    state.mark_build_success(&id);
    assert!(matches!(state.build_result_plan(&id), BuildResultPlan::MissingUpload));

    state.schedule_upload(UploadTask {
        method: UploadMethod::LocalFile,
        build_id: id.clone(),
        artifact_path: "/out/target/product/dev/lineage-21.0-dev.zip".to_string(),
    });
    match state.build_result_plan(&id) {
        BuildResultPlan::LocalFile(path, file) => {
            assert_eq!(path, "/out/target/product/dev/lineage-21.0-dev.zip");
            assert_eq!(file, "lineage-21.0-dev.zip");
        },
        other => panic!("unexpected: {:?}", other),
    }
}

#[test]
fn test_base_name_of_paths() {
    assert_eq!(base_name("/a/b/c.zip"), "c.zip");
    assert_eq!(base_name("c.zip"), "c.zip");
    assert_eq!(base_name("/a/b/"), "");
}

#[test]
fn test_success_is_monotone() {
    let mut state = RomBuildState::new();
    let started = state.try_start_build(BuildVariant::User, target("dev"), "c".to_string());
    let id = started.build_id.clone();
    state.mark_build_success(&id);
    state.mark_build_success(&id);
    let entry = state.find_build(&id).expect("entry");
    assert!(entry.success);
}
