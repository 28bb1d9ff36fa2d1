use builder_rs::arch::Architecture;
use builder_rs::artifact::{build_log_name, image_rel_path, prepare_log_name, split_into_chunks,
    zip_entries, zip_file_name, zip_should_include};
use builder_rs::kernel_config::{AnyKernel, Defconfig, EnvVar, Fragment, KernelConfig,
    LLVMSupport, Repo};
use builder_rs::kernel_plan::{PrepareError, PreparePlan};
use builder_rs::registry::{ConfigRegistry, RegistryError};
use builder_rs::toolchain::{BuilderConfig, Toolchain};
use builder_rs::arch::{CompilerType, Source};

fn sample_config(name: &str) -> KernelConfig {
    KernelConfig {
        name: name.to_string(),
        repo: Repo {
            url: "https://example.com/kernel.git".to_string(),
            branch: "main".to_string(),
        },
        arch: Architecture::ARM64,
        image_type: "Image.gz-dtb".to_string(),
        toolchains: LLVMSupport { clang: true, llvm_binutils: false, llvm_ias: true },
        anykernel: Some(AnyKernel { enabled: true, location: Some("AK3".to_string()) }),
        defconfig: Defconfig {
            scheme: "{device}_defconfig".to_string(),
            devices: vec!["dev".to_string()],
        },
        fragments: vec![Fragment {
            name: "debug".to_string(),
            scheme: "{device}_debug.config".to_string(),
            depends: vec![],
            description: None,
            default_enabled: false,
        }],
        env: vec![EnvVar { name: "KCFLAGS".to_string(), value: "-O2".to_string() }],
    }
}

fn clang_toolchain() -> Toolchain {
    Toolchain {
        compiler: CompilerType::Clang,
        compiler_version: 170,
        compiler_triple: None,
        name: "tc1".to_string(),
        arch: Architecture::ARM64,
        source_type: Source::Git,
        url: "https://example.com/clang.git".to_string(),
        branch: None,
    }
}

#[test]
fn test_registry_add_then_list_contains_config() {
    // Round trip: a configuration that was added is among the listed ones.
    let mut reg = ConfigRegistry::new();
    reg.add_config(sample_config("k1"));
    let listed = reg.list_configs();
    assert_eq!(listed.len(), 1);
    assert_eq!(listed[0].name, "k1");
    assert_eq!(listed[0].image_type, "Image.gz-dtb");
}

#[test]
fn test_registry_update_replaces_first_with_name() {
    let mut reg = ConfigRegistry::new();
    reg.add_config(sample_config("k1"));
    reg.add_config(sample_config("k2"));
    let mut newer = sample_config("k1");
    newer.image_type = "Image".to_string();
    assert!(reg.update_config(newer).is_ok());
    let listed = reg.list_configs();
    assert_eq!(listed.len(), 2);
    assert_eq!(listed[0].name, "k1");
    assert_eq!(listed[0].image_type, "Image");
    assert_eq!(listed[1].name, "k2");
}

#[test]
fn test_registry_update_unknown_name_not_found() {
    let mut reg = ConfigRegistry::new();
    reg.add_config(sample_config("k1"));
    assert_eq!(reg.update_config(sample_config("zz")), Err(RegistryError::NotFound));
    assert_eq!(reg.list_configs().len(), 1);
}

#[test]
fn test_registry_update_equals_delete_then_add_as_sets() {
    // With a unique name, update holds the same configurations as delete
    // followed by add; only the position of the updated entry differs.
    let mut updated = ConfigRegistry::new();
    updated.add_config(sample_config("k1"));
    updated.add_config(sample_config("k2"));
    let mut newer = sample_config("k1");
    newer.image_type = "Image".to_string();
    assert!(updated.update_config(newer.clone()).is_ok());

    let mut replayed = ConfigRegistry::new();
    replayed.add_config(sample_config("k1"));
    replayed.add_config(sample_config("k2"));
    assert!(replayed.delete_config(&"k1".to_string()).is_ok());
    replayed.add_config(newer);

    let a = updated.list_configs();
    let b = replayed.list_configs();
    assert_eq!(a.len(), b.len());
    for cfg in a.iter() {
        assert!(b.iter().any(|c| c.name == cfg.name && c.image_type == cfg.image_type));
    }
}

#[test]
fn test_registry_delete_removes_all_with_name() {
    let mut reg = ConfigRegistry::new();
    reg.add_config(sample_config("k1"));
    reg.add_config(sample_config("k1"));
    reg.add_config(sample_config("k2"));
    assert!(reg.delete_config(&"k1".to_string()).is_ok());
    let listed = reg.list_configs();
    assert_eq!(listed.len(), 1);
    assert_eq!(listed[0].name, "k2");
    assert_eq!(reg.delete_config(&"k1".to_string()), Err(RegistryError::NotFound));
}

#[test]
fn test_plan_prepare_happy_path() {
    let configs = vec![sample_config("k1")];
    let catalog = BuilderConfig { toolchains: vec![clang_toolchain()] };
    let plan: PreparePlan = builder_rs::kernel_plan::plan_prepare(
        &configs,
        &catalog,
        &"k1".to_string(),
        &"dev".to_string(),
        &vec!["debug".to_string()],
    )
    .expect("valid request");
    assert_eq!(plan.config_index, 0);
    assert_eq!(plan.toolchain_index, 0);
}

#[test]
fn test_plan_prepare_config_not_found() {
    let configs = vec![sample_config("k1")];
    let catalog = BuilderConfig { toolchains: vec![clang_toolchain()] };
    let err = builder_rs::kernel_plan::plan_prepare(
        &configs,
        &catalog,
        &"zz".to_string(),
        &"dev".to_string(),
        &vec![],
    )
    .unwrap_err();
    assert!(matches!(err, PrepareError::ConfigNotFound));
}

#[test]
fn test_plan_prepare_unknown_device() {
    let configs = vec![sample_config("k1")];
    let catalog = BuilderConfig { toolchains: vec![clang_toolchain()] };
    let err = builder_rs::kernel_plan::plan_prepare(
        &configs,
        &catalog,
        &"k1".to_string(),
        &"other".to_string(),
        &vec![],
    )
    .unwrap_err();
    assert!(matches!(err, PrepareError::UnknownDevice));
}

#[test]
fn test_plan_prepare_unknown_fragment() {
    // An undeclared fragment fails the prepare and is named in the error;
    // nothing is allocated for such a request.
    let configs = vec![sample_config("k1")];
    let catalog = BuilderConfig { toolchains: vec![clang_toolchain()] };
    let err = builder_rs::kernel_plan::plan_prepare(
        &configs,
        &catalog,
        &"k1".to_string(),
        &"dev".to_string(),
        &vec!["bogus".to_string()],
    )
    .unwrap_err();
    match err {
        PrepareError::UnknownFragment(f) => assert_eq!(f, "bogus"),
        other => panic!("unexpected error: {:?}", other),
    }
}

#[test]
fn test_plan_prepare_no_suitable_toolchain() {
    let configs = vec![sample_config("k1")];
    let gcc_old = Toolchain {
        compiler: CompilerType::GCC,
        compiler_version: 49,
        compiler_triple: Some("aarch64-linux-android".to_string()),
        name: "gcc49".to_string(),
        arch: Architecture::ARM64,
        source_type: Source::Tarball,
        url: "https://example.com/gcc.tar.gz".to_string(),
        branch: None,
    };
    // The config wants clang but the catalog only has GCC.
    let catalog = BuilderConfig { toolchains: vec![gcc_old] };
    let err = builder_rs::kernel_plan::plan_prepare(
        &configs,
        &catalog,
        &"k1".to_string(),
        &"dev".to_string(),
        &vec![],
    )
    .unwrap_err();
    assert!(matches!(err, PrepareError::NoSuitableToolchain));
}

#[test]
fn test_defconfig_make_args_exact() {
    let config = sample_config("k1");
    let tc = clang_toolchain();
    let arguments = config.defconfig_make_args(
        &tc,
        &"dev".to_string(),
        &vec!["debug".to_string()],
        8,
    );
    assert_eq!(
        arguments,
        vec![
            "-j8".to_string(),
            "O=out".to_string(),
            "dev_defconfig".to_string(),
            "CROSS_COMPILE=aarch64-linux-gnu-".to_string(),
            "ARCH=arm64".to_string(),
            "LLVM=1".to_string(),
            "LLVM_IAS=1".to_string(),
            "dev_debug.config".to_string(),
        ]
    );
}

#[test]
fn test_build_make_args_exact() {
    let config = sample_config("k1");
    let tc = clang_toolchain();
    let arguments = config.build_make_args(&tc, 4);
    assert_eq!(
        arguments,
        vec![
            "-j4".to_string(),
            "O=out".to_string(),
            "CROSS_COMPILE=aarch64-linux-gnu-".to_string(),
            "ARCH=arm64".to_string(),
            "LLVM=1".to_string(),
            "LLVM_IAS=1".to_string(),
        ]
    );
}

#[test]
fn test_env_vars_has_path_and_build_ids() {
    let config = sample_config("k1");
    let env = config.env_vars("/out/tc1/bin", "/usr/bin");
    assert_eq!(env.len(), 4);
    assert_eq!(env[0], ("KCFLAGS".to_string(), "-O2".to_string()));
    assert_eq!(env[1], ("PATH".to_string(), "/out/tc1/bin:/usr/bin".to_string()));
    assert_eq!(env[2], ("KBUILD_BUILD_USER".to_string(), "builder-rs".to_string()));
    assert_eq!(env[3], ("KBUILD_BUILD_HOST".to_string(), "builder-rs-host".to_string()));
}

#[test]
fn test_image_rel_path_and_log_names() {
    let config = sample_config("k1");
    assert_eq!(image_rel_path(&config), "out/arch/arm64/boot/Image.gz-dtb");
    assert_eq!(prepare_log_name("k1"), "output-prepare-k1.log");
    assert_eq!(build_log_name("k1"), "output-build-k1.log");
}

#[test]
fn test_zip_filter_omits_empty_and_hidden() {
    // Zero-length files are omitted, hidden (dot-prefixed) files are
    // omitted, everything else is kept in walk order.
    let files = vec![
        ("anykernel.sh".to_string(), 1024u64),
        (".nomedia".to_string(), 5u64),
        ("empty.bin".to_string(), 0u64),
        ("Image.gz-dtb".to_string(), 7_000_000u64),
    ];
    let kept = zip_entries(&files);
    assert_eq!(kept, vec!["anykernel.sh".to_string(), "Image.gz-dtb".to_string()]);
    assert!(zip_should_include("anykernel.sh", 1));
    assert!(!zip_should_include(".hidden", 1));
    assert!(!zip_should_include("x", 0));
}

#[test]
fn test_zip_file_name_format() {
    let name = zip_file_name("k1", "dev", "2024-01-02_03-04-05");
    assert_eq!(name, "k1_dev-2024-01-02_03-04-05.zip");
}

#[test]
fn test_split_into_chunks_concatenates_back() {
    let data: Vec<u8> = (0u8..=200u8).collect();
    let chunks = split_into_chunks(&data, 64);
    assert_eq!(chunks.len(), 4);
    for c in chunks.iter().take(3) {
        assert_eq!(c.len(), 64);
    }
    assert_eq!(chunks[3].len(), 201 - 3 * 64);
    let mut glued: Vec<u8> = Vec::new();
    for c in &chunks {
        glued.extend_from_slice(c);
    }
    assert_eq!(glued, data);
}

#[test]
fn test_sanitize_name_for_work_dir() {
    assert_eq!(builder_rs::strutil::sanitize_name("my config:v2"), "my_config_v2");
}

#[test]
fn test_defconfig_name_substitutes_device() {
    let config = sample_config("k1");
    assert_eq!(config.defconfig_name("dev"), "dev_defconfig");
}

#[test]
fn test_source_reconcile_action_cases() {
    assert_eq!(
        builder_rs::kernel_plan::source_reconcile_action(false, false),
        builder_rs::kernel_plan::SourceAction::CloneFresh
    );
    assert_eq!(
        builder_rs::kernel_plan::source_reconcile_action(true, false),
        builder_rs::kernel_plan::SourceAction::CheckoutThenFastForward
    );
    assert_eq!(
        builder_rs::kernel_plan::source_reconcile_action(true, true),
        builder_rs::kernel_plan::SourceAction::FastForwardOnly
    );
}

#[test]
fn test_anykernel_overlay_requires_enabled_location() {
    let mut config = sample_config("k1");
    assert_eq!(config.anykernel_overlay(), Some(&"AK3".to_string()));
    config.anykernel = Some(AnyKernel { enabled: false, location: Some("AK3".to_string()) });
    assert_eq!(config.anykernel_overlay(), None);
    config.anykernel = Some(AnyKernel { enabled: true, location: None });
    assert_eq!(config.anykernel_overlay(), None);
    config.anykernel = None;
    assert_eq!(config.anykernel_overlay(), None);
}
