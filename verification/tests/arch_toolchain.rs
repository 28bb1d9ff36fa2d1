use builder_rs::arch::{Architecture, CompilerType, Source};
use builder_rs::toolchain::{tarball_file_name, toolchain_install_needed, BuilderConfig,
    Toolchain};

fn tc(compiler: CompilerType, version: u32, arch: Architecture, name: &str) -> Toolchain {
    Toolchain {
        compiler,
        compiler_version: version,
        compiler_triple: None,
        name: name.to_string(),
        arch,
        source_type: Source::Git,
        url: "https://example.com/tc.git".to_string(),
        branch: None,
    }
}

#[test]
fn test_arch_any_equals_every_architecture() {
    // The wildcard equals every architecture, on either side.
    for a in [
        Architecture::Any,
        Architecture::ARM,
        Architecture::ARM64,
        Architecture::X86,
        Architecture::X86_64,
    ] {
        assert!(Architecture::Any == a);
        assert!(a == Architecture::Any);
    }
}

#[test]
fn test_arch_concrete_equality_is_by_name() {
    assert!(Architecture::ARM == Architecture::ARM);
    assert!(Architecture::ARM64 == Architecture::ARM64);
    assert!(!(Architecture::ARM == Architecture::ARM64));
    assert!(!(Architecture::X86 == Architecture::X86_64));
}

#[test]
fn test_select_toolchain_prefers_first_clang_for_arch() {
    let catalog = BuilderConfig {
        toolchains: vec![
            tc(CompilerType::GCC, 49, Architecture::ARM64, "gcc49"),
            tc(CompilerType::Clang, 170, Architecture::ARM, "clang-arm"),
            tc(CompilerType::Clang, 170, Architecture::ARM64, "clang-a"),
            tc(CompilerType::Clang, 180, Architecture::ARM64, "clang-b"),
        ],
    };
    let chosen = catalog.select_toolchain(true, &Architecture::ARM64);
    assert_eq!(chosen, Some(2));
}

#[test]
fn test_select_toolchain_refusing_clang_takes_old_gcc() {
    // Refusing clang selects the first GCC at 4.9 or below for the
    // architecture; newer GCC entries are passed over.
    let catalog = BuilderConfig {
        toolchains: vec![
            tc(CompilerType::GCC, 93, Architecture::ARM64, "gcc93"),
            tc(CompilerType::Clang, 170, Architecture::ARM64, "clang"),
            tc(CompilerType::GCC, 49, Architecture::ARM64, "gcc49"),
        ],
    };
    let chosen = catalog.select_toolchain(false, &Architecture::ARM64);
    assert_eq!(chosen, Some(2));
}

#[test]
fn test_select_toolchain_none_when_no_candidate() {
    let catalog = BuilderConfig {
        toolchains: vec![tc(CompilerType::GCC, 49, Architecture::ARM, "gcc49-arm")],
    };
    assert_eq!(catalog.select_toolchain(true, &Architecture::ARM64), None);
}

#[test]
fn test_select_toolchain_any_arch_config_matches_all() {
    // A wildcard architecture on the toolchain serves any requested one.
    let catalog = BuilderConfig {
        toolchains: vec![tc(CompilerType::Clang, 170, Architecture::Any, "clang-any")],
    };
    assert_eq!(catalog.select_toolchain(true, &Architecture::X86_64), Some(0));
    assert_eq!(catalog.select_toolchain(true, &Architecture::ARM), Some(0));
}

#[test]
fn test_exe_name_by_compiler() {
    let clang = tc(CompilerType::Clang, 170, Architecture::ARM64, "c");
    assert_eq!(clang.exe_name(), "clang");
    let mut gcc = tc(CompilerType::GCC, 49, Architecture::ARM64, "g");
    gcc.compiler_triple = Some("aarch64-linux-android".to_string());
    assert_eq!(gcc.exe_name(), "aarch64-linux-android-gcc");
}

#[test]
fn test_toolchain_build_args_cross_compile() {
    let mut t = tc(CompilerType::Clang, 170, Architecture::ARM64, "c");
    assert_eq!(
        t.build_args(&Architecture::ARM64),
        vec!["CROSS_COMPILE=aarch64-linux-gnu-".to_string()]
    );
    assert_eq!(
        t.build_args(&Architecture::ARM),
        vec!["CROSS_COMPILE=arm-linux-gnueabi-".to_string()]
    );
    assert_eq!(t.build_args(&Architecture::Any), Vec::<String>::new());
    t.compiler_triple = Some("hexagon".to_string());
    assert_eq!(t.build_args(&Architecture::ARM64), vec!["CROSS_COMPILE=hexagon-".to_string()]);
}

#[test]
fn test_install_skipped_when_probe_prints() {
    // Provision is idempotent: a probed version means no reinstall.
    assert!(!toolchain_install_needed(&Some("clang version 17.0.0".to_string())));
    assert!(toolchain_install_needed(&None));
}

#[test]
fn test_get_toolchains_for_arch_keeps_order() {
    let catalog = BuilderConfig {
        toolchains: vec![
            tc(CompilerType::GCC, 49, Architecture::ARM, "gcc-arm"),
            tc(CompilerType::Clang, 170, Architecture::ARM64, "clang-a"),
            tc(CompilerType::Clang, 180, Architecture::Any, "clang-any"),
            tc(CompilerType::GCC, 93, Architecture::ARM64, "gcc-new"),
        ],
    };
    let found = catalog.get_toolchains_for_arch(&Architecture::ARM64);
    let names: Vec<&str> = found.iter().map(|t| t.name.as_str()).collect();
    // The wildcard entry counts for every architecture.
    assert_eq!(names, vec!["clang-a", "clang-any", "gcc-new"]);
}

#[test]
fn test_tarball_file_name() {
    assert_eq!(tarball_file_name("tc1"), "tc1.tar.gz");
}

#[test]
fn test_first_line_of_version_output() {
    let out = builder_rs::strutil::first_line("clang version 17\nTarget: aarch64\n");
    assert_eq!(out, Some("clang version 17".to_string()));
    assert_eq!(builder_rs::strutil::first_line(""), None);
    assert_eq!(builder_rs::strutil::first_line("one"), Some("one".to_string()));
}
