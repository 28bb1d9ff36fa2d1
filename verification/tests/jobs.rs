use builder_rs::arch::{Architecture, CompilerType, Source};
use builder_rs::jobs::{CancelError, JobRegistry};
use builder_rs::kernel_config::{Defconfig, KernelConfig, LLVMSupport, Repo};
use builder_rs::toolchain::Toolchain;

fn cfg() -> KernelConfig {
    KernelConfig {
        name: "k1".to_string(),
        repo: Repo { url: "u".to_string(), branch: "b".to_string() },
        arch: Architecture::ARM64,
        image_type: "Image".to_string(),
        toolchains: LLVMSupport { clang: true, llvm_binutils: false, llvm_ias: false },
        anykernel: None,
        defconfig: Defconfig { scheme: "{device}_defconfig".to_string(), devices: vec![] },
        fragments: vec![],
        env: vec![],
    }
}

fn tc() -> Toolchain {
    Toolchain {
        compiler: CompilerType::Clang,
        compiler_version: 170,
        compiler_triple: None,
        name: "tc1".to_string(),
        arch: Architecture::ARM64,
        source_type: Source::Git,
        url: "u".to_string(),
        branch: None,
    }
}

fn register_one(reg: &mut JobRegistry) -> u64 {
    reg.register(cfg(), tc(), "/w".to_string(), "/t".to_string(), "dev".to_string())
}

#[test]
fn test_register_allocates_fresh_monotone_ids() {
    // Every allocation yields a new id, one status record per id.
    let mut reg = JobRegistry::new();
    let a = register_one(&mut reg);
    let b = register_one(&mut reg);
    assert_eq!(a, 1);
    assert_eq!(b, 2);
    assert!(reg.is_valid_build_id(a));
    assert!(reg.is_valid_build_id(b));
    assert!(!reg.is_valid_build_id(3));
    assert!(!reg.is_build_finished(a));
}

#[test]
fn test_artifact_then_finish_success() {
    // finished && succeeded appears only after an artifact is recorded.
    let mut reg = JobRegistry::new();
    let id = register_one(&mut reg);
    assert!(!reg.has_artifact(id));
    reg.set_artifact(id, "/w/out.zip".to_string());
    assert!(reg.has_artifact(id));
    reg.mark_build_finished(id, true);
    assert!(reg.is_build_finished(id));
    assert!(reg.is_build_succeeded(id));
    assert_eq!(reg.artifact_path_of(id), Some(&"/w/out.zip".to_string()));
}

#[test]
fn test_finish_failure_records_log_artifact() {
    let mut reg = JobRegistry::new();
    let id = register_one(&mut reg);
    reg.set_artifact(id, "/tmp/output-build-k1.log".to_string());
    reg.mark_build_finished(id, false);
    assert!(reg.is_build_finished(id));
    assert!(!reg.is_build_succeeded(id));
}

#[test]
fn test_cancel_running_build_finishes_without_success() {
    // Cancellation: a cancel on a running build yields finished == true
    // and succeeded == false.
    let mut reg = JobRegistry::new();
    let id = register_one(&mut reg);
    reg.set_running(id, true);
    assert_eq!(reg.cancel_build(id), Ok(()));
    assert!(reg.is_build_finished(id));
    assert!(!reg.is_build_succeeded(id));
}

#[test]
fn test_cancel_is_idempotent() {
    // A second cancel reports the build as already finished and changes
    // nothing.
    let mut reg = JobRegistry::new();
    let id = register_one(&mut reg);
    reg.set_running(id, true);
    assert_eq!(reg.cancel_build(id), Ok(()));
    assert_eq!(reg.cancel_build(id), Err(CancelError::AlreadyFinished));
    assert!(reg.is_build_finished(id));
    assert!(!reg.is_build_succeeded(id));
}

#[test]
fn test_cancel_unknown_id_not_found() {
    let mut reg = JobRegistry::new();
    assert_eq!(reg.cancel_build(7), Err(CancelError::NotFound));
}

#[test]
fn test_cancel_not_running_not_found() {
    // A known build with no cancel channel installed cannot be cancelled.
    let mut reg = JobRegistry::new();
    let id = register_one(&mut reg);
    assert_eq!(reg.cancel_build(id), Err(CancelError::NotFound));
    assert!(!reg.is_build_finished(id));
}

#[test]
fn test_context_lookup() {
    let mut reg = JobRegistry::new();
    let id = register_one(&mut reg);
    let ctx = reg.context_of(id).expect("context");
    assert_eq!(ctx.device_name, "dev");
    assert_eq!(ctx.work_dir, "/w");
    assert!(reg.context_of(99).is_none());
}
