//! ROM build configuration tables: ROMs, recoveries, device targets,
//! local-manifest entries and recovery manifests.
//!
//! Android versions are held in tenths, so that fractional releases stay
//! exact (141 stands for 14.1).

use vstd::prelude::*;

verus! {

/// How the produced flashable is located in the output directory.
#[derive(Debug, Clone, Copy, PartialEq, Eq, Structural)]
pub enum ROMArtifactMatcher {
    /// The first file whose name starts with the stored prefix and ends
    /// in `.zip`.
    ZipFilePrefixer,
    /// The file with exactly the stored name.
    ExactMatcher,
}

#[derive(Debug, Clone)]
pub struct ROMArtifactEntry {
    pub matcher: ROMArtifactMatcher,
    /// The prefix or exact name the matcher works with.
    pub data: String,
}

#[derive(Debug, Clone)]
pub struct ROMBranchEntry {
    /// Android version in tenths.
    pub android_version: u32,
    pub branch: String,
}

#[derive(Debug, Clone)]
pub struct ROMEntry {
    pub name: String,
    /// Manifest repository URL handed to `repo init`.
    pub link: String,
    /// The `m` target the build runs.
    pub target: String,
    pub artifact: ROMArtifactEntry,
    pub branches: Vec<ROMBranchEntry>,
}

#[derive(Debug, Clone)]
pub struct TargetsEntry {
    pub name: String,
    pub codename: String,
    pub manufacturer: String,
}

#[derive(Debug, Clone)]
pub struct ManifestBranchesEntry {
    pub name: String,
    pub target_rom: String,
    /// Android version in tenths.
    pub android_version: u32,
    /// Device codename, or a pattern when `use_regex` is set.
    pub device: String,
    pub use_regex: bool,
}

#[derive(Debug, Clone)]
pub struct ManifestEntry {
    pub name: String,
    /// Local-manifest repository URL.
    pub url: String,
    pub branches: Vec<ManifestBranchesEntry>,
}

#[derive(Debug, Clone)]
pub struct CloneMappingsEntry {
    pub repo: String,
    pub branch: String,
    pub path: String,
}

#[derive(Debug, Clone)]
pub struct RecoveryManifestEntry {
    pub name: String,
    pub clone_mappings: Vec<CloneMappingsEntry>,
    /// Android version in tenths.
    pub android_version: u32,
    pub target_recovery: String,
    pub device: String,
    pub use_regex: bool,
}

/// The five tables a ROM build consults.
#[derive(Debug, Clone)]
pub struct ROMBuildConfig {
    pub roms: Vec<ROMEntry>,
    pub recoveries: Vec<ROMEntry>,
    pub targets: Vec<TargetsEntry>,
    pub manifests: Vec<ManifestEntry>,
    pub recovery_manifests: Vec<RecoveryManifestEntry>,
}

} // verus!
