//! Build-orchestration library for Linux kernels and Android ROMs.
//!
//! The crate models the decision logic of a build service: configuration
//! registries, toolchain selection, build command construction, per-build
//! job state, rate limiting for progress reports, and artifact packaging
//! rules. Calls into outside crates (regex matching, clocks, id generation)
//! stand behind small trusted wrappers; everything else is verified.

pub mod arch;
pub mod artifact;
pub mod credentials;
pub mod executor;
pub mod gofile;
pub mod health;
pub mod jobs;
pub mod kernel_config;
pub mod kernel_plan;
pub mod ratelimit;
pub mod registry;
pub mod rom_plan;
pub mod rom_state;
pub mod rom_steps;
pub mod rom_types;
pub mod strutil;
pub mod toolchain;
