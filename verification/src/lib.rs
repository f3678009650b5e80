//! Resolution and lockfile-assembly engine for locally installed
//! embedded-toolchain package manifests.
//!
//! Given a set of package descriptors discovered on disk, the library
//! determines for each one the authoritative version and per-platform
//! artifact (or a single platform-independent artifact), normalizes its
//! integrity hash, and merges the results into a deduplicated,
//! conflict-aware lockfile structure.

pub mod hash;
pub mod json;
pub mod lockfile;
pub mod manifest;
pub mod platform;
pub mod registry;
pub mod text;
