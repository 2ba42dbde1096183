//! The scanners: git repositories, dependency manifests, and the two that
//! are announced but not built yet.

pub mod analytics;
pub mod deps;
pub mod git;
pub mod system;
