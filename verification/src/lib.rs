//! Development-environment health checks: finds git repositories and
//! dependency manifests below a directory and summarises their state.
//!
//! The library decides and formats; it performs no input or output itself.
//! Callers walk the directory tree, run the version-control tool and read the
//! manifest files, and hand the results over as plain values.

pub mod cli;
pub mod run;
pub mod text;
pub mod utils;
pub mod scanner;
