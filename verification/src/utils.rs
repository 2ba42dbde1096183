//! Helpers shared by the scanners: paths and terminal output.

pub mod display;
pub mod fs;
