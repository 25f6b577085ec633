//! Reformat only the changed regions of source files.
//!
//! The hunks of a unified diff are grouped into runs that touch the same
//! destination file, and each run becomes one invocation of an external
//! formatting tool that is restricted to the run's line ranges.

pub mod hunk;
pub mod batch;
pub mod args;
pub mod error;
pub mod session;
