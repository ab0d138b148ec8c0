//! A verified core for relocating a project's fixed set of subdirectories
//! between a game-data tree and a version-control tree, leaving a symbolic
//! link at each original location, and for reversing the process.
//!
//! The library plans paths and makes every decision of the two transforms;
//! an unverified shell performs the filesystem actions it is told to and
//! reports back what it observed.

pub mod errors;
pub mod plan;
pub mod protocol;
pub mod model;
pub mod export;
pub mod import;
pub mod laws;
