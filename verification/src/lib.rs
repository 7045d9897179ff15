//! Verified core of a file-copy utility.
//!
//! The library models the logic of a copy run: enumerating the files of a
//! source tree, aggregating their sizes, deriving destination and staging
//! paths, planning the per-file copy steps (protected or fast mode), tracking
//! progress, and driving the run as a small state machine.  Terminal
//! rendering, signal delivery and the actual filesystem calls live outside
//! the library and consume the values it computes.

pub mod aggregate;
pub mod cancel;
pub mod orchestrate;
pub mod paths;
pub mod progress;
pub mod request;
pub mod steps;
pub mod textfmt;
pub mod tree;
