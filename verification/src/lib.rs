//! Decision logic of a webhook-driven build, export and upload pipeline.
//!
//! The crate holds the rules only: how an image reference is resolved, how a
//! process exit is classified, when the readiness wait gives up, which files of
//! an export directory are uploaded under which key, and how the stages combine
//! into one outcome. Running processes, walking directories and talking to the
//! object store is left to the caller, which feeds the results back as events.

pub mod config;
pub mod laws;
pub mod lifecycle;
pub mod outcome;
pub mod pipeline;
pub mod process;
pub mod stage;
pub mod text;
pub mod upload;
