//! Repository lifecycle core of a local time-tracking tool.
//!
//! The tool keeps its data inside a version-controlled repository at a
//! well-known location, `<data_dir>/repo`. This crate holds the logic that
//! creates, populates and destroys that repository:
//!
//! * [`progress::ProgressNode`] — a nestable counter-with-maximum through
//!   which every long-running operation reports its progress;
//! * [`reaper::DirectoryReaper`] — the recursive deletion walk behind the
//!   destroy operation, expressed as a step machine so that a caller can
//!   perform the actual filesystem actions;
//! * [`repo::Repo`] — the four lifecycle operations (init, sync, clone,
//!   destroy) with their decision logic and error mapping;
//! * [`error::Error`] — the error taxonomy shared by all operations.
//!
//! Filesystem and network actions themselves are carried out by the caller;
//! this crate decides which action comes next and accounts for the outcome.

pub mod cli;
pub mod commands;
pub mod config;
pub mod engine;
pub mod error;
pub mod fs_model;
pub mod progress;
pub mod reaper;
pub mod repo;
pub mod sourcing;
