//! Commit-message generation: glob-based exclusion of changed files, a
//! gateway over several chat-completion providers, and the decisions of the
//! commit workflow.

pub mod config;
pub mod error;
pub mod file_pattern;
pub mod gateway;
pub mod providers;
pub mod settings;
pub mod text;
pub mod types;
pub mod version;
pub mod workflow;
