//! Execution engine of a build pipeline server: the registry of running
//! executions, the log stream and its tailer, the step runner with its
//! container lifecycle, and the per-connection protocol.

pub mod types;
pub mod text;
pub mod logs;
pub mod registry;
pub mod pipeline;
pub mod container;
pub mod runner;
pub mod socket;
pub mod config;
pub mod commands;
pub mod endpoints;
