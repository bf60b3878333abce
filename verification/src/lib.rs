//! Incremental build decisions for small C and C++ projects.

pub mod cache;
pub mod commands;
pub mod compiler;
pub mod data;
pub mod editors;
pub mod error;
pub mod flags;
pub mod git;
pub mod invocation;
pub mod language;
pub mod options;
pub mod paths;
pub mod platform;
pub mod project;
pub mod scaffold;
pub mod selector;
pub mod session;
pub mod text;
pub mod usage;
