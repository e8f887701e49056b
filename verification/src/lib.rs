//! Resolves, installs and runs the command-line tools that prepare a Rust project.

pub mod cmd;
pub mod config;
pub mod date;
pub mod environment;
pub mod error;
pub mod host;
pub mod invocation;
pub mod manifest;
pub mod path;
pub mod requirement;
pub mod session;
pub mod text;
pub mod tools;
pub mod toolset;
pub mod ui;
pub mod version;
