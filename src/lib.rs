//! Detection of the JavaScript package manager that a project uses, from the
//! `packageManager` declaration of its manifest or from the lockfiles on disk,
//! and the decisions around forwarding a command to it.
pub mod cli;
pub mod command_executor;
pub mod config;
pub mod managers;
pub mod manifest;
pub mod package_detector;
pub mod script_handler;
pub mod text;
