//! The authentication command's surface, as plain data.
use vstd::prelude::*;

pub mod auth;

verus! {

/// Arguments of the authentication client.
#[derive(Debug, Clone, PartialEq, Eq)]
pub struct Cli {
    pub command: Command,
    /// Log level of the application shell.
    pub log_level: crate::common::LogLevel,
    /// Path to the configuration file, if given.
    pub config: Option<String>,
    /// Path to the user data file (no effect when `save_user` is false).
    pub user: Option<String>,
}

/// The authentication subcommands.
#[derive(Debug, Clone, PartialEq, Eq)]
pub enum Command {
    /// Run the authentication client.
    Auth(crate::cli::auth::Auth),
}

} // verus!
