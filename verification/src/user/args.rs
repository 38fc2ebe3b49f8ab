//! Arguments of the credential-file subcommands, as plain data. The
//! command-line parser itself lives outside the library and hands these in.
use vstd::prelude::*;

verus! {

/// Arguments of the user subcommand family.
#[derive(Debug, Clone, PartialEq, Eq)]
pub struct UserArgs {
    pub command: UserCommand,
}

/// Operations on user authentication files.
#[derive(Debug, Clone, PartialEq, Eq)]
pub enum UserCommand {
    /// Create a new user authentication file.
    Create(UserCreateArgs),
    /// Inspect an existing user authentication file.
    Inspect(UserInspectArgs),
}

/// Arguments for creating a user authentication file.
#[derive(Debug, Clone, PartialEq, Eq)]
pub struct UserCreateArgs {
    /// The username to create.
    pub username: String,
    /// The password to use.
    pub password: String,
    /// The MAC address to use.
    pub mac: String,
    /// The file to write the user authentication to.
    pub file: String,
}

/// Arguments for inspecting a user authentication file.
#[derive(Debug, Clone, PartialEq, Eq)]
pub struct UserInspectArgs {
    /// The user authentication file to inspect.
    pub file: String,
}

} // verus!
