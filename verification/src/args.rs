//! Top-level command arguments, as plain data. The command-line parser lives
//! outside the library and hands these in.
use vstd::prelude::*;

verus! {

/// The parsed command line.
#[derive(Debug, Clone, PartialEq, Eq)]
pub struct Args {
    pub command: ArgsCommand,
}

/// The two subcommand families.
#[derive(Debug, Clone, PartialEq, Eq)]
pub enum ArgsCommand {
    /// Authenticate a user.
    Auth(crate::cli::Cli),
    /// Operate on user authentication files.
    User(crate::user::args::UserArgs),
}

} // verus!
