//! User storage policy configuration.
use vstd::prelude::*;

verus! {

/// User configurations.
#[derive(Debug, PartialEq, Eq)]
pub struct UserConfig {
    /// Whether to keep user information in the at-rest credential file.
    pub save_user: bool,
}

impl Default for UserConfig {
    fn default() -> (c: Self)
        ensures
            !c.save_user,
    {
        Self { save_user: false }
    }
}

} // verus!
