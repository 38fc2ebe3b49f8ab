//! Locations of the configuration and user data files, as plain path strings.
use vstd::prelude::*;

verus! {

/// Paths the application reads its files from. The library only carries them;
/// resolving platform directories and opening files happens outside.
#[derive(Debug, Clone, PartialEq, Eq)]
pub struct JludPath {
    /// Path to the configuration file.
    pub config: String,
    /// Path to the user data file.
    pub user: String,
}

impl JludPath {
    pub fn new(config: String, user: String) -> (p: Self)
        ensures
            p.config == config,
            p.user == user,
    {
        Self { config, user }
    }
}

} // verus!
