//! The user context: storage policy and the collected username and password.
//! Prompting and file I/O happen outside the library.
use crate::config::user::UserConfig;
use vstd::prelude::*;

verus! {

/// Storage policy and collected user information of one run.
#[derive(Debug, PartialEq, Eq)]
pub struct UserContext {
    pub config: UserConfig,
    pub username: String,
    pub password: String,
}

impl UserContext {
    /// A fresh context with no user information collected yet.
    pub fn new(config: UserConfig) -> (c: Self)
        ensures
            c.config == config,
            c.username@.len() == 0,
            c.password@.len() == 0,
    {
        proof {
            reveal_strlit("");
        }
        Self { config, username: "".to_owned(), password: "".to_owned() }
    }
}

} // verus!
