//! The authentication command and its user-information step, as data and
//! decisions. The driver that owns the socket and the prompts lives outside
//! the library: it runs `AuthImpl` under a retry guard, and inside one run it
//! collects user information, performs the challenge, the login, and then the
//! keep-alive rounds under a repeat guard.
use vstd::prelude::*;

verus! {

/// The authentication command: one full flow under the configured retry
/// policy.
#[derive(Debug, Clone, PartialEq, Eq, Structural)]
pub struct Auth;

/// One authentication run: collect user information, challenge, login, then
/// keep-alive forever.
#[derive(Debug, Clone, PartialEq, Eq, Structural)]
pub struct AuthImpl;

/// How user information is to be collected.
#[derive(Debug, Clone, Copy, PartialEq, Eq, Structural)]
pub enum UserInfoPlan {
    /// Load the saved user file; if that fails, prompt and then try to save
    /// what was entered.
    LoadThenPromptFallback,
    /// Prompt for username and password, saving nothing.
    PromptOnly,
}

/// The step that collects user information before the protocol starts.
#[derive(Debug, Clone, PartialEq, Eq, Structural)]
pub struct UserInfoCollector;

impl UserInfoCollector {
    pub fn new() -> (s: Self) {
        Self
    }

    /// Decides how user information is collected: from the saved user file
    /// (falling back to a prompt) exactly when saving is enabled, otherwise by
    /// prompting alone.
    pub fn plan(&self, save_user: bool) -> (p: UserInfoPlan)
        ensures
            p == if save_user {
                UserInfoPlan::LoadThenPromptFallback
            } else {
                UserInfoPlan::PromptOnly
            },
    {
        if save_user {
            UserInfoPlan::LoadThenPromptFallback
        } else {
            UserInfoPlan::PromptOnly
        }
    }
}

} // verus!
