//! Retry policy configuration.
use vstd::prelude::*;

verus! {

/// Common configurations.
#[derive(Debug, PartialEq, Eq)]
pub struct CommonConfig {
    /// How many times to retry a failed run; `None` retries forever.
    pub retry: Option<u64>,
    /// Seconds between a failed run and the next attempt.
    pub retry_interval: u64,
}

impl CommonConfig {
    /// The retry interval used when the configuration names none.
    pub fn default_retry_interval() -> (r: u64)
        ensures
            r == 5,
    {
        5
    }
}

impl Default for CommonConfig {
    fn default() -> (c: Self)
        ensures
            c.retry is None,
            c.retry_interval == 5,
    {
        Self { retry: None, retry_interval: CommonConfig::default_retry_interval() }
    }
}

} // verus!
