use vstd::prelude::*;

pub mod common;
pub mod interface;
pub mod user;

verus! {

/// Application configuration: the retry policy, the user storage policy and
/// the network endpoints. Loading it from a TOML file happens outside the
/// library, which receives the plain values.
#[derive(Debug, PartialEq, Eq)]
pub struct Config {
    /// Common configurations.
    pub common: crate::config::common::CommonConfig,
    /// User configurations.
    pub user: crate::config::user::UserConfig,
    /// Interface configurations.
    pub interface: crate::config::interface::InterfaceConfig,
}

} // verus!
