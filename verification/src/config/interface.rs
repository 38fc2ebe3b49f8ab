//! Network endpoint configuration: addresses, ports and the receive timeout.
//! Picking a default interface name means enumerating OS interfaces, which
//! happens outside the library.
use vstd::prelude::*;

verus! {

/// Interface configurations.
#[derive(Debug, PartialEq, Eq)]
pub struct InterfaceConfig {
    /// The network interface whose MAC address the login packet carries.
    pub interface: String,
    /// Local UDP address to bind.
    pub local_address: String,
    /// Local UDP port to bind; 0 asks the OS for an ephemeral port.
    pub local_port: u16,
    /// Remote UDP address of the authentication server.
    pub remote_address: String,
    /// Remote UDP port of the authentication server.
    pub remote_port: u16,
    /// Per-receive timeout in seconds.
    pub timeout: u64,
}

impl InterfaceConfig {
    /// The local bind address used when the configuration names none.
    pub fn default_local_address() -> (r: String)
        ensures
            r@ == "0.0.0.0"@,
    {
        "0.0.0.0".to_owned()
    }

    /// The local port used when the configuration names none: an ephemeral
    /// one.
    pub fn default_local_port() -> (r: u16)
        ensures
            r == 0,
    {
        0
    }

    /// The server address of the observed deployment.
    pub fn default_remote_address() -> (r: String)
        ensures
            r@ == "10.100.61.3"@,
    {
        "10.100.61.3".to_owned()
    }

    /// The server port of the observed deployment.
    pub fn default_remote_port() -> (r: u16)
        ensures
            r == 61440,
    {
        61440
    }

    /// The per-receive timeout used when the configuration names none.
    pub fn default_timeout() -> (r: u64)
        ensures
            r == 5,
    {
        5
    }
}

} // verus!
