//! The common context: configuration plus the runtime session fields, zeroed
//! at creation.
use crate::common::data::zeros;
use crate::config::common::CommonConfig;
use vstd::prelude::*;

verus! {

/// Configuration and runtime session data of one authentication run.
#[derive(Debug, PartialEq, Eq)]
pub struct CommonContext {
    pub config: CommonConfig,
    /// 4-byte value issued by the challenge response.
    pub salt: Vec<u8>,
    /// 4-byte address negotiated by the challenge response.
    pub client_ip: Vec<u8>,
    /// First keyed hash, computed while the login packet is built.
    pub md5a: Vec<u8>,
    /// 16-byte opaque block issued by the login response.
    pub tail: Vec<u8>,
    /// 4-byte opaque block issued by the FIRST keep-alive response.
    pub tail_2: Vec<u8>,
    /// Version pair issued by the 38-byte keep-alive response.
    pub keep_alive_version: (u8, u8),
}

impl CommonContext {
    /// A fresh context with every runtime field zeroed.
    pub fn new(config: CommonConfig) -> (c: Self)
        ensures
            c.config == config,
            c.salt@ == zeros(4),
            c.client_ip@ == zeros(4),
            c.md5a@ == zeros(16),
            c.tail@ == zeros(16),
            c.tail_2@ == zeros(4),
            c.keep_alive_version == (0u8, 0u8),
    {
        let c = CommonContext {
            config,
            salt: vec![0u8; 4],
            client_ip: vec![0u8; 4],
            md5a: vec![0u8; 16],
            tail: vec![0u8; 16],
            tail_2: vec![0u8; 4],
            keep_alive_version: (0, 0),
        };
        proof {
            assert(c.salt@ =~= zeros(4));
            assert(c.client_ip@ =~= zeros(4));
            assert(c.md5a@ =~= zeros(16));
            assert(c.tail@ =~= zeros(16));
            assert(c.tail_2@ =~= zeros(4));
        }
        c
    }
}

} // verus!
