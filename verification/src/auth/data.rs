//! Mutable session state accumulated across the protocol's lifetime, and the
//! three sub-variants of the 40-byte keep-alive packet.
use crate::auth::packet::{challenge_client_ip, challenge_salt};
use crate::common::data::zeros;
use vstd::prelude::*;

verus! {

/// The three sub-variants of the 40-byte keep-alive packet.
#[derive(Debug, Clone, Copy, PartialEq, Eq, Structural)]
pub enum AliveType {
    FIRST,
    SECOND,
    EXTRA,
}

/// Runtime session data: every field is zeroed at the start of an
/// authentication attempt and filled in as server responses arrive. `salt` and
/// `client_ip` are valid only after a successful challenge; `md5a` and `tail`
/// only after a successful login.
#[derive(Debug, PartialEq, Eq)]
pub struct DrContextData {
    /// 4-byte value issued by the challenge response; mixed into the hashes.
    pub salt: Vec<u8>,
    /// 4-byte address negotiated by the challenge response.
    pub client_ip: Vec<u8>,
    /// First keyed hash, computed while the login packet is built.
    pub md5a: Vec<u8>,
    /// 16-byte opaque block issued by the login response.
    pub tail: Vec<u8>,
    /// 4-byte opaque block issued by the FIRST keep-alive response.
    pub tail_2: Vec<u8>,
    /// Version pair issued by the 38-byte keep-alive response.
    pub keep_alive_version: (u8, u8),
}

impl DrContextData {
    /// The fixed field widths the protocol prescribes.
    pub open spec fn wf(self) -> bool {
        &&& self.salt@.len() == 4
        &&& self.client_ip@.len() == 4
        &&& self.md5a@.len() == 16
        &&& self.tail@.len() == 16
        &&& self.tail_2@.len() == 4
    }

    /// The initial value: all bytes zero.
    pub open spec fn zeroed(self) -> bool {
        &&& self.salt@ == zeros(4)
        &&& self.client_ip@ == zeros(4)
        &&& self.md5a@ == zeros(16)
        &&& self.tail@ == zeros(16)
        &&& self.tail_2@ == zeros(4)
        &&& self.keep_alive_version == (0u8, 0u8)
    }

    pub fn new() -> (d: Self)
        ensures
            d.wf(),
            d.zeroed(),
    {
        let d = DrContextData {
            salt: vec![0u8; 4],
            client_ip: vec![0u8; 4],
            md5a: vec![0u8; 16],
            tail: vec![0u8; 16],
            tail_2: vec![0u8; 4],
            keep_alive_version: (0, 0),
        };
        proof {
            assert(d.salt@ =~= zeros(4));
            assert(d.client_ip@ =~= zeros(4));
            assert(d.md5a@ =~= zeros(16));
            assert(d.tail@ =~= zeros(16));
            assert(d.tail_2@ =~= zeros(4));
        }
        d
    }

    /// Returns the state to its initial zeroed value. A retry that restarts
    /// the whole flow must call this first: stale salt or tail bytes from a
    /// previous failed attempt must never be reused across a full restart.
    pub fn reset(&mut self)
        ensures
            final(self).wf(),
            final(self).zeroed(),
    {
        *self = DrContextData::new();
    }

    /// Absorbs an accepting challenge response: the salt from bytes 4..8 and
    /// the negotiated client address from bytes 20..24.
    pub fn apply_challenge_response(&mut self, resp: &Vec<u8>)
        requires
            resp@.len() >= 24,
            old(self).wf(),
        ensures
            final(self).wf(),
            final(self).salt@ == challenge_salt(resp@),
            final(self).client_ip@ == challenge_client_ip(resp@),
            final(self).md5a == old(self).md5a,
            final(self).tail == old(self).tail,
            final(self).tail_2 == old(self).tail_2,
            final(self).keep_alive_version == old(self).keep_alive_version,
    {
        self.salt = crate::auth::packet::copy_range(resp, 4, 8);
        self.client_ip = crate::auth::packet::copy_range(resp, 20, 24);
    }

    /// Records the first keyed hash computed while building the login packet.
    pub fn set_md5a(&mut self, md5a: Vec<u8>)
        requires
            old(self).wf(),
            md5a@.len() == 16,
        ensures
            final(self).wf(),
            final(self).md5a == md5a,
            final(self).salt == old(self).salt,
            final(self).client_ip == old(self).client_ip,
            final(self).tail == old(self).tail,
            final(self).tail_2 == old(self).tail_2,
            final(self).keep_alive_version == old(self).keep_alive_version,
    {
        self.md5a = md5a;
    }

    /// Absorbs a successful login response: the opaque tail from bytes 23..39.
    pub fn apply_login_tail(&mut self, resp: &Vec<u8>)
        requires
            resp@.len() >= 39,
            old(self).wf(),
        ensures
            final(self).wf(),
            final(self).tail@ == resp@.subrange(23, 39),
            final(self).salt == old(self).salt,
            final(self).client_ip == old(self).client_ip,
            final(self).md5a == old(self).md5a,
            final(self).tail_2 == old(self).tail_2,
            final(self).keep_alive_version == old(self).keep_alive_version,
    {
        self.tail = crate::auth::packet::copy_range(resp, 23, 39);
    }

    /// Absorbs a 38-byte keep-alive response: the negotiated keep-alive
    /// version pair from bytes 28 and 29.
    pub fn apply_keep_alive_38_response(&mut self, resp: &Vec<u8>)
        requires
            resp@.len() >= 30,
            old(self).wf(),
        ensures
            final(self).wf(),
            final(self).keep_alive_version == (resp@[28], resp@[29]),
            final(self).salt == old(self).salt,
            final(self).client_ip == old(self).client_ip,
            final(self).md5a == old(self).md5a,
            final(self).tail == old(self).tail,
            final(self).tail_2 == old(self).tail_2,
    {
        self.keep_alive_version = (resp[28], resp[29]);
    }

    /// Absorbs the response to a FIRST 40-byte keep-alive: the fresh opaque
    /// block from bytes 16..20.
    pub fn apply_keep_alive_first_response(&mut self, resp: &Vec<u8>)
        requires
            resp@.len() >= 20,
            old(self).wf(),
        ensures
            final(self).wf(),
            final(self).tail_2@ == resp@.subrange(16, 20),
            final(self).salt == old(self).salt,
            final(self).client_ip == old(self).client_ip,
            final(self).md5a == old(self).md5a,
            final(self).tail == old(self).tail,
            final(self).keep_alive_version == old(self).keep_alive_version,
    {
        self.tail_2 = crate::auth::packet::copy_range(resp, 16, 20);
    }
}

impl Default for DrContextData {
    fn default() -> (d: Self)
        ensures
            d.wf(),
            d.zeroed(),
    {
        DrContextData::new()
    }
}

} // verus!
