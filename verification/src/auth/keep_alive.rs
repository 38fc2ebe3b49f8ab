//! The keep-alive phase: the 38-byte heartbeat, the three sub-variants of the
//! 40-byte heartbeat, the wrapping sequence counter, and the state machine of
//! one keep-alive round. Sending and receiving happens outside; the round
//! machine is fed each response and answers with the next step.
use crate::auth::data::{AliveType, DrContextData};
use crate::common::data::{crc, spec_crc, zeros};
use crate::common::rng::random_byte;
use vstd::prelude::*;

verus! {

/// The 38-byte keep-alive packet: a tag byte, the first keyed hash, zero
/// padding, the login tail, and two random bytes.
pub open spec fn spec_keep_alive_38(md5a: Seq<u8>, tail: Seq<u8>, r1: u8, r2: u8) -> Seq<u8> {
    seq![0xffu8] + md5a + zeros(3) + tail + seq![r1, r2]
}

/// Byte 5 of a 40-byte keep-alive: 0x01 for FIRST and EXTRA, 0x03 for SECOND.
pub open spec fn ka40_type_byte(t: AliveType) -> u8 {
    match t {
        AliveType::SECOND => 0x03,
        _ => 0x01,
    }
}

/// Bytes 6 and 7 of a 40-byte keep-alive: a fixed marker pair for EXTRA, the
/// negotiated keep-alive version pair otherwise.
pub open spec fn ka40_version_bytes(t: AliveType, version: (u8, u8)) -> (u8, u8) {
    match t {
        AliveType::EXTRA => (0x0fu8, 0x27u8),
        _ => version,
    }
}

/// The first 24 bytes of a 40-byte keep-alive packet, common to all three
/// sub-variants.
pub open spec fn spec_keep_alive_40_header(
    t: AliveType,
    count: u8,
    tail_2: Seq<u8>,
    version: (u8, u8),
    r1: u8,
    r2: u8,
) -> Seq<u8> {
    let v = ka40_version_bytes(t, version);
    seq![0x07u8, count, 0x20u8, 0x00u8, 0x0bu8, ka40_type_byte(t), v.0, v.1, r1, r2] + zeros(6)
        + tail_2 + zeros(4)
}

/// The full 40-byte keep-alive packet. The SECOND sub-variant additionally
/// carries the folding CRC of its first 24 bytes concatenated with the client
/// address, followed by the client address itself.
pub open spec fn spec_keep_alive_40(
    t: AliveType,
    count: u8,
    tail_2: Seq<u8>,
    client_ip: Seq<u8>,
    version: (u8, u8),
    r1: u8,
    r2: u8,
) -> Seq<u8> {
    let h = spec_keep_alive_40_header(t, count, tail_2, version, r1, r2);
    match t {
        AliveType::SECOND => h + spec_crc(h + client_ip) + client_ip + zeros(8),
        _ => h + zeros(16),
    }
}

/// Builds the 38-byte keep-alive packet from the session's first keyed hash
/// and login tail, with the given random filler bytes.
pub fn build_keep_alive_38(md5a: &Vec<u8>, tail: &Vec<u8>, r1: u8, r2: u8) -> (r: Vec<u8>)
    requires
        md5a@.len() == 16,
        tail@.len() == 16,
    ensures
        r@ == spec_keep_alive_38(md5a@, tail@, r1, r2),
        r@.len() == 38,
{
    let mut data: Vec<u8> = Vec::new();
    crate::auth::packet::push1(&mut data, 0xff);
    crate::auth::packet::push_vec(&mut data, md5a);
    crate::auth::packet::push_zeros(&mut data, 3);
    crate::auth::packet::push_vec(&mut data, tail);
    crate::auth::packet::push2(&mut data, r1, r2);
    data
}

/// Builds one 40-byte keep-alive packet of the given sub-variant from the
/// session state, with the given sequence counter value and random filler
/// bytes.
pub fn build_keep_alive_40(
    t: AliveType,
    count: u8,
    tail_2: &Vec<u8>,
    client_ip: &Vec<u8>,
    version: (u8, u8),
    r1: u8,
    r2: u8,
) -> (r: Vec<u8>)
    requires
        tail_2@.len() == 4,
        client_ip@.len() == 4,
    ensures
        r@ == spec_keep_alive_40(t, count, tail_2@, client_ip@, version, r1, r2),
        r@.len() == 40,
{
    let mut data: Vec<u8> = Vec::new();
    crate::auth::packet::push2(&mut data, 0x07, count);
    crate::auth::packet::push2(&mut data, 0x20, 0x00);
    crate::auth::packet::push1(&mut data, 0x0b);
    let tb: u8 = match t {
        AliveType::SECOND => 0x03,
        _ => 0x01,
    };
    crate::auth::packet::push1(&mut data, tb);
    let (v0, v1): (u8, u8) = match t {
        AliveType::EXTRA => (0x0f, 0x27),
        _ => version,
    };
    crate::auth::packet::push2(&mut data, v0, v1);
    crate::auth::packet::push2(&mut data, r1, r2);
    crate::auth::packet::push_zeros(&mut data, 6);
    crate::auth::packet::push_vec(&mut data, tail_2);
    crate::auth::packet::push_zeros(&mut data, 4);
    let ghost header = spec_keep_alive_40_header(t, count, tail_2@, version, r1, r2);
    proof {
        assert(data@ =~= header);
    }
    match t {
        AliveType::SECOND => {
            let mut crc_input = data.clone();
            proof {
                assert(crc_input@ =~= data@);
            }
            crate::auth::packet::push_vec(&mut crc_input, client_ip);
            let c = crc(crc_input.as_slice());
            crate::auth::packet::push_vec(&mut data, &c);
            crate::auth::packet::push_vec(&mut data, client_ip);
            crate::auth::packet::push_zeros(&mut data, 8);
        },
        _ => {
            crate::auth::packet::push_zeros(&mut data, 16);
        },
    }
    data
}

/// How the wrapping sequence counter moves on one 40-byte exchange: from 255
/// it returns to 0; as a byte it can be neither negative nor above 255.
pub open spec fn wrap_inc(c: u8) -> u8 {
    ((c as int + 1) % 256) as u8
}

/// The counter after `n` 40-byte exchanges.
pub open spec fn spec_count_after(c: u8, n: nat) -> u8
    decreases n,
{
    if n == 0 {
        c
    } else {
        wrap_inc(spec_count_after(c, (n - 1) as nat))
    }
}

/// The wrapped counter equals plain addition modulo 256.
pub proof fn lemma_count_after_mod(c: u8, n: nat)
    ensures
        spec_count_after(c, n) as int == (c as int + n) % 256,
    decreases n,
{
    if n > 0 {
        lemma_count_after_mod(c, (n - 1) as nat);
    }
}

/// The keep-alive sequence counter wraps: after 256 increments it returns to
/// its starting value.
pub proof fn lemma_sequence_counter_wraps(c: u8)
    ensures
        spec_count_after(c, 256) == c,
{
    lemma_count_after_mod(c, 256);
}

/// What the driver of a keep-alive round does next.
#[derive(Debug, Clone, Copy, PartialEq, Eq, Structural)]
pub enum KeepAliveStep {
    /// Send the 38-byte heartbeat and await its response.
    Alive38,
    /// Send the 40-byte heartbeat of the given sub-variant and await its
    /// response.
    Alive40(AliveType),
    /// The round is complete: sleep the round delay and start over.
    RoundDone,
}

/// The keep-alive phase machine: it builds each packet of a round, absorbs
/// each response into the session state, and decides the next step. A round
/// is: the 38-byte heartbeat; on rounds whose sequence count is divisible by
/// 21 an EXTRA 40-byte packet; then FIRST (whose response refreshes `tail_2`);
/// then SECOND. The sequence counter advances after every 40-byte exchange,
/// never after the 38-byte one.
#[derive(Debug, Clone, PartialEq, Eq)]
pub struct KeepAliveSender {
    /// The wrapping sequence counter carried in byte 1 of 40-byte packets.
    pub keep_40_count: u8,
}

impl KeepAliveSender {
    pub fn new() -> (s: Self)
        ensures
            s.keep_40_count == 0,
    {
        Self { keep_40_count: 0 }
    }

    /// Whether this round carries the EXTRA packet: exactly when the sequence
    /// count is divisible by 21, never on other rounds.
    pub fn needs_extra(&self) -> (b: bool)
        ensures
            b == (self.keep_40_count % 21 == 0),
    {
        self.keep_40_count % 21 == 0
    }

    /// Advances the sequence counter after a 40-byte exchange, wrapping from
    /// 255 back to 0.
    pub fn advance(&mut self)
        ensures
            final(self).keep_40_count == wrap_inc(old(self).keep_40_count),
    {
        if self.keep_40_count == 255 {
            self.keep_40_count = 0;
        } else {
            self.keep_40_count = self.keep_40_count + 1;
        }
    }

    /// The 38-byte heartbeat for the current session state, with fresh random
    /// filler bytes.
    pub fn get_keep_alive_data_38(&self, ctx: &DrContextData) -> (r: Vec<u8>)
        requires
            ctx.wf(),
        ensures
            r@ == spec_keep_alive_38(ctx.md5a@, ctx.tail@, r@[36], r@[37]),
            r@.len() == 38,
    {
        let r1 = random_byte();
        let r2 = random_byte();
        build_keep_alive_38(&ctx.md5a, &ctx.tail, r1, r2)
    }

    /// One 40-byte heartbeat of the given sub-variant for the current session
    /// state and sequence count, with fresh random filler bytes.
    pub fn get_keep_alive_data_40(&self, t: AliveType, ctx: &DrContextData) -> (r: Vec<u8>)
        requires
            ctx.wf(),
        ensures
            r@ == spec_keep_alive_40(
                t,
                self.keep_40_count,
                ctx.tail_2@,
                ctx.client_ip@,
                ctx.keep_alive_version,
                r@[8],
                r@[9],
            ),
            r@.len() == 40,
    {
        let r1 = random_byte();
        let r2 = random_byte();
        build_keep_alive_40(
            t,
            self.keep_40_count,
            &ctx.tail_2,
            &ctx.client_ip,
            ctx.keep_alive_version,
            r1,
            r2,
        )
    }

    /// The packet to send for the given step of a round, or nothing when the
    /// round is complete.
    pub fn packet_for(&self, step: KeepAliveStep, ctx: &DrContextData) -> (r: Option<Vec<u8>>)
        requires
            ctx.wf(),
        ensures
            step is Alive38 ==> (r matches Some(p) && p@ == spec_keep_alive_38(
                ctx.md5a@,
                ctx.tail@,
                p@[36],
                p@[37],
            )),
            step matches KeepAliveStep::Alive40(t) ==> (r matches Some(p) && p@
                == spec_keep_alive_40(
                t,
                self.keep_40_count,
                ctx.tail_2@,
                ctx.client_ip@,
                ctx.keep_alive_version,
                p@[8],
                p@[9],
            )),
            step is RoundDone ==> r is None,
    {
        match step {
            KeepAliveStep::Alive38 => Some(self.get_keep_alive_data_38(ctx)),
            KeepAliveStep::Alive40(t) => Some(self.get_keep_alive_data_40(t, ctx)),
            KeepAliveStep::RoundDone => None,
        }
    }

    /// Absorbs the response to the packet of `step` into the session state and
    /// decides the next step of the round: after the 38-byte exchange the
    /// EXTRA packet follows exactly when the sequence count is divisible by
    /// 21, otherwise FIRST; after EXTRA comes FIRST; after FIRST (which
    /// refreshes `tail_2`) comes SECOND; after SECOND the round is complete.
    /// The counter advances on each 40-byte exchange and only there.
    pub fn on_response(
        &mut self,
        step: KeepAliveStep,
        resp: &Vec<u8>,
        ctx: &mut DrContextData,
    ) -> (next: KeepAliveStep)
        requires
            old(ctx).wf(),
            !(step is RoundDone),
            step is Alive38 ==> resp@.len() >= 30,
            step == KeepAliveStep::Alive40(AliveType::FIRST) ==> resp@.len() >= 20,
        ensures
            final(ctx).wf(),
            step is Alive38 ==> {
                &&& next == if old(self).keep_40_count % 21 == 0 {
                    KeepAliveStep::Alive40(AliveType::EXTRA)
                } else {
                    KeepAliveStep::Alive40(AliveType::FIRST)
                }
                &&& *final(self) == *old(self)
                &&& final(ctx).keep_alive_version == (resp@[28], resp@[29])
                &&& final(ctx).salt == old(ctx).salt
                &&& final(ctx).client_ip == old(ctx).client_ip
                &&& final(ctx).md5a == old(ctx).md5a
                &&& final(ctx).tail == old(ctx).tail
                &&& final(ctx).tail_2 == old(ctx).tail_2
            },
            step == KeepAliveStep::Alive40(AliveType::EXTRA) ==> {
                &&& next == KeepAliveStep::Alive40(AliveType::FIRST)
                &&& final(self).keep_40_count == wrap_inc(old(self).keep_40_count)
                &&& *final(ctx) == *old(ctx)
            },
            step == KeepAliveStep::Alive40(AliveType::FIRST) ==> {
                &&& next == KeepAliveStep::Alive40(AliveType::SECOND)
                &&& final(self).keep_40_count == wrap_inc(old(self).keep_40_count)
                &&& final(ctx).tail_2@ == resp@.subrange(16, 20)
                &&& final(ctx).salt == old(ctx).salt
                &&& final(ctx).client_ip == old(ctx).client_ip
                &&& final(ctx).md5a == old(ctx).md5a
                &&& final(ctx).tail == old(ctx).tail
                &&& final(ctx).keep_alive_version == old(ctx).keep_alive_version
            },
            step == KeepAliveStep::Alive40(AliveType::SECOND) ==> {
                &&& next == KeepAliveStep::RoundDone
                &&& final(self).keep_40_count == wrap_inc(old(self).keep_40_count)
                &&& *final(ctx) == *old(ctx)
            },
    {
        match step {
            KeepAliveStep::Alive38 => {
                ctx.apply_keep_alive_38_response(resp);
                if self.needs_extra() {
                    KeepAliveStep::Alive40(AliveType::EXTRA)
                } else {
                    KeepAliveStep::Alive40(AliveType::FIRST)
                }
            },
            KeepAliveStep::Alive40(AliveType::EXTRA) => {
                self.advance();
                KeepAliveStep::Alive40(AliveType::FIRST)
            },
            KeepAliveStep::Alive40(AliveType::FIRST) => {
                ctx.apply_keep_alive_first_response(resp);
                self.advance();
                KeepAliveStep::Alive40(AliveType::SECOND)
            },
            KeepAliveStep::Alive40(AliveType::SECOND) => {
                self.advance();
                KeepAliveStep::RoundDone
            },
            KeepAliveStep::RoundDone => KeepAliveStep::RoundDone,
        }
    }
}

} // verus!
