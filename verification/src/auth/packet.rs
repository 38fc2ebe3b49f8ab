//! Byte-buffer building blocks of the packet codec, and the challenge packet
//! itself: every packet is assembled as a concatenation of named segments
//! instead of ad hoc fixed-offset writes, so each builder's output equals its
//! specification segment by segment.
use crate::common::data::zeros;
use vstd::prelude::*;

verus! {

/// A copy of `v[from..to]`.
pub fn copy_range(v: &Vec<u8>, from: usize, to: usize) -> (r: Vec<u8>)
    requires
        from <= to <= v@.len(),
    ensures
        r@ == v@.subrange(from as int, to as int),
{
    let mut r: Vec<u8> = Vec::new();
    let mut i: usize = from;
    while i < to
        invariant
            from <= i <= to <= v@.len(),
            r@ == v@.subrange(from as int, i as int),
        decreases to - i,
    {
        r.push(v[i]);
        proof {
            assert(v@.subrange(from as int, i + 1) =~= v@.subrange(from as int, i as int).push(
                v@[i as int],
            ));
        }
        i += 1;
    }
    r
}

/// Appends `n` zero bytes.
pub(crate) fn push_zeros(v: &mut Vec<u8>, n: usize)
    ensures
        final(v)@ == old(v)@ + zeros(n as nat),
{
    let mut z: Vec<u8> = vec![0u8; n];
    proof {
        assert(z@ =~= zeros(n as nat));
    }
    v.append(&mut z);
}

/// Appends one byte, as a one-byte segment.
pub(crate) fn push1(v: &mut Vec<u8>, a: u8)
    ensures
        final(v)@ == old(v)@ + seq![a],
{
    v.push(a);
    proof {
        assert(old(v)@.push(a) =~= old(v)@ + seq![a]);
    }
}

/// Appends a two-byte segment.
pub(crate) fn push2(v: &mut Vec<u8>, a: u8, b: u8)
    ensures
        final(v)@ == old(v)@ + seq![a, b],
{
    v.push(a);
    v.push(b);
    proof {
        assert(old(v)@.push(a).push(b) =~= old(v)@ + seq![a, b]);
    }
}

/// Appends a four-byte segment.
pub(crate) fn push4(v: &mut Vec<u8>, a: u8, b: u8, c: u8, d: u8)
    ensures
        final(v)@ == old(v)@ + seq![a, b, c, d],
{
    v.push(a);
    v.push(b);
    v.push(c);
    v.push(d);
    proof {
        assert(old(v)@.push(a).push(b).push(c).push(d) =~= old(v)@ + seq![a, b, c, d]);
    }
}

/// Appends all of `s`.
pub(crate) fn push_vec(v: &mut Vec<u8>, s: &Vec<u8>)
    ensures
        final(v)@ == old(v)@ + s@,
{
    v.extend_from_slice(s.as_slice());
}

/// Appends the first `n` bytes of `s`.
pub(crate) fn push_prefix(v: &mut Vec<u8>, s: &Vec<u8>, n: usize)
    requires
        n <= s@.len(),
    ensures
        final(v)@ == old(v)@ + s@.take(n as int),
{
    let mut i: usize = 0;
    while i < n
        invariant
            i <= n <= s@.len(),
            v@ == old(v)@ + s@.take(i as int),
        decreases n - i,
    {
        v.push(s[i]);
        proof {
            assert(old(v)@ + s@.take(i + 1) =~= (old(v)@ + s@.take(i as int)).push(s@[i as int]));
        }
        i += 1;
    }
}

/// Appends `s` adjusted to exactly `w` bytes: truncated if longer, NUL-padded
/// if shorter.
pub(crate) fn push_padded(v: &mut Vec<u8>, s: &Vec<u8>, w: usize)
    ensures
        final(v)@ == old(v)@ + crate::auth::hashes::pad_to(s@, w as nat),
{
    if s.len() >= w {
        push_prefix(v, s, w);
    } else {
        push_vec(v, s);
        push_zeros(v, w - s.len());
        proof {
            assert((old(v)@ + s@) + zeros((w - s@.len()) as nat) =~= old(v)@ + (s@ + zeros(
                (w as nat - s@.len()) as nat,
            )));
        }
    }
}

/// The 20-byte challenge request: a request tag, the attempt counter folded
/// into the second byte, two random bytes, a fixed marker and zero padding.
pub open spec fn spec_challenge_request(attempt: u8, r1: u8, r2: u8) -> Seq<u8> {
    seq![0x01u8, (0x02 + attempt) as u8, r1, r2, 0x6au8] + zeros(15)
}

/// Builds the challenge request for the given attempt number with the given
/// random filler bytes.
pub fn build_challenge_request(attempt: u8, r1: u8, r2: u8) -> (r: Vec<u8>)
    requires
        attempt < 5,
    ensures
        r@ == spec_challenge_request(attempt, r1, r2),
        r@.len() == 20,
{
    let mut data: Vec<u8> = Vec::new();
    data.push(0x01);
    data.push(0x02 + attempt);
    data.push(r1);
    data.push(r2);
    data.push(0x6a);
    proof {
        assert(data@ =~= seq![0x01u8, (0x02 + attempt) as u8, r1, r2, 0x6au8]);
    }
    push_zeros(&mut data, 15);
    data
}

/// Whether a challenge response accepts the request: its tag byte is 0x02. Any
/// other tag is a soft failure and the attempt is retried.
pub open spec fn challenge_accepts(resp: Seq<u8>) -> bool {
    resp[0] == 0x02
}

/// The server salt carried at bytes 4..8 of an accepting challenge response.
pub open spec fn challenge_salt(resp: Seq<u8>) -> Seq<u8> {
    resp.subrange(4, 8)
}

/// The negotiated client address at bytes 20..24 of an accepting challenge
/// response.
pub open spec fn challenge_client_ip(resp: Seq<u8>) -> Seq<u8> {
    resp.subrange(20, 24)
}

} // verus!
