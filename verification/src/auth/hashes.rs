//! The protocol's chained keyed-hash scheme: three values derived from a
//! standard 128-bit message digest over exact input orderings of tag bytes,
//! the server salt, the password and login packet bytes.
use crate::common::data::zeros;
use vstd::prelude::*;

verus! {

/// What the 128-bit message digest primitive returns for the given input
/// bytes; a function of the input alone.
pub uninterp spec fn md5_of(input: Seq<u8>) -> Seq<u8>;

/// `s` adjusted to exactly `w` bytes: truncated if longer, NUL-padded if
/// shorter.
pub open spec fn pad_to(s: Seq<u8>, w: nat) -> Seq<u8> {
    if s.len() >= w {
        s.take(w as int)
    } else {
        s + zeros((w - s.len()) as nat)
    }
}

/// The message digest as a 16-byte value. The digest is always 16 bytes long,
/// so the adjustment never changes it; it only makes the length plain in
/// specifications.
pub open spec fn digest16(input: Seq<u8>) -> Seq<u8> {
    pad_to(md5_of(input), 16)
}

/// Relies on md5::compute: the 16-byte digest of the input bytes, a function
/// of the input alone.
#[verifier::external_body]
fn md5_digest(input: &Vec<u8>) -> (r: Vec<u8>)
    ensures
        r@ == md5_of(input@),
        r@.len() == 16,
{
    md5::compute(input.as_slice()).0.to_vec()
}

/// Input of the first keyed hash: two tag bytes, the server salt, then the
/// password.
pub open spec fn md5a_input(salt: Seq<u8>, password: Seq<u8>) -> Seq<u8> {
    seq![0x03u8, 0x01u8] + salt + password
}

/// Input of the second keyed hash: a tag byte, the password, the salt, then
/// four zero bytes.
pub open spec fn md5b_input(password: Seq<u8>, salt: Seq<u8>) -> Seq<u8> {
    seq![0x01u8] + password + salt + zeros(4)
}

/// Input of the third keyed hash: the first 97 login packet bytes, then four
/// fixed tail bytes.
pub open spec fn md5c_input(prefix: Seq<u8>) -> Seq<u8> {
    prefix + seq![0x14u8, 0x00u8, 0x07u8, 0x0bu8]
}

/// The first keyed hash, mixed into several login packet fields.
pub fn compute_md5a(salt: &Vec<u8>, password: &Vec<u8>) -> (r: Vec<u8>)
    ensures
        r@ == digest16(md5a_input(salt@, password@)),
        r@.len() == 16,
{
    let mut input: Vec<u8> = Vec::new();
    input.push(0x03);
    input.push(0x01);
    input.extend_from_slice(salt.as_slice());
    input.extend_from_slice(password.as_slice());
    proof {
        assert(input@ =~= md5a_input(salt@, password@));
    }
    let r = md5_digest(&input);
    proof {
        assert(r@ =~= digest16(md5a_input(salt@, password@)));
    }
    r
}

/// The second keyed hash, embedded at bytes 64..80 of the login packet.
pub fn compute_md5b(password: &Vec<u8>, salt: &Vec<u8>) -> (r: Vec<u8>)
    ensures
        r@ == digest16(md5b_input(password@, salt@)),
        r@.len() == 16,
{
    let mut input: Vec<u8> = Vec::new();
    input.push(0x01);
    input.extend_from_slice(password.as_slice());
    input.extend_from_slice(salt.as_slice());
    let mut z: Vec<u8> = vec![0u8; 4];
    input.append(&mut z);
    proof {
        assert(input@ =~= md5b_input(password@, salt@));
    }
    let r = md5_digest(&input);
    proof {
        assert(r@ =~= digest16(md5b_input(password@, salt@)));
    }
    r
}

/// The third keyed hash, over the first 97 login packet bytes; only its first
/// 8 bytes enter the packet.
pub fn compute_md5c(prefix: &Vec<u8>) -> (r: Vec<u8>)
    ensures
        r@ == digest16(md5c_input(prefix@)),
        r@.len() == 16,
{
    let mut input: Vec<u8> = prefix.clone();
    proof {
        assert(input@ =~= prefix@);
    }
    input.push(0x14);
    input.push(0x00);
    input.push(0x07);
    input.push(0x0b);
    proof {
        assert(input@ =~= md5c_input(prefix@));
    }
    let r = md5_digest(&input);
    proof {
        assert(r@ =~= digest16(md5c_input(prefix@)));
    }
    r
}

} // verus!
