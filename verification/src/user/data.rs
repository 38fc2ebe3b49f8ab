//! The authenticated identity: username, password and hardware MAC address,
//! and the parser that reads a MAC address from its colon-separated hex form.
use crate::common::data::zeros;
use crate::user::error::UserError;
use vstd::prelude::*;
use vstd::string::StringSliceAdditionalSpecFns;
use vstd::string::StrSliceExecFns;

verus! {

/// Whether a byte is an ASCII hex digit.
pub open spec fn is_hex_digit(c: u8) -> bool {
    (0x30 <= c <= 0x39) || (0x61 <= c <= 0x66) || (0x41 <= c <= 0x46)
}

/// The value of one ASCII hex digit.
pub open spec fn hex_digit_value(c: u8) -> int {
    if 0x30 <= c <= 0x39 {
        c - 0x30
    } else if 0x61 <= c <= 0x66 {
        c - 0x57
    } else {
        c - 0x37
    }
}

/// The numeric value of a hex numeral, most significant digit first.
pub open spec fn hex_value(s: Seq<u8>) -> int
    decreases s.len(),
{
    if s.len() == 0 {
        0
    } else {
        hex_value(s.drop_last()) * 16 + hex_digit_value(s.last())
    }
}

pub open spec fn all_hex_digits(s: Seq<u8>) -> bool {
    forall|i: int| 0 <= i < s.len() ==> is_hex_digit(#[trigger] s[i])
}

/// One colon-separated part of a MAC string: one or more hex digits whose
/// value fits a byte.
pub open spec fn spec_hex_byte(s: Seq<u8>) -> Option<u8> {
    if s.len() >= 1 && all_hex_digits(s) && hex_value(s) <= 255 {
        Some(hex_value(s) as u8)
    } else {
        None
    }
}

/// The index of the first colon byte, or -1 when there is none.
pub open spec fn first_colon(s: Seq<u8>) -> int
    decreases s.len(),
{
    if s.len() == 0 {
        -1
    } else if s[0] == 0x3a {
        0
    } else {
        let r = first_colon(s.drop_first());
        if r < 0 {
            -1
        } else {
            r + 1
        }
    }
}

/// MAC bytes read from the rest of a colon-separated hex string with `filled`
/// bytes already read: at most six parts in all, each a hex byte; parts not
/// given stay zero.
pub open spec fn spec_parse_mac_from(s: Seq<u8>, filled: Seq<u8>) -> Option<Seq<u8>>
    decreases s.len(),
{
    let k = first_colon(s);
    if filled.len() >= 6 {
        None
    } else if 0 <= k < s.len() {
        match spec_hex_byte(s.take(k)) {
            Some(v) => spec_parse_mac_from(s.skip(k + 1), filled.push(v)),
            None => None,
        }
    } else {
        match spec_hex_byte(s) {
            Some(v) => Some(filled.push(v) + zeros((6 - filled.len() - 1) as nat)),
            None => None,
        }
    }
}

proof fn lemma_first_colon_at(s: Seq<u8>, k: int)
    requires
        0 <= k < s.len(),
        s[k] == 0x3a,
        forall|j: int| 0 <= j < k ==> s[j] != 0x3a,
    ensures
        first_colon(s) == k,
    decreases k,
{
    if k > 0 {
        lemma_first_colon_at(s.drop_first(), k - 1);
    }
}

proof fn lemma_no_colon(s: Seq<u8>)
    requires
        forall|j: int| 0 <= j < s.len() ==> s[j] != 0x3a,
    ensures
        first_colon(s) == -1,
    decreases s.len(),
{
    if s.len() > 0 {
        lemma_no_colon(s.drop_first());
    }
}

/// Credentials of the user being authenticated. The protocol reads them as
/// plain bytes: only the first 16 password bytes are protocol-significant, the
/// username must fit the packet's 36-byte field, and the MAC address is
/// exactly 6 bytes.
#[derive(Debug, Clone, PartialEq, Eq)]
pub struct User {
    pub username: Vec<u8>,
    pub password: Vec<u8>,
    pub mac: Vec<u8>,
}

fn hex_digit(c: u8) -> (r: Option<u8>)
    ensures
        (r is Some) == is_hex_digit(c),
        r matches Some(d) ==> d as int == hex_digit_value(c),
{
    if 0x30 <= c && c <= 0x39 {
        Some(c - 0x30)
    } else if 0x61 <= c && c <= 0x66 {
        Some(c - 0x57)
    } else if 0x41 <= c && c <= 0x46 {
        Some(c - 0x37)
    } else {
        None
    }
}

/// Reads a MAC address from its colon-separated ASCII hex bytes: at most six
/// parts, each one or more hex digits whose value fits a byte; parts not given
/// stay zero. Anything else is a `Mac` error.
#[verifier::loop_isolation(false)]
pub fn parse_mac(s: &Vec<u8>) -> (r: Result<Vec<u8>, UserError>)
    ensures
        match spec_parse_mac_from(s@, Seq::<u8>::empty()) {
            Some(m) => r matches Ok(v) && v@ == m && v@.len() == 6,
            None => r == Err::<Vec<u8>, UserError>(UserError::Mac),
        },
{
    let len = s.len();
    let mut out: Vec<u8> = Vec::new();
    let mut pos: usize = 0;
    proof {
        assert(s@.skip(0) =~= s@);
    }
    loop
        invariant
            pos <= len,
            len == s@.len(),
            out@.len() <= 6,
            spec_parse_mac_from(s@, Seq::<u8>::empty()) == spec_parse_mac_from(
                s@.skip(pos as int),
                out@,
            ),
        decreases len - pos,
    {
        let ghost rem = s@.skip(pos as int);
        if out.len() >= 6 {
            return Err(UserError::Mac);
        }
        // find the end of the current part
        let mut j: usize = pos;
        while j < len && s[j] != 0x3a
            invariant
                pos <= j <= len,
                len == s@.len(),
                forall|q: int| pos <= q < j ==> s@[q] != 0x3a,
            decreases len - j,
        {
            j += 1;
        }
        proof {
            if j < len {
                assert(rem[j - pos] == s@[j as int]);
                assert forall|q: int| 0 <= q < j - pos implies rem[q] != 0x3a by {
                    assert(rem[q] == s@[pos + q]);
                }
                lemma_first_colon_at(rem, j - pos);
                assert(rem.take(j - pos) =~= s@.subrange(pos as int, j as int));
            } else {
                assert forall|q: int| 0 <= q < rem.len() implies rem[q] != 0x3a by {
                    assert(rem[q] == s@[pos + q]);
                }
                lemma_no_colon(rem);
                assert(rem =~= s@.subrange(pos as int, j as int));
            }
        }
        let ghost part = s@.subrange(pos as int, j as int);
        // parse the part as a hex byte
        if j == pos {
            return Err(UserError::Mac);
        }
        let mut v: u32 = 0;
        let mut too_big = false;
        let mut t: usize = pos;
        while t < j
            invariant
                pos <= t <= j <= len,
                len == s@.len(),
                part == s@.subrange(pos as int, j as int),
                forall|q: int| pos <= q < t ==> is_hex_digit(#[trigger] s@[q]),
                !too_big ==> v as int == hex_value(s@.subrange(pos as int, t as int)) && v <= 255,
                too_big ==> hex_value(s@.subrange(pos as int, t as int)) > 255,
            decreases j - t,
        {
            let ghost pre = s@.subrange(pos as int, t as int);
            let ghost ext = s@.subrange(pos as int, t + 1);
            proof {
                assert(ext.drop_last() =~= pre);
                assert(ext.last() == s@[t as int]);
            }
            match hex_digit(s[t]) {
                None => {
                    proof {
                        assert(!is_hex_digit(part[t - pos]));
                        assert(!all_hex_digits(part));
                    }
                    return Err(UserError::Mac);
                },
                Some(d) => {
                    if too_big {
                    } else {
                        let nv = v * 16 + d as u32;
                        if nv > 255 {
                            too_big = true;
                        } else {
                            v = nv;
                        }
                        proof {
                            assert(hex_value(ext) == hex_value(pre) * 16 + hex_digit_value(
                                s@[t as int],
                            ));
                        }
                    }
                },
            }
            t += 1;
        }
        if too_big {
            proof {
                assert(hex_value(part) > 255);
            }
            return Err(UserError::Mac);
        }
        proof {
            assert(all_hex_digits(part));
            assert(spec_hex_byte(part) == Some((hex_value(part) as u8)));
        }
        out.push(v as u8);
        if j == len {
            // last part: the remaining MAC bytes stay zero
            let ghost filled = out@;
            proof {
                assert(out@ =~= filled + zeros(0));
            }
            while out.len() < 6
                invariant
                    filled.len() <= out@.len() <= 6,
                    out@ == filled + zeros((out@.len() - filled.len()) as nat),
                decreases 6 - out@.len(),
            {
                out.push(0);
                proof {
                    assert(filled + zeros((out@.len() - filled.len()) as nat) =~= (filled + zeros(
                        (out@.len() - 1 - filled.len()) as nat,
                    )).push(0u8));
                }
            }
            return Ok(out);
        }
        let ghost oldpos = pos as int;
        pos = j + 1;
        proof {
            assert(s@.skip(pos as int) =~= rem.skip(j - oldpos + 1));
        }
    }
}

impl User {
    pub fn new(username: Vec<u8>, password: Vec<u8>, mac: Vec<u8>) -> (u: Self)
        ensures
            u.username == username,
            u.password == password,
            u.mac == mac,
    {
        Self { username, password, mac }
    }

    /// Reads a MAC address from its textual colon-separated hex form.
    pub fn transform_mac(mac: &str) -> (r: Result<Vec<u8>, UserError>)
        ensures
            match spec_parse_mac_from(mac.spec_bytes(), Seq::<u8>::empty()) {
                Some(m) => r matches Ok(v) && v@ == m && v@.len() == 6,
                None => r == Err::<Vec<u8>, UserError>(UserError::Mac),
            },
    {
        let bytes = mac.as_bytes_vec();
        parse_mac(&bytes)
    }
}

} // verus!
