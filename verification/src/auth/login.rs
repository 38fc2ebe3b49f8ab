//! The login packet: a 300+-byte fixed layout around the three keyed hashes,
//! the obfuscated password, the checksum over the MAC address, and a handful
//! of fixed vendor constants. Built as a concatenation of named segments; the
//! final length is `334 + password_len - 1`, a protocol quirk reproduced
//! exactly.
use crate::auth::data::DrContextData;
use crate::auth::hashes::{
    compute_md5a, compute_md5b, compute_md5c, digest16, md5a_input, md5b_input, md5c_input, pad_to,
};
use crate::auth::packet::{push1, push2, push4, push_padded, push_prefix, push_vec, push_zeros};
use crate::common::data::{checksum, ror, spec_checksum, spec_ror, zeros};
use crate::common::rng::random_byte;
use crate::error::JludError;
use crate::user::data::User;
use vstd::prelude::*;

verus! {

/// The fixed OS-version markers at bytes 162..182.
pub open spec fn os_version_block() -> Seq<u8> {
    seq![
        0x94u8,
        0u8,
        0u8,
        0u8,
        0x06u8,
        0u8,
        0u8,
        0u8,
        0x02u8,
        0u8,
        0u8,
        0u8,
        0xf0u8,
        0x23u8,
        0u8,
        0u8,
        0x02u8,
        0u8,
        0u8,
        0u8,
    ]
}

/// The fixed 9-byte vendor signature at bytes 182..191.
pub open spec fn vendor_signature() -> Seq<u8> {
    seq![0x44u8, 0x72u8, 0x43u8, 0x4fu8, 0x4du8, 0x00u8, 0xcfu8, 0x07u8, 0x6au8]
}

/// The fixed 40-character client version string at bytes 246..286.
pub open spec fn version_signature() -> Seq<u8> {
    seq![
        0x31u8,
        0x63u8,
        0x32u8,
        0x31u8,
        0x30u8,
        0x63u8,
        0x39u8,
        0x39u8,
        0x35u8,
        0x38u8,
        0x35u8,
        0x66u8,
        0x64u8,
        0x32u8,
        0x32u8,
        0x61u8,
        0x64u8,
        0x30u8,
        0x33u8,
        0x64u8,
        0x33u8,
        0x35u8,
        0x63u8,
        0x39u8,
        0x35u8,
        0x36u8,
        0x39u8,
        0x31u8,
        0x31u8,
        0x61u8,
        0x65u8,
        0x65u8,
        0x63u8,
        0x31u8,
        0x65u8,
        0x62u8,
        0x34u8,
        0x34u8,
        0x39u8,
        0x62u8,
    ]
}

/// The twelve filler bytes standing in for DNS and DHCP addresses at bytes
/// 142..154: fixed placeholder values, not queried ones.
pub open spec fn dns_filler() -> Seq<u8> {
    seq![
        0x0au8,
        0x0au8,
        0x0au8,
        0x0au8,
        0x0au8,
        0x0au8,
        0x0au8,
        0x0au8,
        0x0au8,
        0x0au8,
        0x0au8,
        0x0au8,
    ]
}

/// The six fixed header bytes over which, together with the MAC address, the
/// login checksum is computed.
pub open spec fn checksum_seed() -> Seq<u8> {
    seq![0x01u8, 0x26u8, 0x07u8, 0x11u8, 0x00u8, 0x00u8]
}

/// The first keyed hash XORed byte by byte with the MAC address, bytes 58..64.
pub open spec fn mac_xor(a: Seq<u8>, mac: Seq<u8>) -> Seq<u8> {
    Seq::new(6, |i: int| a[i] ^ mac[i])
}

/// Zero bytes that 4-align the end of the password field.
pub open spec fn pad4(n: nat) -> nat {
    if n % 4 == 0 {
        0
    } else {
        (4 - n % 4) as nat
    }
}

/// The first 97 bytes of the login packet: header, username-length byte, the
/// first keyed hash, the padded username, the hash-XOR-MAC field, the second
/// keyed hash, and the client address.
pub open spec fn spec_login_prefix(
    username: Seq<u8>,
    password: Seq<u8>,
    salt: Seq<u8>,
    client_ip: Seq<u8>,
    mac: Seq<u8>,
) -> Seq<u8> {
    let a = digest16(md5a_input(salt, password));
    let b = digest16(md5b_input(password, salt));
    seq![0x03u8, 0x01u8, 0x00u8, (username.len() + 20) as u8] + a + pad_to(username, 36)
        + seq![0x20u8, 0x05u8] + mac_xor(a, mac) + b + seq![0x01u8] + client_ip + zeros(12)
}

/// The whole login packet of `334 + password_len - 1` bytes.
pub open spec fn spec_login_packet(
    username: Seq<u8>,
    password: Seq<u8>,
    salt: Seq<u8>,
    client_ip: Seq<u8>,
    mac: Seq<u8>,
    host: Seq<u8>,
    r1: u8,
    r2: u8,
) -> Seq<u8> {
    let a = digest16(md5a_input(salt, password));
    let prefix = spec_login_prefix(username, password, salt, client_ip, mac);
    let c = digest16(md5c_input(prefix));
    let zc = pad4(password.len());
    prefix + c.take(8) + seq![0x01u8] + zeros(4) + pad_to(host, 32) + dns_filler() + zeros(8)
        + os_version_block() + vendor_signature() + zeros(55) + version_signature() + zeros(24)
        + seq![0x6au8, 0u8, 0u8, password.len() as u8] + spec_ror(a, password)
        + seq![0x02u8, 0x0cu8] + spec_checksum(checksum_seed() + mac) + seq![0u8, 0u8] + mac
        + zeros(zc) + seq![r1, r2] + zeros((3 - zc) as nat)
}

fn dns_filler_vec() -> (r: Vec<u8>)
    ensures
        r@ == dns_filler(),
{
    let mut r: Vec<u8> = vec![0x0au8; 12];
    proof {
        assert(r@ =~= dns_filler());
    }
    r
}

fn os_version_vec() -> (r: Vec<u8>)
    ensures
        r@ == os_version_block(),
{
    let mut r: Vec<u8> = vec![0u8; 20];
    r.set(0, 0x94);
    r.set(4, 0x06);
    r.set(8, 0x02);
    r.set(12, 0xf0);
    r.set(13, 0x23);
    r.set(16, 0x02);
    proof {
        assert(r@ =~= os_version_block());
    }
    r
}

fn vendor_vec() -> (r: Vec<u8>)
    ensures
        r@ == vendor_signature(),
{
    let mut r: Vec<u8> = Vec::new();
    push4(&mut r, 0x44, 0x72, 0x43, 0x4f);
    push4(&mut r, 0x4d, 0x00, 0xcf, 0x07);
    push1(&mut r, 0x6a);
    proof {
        assert(r@ =~= vendor_signature());
    }
    r
}

fn version_vec() -> (r: Vec<u8>)
    ensures
        r@ == version_signature(),
{
    let mut r: Vec<u8> = Vec::new();
    push4(&mut r, 0x31, 0x63, 0x32, 0x31);
    push4(&mut r, 0x30, 0x63, 0x39, 0x39);
    push4(&mut r, 0x35, 0x38, 0x35, 0x66);
    push4(&mut r, 0x64, 0x32, 0x32, 0x61);
    push4(&mut r, 0x64, 0x30, 0x33, 0x64);
    push4(&mut r, 0x33, 0x35, 0x63, 0x39);
    push4(&mut r, 0x35, 0x36, 0x39, 0x31);
    push4(&mut r, 0x31, 0x61, 0x65, 0x65);
    push4(&mut r, 0x63, 0x31, 0x65, 0x62);
    push4(&mut r, 0x34, 0x34, 0x39, 0x62);
    proof {
        assert(r@ =~= version_signature());
    }
    r
}

fn checksum_seed_vec() -> (r: Vec<u8>)
    ensures
        r@ == checksum_seed(),
{
    let mut r: Vec<u8> = Vec::new();
    push4(&mut r, 0x01, 0x26, 0x07, 0x11);
    push2(&mut r, 0x00, 0x00);
    proof {
        assert(r@ =~= checksum_seed());
    }
    r
}

fn mac_xor_vec(a: &Vec<u8>, mac: &Vec<u8>) -> (r: Vec<u8>)
    requires
        a@.len() == 16,
        mac@.len() == 6,
    ensures
        r@ == mac_xor(a@, mac@),
{
    let mut r: Vec<u8> = Vec::new();
    let mut i: usize = 0;
    while i < 6
        invariant
            i <= 6,
            a@.len() == 16,
            mac@.len() == 6,
            r@ == mac_xor(a@, mac@).take(i as int),
        decreases 6 - i,
    {
        r.push(a[i] ^ mac[i]);
        proof {
            assert(mac_xor(a@, mac@).take(i + 1) =~= mac_xor(a@, mac@).take(i as int).push(
                a@[i as int] ^ mac@[i as int],
            ));
        }
        i += 1;
    }
    proof {
        assert(r@ =~= mac_xor(a@, mac@));
    }
    r
}

/// The login step: one request, one response, no internal retry (restarting is
/// the outer retry wrapper's business).
#[derive(Debug, Clone, PartialEq, Eq, Structural)]
pub struct LoginSender;

impl LoginSender {
    pub fn new() -> (s: Self) {
        Self
    }

    /// Builds the login packet from the credentials, host name, server salt
    /// and negotiated client address, with the given random filler bytes.
    /// Returns the packet and the first keyed hash, which later packets reuse.
    pub fn get_login_data(
        user: &User,
        host: &Vec<u8>,
        salt: &Vec<u8>,
        client_ip: &Vec<u8>,
        r1: u8,
        r2: u8,
    ) -> (ret: (Vec<u8>, Vec<u8>))
        requires
            user.password@.len() <= 16,
            user.username@.len() <= 36,
            salt@.len() == 4,
            client_ip@.len() == 4,
            user.mac@.len() == 6,
        ensures
            ret.0@ == spec_login_packet(
                user.username@,
                user.password@,
                salt@,
                client_ip@,
                user.mac@,
                host@,
                r1,
                r2,
            ),
            ret.0@.len() == 334 + user.password@.len() - 1,
            ret.1@ == digest16(md5a_input(salt@, user.password@)),
            ret.1@.len() == 16,
    {
        let a = compute_md5a(salt, &user.password);
        let b = compute_md5b(&user.password, salt);
        let mut data: Vec<u8> = Vec::new();
        let ulen_byte = user.username.len() as u8 + 20;
        push4(&mut data, 0x03, 0x01, 0x00, ulen_byte);
        push_vec(&mut data, &a);
        push_padded(&mut data, &user.username, 36);
        push2(&mut data, 0x20, 0x05);
        let x = mac_xor_vec(&a, &user.mac);
        push_vec(&mut data, &x);
        push_vec(&mut data, &b);
        push1(&mut data, 0x01);
        push_vec(&mut data, client_ip);
        push_zeros(&mut data, 12);
        proof {
            assert(data@ =~= spec_login_prefix(
                user.username@,
                user.password@,
                salt@,
                client_ip@,
                user.mac@,
            ));
        }
        let c = compute_md5c(&data);
        let mut c8: Vec<u8> = Vec::new();
        push_prefix(&mut c8, &c, 8);
        push_vec(&mut data, &c8);
        push1(&mut data, 0x01);
        push_zeros(&mut data, 4);
        push_padded(&mut data, host, 32);
        let fill = dns_filler_vec();
        push_vec(&mut data, &fill);
        push_zeros(&mut data, 8);
        let osb = os_version_vec();
        push_vec(&mut data, &osb);
        let ven = vendor_vec();
        push_vec(&mut data, &ven);
        push_zeros(&mut data, 55);
        let ver = version_vec();
        push_vec(&mut data, &ver);
        push_zeros(&mut data, 24);
        let plen = user.password.len();
        push4(&mut data, 0x6a, 0x00, 0x00, plen as u8);
        let ror_data = ror(a.as_slice(), user.password.as_slice());
        push_vec(&mut data, &ror_data);
        push2(&mut data, 0x02, 0x0c);
        let seed = checksum_seed_vec();
        let mut cs_in = seed;
        push_vec(&mut cs_in, &user.mac);
        proof {
            assert(cs_in@ =~= checksum_seed() + user.mac@);
        }
        let cs = checksum(cs_in.as_slice());
        push_vec(&mut data, &cs);
        push2(&mut data, 0x00, 0x00);
        push_vec(&mut data, &user.mac);
        let zc = if plen % 4 == 0 {
            0
        } else {
            4 - plen % 4
        };
        push_zeros(&mut data, zc);
        push2(&mut data, r1, r2);
        push_zeros(&mut data, 3 - zc);
        proof {
            assert(zc as nat == pad4(user.password@.len()));
            assert(data@ == spec_login_packet(
                user.username@,
                user.password@,
                salt@,
                client_ip@,
                user.mac@,
                host@,
                r1,
                r2,
            ));
        }
        (data, a)
    }

    /// Builds the login packet for the current session state, with the local
    /// host name looked up on the spot and fresh random filler bytes, and
    /// records the first keyed hash in the session. The host name depends on
    /// the machine, so the packet is pinned for some host byte string; every
    /// other input is the caller's.
    pub fn build_login(user: &User, ctx: &mut DrContextData) -> (p: Vec<u8>)
        requires
            old(ctx).wf(),
            user.password@.len() <= 16,
            user.username@.len() <= 36,
            user.mac@.len() == 6,
        ensures
            final(ctx).wf(),
            exists|r1: u8, r2: u8, host: Seq<u8>|
                p@ == spec_login_packet(
                    user.username@,
                    user.password@,
                    old(ctx).salt@,
                    old(ctx).client_ip@,
                    user.mac@,
                    host,
                    r1,
                    r2,
                ),
            p@.len() == 334 + user.password@.len() - 1,
            final(ctx).md5a@ == digest16(md5a_input(old(ctx).salt@, user.password@)),
            final(ctx).salt == old(ctx).salt,
            final(ctx).client_ip == old(ctx).client_ip,
            final(ctx).tail == old(ctx).tail,
            final(ctx).tail_2 == old(ctx).tail_2,
            final(ctx).keep_alive_version == old(ctx).keep_alive_version,
    {
        let host = crate::common::host::get_host_name();
        let r1 = random_byte();
        let r2 = random_byte();
        let (p, a) = Self::get_login_data(user, &host, &ctx.salt, &ctx.client_ip, r1, r2);
        ctx.set_md5a(a);
        p
    }

    /// Absorbs the login response: tag 0x04 is success and the opaque tail at
    /// bytes 23..39 enters the session state; tag 0x05 with byte 4 equal to
    /// 0x0b is a rejected MAC address; any other tag 0x05 response rejects the
    /// credentials; anything else is an unknown fatal error. Each of these is
    /// fatal: the login step never retries on its own.
    pub fn evaluate_response(resp: &Vec<u8>, ctx: &mut DrContextData) -> (r: Result<(), JludError>)
        requires
            resp@.len() >= 39,
            old(ctx).wf(),
        ensures
            final(ctx).wf(),
            match spec_login_verdict(resp@) {
                Ok(tail) => {
                    &&& r is Ok
                    &&& final(ctx).tail@ == tail
                    &&& final(ctx).salt == old(ctx).salt
                    &&& final(ctx).client_ip == old(ctx).client_ip
                    &&& final(ctx).md5a == old(ctx).md5a
                    &&& final(ctx).tail_2 == old(ctx).tail_2
                    &&& final(ctx).keep_alive_version == old(ctx).keep_alive_version
                },
                Err(e) => r == Err::<(), JludError>(e) && *final(ctx) == *old(ctx),
            },
    {
        if resp[0] == 0x04 {
            ctx.apply_login_tail(resp);
            Ok(())
        } else if resp[0] == 0x05 && resp[4] == 0x0b {
            Err(JludError::InvalidMac)
        } else if resp[0] == 0x05 {
            Err(JludError::InvalidUsernameOrPassword)
        } else {
            Err(JludError::UnknownError)
        }
    }
}

/// The verdict a login response carries: tag 0x04 is success with the opaque
/// tail at bytes 23..39; tag 0x05 with byte 4 equal to 0x0b rejects the MAC;
/// any other tag 0x05 rejects the credentials; every other tag is unknown.
pub open spec fn spec_login_verdict(resp: Seq<u8>) -> Result<Seq<u8>, JludError> {
    if resp[0] == 0x04 {
        Ok(resp.subrange(23, 39))
    } else if resp[0] == 0x05 && resp[4] == 0x0b {
        Err(JludError::InvalidMac)
    } else if resp[0] == 0x05 {
        Err(JludError::InvalidUsernameOrPassword)
    } else {
        Err(JludError::UnknownError)
    }
}

/// For every valid password length 1 to 16: the login packet's final length
/// equals `334 + password_len - 1`, and its bytes 314..(314 + password_len)
/// are the rotate-XOR transform of the first keyed hash with the password.
pub proof fn lemma_login_packet_password_field(
    username: Seq<u8>,
    password: Seq<u8>,
    salt: Seq<u8>,
    client_ip: Seq<u8>,
    mac: Seq<u8>,
    host: Seq<u8>,
    r1: u8,
    r2: u8,
)
    requires
        1 <= password.len() <= 16,
        username.len() <= 36,
        salt.len() == 4,
        client_ip.len() == 4,
        mac.len() == 6,
    ensures
        spec_login_packet(username, password, salt, client_ip, mac, host, r1, r2).len() == 334
            + password.len() - 1,
        spec_login_packet(username, password, salt, client_ip, mac, host, r1, r2).subrange(
            314,
            314 + password.len() as int,
        ) == spec_ror(digest16(md5a_input(salt, password)), password),
{
    let packet = spec_login_packet(username, password, salt, client_ip, mac, host, r1, r2);
    let a = digest16(md5a_input(salt, password));
    let prefix = spec_login_prefix(username, password, salt, client_ip, mac);
    assert(prefix.len() == 97);
    assert(packet.len() == 334 + password.len() - 1);
    assert(packet.subrange(314, 314 + password.len() as int) =~= spec_ror(a, password));
}

} // verus!
