//! The at-rest credential file: a byte-exact frame around an authenticated
//! encryption of the password. Layout: 32-byte key, 12-byte nonce, 8-byte
//! big-endian ciphertext length, ciphertext, 8-byte big-endian username
//! length, username bytes, 6-byte MAC. Reading and writing the file itself
//! happens outside the library.
use crate::user::data::User;
use crate::user::error::UserError;
use vstd::prelude::*;

verus! {

/// What AES-256-GCM sealing returns for the given 32-byte key, 12-byte nonce
/// and plaintext: the ciphertext with its authentication tag appended; a
/// function of the three inputs alone.
pub uninterp spec fn aes_seal(key: Seq<u8>, nonce: Seq<u8>, plaintext: Seq<u8>) -> Seq<u8>;

/// What AES-256-GCM opening returns for the given key, nonce and ciphertext:
/// the plaintext when the ciphertext authenticates under that key and nonce,
/// nothing otherwise; a function of the three inputs alone.
pub uninterp spec fn aes_open(key: Seq<u8>, nonce: Seq<u8>, ciphertext: Seq<u8>) -> Option<
    Seq<u8>,
>;

/// Relies on aes_gcm::Aes256Gcm (KeyInit::new_from_slice and Aead::encrypt):
/// authenticated encryption, deterministic in key, nonce and plaintext. The
/// ciphertext is the plaintext plus the 16-byte tag, and opening it again
/// under the same key and nonce gives the plaintext back; encryption itself
/// cannot fail below the cipher's enormous length cap.
#[verifier::external_body]
pub(crate) fn aes256gcm_seal(key: &Vec<u8>, nonce: &Vec<u8>, plaintext: &Vec<u8>) -> (r: Vec<u8>)
    requires
        key@.len() == 32,
        nonce@.len() == 12,
        plaintext@.len() <= 0x1000000000,
    ensures
        r@ == aes_seal(key@, nonce@, plaintext@),
        r@.len() == plaintext@.len() + 16,
        aes_open(key@, nonce@, r@) == Some(plaintext@),
{
    let cipher = <aes_gcm::Aes256Gcm as aes_gcm::KeyInit>::new_from_slice(
        key.as_slice(),
    ).expect("key length is 32");
    aes_gcm::aead::Aead::encrypt(
        &cipher,
        aes_gcm::Nonce::from_slice(nonce.as_slice()),
        plaintext.as_slice(),
    ).expect("plaintext is far below the cipher's length cap")
}

/// Relies on aes_gcm::Aes256Gcm (KeyInit::new_from_slice and Aead::decrypt):
/// authenticated decryption, deterministic in key, nonce and ciphertext.
#[verifier::external_body]
pub(crate) fn aes256gcm_open(key: &Vec<u8>, nonce: &Vec<u8>, ciphertext: &Vec<u8>) -> (r: Option<
    Vec<u8>,
>)
    requires
        key@.len() == 32,
        nonce@.len() == 12,
    ensures
        r matches Some(p) ==> aes_open(key@, nonce@, ciphertext@) == Some(p@),
        r is None ==> aes_open(key@, nonce@, ciphertext@) is None,
{
    let cipher = <aes_gcm::Aes256Gcm as aes_gcm::KeyInit>::new_from_slice(
        key.as_slice(),
    ).expect("key length is 32");
    match aes_gcm::aead::Aead::decrypt(
        &cipher,
        aes_gcm::Nonce::from_slice(nonce.as_slice()),
        ciphertext.as_slice(),
    ) {
        Ok(p) => Some(p),
        Err(_) => None,
    }
}

/// Relies on aes_gcm::Aes256Gcm::generate_key over the OS random source: a
/// fresh 32-byte key; nothing is promised of its value.
#[verifier::external_body]
pub(crate) fn generate_key() -> (r: Vec<u8>)
    ensures
        r@.len() == 32,
{
    <aes_gcm::Aes256Gcm as aes_gcm::KeyInit>::generate_key(aes_gcm::aead::OsRng).to_vec()
}

/// Relies on aes_gcm::Aes256Gcm::generate_nonce over the OS random source: a
/// fresh 12-byte nonce; nothing is promised of its value.
#[verifier::external_body]
pub(crate) fn generate_nonce() -> (r: Vec<u8>)
    ensures
        r@.len() == 12,
{
    <aes_gcm::Aes256Gcm as aes_gcm::AeadCore>::generate_nonce(aes_gcm::aead::OsRng).to_vec()
}

/// A length serialized as 8 bytes, most significant byte first.
pub open spec fn spec_be64(n: nat) -> Seq<u8> {
    seq![
        ((n / 0x100000000000000) % 0x100) as u8,
        ((n / 0x1000000000000) % 0x100) as u8,
        ((n / 0x10000000000) % 0x100) as u8,
        ((n / 0x100000000) % 0x100) as u8,
        ((n / 0x1000000) % 0x100) as u8,
        ((n / 0x10000) % 0x100) as u8,
        ((n / 0x100) % 0x100) as u8,
        (n % 0x100) as u8,
    ]
}

/// The value of 8 bytes read most significant first.
pub open spec fn spec_be64_val(s: Seq<u8>) -> nat {
    (s[0] as nat) * 0x100000000000000 + (s[1] as nat) * 0x1000000000000 + (s[2] as nat)
        * 0x10000000000 + (s[3] as nat) * 0x100000000 + (s[4] as nat) * 0x1000000 + (s[5] as nat)
        * 0x10000 + (s[6] as nat) * 0x100 + (s[7] as nat)
}

/// Reading back an 8-byte big-endian length gives the value that was written.
pub proof fn lemma_be64_round_trip(n: u64)
    ensures
        spec_be64_val(spec_be64(n as nat)) == n,
{
    assert(((n / 0x100000000000000) % 0x100) * 0x100000000000000 + ((n / 0x1000000000000) % 0x100)
        * 0x1000000000000 + ((n / 0x10000000000) % 0x100) * 0x10000000000 + ((n / 0x100000000)
        % 0x100) * 0x100000000 + ((n / 0x1000000) % 0x100) * 0x1000000 + ((n / 0x10000) % 0x100)
        * 0x10000 + ((n / 0x100) % 0x100) * 0x100 + (n % 0x100) == n) by (bit_vector);
}

fn push_be64(v: &mut Vec<u8>, n: u64)
    ensures
        final(v)@ == old(v)@ + spec_be64(n as nat),
{
    let mut s: Vec<u8> = Vec::new();
    s.push(((n / 0x100000000000000) % 0x100) as u8);
    s.push(((n / 0x1000000000000) % 0x100) as u8);
    s.push(((n / 0x10000000000) % 0x100) as u8);
    s.push(((n / 0x100000000) % 0x100) as u8);
    s.push(((n / 0x1000000) % 0x100) as u8);
    s.push(((n / 0x10000) % 0x100) as u8);
    s.push(((n / 0x100) % 0x100) as u8);
    s.push((n % 0x100) as u8);
    proof {
        assert(s@ =~= spec_be64(n as nat));
    }
    v.append(&mut s);
}

fn read_be64(v: &Vec<u8>, at: usize) -> (n: u64)
    requires
        at + 8 <= v@.len(),
    ensures
        n as nat == spec_be64_val(v@.subrange(at as int, at as int + 8)),
{
    let len = v.len();
    proof {
        assert(at + 8 <= len);
    }
    let b0 = v[at] as u64;
    let b1 = v[at + 1] as u64;
    let b2 = v[at + 2] as u64;
    let b3 = v[at + 3] as u64;
    let b4 = v[at + 4] as u64;
    let b5 = v[at + 5] as u64;
    let b6 = v[at + 6] as u64;
    let b7 = v[at + 7] as u64;
    proof {
        assert(b0 * 0x100000000000000 + b1 * 0x1000000000000 + b2 * 0x10000000000 + b3
            * 0x100000000 + b4 * 0x1000000 + b5 * 0x10000 + b6 * 0x100 + b7 <= 0xffffffffffffffff)
            by (nonlinear_arith)
            requires
                b0 <= 0xff && b1 <= 0xff && b2 <= 0xff && b3 <= 0xff && b4 <= 0xff && b5 <= 0xff
                    && b6 <= 0xff && b7 <= 0xff,
        ;
    }
    let n = b0 * 0x100000000000000 + b1 * 0x1000000000000 + b2 * 0x10000000000 + b3 * 0x100000000
        + b4 * 0x1000000 + b5 * 0x10000 + b6 * 0x100 + b7;
    proof {
        let s = v@.subrange(at as int, at as int + 8);
        assert(s[0] == v@[at as int] && s[1] == v@[at as int + 1] && s[2] == v@[at as int + 2]
            && s[3] == v@[at as int + 3] && s[4] == v@[at as int + 4] && s[5] == v@[at as int + 5]
            && s[6] == v@[at as int + 6] && s[7] == v@[at as int + 7]);
    }
    n
}

/// The credential file image: key, nonce, length-prefixed ciphertext,
/// length-prefixed username, then the 6-byte MAC address.
pub open spec fn spec_user_file(
    key: Seq<u8>,
    nonce: Seq<u8>,
    ciphertext: Seq<u8>,
    username: Seq<u8>,
    mac: Seq<u8>,
) -> Seq<u8> {
    key + nonce + spec_be64(ciphertext.len()) + ciphertext + spec_be64(username.len()) + username
        + mac
}

/// The fields read back from a credential file image: key, nonce, ciphertext,
/// username and MAC; nothing when the image is too short for its own length
/// fields. Bytes after the MAC are ignored, as a reader consuming exact field
/// widths would.
pub open spec fn spec_parse_user_file(data: Seq<u8>) -> Option<
    (Seq<u8>, Seq<u8>, Seq<u8>, Seq<u8>, Seq<u8>),
> {
    if data.len() < 52 {
        None
    } else {
        let key = data.subrange(0, 32);
        let nonce = data.subrange(32, 44);
        let clen = spec_be64_val(data.subrange(44, 52)) as int;
        if data.len() < 60 + clen {
            None
        } else {
            let ciphertext = data.subrange(52, 52 + clen);
            let ulen = spec_be64_val(data.subrange(52 + clen, 60 + clen)) as int;
            if data.len() < 66 + clen + ulen {
                None
            } else {
                let username = data.subrange(60 + clen, 60 + clen + ulen);
                let mac = data.subrange(60 + clen + ulen, 66 + clen + ulen);
                Some((key, nonce, ciphertext, username, mac))
            }
        }
    }
}

/// Parsing a credential file image gives back exactly the fields it was built
/// from: the frame loses nothing. Together with the cipher's own round trip
/// (opening a sealed ciphertext under its key and nonce returns the
/// plaintext), reading an image that was just written recovers the user.
proof fn lemma_split(a: Seq<u8>, b: Seq<u8>)
    ensures
        (a + b).subrange(0, a.len() as int) == a,
        (a + b).subrange(a.len() as int, (a + b).len() as int) == b,
{
    assert((a + b).subrange(0, a.len() as int) =~= a);
    assert((a + b).subrange(a.len() as int, (a + b).len() as int) =~= b);
}

proof fn lemma_prefix_seg(data: Seq<u8>, prefix: Seq<u8>, from: int, to: int)
    requires
        0 <= from <= to <= prefix.len() <= data.len(),
        data.subrange(0, prefix.len() as int) == prefix,
    ensures
        data.subrange(from, to) == prefix.subrange(from, to),
{
    assert(data.subrange(from, to) =~= prefix.subrange(from, to));
}

proof fn lemma_parse_frame(
    key: Seq<u8>,
    nonce: Seq<u8>,
    clen_bytes: Seq<u8>,
    ciphertext: Seq<u8>,
    ulen_bytes: Seq<u8>,
    username: Seq<u8>,
    mac: Seq<u8>,
)
    requires
        key.len() == 32,
        nonce.len() == 12,
        clen_bytes.len() == 8,
        ulen_bytes.len() == 8,
        mac.len() == 6,
        spec_be64_val(clen_bytes) == ciphertext.len(),
        spec_be64_val(ulen_bytes) == username.len(),
    ensures
        spec_parse_user_file(key + nonce + clen_bytes + ciphertext + ulen_bytes + username + mac)
            == Some((key, nonce, ciphertext, username, mac)),
{
    let data = key + nonce + clen_bytes + ciphertext + ulen_bytes + username + mac;
    let clen = ciphertext.len() as int;
    let ulen = username.len() as int;
    let p1 = key + nonce;
    let p2 = p1 + clen_bytes;
    let p3 = p2 + ciphertext;
    let p4 = p3 + ulen_bytes;
    let p5 = p4 + username;
    lemma_split(p5, mac);
    lemma_split(p4, username);
    lemma_split(p3, ulen_bytes);
    lemma_split(p2, ciphertext);
    lemma_split(p1, clen_bytes);
    lemma_split(key, nonce);
    assert(data.subrange(60 + clen + ulen, 66 + clen + ulen) == mac);
    lemma_prefix_seg(data, p5, 60 + clen, 60 + clen + ulen);
    lemma_prefix_seg(data, p5, 0, 60 + clen);
    lemma_prefix_seg(data, p4, 52 + clen, 60 + clen);
    lemma_prefix_seg(data, p4, 0, 52 + clen);
    lemma_prefix_seg(data, p3, 52, 52 + clen);
    lemma_prefix_seg(data, p3, 0, 52);
    lemma_prefix_seg(data, p2, 44, 52);
    lemma_prefix_seg(data, p2, 0, 44);
    lemma_prefix_seg(data, p1, 0, 32);
    lemma_prefix_seg(data, p1, 32, 44);
    assert(data.subrange(0, 32) == key);
    assert(data.subrange(32, 44) == nonce);
    assert(data.subrange(44, 52) == clen_bytes);
    assert(data.subrange(52, 52 + clen) == ciphertext);
    assert(data.subrange(52 + clen, 60 + clen) == ulen_bytes);
    assert(data.subrange(60 + clen, 60 + clen + ulen) == username);
}

/// Parsing a credential file image gives back exactly the fields it was built
/// from: the frame loses nothing. Together with the cipher's own round trip
/// (opening a sealed ciphertext under its key and nonce returns the
/// plaintext), reading an image that was just written recovers the user.
#[verifier::spinoff_prover]
#[verifier::rlimit(100)]
pub proof fn lemma_parse_user_file_inverts_build(
    key: Seq<u8>,
    nonce: Seq<u8>,
    ciphertext: Seq<u8>,
    username: Seq<u8>,
    mac: Seq<u8>,
)
    requires
        key.len() == 32,
        nonce.len() == 12,
        mac.len() == 6,
        ciphertext.len() <= 0xffffffffffffffff,
        username.len() <= 0xffffffffffffffff,
    ensures
        spec_parse_user_file(spec_user_file(key, nonce, ciphertext, username, mac)) == Some(
            (key, nonce, ciphertext, username, mac),
        ),
{
    lemma_be64_round_trip(ciphertext.len() as u64);
    lemma_be64_round_trip(username.len() as u64);
    lemma_parse_frame(
        key,
        nonce,
        spec_be64(ciphertext.len()),
        ciphertext,
        spec_be64(username.len()),
        username,
        mac,
    );
}

/// Produces and consumes at-rest credential files.
pub struct UserCipher;

impl UserCipher {
    /// Encrypts the user's password under a fresh key and nonce and frames the
    /// credential file image around it. The image parses back to the fields it
    /// was built from, and its ciphertext opens back to the password under its
    /// own key and nonce.
    pub fn encrypt(user: &User) -> (r: Vec<u8>)
        requires
            user.mac@.len() == 6,
            user.password@.len() <= 0x1000000000,
        ensures
            exists|key: Seq<u8>, nonce: Seq<u8>|
                {
                    &&& key.len() == 32
                    &&& nonce.len() == 12
                    &&& r@ == spec_user_file(
                        key,
                        nonce,
                        aes_seal(key, nonce, user.password@),
                        user.username@,
                        user.mac@,
                    )
                    &&& aes_open(key, nonce, aes_seal(key, nonce, user.password@)) == Some(
                        user.password@,
                    )
                },
    {
        let key = generate_key();
        let nonce = generate_nonce();
        let ciphertext = aes256gcm_seal(&key, &nonce, &user.password);
        let mut data: Vec<u8> = Vec::new();
        crate::auth::packet::push_vec(&mut data, &key);
        crate::auth::packet::push_vec(&mut data, &nonce);
        push_be64(&mut data, ciphertext.len() as u64);
        crate::auth::packet::push_vec(&mut data, &ciphertext);
        push_be64(&mut data, user.username.len() as u64);
        crate::auth::packet::push_vec(&mut data, &user.username);
        crate::auth::packet::push_vec(&mut data, &user.mac);
        proof {
            assert(data@ == spec_user_file(
                key@,
                nonce@,
                aes_seal(key@, nonce@, user.password@),
                user.username@,
                user.mac@,
            ));
        }
        data
    }

    /// Reads a credential file image back into a user. Returns the framed
    /// fields whenever the image is long enough for its own length fields and
    /// the ciphertext authenticates; an image too short to parse gives `Io`
    /// (as a reader hitting end of file would report) and a ciphertext that
    /// fails to authenticate gives `Aead`.
    pub fn decrypt(data: &Vec<u8>) -> (r: Result<User, UserError>)
        ensures
            spec_parse_user_file(data@) is None ==> r == Err::<User, UserError>(UserError::Io),
            spec_parse_user_file(data@) matches Some(parts) ==> match aes_open(
                parts.0,
                parts.1,
                parts.2,
            ) {
                Some(pw) => r matches Ok(u) && u.username@ == parts.3 && u.password@ == pw
                    && u.mac@ == parts.4,
                None => r == Err::<User, UserError>(UserError::Aead),
            },
    {
        if data.len() < 52 {
            return Err(UserError::Io);
        }
        let key = crate::auth::packet::copy_range(data, 0, 32);
        let nonce = crate::auth::packet::copy_range(data, 32, 44);
        let clen64 = read_be64(data, 44);
        if data.len() < 60 || clen64 > (data.len() - 60) as u64 {
            return Err(UserError::Io);
        }
        let clen = clen64 as usize;
        let ciphertext = crate::auth::packet::copy_range(data, 52, 52 + clen);
        let ulen64 = read_be64(data, 52 + clen);
        let rem = data.len() - 60 - clen;
        if rem < 6 || ulen64 > (rem - 6) as u64 {
            return Err(UserError::Io);
        }
        let ulen = ulen64 as usize;
        let username = crate::auth::packet::copy_range(data, 60 + clen, 60 + clen + ulen);
        let mac = crate::auth::packet::copy_range(data, 60 + clen + ulen, 66 + clen + ulen);
        match aes256gcm_open(&key, &nonce, &ciphertext) {
            Some(password) => Ok(User { username, password, mac }),
            None => Err(UserError::Aead),
        }
    }
}

} // verus!
