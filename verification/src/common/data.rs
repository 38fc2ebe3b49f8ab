//! Pure checksum and obfuscation primitives of the wire protocol: the
//! rotate-XOR password transform, the XOR-fold checksum of the login packet
//! and the 16-bit folding CRC of the second 40-byte keep-alive packet.
use vstd::prelude::*;

verus! {

/// A run of `n` zero bytes.
pub open spec fn zeros(n: nat) -> Seq<u8> {
    Seq::new(n, |i: int| 0u8)
}

/// One byte of the rotate-XOR transform: the byte is rotated right by five
/// bits (equivalently left by three within a byte).
pub open spec fn ror_byte(x: u8) -> u8 {
    ((x << 3) + (x >> 5)) as u8
}

/// The rotate-XOR transform: each material byte is XORed with the password
/// byte at the same index and then rotated; the output is as long as the
/// password.
pub open spec fn spec_ror(data: Seq<u8>, pwd: Seq<u8>) -> Seq<u8> {
    Seq::new(pwd.len(), |i: int| ror_byte(data[i] ^ pwd[i]))
}

/// Obfuscates `pwd` against `data` byte by byte; used only to hide the
/// password inside the login packet. The output length equals the password
/// length.
pub fn ror(data: &[u8], pwd: &[u8]) -> (r: Vec<u8>)
    requires
        pwd@.len() <= data@.len(),
    ensures
        r@ == spec_ror(data@, pwd@),
        r@.len() == pwd@.len(),
{
    let mut ret: Vec<u8> = Vec::new();
    let mut i: usize = 0;
    while i < pwd.len()
        invariant
            pwd@.len() <= data@.len(),
            i <= pwd@.len(),
            ret@ == spec_ror(data@, pwd@).take(i as int),
        decreases pwd@.len() - i,
    {
        let x = data[i] ^ pwd[i];
        assert((x << 3) as int + (x >> 5) as int <= 255) by (bit_vector);
        ret.push((x << 3) + (x >> 5));
        proof {
            assert(spec_ror(data@, pwd@).take(i + 1) =~= spec_ror(data@, pwd@).take(i as int).push(
                ror_byte(data@[i as int] ^ pwd@[i as int]),
            ));
        }
        i += 1;
    }
    proof {
        assert(spec_ror(data@, pwd@).take(pwd@.len() as int) =~= spec_ror(data@, pwd@));
    }
    ret
}

/// A 32-bit word read big-endian from four bytes.
pub open spec fn be_word(b0: u8, b1: u8, b2: u8, b3: u8) -> u32 {
    ((b0 as u32) << 24) | ((b1 as u32) << 16) | ((b2 as u32) << 8) | (b3 as u32)
}

/// The XOR-fold accumulator of `fold_checksum`, folding from index `i` with
/// accumulator `acc`: whole 4-byte groups are read as big-endian words; a
/// final partial group is padded with zero bytes on the right.
pub open spec fn checksum_acc(data: Seq<u8>, i: int, acc: u32) -> u32
    decreases data.len() - i,
{
    if i + 4 <= data.len() {
        checksum_acc(data, i + 4, acc ^ be_word(data[i], data[i + 1], data[i + 2], data[i + 3]))
    } else if 0 <= i < data.len() {
        acc ^ be_word(
            data[i],
            if i + 1 < data.len() {
                data[i + 1]
            } else {
                0u8
            },
            if i + 2 < data.len() {
                data[i + 2]
            } else {
                0u8
            },
            0u8,
        )
    } else {
        acc
    }
}

/// `fold_checksum`: the folded accumulator is multiplied by 1968 (the product
/// always fits 64 bits) and the low 32 bits of the product are written out
/// most significant byte first.
pub open spec fn spec_checksum(data: Seq<u8>) -> Seq<u8> {
    let p = (checksum_acc(data, 0, 0) as int) * 1968;
    seq![
        ((p / 0x1000000) % 0x100) as u8,
        ((p / 0x10000) % 0x100) as u8,
        ((p / 0x100) % 0x100) as u8,
        (p % 0x100) as u8,
    ]
}

fn be_word_exec(b0: u8, b1: u8, b2: u8, b3: u8) -> (w: u32)
    ensures
        w == be_word(b0, b1, b2, b3),
{
    ((b0 as u32) << 24) | ((b1 as u32) << 16) | ((b2 as u32) << 8) | (b3 as u32)
}

/// XOR-folds `data` in big-endian 4-byte groups (a trailing partial group is
/// zero-padded on the right), multiplies the accumulator by 1968 and returns
/// the low 32 bits of the product, most significant byte first.
pub fn checksum(data: &[u8]) -> (r: Vec<u8>)
    ensures
        r@ == spec_checksum(data@),
        r@.len() == 4,
{
    let len = data.len();
    let mut acc: u32 = 0;
    let mut i: usize = 0;
    while len - i >= 4
        invariant
            i <= len,
            len == data@.len(),
            checksum_acc(data@, 0, 0) == checksum_acc(data@, i as int, acc),
        decreases len - i,
    {
        let w = be_word_exec(data[i], data[i + 1], data[i + 2], data[i + 3]);
        acc = acc ^ w;
        i = i + 4;
    }
    if i < len {
        let b1 = if len - i > 1 {
            data[i + 1]
        } else {
            0
        };
        let b2 = if len - i > 2 {
            data[i + 2]
        } else {
            0
        };
        let w = be_word_exec(data[i], b1, b2, 0);
        acc = acc ^ w;
    }
    let p: u64 = (acc as u64) * 1968;
    let mut r: Vec<u8> = Vec::new();
    r.push(((p / 0x1000000) % 0x100) as u8);
    r.push(((p / 0x10000) % 0x100) as u8);
    r.push(((p / 0x100) % 0x100) as u8);
    r.push((p % 0x100) as u8);
    proof {
        assert(r@ =~= spec_checksum(data@));
    }
    r
}

/// A 16-bit word read from two bytes, low byte first, widened to 32 bits.
pub open spec fn le16_word(lo: u8, hi: u8) -> u32 {
    ((hi as u32) << 8) | (lo as u32)
}

/// The XOR accumulator of `fold_crc16`, folding 2-byte pairs from index `i`;
/// an odd trailing byte is ignored.
pub open spec fn crc_acc(data: Seq<u8>, i: int, acc: u32) -> u32
    decreases data.len() - i,
{
    if i + 2 <= data.len() {
        crc_acc(data, i + 2, acc ^ le16_word(data[i], data[i + 1]))
    } else {
        acc
    }
}

/// `fold_crc16`: the 32-bit XOR accumulator of the input's 2-byte pairs,
/// serialized least significant byte first.
pub open spec fn spec_crc(data: Seq<u8>) -> Seq<u8> {
    let s = crc_acc(data, 0, 0) as int;
    seq![
        (s % 0x100) as u8,
        ((s / 0x100) % 0x100) as u8,
        ((s / 0x10000) % 0x100) as u8,
        ((s / 0x1000000) % 0x100) as u8,
    ]
}

fn le16_word_exec(lo: u8, hi: u8) -> (w: u32)
    ensures
        w == le16_word(lo, hi),
{
    ((hi as u32) << 8) | (lo as u32)
}

/// XOR-folds `data` in 2-byte pairs, low byte first (an odd trailing byte is
/// ignored) and serializes the 32-bit accumulator least significant byte
/// first.
pub fn crc(data: &[u8]) -> (r: Vec<u8>)
    ensures
        r@ == spec_crc(data@),
        r@.len() == 4,
{
    let len = data.len();
    let mut acc: u32 = 0;
    let mut i: usize = 0;
    while len - i >= 2
        invariant
            i <= len,
            len == data@.len(),
            crc_acc(data@, 0, 0) == crc_acc(data@, i as int, acc),
        decreases len - i,
    {
        let w = le16_word_exec(data[i], data[i + 1]);
        acc = acc ^ w;
        i = i + 2;
    }
    let mut r: Vec<u8> = Vec::new();
    r.push((acc % 0x100) as u8);
    r.push(((acc / 0x100) % 0x100) as u8);
    r.push(((acc / 0x10000) % 0x100) as u8);
    r.push(((acc / 0x1000000) % 0x100) as u8);
    proof {
        assert(r@ =~= spec_crc(data@));
    }
    r
}

/// `fold_checksum` is a deterministic pure function: identical input bytes
/// always produce identical 4-byte output.
pub proof fn lemma_checksum_deterministic(a: Seq<u8>, b: Seq<u8>)
    requires
        a == b,
    ensures
        spec_checksum(a) == spec_checksum(b),
{
}

/// `fold_crc16` is a deterministic pure function: identical input bytes
/// always produce identical 4-byte output.
pub proof fn lemma_crc_deterministic(a: Seq<u8>, b: Seq<u8>)
    requires
        a == b,
    ensures
        spec_crc(a) == spec_crc(b),
{
}

proof fn lemma_crc_acc_linear(data: Seq<u8>, i: int, acc: u32)
    ensures
        crc_acc(data, i, acc) == acc ^ crc_acc(data, i, 0),
    decreases data.len() - i,
{
    if i + 2 <= data.len() {
        let w = le16_word(data[i], data[i + 1]);
        lemma_crc_acc_linear(data, i + 2, acc ^ w);
        lemma_crc_acc_linear(data, i + 2, 0u32 ^ w);
        let t = crc_acc(data, i + 2, 0);
        assert((acc ^ w) ^ t == acc ^ ((0u32 ^ w) ^ t)) by (bit_vector);
    } else {
        assert(acc ^ 0u32 == acc) by (bit_vector);
    }
}

proof fn lemma_crc_acc_agree(a: Seq<u8>, b: Seq<u8>, i: int)
    requires
        a.len() == b.len(),
        forall|j: int| i <= j < a.len() ==> a[j] == b[j],
    ensures
        crc_acc(a, i, 0) == crc_acc(b, i, 0),
    decreases a.len() - i,
{
    if i + 2 <= a.len() {
        assert(a[i] == b[i] && a[i + 1] == b[i + 1]);
        let w = le16_word(a[i], a[i + 1]);
        lemma_crc_acc_agree(a, b, i + 2);
        lemma_crc_acc_linear(a, i + 2, 0u32 ^ w);
        lemma_crc_acc_linear(b, i + 2, 0u32 ^ w);
    }
}

proof fn lemma_crc_acc_sensitive(a: Seq<u8>, b: Seq<u8>, i: int, k: int)
    requires
        a.len() == b.len(),
        0 <= i <= k,
        i % 2 == 0,
        k - (k % 2) + 2 <= a.len(),
        a[k] != b[k],
        forall|j: int| 0 <= j < a.len() && j != k ==> a[j] == b[j],
    ensures
        crc_acc(a, i, 0) != crc_acc(b, i, 0),
    decreases k - i,
{
    let kp = k - (k % 2);
    let wa = le16_word(a[i], a[i + 1]);
    let wb = le16_word(b[i], b[i + 1]);
    lemma_crc_acc_linear(a, i + 2, 0u32 ^ wa);
    lemma_crc_acc_linear(b, i + 2, 0u32 ^ wb);
    if i == kp {
        lemma_crc_acc_agree(a, b, i + 2);
        let t = crc_acc(a, i + 2, 0);
        let a0 = a[i];
        let a1 = a[i + 1];
        let b0 = b[i];
        let b1 = b[i + 1];
        assert((0u32 ^ wa) ^ t != (0u32 ^ wb) ^ t) by (bit_vector)
            requires
                a0 != b0 || a1 != b1,
                wa == ((a1 as u32) << 8) | (a0 as u32),
                wb == ((b1 as u32) << 8) | (b0 as u32),
        ;
    } else {
        assert(i + 2 <= kp);
        assert(a[i] == b[i] && a[i + 1] == b[i + 1]);
        lemma_crc_acc_sensitive(a, b, i + 2, k);
        let ta = crc_acc(a, i + 2, 0);
        let tb = crc_acc(b, i + 2, 0);
        assert((0u32 ^ wa) ^ ta != (0u32 ^ wb) ^ tb) by (bit_vector)
            requires
                wa == wb,
                ta != tb,
        ;
    }
}

/// Changing any single input byte within the consumed 2-byte pairs changes the
/// `fold_crc16` output. (An odd trailing byte is ignored by the fold and is
/// therefore exempt.)
pub proof fn lemma_crc_byte_sensitive(a: Seq<u8>, b: Seq<u8>, k: int)
    requires
        a.len() == b.len(),
        0 <= k,
        k - (k % 2) + 2 <= a.len(),
        a[k] != b[k],
        forall|j: int| 0 <= j < a.len() && j != k ==> a[j] == b[j],
    ensures
        spec_crc(a) != spec_crc(b),
{
    lemma_crc_acc_sensitive(a, b, 0, k);
    let s1 = crc_acc(a, 0, 0);
    let s2 = crc_acc(b, 0, 0);
    assert((s1 as int) % 0x100 != (s2 as int) % 0x100 || ((s1 as int) / 0x100) % 0x100 != ((
    s2 as int) / 0x100) % 0x100 || ((s1 as int) / 0x10000) % 0x100 != ((s2 as int) / 0x10000)
        % 0x100 || ((s1 as int) / 0x1000000) % 0x100 != ((s2 as int) / 0x1000000) % 0x100)
        by (bit_vector)
        requires
            s1 != s2,
    ;
    if (s1 as int) % 0x100 != (s2 as int) % 0x100 {
        assert(spec_crc(a)[0] != spec_crc(b)[0]);
    } else if ((s1 as int) / 0x100) % 0x100 != ((s2 as int) / 0x100) % 0x100 {
        assert(spec_crc(a)[1] != spec_crc(b)[1]);
    } else if ((s1 as int) / 0x10000) % 0x100 != ((s2 as int) / 0x10000) % 0x100 {
        assert(spec_crc(a)[2] != spec_crc(b)[2]);
    } else {
        assert(spec_crc(a)[3] != spec_crc(b)[3]);
    }
}

proof fn lemma_checksum_acc_linear(data: Seq<u8>, i: int, acc: u32)
    ensures
        checksum_acc(data, i, acc) == acc ^ checksum_acc(data, i, 0),
    decreases data.len() - i,
{
    if i + 4 <= data.len() {
        let w = be_word(data[i], data[i + 1], data[i + 2], data[i + 3]);
        lemma_checksum_acc_linear(data, i + 4, acc ^ w);
        lemma_checksum_acc_linear(data, i + 4, 0u32 ^ w);
        let t = checksum_acc(data, i + 4, 0);
        assert((acc ^ w) ^ t == acc ^ ((0u32 ^ w) ^ t)) by (bit_vector);
    } else if 0 <= i < data.len() {
        let w = be_word(
            data[i],
            if i + 1 < data.len() {
                data[i + 1]
            } else {
                0u8
            },
            if i + 2 < data.len() {
                data[i + 2]
            } else {
                0u8
            },
            0u8,
        );
        assert(acc ^ w == acc ^ (0u32 ^ w)) by (bit_vector);
    } else {
        assert(acc ^ 0u32 == acc) by (bit_vector);
    }
}

proof fn lemma_checksum_acc_agree(a: Seq<u8>, b: Seq<u8>, i: int)
    requires
        a.len() == b.len(),
        forall|j: int| i <= j < a.len() ==> a[j] == b[j],
    ensures
        checksum_acc(a, i, 0) == checksum_acc(b, i, 0),
    decreases a.len() - i,
{
    if i + 4 <= a.len() {
        assert(a[i] == b[i] && a[i + 1] == b[i + 1] && a[i + 2] == b[i + 2] && a[i + 3] == b[i
            + 3]);
        let w = be_word(a[i], a[i + 1], a[i + 2], a[i + 3]);
        lemma_checksum_acc_agree(a, b, i + 4);
        lemma_checksum_acc_linear(a, i + 4, 0u32 ^ w);
        lemma_checksum_acc_linear(b, i + 4, 0u32 ^ w);
    } else if 0 <= i < a.len() {
        assert(a[i] == b[i]);
        assert(i + 1 < a.len() ==> a[i + 1] == b[i + 1]);
        assert(i + 2 < a.len() ==> a[i + 2] == b[i + 2]);
    }
}

proof fn lemma_be_word_injective(a0: u8, a1: u8, a2: u8, a3: u8, b0: u8, b1: u8, b2: u8, b3: u8)
    requires
        a0 != b0 || a1 != b1 || a2 != b2 || a3 != b3,
    ensures
        be_word(a0, a1, a2, a3) != be_word(b0, b1, b2, b3),
{
    assert((((a0 as u32) << 24) | ((a1 as u32) << 16) | ((a2 as u32) << 8) | (a3 as u32)) != (((
    b0 as u32) << 24) | ((b1 as u32) << 16) | ((b2 as u32) << 8) | (b3 as u32))) by (bit_vector)
        requires
            a0 != b0 || a1 != b1 || a2 != b2 || a3 != b3,
    ;
}

proof fn lemma_checksum_acc_sensitive(a: Seq<u8>, b: Seq<u8>, i: int, k: int)
    requires
        a.len() == b.len(),
        0 <= i <= k < a.len(),
        i % 4 == 0,
        a[k] != b[k],
        forall|j: int| 0 <= j < a.len() && j != k ==> a[j] == b[j],
    ensures
        checksum_acc(a, i, 0) != checksum_acc(b, i, 0),
    decreases k - i,
{
    let kp = k - (k % 4);
    if i == kp {
        if i + 4 <= a.len() {
            let wa = be_word(a[i], a[i + 1], a[i + 2], a[i + 3]);
            let wb = be_word(b[i], b[i + 1], b[i + 2], b[i + 3]);
            lemma_be_word_injective(a[i], a[i + 1], a[i + 2], a[i + 3], b[i], b[i + 1], b[i + 2], b[i + 3]);
            lemma_checksum_acc_linear(a, i + 4, 0u32 ^ wa);
            lemma_checksum_acc_linear(b, i + 4, 0u32 ^ wb);
            lemma_checksum_acc_agree(a, b, i + 4);
            let t = checksum_acc(a, i + 4, 0);
            assert((0u32 ^ wa) ^ t != (0u32 ^ wb) ^ t) by (bit_vector)
                requires
                    wa != wb,
            ;
        } else {
            // the partial trailing group; the changed byte is among its
            // explicit bytes because k < len <= i + 3
            let pa1 = if i + 1 < a.len() {
                a[i + 1]
            } else {
                0u8
            };
            let pa2 = if i + 2 < a.len() {
                a[i + 2]
            } else {
                0u8
            };
            let pb1 = if i + 1 < b.len() {
                b[i + 1]
            } else {
                0u8
            };
            let pb2 = if i + 2 < b.len() {
                b[i + 2]
            } else {
                0u8
            };
            lemma_be_word_injective(a[i], pa1, pa2, 0u8, b[i], pb1, pb2, 0u8);
            let wa = be_word(a[i], pa1, pa2, 0u8);
            let wb = be_word(b[i], pb1, pb2, 0u8);
            assert(0u32 ^ wa != 0u32 ^ wb) by (bit_vector)
                requires
                    wa != wb,
            ;
        }
    } else {
        assert(i + 4 <= kp);
        assert(a[i] == b[i] && a[i + 1] == b[i + 1] && a[i + 2] == b[i + 2] && a[i + 3] == b[i
            + 3]);
        let wa = be_word(a[i], a[i + 1], a[i + 2], a[i + 3]);
        let wb = be_word(b[i], b[i + 1], b[i + 2], b[i + 3]);
        lemma_checksum_acc_sensitive(a, b, i + 4, k);
        lemma_checksum_acc_linear(a, i + 4, 0u32 ^ wa);
        lemma_checksum_acc_linear(b, i + 4, 0u32 ^ wb);
        let ta = checksum_acc(a, i + 4, 0);
        let tb = checksum_acc(b, i + 4, 0);
        assert((0u32 ^ wa) ^ ta != (0u32 ^ wb) ^ tb) by (bit_vector)
            requires
                wa == wb,
                ta != tb,
        ;
    }
}

/// Changing any single input byte changes the folded accumulator of
/// `fold_checksum`. This sensitivity holds of the XOR fold itself; the final
/// output multiplies the accumulator by 1968 and keeps only the low 32 bits of
/// the product, a step on which two distinct accumulators can still meet.
pub proof fn lemma_checksum_fold_byte_sensitive(a: Seq<u8>, b: Seq<u8>, k: int)
    requires
        a.len() == b.len(),
        0 <= k < a.len(),
        a[k] != b[k],
        forall|j: int| 0 <= j < a.len() && j != k ==> a[j] == b[j],
    ensures
        checksum_acc(a, 0, 0) != checksum_acc(b, 0, 0),
{
    lemma_checksum_acc_sensitive(a, b, 0, k);
}

} // verus!
