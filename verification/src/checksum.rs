//! The additive checksum and the big-endian words of the wire format.

use vstd::prelude::*;

verus! {

/// The sum of the bytes of `bytes`, each one widened before it is added.
pub open spec fn byte_sum(bytes: Seq<u8>) -> nat
    decreases bytes.len(),
{
    if bytes.len() == 0 {
        0
    } else {
        byte_sum(bytes.drop_last()) + bytes.last() as nat
    }
}

/// The checksum of `bytes` as it stands on the wire: their sum modulo 2^16.
pub open spec fn checksum_of(bytes: Seq<u8>) -> u16 {
    (byte_sum(bytes) % 0x1_0000) as u16
}

/// The 16-bit word that the bytes `hi`, `lo` spell in big-endian order.
pub open spec fn be16(hi: u8, lo: u8) -> u16 {
    (hi as nat * 256 + lo as nat) as u16
}

/// The first byte of `word` in big-endian order.
pub open spec fn hi_byte(word: u16) -> u8 {
    (word / 256) as u8
}

/// The second byte of `word` in big-endian order.
pub open spec fn lo_byte(word: u16) -> u8 {
    (word % 256) as u8
}

/// One more byte adds its value to the sum.
pub proof fn lemma_byte_sum_push(bytes: Seq<u8>, byte: u8)
    ensures
        byte_sum(bytes.push(byte)) == byte_sum(bytes) + byte as nat,
{
    assert(bytes.push(byte).drop_last() =~= bytes);
}

/// No byte adds more than 255 to the sum.
pub proof fn lemma_byte_sum_bound(bytes: Seq<u8>)
    ensures
        byte_sum(bytes) <= 255 * bytes.len(),
    decreases bytes.len(),
{
    if bytes.len() > 0 {
        lemma_byte_sum_bound(bytes.drop_last());
    }
}

/// Reads two bytes as a big-endian word.
pub fn word(hi: u8, lo: u8) -> (w: u16)
    ensures
        w == be16(hi, lo),
        hi_byte(w) == hi,
        lo_byte(w) == lo,
{
    hi as u16 * 256 + lo as u16
}

/// Splits a word into its two bytes, in big-endian order.
pub fn word_bytes(word: u16) -> (bytes: (u8, u8))
    ensures
        bytes.0 == hi_byte(word),
        bytes.1 == lo_byte(word),
        be16(bytes.0, bytes.1) == word,
{
    ((word / 256) as u8, (word % 256) as u8)
}

/// Computes the checksum of the first `count` bytes of `bytes`.
pub fn checksum(bytes: &[u8], count: usize) -> (sum: u16)
    requires
        count <= bytes@.len(),
    ensures
        sum == checksum_of(bytes@.take(count as int)),
{
    let mut sum: u16 = 0;
    let mut i: usize = 0;
    while i < count
        invariant
            i <= count <= bytes@.len(),
            sum == checksum_of(bytes@.take(i as int)),
        decreases count - i,
    {
        proof {
            let seen = bytes@.take(i as int);
            assert(bytes@.take(i + 1) =~= seen.push(bytes@[i as int]));
            lemma_byte_sum_push(seen, bytes@[i as int]);
            let s = byte_sum(seen) as int;
            let b = bytes@[i as int] as int;
            assert((s % 0x1_0000 + b) % 0x1_0000 == (s + b) % 0x1_0000) by {
                vstd::arithmetic::div_mod::lemma_add_mod_noop_right(b, s, 0x1_0000);
            }
        }
        sum = sum.wrapping_add(bytes[i] as u16);
        i += 1;
    }
    sum
}

} // verus!
