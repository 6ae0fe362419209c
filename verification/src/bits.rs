use vstd::prelude::*;
use vstd::arithmetic::power2::{
    lemma2_to64, lemma2_to64_rest, lemma_pow2_strictly_increases, lemma_pow2_unfold, pow2,
};

use crate::errors::TlpError;

verus! {

/// Bit `i` of `bytes` read as one contiguous bitstream, most significant bit
/// of byte 0 first: bit 0 is the top bit of byte 0, bit 8 the top bit of
/// byte 1, and so on.
pub open spec fn bit_at(bytes: Seq<u8>, i: int) -> u8
    recommends
        0 <= i < bytes.len() * 8,
{
    (bytes[i / 8] >> ((7 - (i % 8)) as u8)) & 1
}

/// The unsigned integer formed by the `width` bits of `bytes` starting at
/// bit offset `off`, most significant bit first.
pub open spec fn bits_of(bytes: Seq<u8>, off: int, width: nat) -> nat
    recommends
        0 <= off,
        off + width <= bytes.len() * 8,
    decreases width,
{
    if width == 0 {
        0
    } else {
        bits_of(bytes, off, (width - 1) as nat) * 2 + (bit_at(bytes, off + width - 1) as nat)
    }
}

/// A single bit is 0 or 1.
pub proof fn lemma_bit_at_le_one(bytes: Seq<u8>, i: int)
    ensures
        bit_at(bytes, i) <= 1,
{
    let b = bytes[i / 8];
    let sh = (7 - (i % 8)) as u8;
    assert((b >> sh) & 1 <= 1) by (bit_vector);
}

/// A field of `width` bits is below 2^width.
pub proof fn lemma_bits_of_bound(bytes: Seq<u8>, off: int, width: nat)
    ensures
        bits_of(bytes, off, width) < pow2(width),
    decreases width,
{
    if width == 0 {
        lemma2_to64();
    } else {
        lemma_bits_of_bound(bytes, off, (width - 1) as nat);
        lemma_bit_at_le_one(bytes, off + width - 1);
        lemma_pow2_unfold(width);
    }
}

/// Extracts `bit_width` bits of `bytes` starting at bit `bit_offset`,
/// treating `bytes` as one MSB-first bitstream, and returns them
/// right-aligned.  Fails with `TruncatedField` exactly when the requested
/// range reaches beyond the available bytes.
pub fn read_bits(bytes: &Vec<u8>, bit_offset: usize, bit_width: usize) -> (r: Result<
    u64,
    TlpError,
>)
    requires
        bit_width <= 64,
        bit_offset + bit_width + 7 <= usize::MAX,
    ensures
        match r {
            Ok(v) => bit_offset + bit_width <= bytes@.len() * 8 && v as nat == bits_of(
                bytes@,
                bit_offset as int,
                bit_width as nat,
            ),
            Err(e) => e == TlpError::TruncatedField && bit_offset + bit_width > bytes@.len() * 8,
        },
{
    let end = bit_offset + bit_width;
    if (end + 7) / 8 > bytes.len() {
        proof {
            assert(((end + 7) / 8) * 8 + (end + 7) % 8 == end + 7);
        }
        return Err(TlpError::TruncatedField);
    }
    proof {
        assert(((end + 7) / 8) * 8 + (end + 7) % 8 == end + 7);
        assert(end <= bytes@.len() * 8);
        lemma2_to64();
    }
    let mut acc: u64 = 0;
    let mut i: usize = 0;
    while i < bit_width
        invariant
            i <= bit_width,
            bit_width <= 64,
            bit_offset + bit_width + 7 <= usize::MAX,
            bit_offset + bit_width <= bytes@.len() * 8,
            acc as nat == bits_of(bytes@, bit_offset as int, i as nat),
            acc < pow2(i as nat),
        decreases bit_width - i,
    {
        proof {
            lemma2_to64();
            lemma2_to64_rest();
            if (i as nat) < 63 {
                lemma_pow2_strictly_increases(i as nat, 63);
            }
            lemma_bit_at_le_one(bytes@, (bit_offset + i) as int);
            lemma_pow2_unfold((i + 1) as nat);
            assert(((bit_offset + i) / 8) * 8 + (bit_offset + i) % 8 == bit_offset + i);
        }
        let byte_index = (bit_offset + i) / 8;
        let bit_index = (bit_offset + i) % 8;
        let bit = (bytes[byte_index] >> ((7 - bit_index) as u8)) & 1;
        proof {
            assert(bit == bit_at(bytes@, (bit_offset + i) as int));
        }
        acc = acc * 2 + (bit as u64);
        i = i + 1;
    }
    proof {
        assert(i == bit_width);
    }
    Ok(acc)
}

/// A field lying inside the first `n` bytes reads nothing outside them: two
/// sequences that agree on those bytes give the field the same value.
pub proof fn lemma_bits_of_reads_prefix(b1: Seq<u8>, b2: Seq<u8>, off: int, width: nat, n: int)
    requires
        0 <= off,
        off + width <= n * 8,
        n <= b1.len(),
        n <= b2.len(),
        forall|i: int| 0 <= i < n ==> b1[i] == b2[i],
    ensures
        bits_of(b1, off, width) == bits_of(b2, off, width),
    decreases width,
{
    if width > 0 {
        lemma_bits_of_reads_prefix(b1, b2, off, (width - 1) as nat, n);
        let j = off + width - 1;
        assert((j / 8) * 8 + j % 8 == j);
        assert(0 <= j / 8 < n);
        assert(b1[j / 8] == b2[j / 8]);
    }
}

/// Reads a field whose range is known to lie inside the available bytes.
pub(crate) fn read_field(bytes: &Vec<u8>, off: usize, width: usize) -> (v: u64)
    requires
        width <= 64,
        off + width <= bytes@.len() * 8,
        off + width + 7 <= usize::MAX,
    ensures
        v as nat == bits_of(bytes@, off as int, width as nat),
{
    match read_bits(bytes, off, width) {
        Ok(v) => v,
        Err(_) => {
            proof {
                assert(false);
            }
            0
        },
    }
}

} // verus!
