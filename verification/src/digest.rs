//! Dynamic truncation: from a 20-byte message digest to a 31-bit code.

use vstd::prelude::*;

verus! {

/// Number of bytes in the digest that a code is derived from.
pub const DIGEST_BYTES: usize = 20;

/// The start of the four-byte window that a digest selects within itself:
/// the low four bits of its last byte.
pub open spec fn window_offset(digest: Seq<u8>) -> int {
    digest[19] as int % 16
}

/// The code that a digest stands for: the four bytes from `window_offset` on,
/// read as a big-endian number, without the top bit of the first of them.
pub open spec fn truncated_code(digest: Seq<u8>) -> int {
    let at = window_offset(digest);
    (digest[at] as int % 128) * 0x100_0000 + (digest[at + 1] as int) * 0x1_0000 + (digest[at
        + 2] as int) * 0x100 + (digest[at + 3] as int)
}

/// The window that a digest selects lies within its 20 bytes.
pub proof fn lemma_window_within_digest(digest: Seq<u8>)
    ensures
        0 <= window_offset(digest),
        window_offset(digest) + 3 <= 19,
{
}

/// A code never has its top bit set, whatever the digest holds.
pub proof fn lemma_truncated_code_range(digest: Seq<u8>)
    ensures
        0 <= truncated_code(digest) < 0x8000_0000,
{
}

proof fn lemma_window_bits(last: u8)
    ensures
        (last & 0xf) as int == last as int % 16,
        (last & 0xf) <= 15,
{
    assert((last & 0xf) == last % 16 && (last & 0xf) <= 15) by (bit_vector);
}

proof fn lemma_code_bits(b0: u8, b1: u8, b2: u8, b3: u8)
    ensures
        ((b0 as u32 & 0x7f) << 24 | (b1 as u32) << 16 | (b2 as u32) << 8 | (b3 as u32)) as int
            == (b0 as int % 128) * 0x100_0000 + (b1 as int) * 0x1_0000 + (b2 as int) * 0x100
            + (b3 as int),
{
    assert(((b0 as u32 & 0x7f) << 24 | (b1 as u32) << 16 | (b2 as u32) << 8 | (b3 as u32)) == (b0
        as u32 % 128) * 0x100_0000 + (b1 as u32) * 0x1_0000 + (b2 as u32) * 0x100 + (b3 as u32))
        by (bit_vector);
}

/// Reduces a digest to its code.
pub fn dynamic_truncate(digest: &[u8; 20]) -> (code: u32)
    ensures
        code == truncated_code(digest@),
        code < 0x8000_0000,
{
    let last: u8 = digest[DIGEST_BYTES - 1];
    proof {
        lemma_window_bits(last);
    }
    let at: usize = (last & 0xf) as usize;
    let b0: u8 = digest[at];
    let b1: u8 = digest[at + 1];
    let b2: u8 = digest[at + 2];
    let b3: u8 = digest[at + 3];
    proof {
        lemma_code_bits(b0, b1, b2, b3);
    }
    (b0 as u32 & 0x7f) << 24 | (b1 as u32) << 16 | (b2 as u32) << 8 | (b3 as u32)
}

} // verus!
