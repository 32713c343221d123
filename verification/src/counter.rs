//! Counter-based codes: the keyed digest of a counter, truncated.

use vstd::prelude::*;
use crate::digest::{dynamic_truncate, lemma_truncated_code_range, truncated_code};

verus! {

/// The HMAC-SHA1 digest of `message` under `key`, as the crate `hmacsha1`
/// computes it. It is a name only: nothing here says which bytes it holds.
pub uninterp spec fn hmac_sha1_digest(key: Seq<u8>, message: Seq<u8>) -> Seq<u8>;

/// Calls `hmacsha1::hmac_sha1`. Nothing is proved of it: the contract gives the
/// 20 bytes that it returns the name `hmac_sha1_digest`, as a function of the
/// bytes of the key and of the message and of nothing else.
#[verifier::external_body]
fn keyed_digest(key: &[u8], message: &[u8]) -> (digest: [u8; 20])
    ensures
        digest@ == hmac_sha1_digest(key@, message@),
{
    hmacsha1::hmac_sha1(key, message)
}

/// The eight bytes of a counter, most significant byte first.
pub open spec fn counter_message(counter: u64) -> Seq<u8> {
    seq![
        (counter as int / 0x100_0000_0000_0000 % 256) as u8,
        (counter as int / 0x1_0000_0000_0000 % 256) as u8,
        (counter as int / 0x100_0000_0000 % 256) as u8,
        (counter as int / 0x1_0000_0000 % 256) as u8,
        (counter as int / 0x100_0000 % 256) as u8,
        (counter as int / 0x1_0000 % 256) as u8,
        (counter as int / 0x100 % 256) as u8,
        (counter as int % 256) as u8,
    ]
}

/// The code of a secret at a counter.
pub open spec fn hotp_code(secret: Seq<u8>, counter: u64) -> int {
    truncated_code(hmac_sha1_digest(secret, counter_message(counter)))
}

/// Secrets that hold the same bytes have the same code at the same counter:
/// a code depends on nothing else.
pub proof fn lemma_hotp_code_deterministic(
    secret: Seq<u8>,
    counter: u64,
    other_secret: Seq<u8>,
    other_counter: u64,
)
    requires
        secret =~= other_secret,
        counter == other_counter,
    ensures
        hotp_code(secret, counter) == hotp_code(other_secret, other_counter),
{
}

/// The code of any secret at any counter is a number of 31 bits.
pub proof fn lemma_hotp_code_range(secret: Seq<u8>, counter: u64)
    ensures
        0 <= hotp_code(secret, counter) < 0x8000_0000,
{
    lemma_truncated_code_range(hmac_sha1_digest(secret, counter_message(counter)));
}

proof fn lemma_counter_bits(counter: u64)
    ensures
        ((counter >> 56) & 0xff) == counter as int / 0x100_0000_0000_0000 % 256,
        ((counter >> 48) & 0xff) == counter as int / 0x1_0000_0000_0000 % 256,
        ((counter >> 40) & 0xff) == counter as int / 0x100_0000_0000 % 256,
        ((counter >> 32) & 0xff) == counter as int / 0x1_0000_0000 % 256,
        ((counter >> 24) & 0xff) == counter as int / 0x100_0000 % 256,
        ((counter >> 16) & 0xff) == counter as int / 0x1_0000 % 256,
        ((counter >> 8) & 0xff) == counter as int / 0x100 % 256,
        ((counter >> 0) & 0xff) == counter as int % 256,
{
    assert(((counter >> 56) & 0xff) == counter / 0x100_0000_0000_0000 % 256) by (bit_vector);
    assert(((counter >> 48) & 0xff) == counter / 0x1_0000_0000_0000 % 256) by (bit_vector);
    assert(((counter >> 40) & 0xff) == counter / 0x100_0000_0000 % 256) by (bit_vector);
    assert(((counter >> 32) & 0xff) == counter / 0x1_0000_0000 % 256) by (bit_vector);
    assert(((counter >> 24) & 0xff) == counter / 0x100_0000 % 256) by (bit_vector);
    assert(((counter >> 16) & 0xff) == counter / 0x1_0000 % 256) by (bit_vector);
    assert(((counter >> 8) & 0xff) == counter / 0x100 % 256) by (bit_vector);
    assert(((counter >> 0) & 0xff) == counter % 256) by (bit_vector);
}

/// Writes a counter as the eight-byte message that is digested.
pub fn counter_bytes(counter: u64) -> (message: [u8; 8])
    ensures
        message@ == counter_message(counter),
{
    proof {
        lemma_counter_bits(counter);
    }
    let message: [u8; 8] = [
        ((counter >> 56) & 0xff) as u8,
        ((counter >> 48) & 0xff) as u8,
        ((counter >> 40) & 0xff) as u8,
        ((counter >> 32) & 0xff) as u8,
        ((counter >> 24) & 0xff) as u8,
        ((counter >> 16) & 0xff) as u8,
        ((counter >> 8) & 0xff) as u8,
        ((counter >> 0) & 0xff) as u8,
    ];
    assert(message@ =~= counter_message(counter));
    message
}

/// Derives the code of `secret` at `counter`. The code depends on the bytes of
/// the secret and on the counter alone, and its top bit is never set.
pub fn hotp(secret: &[u8], counter: u64) -> (code: u32)
    ensures
        code == hotp_code(secret@, counter),
        code < 0x8000_0000,
{
    let message: [u8; 8] = counter_bytes(counter);
    let digest: [u8; 20] = keyed_digest(secret, message.as_slice());
    dynamic_truncate(&digest)
}

} // verus!
