//! Seed derivation: one 64-bit digest per selection.
//!
//! Each call to the selector mixes the current millisecond timestamp with the
//! bit pattern of one independent uniform draw, in that order, through a fast
//! non-cryptographic 64-bit hash. The caller supplies the two words — the
//! clock and the random source are the host's — and receives the digest; the
//! digest's value carries no promise beyond being a pure function of the two
//! words, which is all the selection policy asks of it.

use vstd::prelude::*;

verus! {

/// The 64-bit digest the seed hash assigns to a timestamp word and an
/// entropy word, in that order.
pub uninterp spec fn seed_digest_of(now_ms: u64, entropy_bits: u64) -> u64;

/// Relies on `seahash::SeaHasher` through its `write`/`finish` interface
/// (`SeaHasher::new`, `Hasher::write_u64` twice, `Hasher::finish`): the
/// digest of the two words written is a pure function of those words, the
/// same in every process and on every machine.
#[verifier::external_body]
fn seahash_two_words(first: u64, second: u64) -> (digest: u64)
    ensures
        digest == seed_digest_of(first, second),
{
    let mut hasher = seahash::SeaHasher::new();
    std::hash::Hasher::write_u64(&mut hasher, first);
    std::hash::Hasher::write_u64(&mut hasher, second);
    std::hash::Hasher::finish(&hasher)
}

/// Derives the seed digest for one selection from the millisecond timestamp
/// and the bit pattern of the independent random draw.
pub fn seed_digest(now_ms: u64, entropy_bits: u64) -> (digest: u64)
    ensures
        digest == seed_digest_of(now_ms, entropy_bits),
{
    seahash_two_words(now_ms, entropy_bits)
}

} // verus!
