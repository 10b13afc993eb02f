//! The 64-bit seed that a participant's colour is drawn from.

use vstd::prelude::*;
use vstd::string::StringSliceAdditionalSpecFns;

verus! {

/// The seahash digest of a byte string.
pub uninterp spec fn seahash_of(bytes: Seq<u8>) -> u64;

/// Relies on `seahash::hash`: a 64-bit digest that depends on the bytes alone.
#[verifier::external_body]
fn seahash_bytes(bytes: &[u8]) -> (r: u64)
    ensures
        r == seahash_of(bytes@),
{
    seahash::hash(bytes)
}

/// The seed for a seed text: the digest of its UTF-8 bytes, so equal texts
/// give equal seeds in every process.
pub fn seed_hash(seed: &str) -> (r: u64)
    ensures
        r == seahash_of(seed.spec_bytes()),
{
    seahash_bytes(seed.as_bytes())
}

} // verus!
