//! The content digest that findings are committed with. The digest itself is
//! computed by the host's hashing primitive; the store only relies on it
//! being a function of the input bytes.

use vstd::prelude::*;

verus! {

/// The 32-byte content digest of a byte string, as the host's SHA-256
/// primitive computes it.
pub uninterp spec fn digest_of(data: Seq<u8>) -> Seq<u8>;

/// Relies on `anchor_lang::solana_program::hash::hash` (SHA-256): the digest
/// depends on the input bytes alone.
#[verifier::external_body]
pub(crate) fn sha256_digest(data: &Vec<u8>) -> (r: [u8; 32])
    ensures
        r@ == digest_of(data@),
{
    anchor_lang::solana_program::hash::hash(data.as_slice()).to_bytes()
}

} // verus!
