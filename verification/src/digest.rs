//! The content digest behind the response-cache key.
use vstd::prelude::*;

use sha2::{Digest, Sha256};

verus! {

/// The lowercase hex SHA-256 digest of a byte sequence, as sha2 computes
/// it: a function of the input bytes alone.
pub uninterp spec fn sha256_hex_of(bytes: Seq<u8>) -> Seq<char>;

/// Relies on sha2's SHA-256 and its hex formatting: the digest is 32 bytes,
/// printed as two lowercase hex digits per byte — 64 characters — and
/// depends on the input bytes alone.
#[verifier::external_body]
pub(crate) fn sha256_hex(bytes: &[u8]) -> (r: String)
    ensures
        r@ == sha256_hex_of(bytes@),
        r@.len() == 64,
{
    let mut hasher = Sha256::new();
    hasher.update(bytes);
    format!("{:x}", hasher.finalize())
}

} // verus!
