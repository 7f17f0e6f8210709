//! SHA-256, as the `sha2` crate computes it.

use vstd::prelude::*;
use sha2::{Digest, Sha256};

verus! {

/// The SHA-256 digest of a byte string. Nothing is stated of its value: the
/// library only relies on equal inputs having equal digests.
pub uninterp spec fn sha256_digest(data: Seq<u8>) -> Seq<u8>;

/// Hashes `data` with `sha2::Sha256`, through `Digest::digest`. Trusted: the
/// 32 bytes returned are the SHA-256 digest of `data`, a function of the
/// bytes alone.
#[verifier::external_body]
pub(crate) fn sha256(data: &[u8]) -> (digest: [u8; 32])
    ensures
        digest@ == sha256_digest(data@),
{
    Sha256::digest(data).into()
}

} // verus!
