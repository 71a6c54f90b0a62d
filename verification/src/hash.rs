//! SHA-256, the hash behind every commitment.
//!
//! The digest is computed by the `sha2` crate. The library does not restate
//! the algorithm: it gives the digest a name, and every commitment is defined
//! over that name.

use sha2::Digest;
use vstd::prelude::*;

verus! {

/// The SHA-256 digest of `data`.
pub uninterp spec fn sha256(data: Seq<u8>) -> Seq<u8>;

/// Computes the SHA-256 digest of `data` with `sha2::Sha256::digest`.
///
/// Trusted: the result is the digest named by [`sha256`], which depends on the
/// input bytes alone, and it is 32 bytes long.
#[verifier::external_body]
pub(crate) fn sha256_digest(data: &[u8]) -> (digest: Vec<u8>)
    ensures
        digest@ == sha256(data@),
        digest@.len() == 32,
{
    sha2::Sha256::digest(data).to_vec()
}

} // verus!
