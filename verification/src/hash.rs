//! The digest that commits a vault to its secret.

use vstd::prelude::*;

verus! {

/// The SHA-256 digest of `data`.
pub uninterp spec fn sha256(data: Seq<u8>) -> Seq<u8>;

/// Calls `solana_sha256_hasher::hash` on `data` and takes the bytes of the
/// `Hash` it returns with `Hash::to_bytes`.
///
/// Trusted, not proved: that the 32 bytes returned are the SHA-256 digest of
/// `data`, a value that depends on `data` alone.
#[verifier::external_body]
pub(crate) fn sha256_digest(data: &[u8]) -> (digest: [u8; 32])
    ensures
        digest@ == sha256(data@),
{
    solana_sha256_hasher::hash(data).to_bytes()
}

} // verus!
