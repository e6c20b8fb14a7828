//! SHA-256, computed by the `sha2` crate.
use vstd::prelude::*;

verus! {

/// The SHA-256 digest of `data`, as computed by `sha2::Sha256`.
pub uninterp spec fn sha256_digest(data: Seq<u8>) -> Seq<u8>;

/// Calls `<sha2::Sha256 as sha2::Digest>::digest` on `data` and copies the
/// 32-byte output. Claimed: the result is `sha256_digest` of the input bytes,
/// a deterministic function of them alone.
#[verifier::external_body]
pub(crate) fn sha256(data: &[u8]) -> (digest: [u8; 32])
    ensures
        digest@ == sha256_digest(data@),
{
    let output = <sha2::Sha256 as sha2::Digest>::digest(data);
    let mut digest = [0_u8; 32];
    digest.copy_from_slice(&output);
    digest
}

} // verus!
