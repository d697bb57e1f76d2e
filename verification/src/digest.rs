//! SHA-256 digests, through the `sha2` crate.
use vstd::prelude::*;
use sha2::{Digest, Sha256};

verus! {

/// The SHA-256 digest of a byte string.
pub uninterp spec fn sha256_digest(data: Seq<u8>) -> Seq<u8>;

/// The SHA-256 digest of `data`.
///
/// Calls `Sha256::digest` from `sha2`. The contract only names the result: it
/// is the digest of exactly these bytes, 32 bytes long (the array type).
#[verifier::external_body]
pub fn sha256(data: &[u8]) -> (res: [u8; 32])
    ensures
        res@ == sha256_digest(data@),
{
    Sha256::digest(data).into()
}

} // verus!
