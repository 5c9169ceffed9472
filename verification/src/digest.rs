//! SHA-256 digests.

use sha2::Digest;
use vstd::prelude::*;

verus! {

/// Inputs of this many bytes and more have no digest: their length in bits
/// does not fit the 64-bit counter of the hash.
pub const DIGEST_LIMIT: u64 = 0x2000_0000_0000_0000;

/// Whether `len` bytes can be digested.
pub open spec fn digestible(len: nat) -> bool {
    len < DIGEST_LIMIT
}

/// Whether `len` bytes can be digested.
pub fn is_digestible(len: usize) -> (is: bool)
    ensures
        is == digestible(len as nat),
{
    (len as u64) < DIGEST_LIMIT
}

/// The SHA-256 digest of `bytes`.
pub uninterp spec fn sha256_of(bytes: Seq<u8>) -> [u8; 32];

/// `sha2::Sha256::digest` on all of `bytes` at once. Believed without proof:
/// the 32 bytes it returns depend on nothing but `bytes`. Inputs at which its
/// bit counter overflows are left out.
#[verifier::external_body]
pub(crate) fn sha256(bytes: &[u8]) -> (digest: [u8; 32])
    requires
        digestible(bytes@.len()),
    ensures
        digest@ == sha256_of(bytes@)@,
{
    sha2::Sha256::digest(bytes).into()
}

/// Everything that is shorter than 2^61 bytes can be digested, and nothing
/// else.
pub proof fn digests_end_at_their_limit(len: usize, is: bool)
    requires
        call_ensures(is_digestible, (len,), is),
    ensures
        is <==> len < 0x2000_0000_0000_0000int,
{
}

} // verus!
