use vstd::prelude::*;

verus! {

/// The Keccak-256 digest of a byte string.
///
/// The function is not defined here: it stands for what the hashing routine
/// of the SDK computes, and nothing but its determinism is known of it.
pub uninterp spec fn keccak256(input: Seq<u8>) -> Seq<u8>;

/// Hashes `input` with `near_sdk::env::keccak256_array`.
///
/// Trusted: the 32 bytes returned are taken to be the Keccak-256 digest of
/// `input`, the same for the same input on every call.
#[verifier::external_body]
pub(crate) fn keccak(input: &[u8]) -> (digest: [u8; 32])
    ensures
        digest@ == keccak256(input@),
{
    near_sdk::env::keccak256_array(input)
}

} // verus!
