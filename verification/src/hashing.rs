//! SHA-256 digests of governance payloads.
use vstd::prelude::*;
use crate::codec::{borsh_bytes, push_u32, push_bytes};
use crate::error::ProgramResult;
use crate::keys::{spec_key_from_bytes, Hash32, Key32};

verus! {

/// The SHA-256 digest of `data`.
pub uninterp spec fn spec_sha256(data: Seq<u8>) -> Seq<u8>;

/// Calls `solana_sha256_hasher::hash`, the SHA-256 digest of `data`. The
/// contract claims only that the 32 returned bytes are `spec_sha256(data)`: a
/// function of `data` alone.
#[verifier::external_body]
pub(crate) fn sha256(data: &Vec<u8>) -> (digest: [u8; 32])
    ensures
        digest@ == spec_sha256(data@),
{
    solana_sha256_hasher::hash(data.as_slice()).to_bytes()
}

/// The hash of an already encoded payload: its SHA-256 digest as a key.
pub open spec fn spec_hash_encoded(encoded: Seq<u8>) -> Hash32 {
    spec_key_from_bytes(spec_sha256(encoded))
}

/// Hashes an already encoded payload.
pub fn hash_encoded(encoded: &Vec<u8>) -> (h: Hash32)
    ensures
        h == spec_hash_encoded(encoded@),
{
    Key32::new_from_array(sha256(encoded))
}

/// The payload hash of Borsh-encoded `payload`: SHA-256 over its length
/// prefix and bytes.
pub open spec fn spec_payload_hash(payload: Seq<u8>) -> Hash32 {
    spec_key_from_bytes(spec_sha256(borsh_bytes(payload)))
}

/// Hashes a governance payload: SHA-256 of the Borsh encoding of the byte
/// vector `payload` (a `u32` little-endian length, then the bytes).
pub fn hash_contributor_payload(payload: &Vec<u8>) -> (r: ProgramResult<Hash32>)
    requires
        payload@.len() <= u32::MAX,
    ensures
        r == Ok::<Hash32, crate::error::CustomError>(spec_payload_hash(payload@)),
{
    let mut encoded: Vec<u8> = Vec::new();
    push_u32(&mut encoded, payload.len() as u32);
    push_bytes(&mut encoded, payload.as_slice());
    assert(encoded@ =~= borsh_bytes(payload@));
    let digest = sha256(&encoded);
    Ok(Key32::new_from_array(digest))
}

} // verus!
