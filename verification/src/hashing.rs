use soroban_sdk::Env;
use vstd::prelude::*;

use crate::types::Digest;

verus! {

/// The Soroban host environment, carried through to the host's hash functions.
#[verifier::external_type_specification]
#[verifier::external_body]
pub struct ExEnv(Env);

/// The Keccak-256 digest of `data`.
pub uninterp spec fn keccak256_of(data: Seq<u8>) -> Seq<u8>;

/// `Crypto::keccak256` of the Soroban host on `data`. The digest is a function of the
/// bytes alone, named [`keccak256_of`]; nothing more about it is claimed.
#[verifier::external_body]
pub(crate) fn keccak256(env: &Env, data: &Vec<u8>) -> (r: Digest)
    ensures
        r@ == keccak256_of(data@),
{
    env.crypto().keccak256(&soroban_sdk::Bytes::from_slice(env, data.as_slice())).to_array()
}

/// The SHA-256 digest of `data`.
pub uninterp spec fn sha256_of(data: Seq<u8>) -> Seq<u8>;

/// `Crypto::sha256` of the Soroban host on `data`. The digest is 32 bytes and a
/// function of the bytes alone, named [`sha256_of`]; nothing more about it is claimed.
#[verifier::external_body]
pub(crate) fn sha256(env: &Env, data: &Vec<u8>) -> (r: Digest)
    ensures
        r@ == sha256_of(data@),
{
    env.crypto().sha256(&soroban_sdk::Bytes::from_slice(env, data.as_slice())).to_array()
}

} // verus!
