//! Hashing that the ledger host provides, and the packing of 32-byte digests
//! into the four words of a [`Hash32`].

use crate::model::Hash32;
use soroban_sdk::{Bytes, BytesN, Env};
use vstd::prelude::*;

verus! {

/// The ledger environment, through which host functions are reached.
#[verifier::external_type_specification]
#[verifier::external_body]
pub struct ExEnv(soroban_sdk::Env);

/// The SHA-256 digest of `data`.
pub uninterp spec fn sha256_of(data: Seq<u8>) -> Seq<u8>;

/// Calls `Crypto::sha256` of soroban-sdk on the 32 bytes `data`. Claimed: the
/// 32 bytes returned are the SHA-256 digest of `data`, which depends on `data`
/// alone.
#[verifier::external_body]
fn sha256(env: &Env, data: [u8; 32]) -> (r: [u8; 32])
    ensures
        r@ == sha256_of(data@),
{
    let input = Bytes::from_array(env, &data);
    let digest: BytesN<32> = env.crypto().sha256(&input).into();
    digest.to_array()
}

/// The big-endian 64-bit word made of the eight bytes of `s` from `i` on.
pub open spec fn be_word(s: Seq<u8>, i: int) -> u64 {
    (s[i] as u64) << 56u64 | (s[i + 1] as u64) << 48u64 | (s[i + 2] as u64) << 40u64 | (s[i + 3] as u64)
        << 32u64 | (s[i + 4] as u64) << 24u64 | (s[i + 5] as u64) << 16u64 | (s[i + 6] as u64) << 8u64 | (s[i
        + 7] as u64)
}

/// The hash whose words are the big-endian readings of the four 8-byte
/// groups of `s`.
pub open spec fn hash_of_bytes(s: Seq<u8>) -> Hash32 {
    Hash32 { w0: be_word(s, 0), w1: be_word(s, 8), w2: be_word(s, 16), w3: be_word(s, 24) }
}

fn word_at(b: &[u8; 32], i: usize) -> (w: u64)
    requires
        i + 8 <= 32,
    ensures
        w == be_word(b@, i as int),
{
    (b[i] as u64) << 56u64 | (b[i + 1] as u64) << 48u64 | (b[i + 2] as u64) << 40u64 | (b[i + 3] as u64)
        << 32u64 | (b[i + 4] as u64) << 24u64 | (b[i + 5] as u64) << 16u64 | (b[i + 6] as u64) << 8u64 | (b[i
        + 7] as u64)
}

/// Packs 32 bytes into the four words of a hash, big-endian.
pub fn digest_words(b: [u8; 32]) -> (h: Hash32)
    ensures
        h == hash_of_bytes(b@),
{
    Hash32 { w0: word_at(&b, 0), w1: word_at(&b, 8), w2: word_at(&b, 16), w3: word_at(&b, 24) }
}

/// The SHA-256 digest of a 32-byte delivery proof, as a hash.
pub fn delivery_digest(env: &Env, proof: [u8; 32]) -> (h: Hash32)
    ensures
        h == hash_of_bytes(sha256_of(proof@)),
{
    let d = sha256(env, proof);
    digest_words(d)
}

} // verus!
