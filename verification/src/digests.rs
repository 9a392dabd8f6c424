//! Trusted bindings for the digest algorithms the chain rotates over.
//!
//! Each algorithm's output is given a name: an uninterpreted spec function
//! of the input bytes alone, since every one of these digests is a pure
//! function of its input. The stated output lengths are the documented
//! digest sizes of the respective crates.

use vstd::prelude::*;
use blake2::Digest;

verus! {

pub uninterp spec fn blake3_of(data: Seq<u8>) -> Seq<u8>;

pub uninterp spec fn groestl256_of(data: Seq<u8>) -> Seq<u8>;

pub uninterp spec fn sha3_256_of(data: Seq<u8>) -> Seq<u8>;

pub uninterp spec fn keccak256_of(data: Seq<u8>) -> Seq<u8>;

pub uninterp spec fn sha2_256_of(data: Seq<u8>) -> Seq<u8>;

pub uninterp spec fn ripemd160_of(data: Seq<u8>) -> Seq<u8>;

pub uninterp spec fn whirlpool_of(data: Seq<u8>) -> Seq<u8>;

pub uninterp spec fn blake2b512_of(data: Seq<u8>) -> Seq<u8>;

pub uninterp spec fn streebog256_of(data: Seq<u8>) -> Seq<u8>;

pub uninterp spec fn sm3_of(data: Seq<u8>) -> Seq<u8>;

pub uninterp spec fn blake2s256_of(data: Seq<u8>) -> Seq<u8>;

/// Relies on `blake3::hash`: a 32-byte digest, a function of the input alone.
#[verifier::external_body]
pub(crate) fn blake3_digest(data: &[u8]) -> (r: Vec<u8>)
    ensures
        r@ == blake3_of(data@),
        r@.len() == 32,
{
    blake3::hash(data).as_bytes().to_vec()
}

/// Relies on `groestl::Groestl256` (`Digest::digest`): a 32-byte digest,
/// a function of the input alone.
#[verifier::external_body]
pub(crate) fn groestl256_digest(data: &[u8]) -> (r: Vec<u8>)
    ensures
        r@ == groestl256_of(data@),
        r@.len() == 32,
{
    groestl::Groestl256::digest(data).to_vec()
}

/// Relies on `sha3::Sha3_256` (`Digest::digest`): a 32-byte digest,
/// a function of the input alone.
#[verifier::external_body]
pub(crate) fn sha3_256_digest(data: &[u8]) -> (r: Vec<u8>)
    ensures
        r@ == sha3_256_of(data@),
        r@.len() == 32,
{
    sha3::Sha3_256::digest(data).to_vec()
}

/// Relies on `keccak_hash::keccak`: a 32-byte Keccak-256 digest,
/// a function of the input alone.
#[verifier::external_body]
pub(crate) fn keccak256_digest(data: &[u8]) -> (r: Vec<u8>)
    ensures
        r@ == keccak256_of(data@),
        r@.len() == 32,
{
    keccak_hash::keccak(data).as_bytes().to_vec()
}

/// Relies on `sha2::Sha256` (`Digest::digest`): a 32-byte digest,
/// a function of the input alone.
#[verifier::external_body]
pub(crate) fn sha2_256_digest(data: &[u8]) -> (r: Vec<u8>)
    ensures
        r@ == sha2_256_of(data@),
        r@.len() == 32,
{
    sha2::Sha256::digest(data).to_vec()
}

/// Relies on `ripemd::Ripemd160` (`Digest::digest`): a 20-byte digest,
/// a function of the input alone.
#[verifier::external_body]
pub(crate) fn ripemd160_digest(data: &[u8]) -> (r: Vec<u8>)
    ensures
        r@ == ripemd160_of(data@),
        r@.len() == 20,
{
    ripemd::Ripemd160::digest(data).to_vec()
}

/// Relies on `whirlpool::Whirlpool` (`Digest::digest`): a 64-byte digest,
/// a function of the input alone.
#[verifier::external_body]
pub(crate) fn whirlpool_digest(data: &[u8]) -> (r: Vec<u8>)
    ensures
        r@ == whirlpool_of(data@),
        r@.len() == 64,
{
    whirlpool::Whirlpool::digest(data).to_vec()
}

/// Relies on `blake2::Blake2b512` (`Digest::digest`): a 64-byte digest,
/// a function of the input alone.
#[verifier::external_body]
pub(crate) fn blake2b512_digest(data: &[u8]) -> (r: Vec<u8>)
    ensures
        r@ == blake2b512_of(data@),
        r@.len() == 64,
{
    blake2::Blake2b512::digest(data).to_vec()
}

/// Relies on `streebog::Streebog256` (`Digest::digest`): a 32-byte digest,
/// a function of the input alone.
#[verifier::external_body]
pub(crate) fn streebog256_digest(data: &[u8]) -> (r: Vec<u8>)
    ensures
        r@ == streebog256_of(data@),
        r@.len() == 32,
{
    streebog::Streebog256::digest(data).to_vec()
}

/// Relies on `sm3::Sm3` (`Digest::digest`): a 32-byte digest,
/// a function of the input alone.
#[verifier::external_body]
pub(crate) fn sm3_digest(data: &[u8]) -> (r: Vec<u8>)
    ensures
        r@ == sm3_of(data@),
        r@.len() == 32,
{
    sm3::Sm3::digest(data).to_vec()
}

/// Relies on `blake2::Blake2s256` (`Digest::digest`): a 32-byte digest,
/// a function of the input alone.
#[verifier::external_body]
pub(crate) fn blake2s256_digest(data: &[u8]) -> (r: Vec<u8>)
    ensures
        r@ == blake2s256_of(data@),
        r@.len() == 32,
{
    blake2::Blake2s256::digest(data).to_vec()
}

} // verus!
