//! The hash-chain engine: a deterministic feed-forward chain that rotates
//! over a fixed, ordered set of eleven digest algorithms.
//!
//! Round 0 digests the original input; every later round digests the raw
//! digest bytes of the round before it, never the original input. Each
//! round's raw digest is reported hex-encoded, together with the tag of the
//! algorithm that produced it. The condensed final hash is the literal
//! `X11-` followed by the first 32 hex characters of the last round's
//! digest — a deliberate truncation, kept for wire compatibility.
//!
//! The algorithm rotation, in order: BLAKE3, Groestl-256, SHA3-256,
//! Keccak-256, SHA2-256, RIPEMD-160, Whirlpool, BLAKE2b-512 truncated to
//! 32 bytes, Streebog-256, SM3, BLAKE2s-256.

use vstd::prelude::*;
use vstd::string::{StrSliceExecFns, StringExecFns, StringSliceAdditionalSpecFns};
use crate::digests::{
    blake2b512_digest, blake2b512_of, blake2s256_digest, blake2s256_of, blake3_digest, blake3_of,
    groestl256_digest, groestl256_of, keccak256_digest, keccak256_of, ripemd160_digest,
    ripemd160_of, sha2_256_digest, sha2_256_of, sha3_256_digest, sha3_256_of, sm3_digest, sm3_of,
    streebog256_digest, streebog256_of, whirlpool_digest, whirlpool_of,
};
use crate::hexfmt::{hex_string, spec_hex, spec_u64_string, u64_to_string};
use crate::clock::{clamp_unix, now_unix_seconds};
use vstd::utf8::encode_utf8;

verus! {

/// Round count of the base validation path.
pub const X11_BASE_LAYERS: usize = 11;

/// Round count of the payload-transform path.
pub const X11_MAX_LAYERS: usize = 15;

/// The raw digest bytes that round `j mod 11`'s algorithm produces on
/// `data`. Index 7 is BLAKE2b-512 truncated to its first 32 bytes.
pub open spec fn spec_round_digest(j: int, data: Seq<u8>) -> Seq<u8>
    recommends
        0 <= j < 11,
{
    if j == 0 {
        blake3_of(data)
    } else if j == 1 {
        groestl256_of(data)
    } else if j == 2 {
        sha3_256_of(data)
    } else if j == 3 {
        keccak256_of(data)
    } else if j == 4 {
        sha2_256_of(data)
    } else if j == 5 {
        ripemd160_of(data)
    } else if j == 6 {
        whirlpool_of(data)
    } else if j == 7 {
        blake2b512_of(data).take(32)
    } else if j == 8 {
        streebog256_of(data)
    } else if j == 9 {
        sm3_of(data)
    } else {
        blake2s256_of(data)
    }
}

/// The tag under which round `j mod 11`'s algorithm is reported.
pub open spec fn spec_algo_name(j: int) -> Seq<char>
    recommends
        0 <= j < 11,
{
    if j == 0 {
        "BLAKE3"@
    } else if j == 1 {
        "GROESTL"@
    } else if j == 2 {
        "SHA3-256"@
    } else if j == 3 {
        "KECCAK-256"@
    } else if j == 4 {
        "SHA2-256"@
    } else if j == 5 {
        "RIPEMD-160"@
    } else if j == 6 {
        "WHIRLPOOL"@
    } else if j == 7 {
        "BLAKE2b"@
    } else if j == 8 {
        "STREEBOG"@
    } else if j == 9 {
        "SM3"@
    } else {
        "BLAKE2s"@
    }
}

/// The bytes fed into round `i` of a chain over `data`: the original input
/// for round 0, and the raw digest of the round before for every later
/// round.
pub open spec fn chain_input(data: Seq<u8>, i: int) -> Seq<u8>
    decreases i,
{
    if i <= 0 {
        data
    } else {
        spec_round_digest((i - 1) % 11, chain_input(data, i - 1))
    }
}

/// The raw digest bytes that round `i` of a chain over `data` produces.
pub open spec fn chain_digest(data: Seq<u8>, i: int) -> Seq<u8> {
    spec_round_digest(i % 11, chain_input(data, i))
}

/// The condensed final hash of a chain of `rounds` rounds over `data`:
/// `X11-` followed by the first 32 hex characters of the last digest.
pub open spec fn spec_final_hash(data: Seq<u8>, rounds: int) -> Seq<char> {
    "X11-"@ + spec_hex(chain_digest(data, rounds - 1)).take(32)
}

/// The ordered digest chain one validation produces: per-round hex digests,
/// the per-round algorithm tags, and the condensed final hash.
#[derive(Debug, Clone)]
pub struct DigestChainResult {
    pub digests: Vec<String>,
    pub algorithms: Vec<String>,
    pub final_hash: String,
}

/// The chain engine's error: it was invoked with a zero round count, a
/// configuration defect rather than a runtime condition.
#[derive(Debug, Clone, PartialEq, Eq, Structural)]
pub enum ChainError {
    InvalidRounds,
}

/// What a well-formed chain result over `data` with `rounds` rounds holds:
/// exactly `rounds` digests and tags, round `i`'s entry the hex encoding of
/// round `i`'s raw digest in the feed-forward chain, and the truncated
/// final hash.
pub open spec fn chain_ok(data: Seq<u8>, rounds: int, r: DigestChainResult) -> bool {
    &&& r.digests@.len() == rounds
    &&& r.algorithms@.len() == rounds
    &&& forall|i: int|
        0 <= i < rounds ==> (#[trigger] r.digests@[i])@ == spec_hex(chain_digest(data, i))
    &&& forall|i: int|
        0 <= i < rounds ==> (#[trigger] r.algorithms@[i])@ == spec_algo_name(i % 11)
    &&& r.final_hash@ == spec_final_hash(data, rounds)
}

/// The feed-forward law: for every round past the first, the bytes a chain
/// digests are exactly the raw digest bytes of the round before — never the
/// original input resupplied.
pub proof fn lemma_chain_feed_forward(data: Seq<u8>, i: int)
    requires
        i >= 1,
    ensures
        chain_input(data, i) == chain_digest(data, i - 1),
{
}

/// Determinism of the chain: any two results that are well-formed for the
/// same input and round count agree in every digest, every algorithm tag,
/// and the final hash.
pub proof fn lemma_chain_deterministic(
    data: Seq<u8>,
    rounds: int,
    r1: DigestChainResult,
    r2: DigestChainResult,
)
    requires
        chain_ok(data, rounds, r1),
        chain_ok(data, rounds, r2),
    ensures
        r1.digests@.map_values(|s: String| s@) =~~= r2.digests@.map_values(|s: String| s@),
        r1.algorithms@.map_values(|s: String| s@) =~~= r2.algorithms@.map_values(|s: String| s@),
        r1.final_hash@ == r2.final_hash@,
{
}

fn algo_name(j: usize) -> (r: &'static str)
    requires
        j < 11,
    ensures
        r@ == spec_algo_name(j as int),
{
    if j == 0 {
        "BLAKE3"
    } else if j == 1 {
        "GROESTL"
    } else if j == 2 {
        "SHA3-256"
    } else if j == 3 {
        "KECCAK-256"
    } else if j == 4 {
        "SHA2-256"
    } else if j == 5 {
        "RIPEMD-160"
    } else if j == 6 {
        "WHIRLPOOL"
    } else if j == 7 {
        "BLAKE2b"
    } else if j == 8 {
        "STREEBOG"
    } else if j == 9 {
        "SM3"
    } else {
        "BLAKE2s"
    }
}

fn round_digest(j: usize, data: &[u8]) -> (r: Vec<u8>)
    requires
        j < 11,
    ensures
        r@ == spec_round_digest(j as int, data@),
        20 <= r@.len() <= 64,
{
    if j == 0 {
        blake3_digest(data)
    } else if j == 1 {
        groestl256_digest(data)
    } else if j == 2 {
        sha3_256_digest(data)
    } else if j == 3 {
        keccak256_digest(data)
    } else if j == 4 {
        sha2_256_digest(data)
    } else if j == 5 {
        ripemd160_digest(data)
    } else if j == 6 {
        whirlpool_digest(data)
    } else if j == 7 {
        let mut full = blake2b512_digest(data);
        full.truncate(32);
        proof {
            assert(full@ =~= blake2b512_of(data@).take(32));
        }
        full
    } else if j == 8 {
        streebog256_digest(data)
    } else if j == 9 {
        sm3_digest(data)
    } else {
        blake2s256_digest(data)
    }
}

/// The given character sequences joined with `|` between them.
pub open spec fn spec_join_pipe(parts: Seq<Seq<char>>) -> Seq<char>
    decreases parts.len(),
{
    if parts.len() == 0 {
        Seq::empty()
    } else if parts.len() == 1 {
        parts[0]
    } else {
        spec_join_pipe(parts.drop_last()) + "|"@ + parts.last()
    }
}

/// The algorithm tags of the first `rounds` rounds of a chain, in order.
pub open spec fn spec_algo_trace(rounds: int) -> Seq<Seq<char>> {
    Seq::new(rounds as nat, |i: int| spec_algo_name(i % 11))
}

/// The transformed payload derived from chain input `data`: the literal
/// `X11N_ENC_`, the pipe-joined trace of the transform path's rounds, `_`,
/// and the chain's condensed final hash.
pub open spec fn spec_encrypted(data: Seq<u8>) -> Seq<char> {
    "X11N_ENC_"@ + spec_join_pipe(spec_algo_trace(X11_MAX_LAYERS as int)) + "_"@ + spec_final_hash(
        data,
        X11_MAX_LAYERS as int,
    )
}

/// The transformed payload for message `sms` from node `node_id` stamped at
/// wall-clock second `ts`: the chain runs over the UTF-8 bytes of
/// `sms|node_id|ts`.
pub open spec fn spec_encrypt_sms(sms: Seq<char>, node_id: Seq<char>, ts: u64) -> Seq<char> {
    spec_encrypted(encode_utf8(sms + "|"@ + node_id + "|"@ + spec_u64_string(ts)))
}

/// True of a string that is the payload transform of `sms` and `node_id`
/// stamped at some wall-clock second.
pub open spec fn encrypted_valid(sms: Seq<char>, node_id: Seq<char>, out: Seq<char>) -> bool {
    exists|ts: u64| out == #[trigger] spec_encrypt_sms(sms, node_id, ts)
}

fn join_pipe(parts: &Vec<String>) -> (r: String)
    ensures
        r@ == spec_join_pipe(parts.deep_view()),
{
    let mut s = String::new();
    let mut i: usize = 0;
    while i < parts.len()
        invariant
            i <= parts@.len(),
            s@ == spec_join_pipe(parts.deep_view().take(i as int)),
        decreases parts@.len() - i,
    {
        if i > 0 {
            s.append("|");
        }
        s.append(parts[i].as_str());
        proof {
            let dv = parts.deep_view();
            assert(dv[i as int] == parts@[i as int]@);
            assert(dv.take(i + 1).drop_last() =~= dv.take(i as int));
            assert(dv.take(i + 1).last() == dv[i as int]);
            if i == 0 {
                assert(s@ =~= spec_join_pipe(dv.take(1)));
            }
        }
        i = i + 1;
    }
    proof {
        assert(parts.deep_view().take(parts@.len() as int) =~= parts.deep_view());
    }
    s
}

/// The chain engine and the node identity check.
pub struct X11Nano;

impl X11Nano {
    fn chain_layers(data: &[u8], layers: usize) -> (r: DigestChainResult)
        requires
            layers >= 1,
        ensures
            chain_ok(data@, layers as int, r),
    {
        let mut current: Vec<u8> = vstd::slice::slice_to_vec(data);
        let mut digests: Vec<String> = Vec::new();
        let mut algorithms: Vec<String> = Vec::new();
        let mut layer: usize = 0;
        while layer < layers
            invariant
                layer <= layers,
                current@ == chain_input(data@, layer as int),
                digests@.len() == layer,
                algorithms@.len() == layer,
                forall|i: int|
                    0 <= i < layer ==> (#[trigger] digests@[i])@ == spec_hex(
                        chain_digest(data@, i),
                    ),
                forall|i: int| 0 <= i < layer ==> (#[trigger] digests@[i])@.len() >= 40,
                forall|i: int|
                    0 <= i < layer ==> (#[trigger] algorithms@[i])@ == spec_algo_name(i % 11),
            decreases layers - layer,
        {
            let j = layer % 11;
            let hash = round_digest(j, current.as_slice());
            proof {
                assert(hash@ == chain_digest(data@, layer as int));
            }
            let hash_hex = hex_string(hash.as_slice());
            digests.push(hash_hex);
            let name = algo_name(j);
            algorithms.push(name.to_owned());
            current = hash;
            proof {
                assert(chain_input(data@, layer as int + 1) == chain_digest(data@, layer as int));
            }
            layer = layer + 1;
        }
        let last: &String = &digests[layers - 1];
        let tail: &str = last.as_str().substring_char(0, 32);
        let final_hash: String = "X11-".to_owned().concat(tail);
        proof {
            assert(tail@ =~= spec_hex(chain_digest(data@, layers as int - 1)).take(32));
        }
        DigestChainResult { digests, algorithms, final_hash }
    }

    /// Runs the feed-forward chain for `layers` rounds over `data`.
    /// A zero round count is a configuration defect and is rejected; for
    /// every positive round count the full chain is returned.
    pub fn hash_chain(data: &[u8], layers: usize) -> (r: Result<
        DigestChainResult,
        ChainError,
    >)
        ensures
            r is Ok <==> layers >= 1,
            r matches Ok(c) ==> chain_ok(data@, layers as int, c),
            r matches Err(e) ==> e == ChainError::InvalidRounds,
    {
        if layers == 0 {
            Err(ChainError::InvalidRounds)
        } else {
            Ok(Self::chain_layers(data, layers))
        }
    }

    /// The payload transform at a fixed wall-clock second: the chain at the
    /// elevated round count over the UTF-8 bytes of `sms|node_id|ts`,
    /// rendered in the documented `X11N_ENC_` format. One-way by
    /// construction — a digest chain, not reversible encryption.
    pub fn encrypt_sms_at(sms: &str, node_id: &str, ts: u64) -> (r: String)
        ensures
            r@ == spec_encrypt_sms(sms@, node_id@, ts),
    {
        let mut combined = sms.to_owned();
        combined.append("|");
        combined.append(node_id);
        combined.append("|");
        let ts_str = u64_to_string(ts);
        combined.append(ts_str.as_str());
        let bytes: Vec<u8> = combined.as_str().as_bytes_vec();
        let chain = Self::chain_layers(bytes.as_slice(), X11_MAX_LAYERS);
        let joined = join_pipe(&chain.algorithms);
        proof {
            assert(chain.algorithms.deep_view() =~~= spec_algo_trace(X11_MAX_LAYERS as int));
        }
        let mut out = "X11N_ENC_".to_owned();
        out.append(joined.as_str());
        out.append("_");
        out.append(chain.final_hash.as_str());
        out
    }

    /// The payload transform stamped at the current wall-clock second.
    /// The second is read from the clock, so it cannot be pinned; what is
    /// promised is the format, for some reading.
    pub fn encrypt_sms(sms: &str, node_id: &str) -> (r: String)
        ensures
            encrypted_valid(sms@, node_id@, r@),
    {
        let ts = clamp_unix(now_unix_seconds());
        let r = Self::encrypt_sms_at(sms, node_id, ts);
        proof {
            assert(r@ == spec_encrypt_sms(sms@, node_id@, ts));
        }
        r
    }

    /// A node identifier is accepted when it is non-empty and at least ten
    /// bytes long.
    pub fn verify_node(node_id: &str) -> (r: bool)
        ensures
            r == (node_id@.len() > 0 && node_id.spec_bytes().len() as usize >= 10),
    {
        !node_id.is_empty() && node_id.len() >= 10
    }
}

} // verus!
