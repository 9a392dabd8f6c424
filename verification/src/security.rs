//! The signature generator: an opaque, unique bookkeeping tag for each
//! validation event. Not a cryptographic signature — no key material and
//! nothing verifiable; uniqueness comes from a fresh 128-bit random token
//! in every tag.
//!
//! Format, with `_` as the separator: `X11_` then `SMS` or `VAL` (payload
//! present or not), then the node identifier, then the wall-clock second,
//! then the 32-hex-character random token.

use vstd::prelude::*;
use vstd::string::StringExecFns;
use crate::clock::{clamp_unix, now_unix_seconds, spec_clamp_unix};
use crate::hexfmt::{spec_u64_string, u64_to_string};

verus! {

/// The signature for a validation of `node_id` at wall-clock second `ts`
/// with random token `token`, payload presence tagged by `has_sms`.
pub open spec fn spec_signature(
    node_id: Seq<char>,
    has_sms: bool,
    ts: u64,
    token: Seq<char>,
) -> Seq<char> {
    "X11_"@ + (if has_sms {
        "SMS"@
    } else {
        "VAL"@
    }) + "_"@ + node_id + "_"@ + spec_u64_string(ts) + "_"@ + token
}

/// True of a string in the documented signature format for `node_id` and
/// `has_sms`: some wall-clock second and some 32-character random token
/// joined as `spec_signature` lays out.
pub open spec fn signature_valid(node_id: Seq<char>, has_sms: bool, sig: Seq<char>) -> bool {
    exists|ts: u64, token: Seq<char>|
        token.len() == 32 && sig == #[trigger] spec_signature(node_id, has_sms, ts, token)
}

/// A signature in the documented format is never empty: it always starts
/// with the four characters `X11_`.
pub proof fn lemma_signature_nonempty(node_id: Seq<char>, has_sms: bool, sig: Seq<char>)
    requires
        signature_valid(node_id, has_sms, sig),
    ensures
        sig.len() > 0,
{
    reveal_strlit("X11_");
}

/// Relies on `uuid::Uuid::new_v4` and the `Display` of `Uuid::simple`:
/// a fresh random version-4 UUID rendered as exactly 32 lowercase hex
/// characters. The value is random; only its length is promised.
#[verifier::external_body]
fn fresh_token() -> (r: String)
    ensures
        r@.len() == 32,
{
    uuid::Uuid::new_v4().simple().to_string()
}

/// The signature generator.
pub struct LQV;

impl LQV {
    /// Joins the parts of a signature in the documented format.
    pub fn signature_string(node_id: &str, has_sms: bool, ts: u64, token: &str) -> (r: String)
        ensures
            r@ == spec_signature(node_id@, has_sms, ts, token@),
    {
        let mut s = "X11_".to_owned();
        if has_sms {
            s.append("SMS");
        } else {
            s.append("VAL");
        }
        s.append("_");
        s.append(node_id);
        s.append("_");
        let ts_str = u64_to_string(ts);
        s.append(ts_str.as_str());
        s.append("_");
        s.append(token);
        s
    }

    /// A unique bookkeeping tag for one validation event: the documented
    /// format over the current wall-clock second and a fresh 32-character
    /// random token. The token is random, so the exact value cannot be
    /// pinned; what is promised is the format.
    pub fn generate_signature(node_id: &str, has_sms: bool) -> (r: String)
        ensures
            signature_valid(node_id@, has_sms, r@),
    {
        let token = fresh_token();
        let ts = clamp_unix(now_unix_seconds());
        let r = Self::signature_string(node_id, has_sms, ts, token.as_str());
        proof {
            assert(token@.len() == 32 && r@ == spec_signature(node_id@, has_sms, ts, token@));
        }
        r
    }
}

} // verus!
