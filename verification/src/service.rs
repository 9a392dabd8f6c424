//! The validation service: one request in, one response out, with
//! process-lifetime aggregate counters updated on every call.
//!
//! The `verified` flag of a response is unconditionally true — a documented
//! stub, not the output of any check. The payload transform is a one-way
//! digest chain, not reversible encryption.

use vstd::prelude::*;
use vstd::string::StringExecFns;
use crate::clock::{clamp_unix, elapsed_micros, now_unix_micros, now_unix_seconds};
use crate::security::{signature_valid, LQV};
use crate::x11_nano::{encrypted_valid, X11Nano, X11_BASE_LAYERS, X11_MAX_LAYERS};

verus! {

/// One node validation request. Lives for one connection and is owned by
/// the worker handling it.
#[derive(Debug, Clone)]
pub struct ValidationRequest {
    pub request_id: String,
    pub node_id: String,
    pub sms: Option<String>,
    pub timestamp: u64,
}

/// The response to one validation request; same lifecycle as the request.
#[derive(Debug, Clone)]
pub struct ValidationResponse {
    pub request_id: String,
    pub node_id: String,
    pub sms_encrypted: Option<String>,
    pub verified: bool,
    pub signature: String,
    pub layers_used: usize,
    pub processing_time: u128,
    pub status: String,
    pub timestamp: u64,
}

/// Process-wide aggregate counters: created once at startup, only ever
/// added to, never reset. Counters wrap on overflow, as a machine-word
/// counter does.
#[derive(Debug, Clone, PartialEq, Eq, Structural)]
pub struct CoreStats {
    pub processed: u64,
    pub errors: u64,
    pub total_time: u64,
    pub active_layers: u64,
}

/// Derived metrics a reporter computes from a stats snapshot.
#[derive(Debug, Clone)]
pub struct MetricsReport {
    pub processed: u64,
    pub errors: u64,
    pub avg_time: u64,
    pub error_pct: u128,
    pub active_layers: u64,
    pub status: String,
}

/// What a response must hold for the request it answers: identifiers carried
/// over, the fixed success marker, the payload transformed exactly when one
/// was attached, the round count of the path taken, and a signature in the
/// documented format.
pub open spec fn response_ok(req: ValidationRequest, r: ValidationResponse) -> bool {
    &&& r.request_id@ == req.request_id@
    &&& r.node_id@ == req.node_id@
    &&& r.verified == true
    &&& r.status@ == "PIP"@
    &&& (r.sms_encrypted is Some <==> req.sms is Some)
    &&& (req.sms matches Some(s) ==> encrypted_valid(s@, req.node_id@, r.sms_encrypted.unwrap()@))
    &&& r.layers_used == if req.sms is Some {
        X11_MAX_LAYERS
    } else {
        X11_BASE_LAYERS
    }
    &&& signature_valid(req.node_id@, req.sms is Some, r.signature@)
    &&& r.processing_time <= u64::MAX
}

/// The validation engine: the aggregate counters plus the configured
/// endpoint path of the channel the surrounding process serves.
#[derive(Debug, Clone)]
pub struct XyronCore {
    pub alert_mode: bool,
    pub stats: CoreStats,
    pub socket_path: String,
}

impl XyronCore {
    /// A fresh engine: zeroed counters, the gauge at the base round count,
    /// alert mode off.
    pub fn new(socket_path: &str) -> (r: XyronCore)
        ensures
            r.stats == (CoreStats {
                processed: 0,
                errors: 0,
                total_time: 0,
                active_layers: X11_BASE_LAYERS as u64,
            }),
            r.alert_mode == false,
            r.socket_path@ == socket_path@,
    {
        XyronCore {
            alert_mode: false,
            stats: CoreStats {
                processed: 0,
                errors: 0,
                total_time: 0,
                active_layers: X11_BASE_LAYERS as u64,
            },
            socket_path: socket_path.to_owned(),
        }
    }

    /// Answers one well-formed request. Always succeeds: it counts one more
    /// processed validation, adds the call's elapsed microseconds to the
    /// cumulative time, sets the gauge to the round count just used, and
    /// never touches the error counter.
    pub fn process_validation(&mut self, request: ValidationRequest) -> (r: ValidationResponse)
        ensures
            response_ok(request, r),
            final(self).stats.processed == old(self).stats.processed.wrapping_add(1),
            final(self).stats.total_time == old(self).stats.total_time.wrapping_add(
                r.processing_time as u64,
            ),
            final(self).stats.errors == old(self).stats.errors,
            final(self).stats.active_layers == r.layers_used as u64,
            final(self).alert_mode == old(self).alert_mode,
            final(self).socket_path == old(self).socket_path,
    {
        let start = now_unix_micros();
        let layers: usize = if request.sms.is_some() {
            X11_MAX_LAYERS
        } else {
            X11_BASE_LAYERS
        };
        self.stats.active_layers = layers as u64;
        let sms_encrypted: Option<String> = match &request.sms {
            Some(sms) => Some(X11Nano::encrypt_sms(sms.as_str(), request.node_id.as_str())),
            None => None,
        };
        let signature = LQV::generate_signature(request.node_id.as_str(), request.sms.is_some());
        let timestamp = clamp_unix(now_unix_seconds());
        let elapsed: u64 = elapsed_micros(start, now_unix_micros());
        self.stats.processed = self.stats.processed.wrapping_add(1);
        self.stats.total_time = self.stats.total_time.wrapping_add(elapsed);
        ValidationResponse {
            request_id: request.request_id,
            node_id: request.node_id,
            sms_encrypted,
            verified: true,
            signature,
            layers_used: layers,
            processing_time: elapsed as u128,
            status: "PIP".to_owned(),
            timestamp,
        }
    }

    /// Counts one abandoned connection: a request that could not be decoded,
    /// a response that could not be encoded, or a failed read or write. Only
    /// the error counter moves.
    pub fn record_error(&mut self)
        ensures
            final(self).stats.errors == old(self).stats.errors.wrapping_add(1),
            final(self).stats.processed == old(self).stats.processed,
            final(self).stats.total_time == old(self).stats.total_time,
            final(self).stats.active_layers == old(self).stats.active_layers,
            final(self).alert_mode == old(self).alert_mode,
            final(self).socket_path == old(self).socket_path,
    {
        self.stats.errors = self.stats.errors.wrapping_add(1);
    }

    /// The derived metrics of a stats snapshot: average processing time and
    /// error percentage (both zero while nothing was processed), the current
    /// gauge, and the status line, which turns to `PIP PIP` once errors
    /// exceed a tenth of the processed count.
    pub fn metrics(stats: &CoreStats) -> (r: MetricsReport)
        ensures
            r.processed == stats.processed,
            r.errors == stats.errors,
            r.avg_time == if stats.processed == 0 {
                0u64
            } else {
                (stats.total_time / stats.processed) as u64
            },
            r.error_pct == if stats.processed == 0 {
                0int
            } else {
                stats.errors as int * 100 / stats.processed as int
            },
            r.active_layers == stats.active_layers,
            r.status@ == if stats.errors > stats.processed / 10 {
                "PIP PIP"@
            } else {
                "PIP"@
            },
    {
        let avg_time: u64 = if stats.processed == 0 {
            0
        } else {
            stats.total_time / stats.processed
        };
        let error_pct: u128 = if stats.processed == 0 {
            0
        } else {
            stats.errors as u128 * 100 / stats.processed as u128
        };
        let status: String = if stats.errors > stats.processed / 10 {
            "PIP PIP".to_owned()
        } else {
            "PIP".to_owned()
        };
        MetricsReport {
            processed: stats.processed,
            errors: stats.errors,
            avg_time,
            error_pct,
            active_layers: stats.active_layers,
            status,
        }
    }
}

} // verus!
