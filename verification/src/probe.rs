//! Classification of a single readiness probe against the backend's health
//! endpoint.
//!
//! A probe is one bounded-timeout HTTP GET against a fixed local endpoint.
//! The network round trip itself is I/O and lives in the host shell; it hands
//! this module the outcome as a plain value: `Some(code)` when a response
//! arrived with HTTP status `code`, `None` when the endpoint was unreachable
//! (connection refused, timeout, or any transport-level error).

use vstd::prelude::*;

verus! {

/// The tri-state answer of one readiness probe. Ephemeral: produced fresh by
/// every probe, never stored in the lifecycle state.
#[derive(Clone, Copy, Debug, PartialEq, Eq, Structural)]
pub enum ReadinessResult {
    /// A response arrived with a success (2xx) status code.
    Ready,
    /// A response arrived, but with a non-success status code.
    NotReady,
    /// No response: connection refused, timed out, or a transport error.
    Unreachable,
}

/// What one probe outcome means: a 2xx status is `Ready`, any other status is
/// `NotReady`, and no response at all is `Unreachable`.
pub open spec fn classify_probe_spec(outcome: Option<u16>) -> ReadinessResult {
    match outcome {
        Some(code) => if 200 <= code < 300 {
            ReadinessResult::Ready
        } else {
            ReadinessResult::NotReady
        },
        None => ReadinessResult::Unreachable,
    }
}

/// Turn the raw outcome of one probe (HTTP status code, or nothing when the
/// endpoint did not answer) into the tri-state readiness value.
pub fn classify_probe(outcome: Option<u16>) -> (r: ReadinessResult)
    ensures
        r == classify_probe_spec(outcome),
{
    match outcome {
        Some(code) => if 200 <= code && code < 300 {
            ReadinessResult::Ready
        } else {
            ReadinessResult::NotReady
        },
        None => ReadinessResult::Unreachable,
    }
}

} // verus!
