//! Lifecycle-and-readiness supervisor for a single auxiliary backend process.
//!
//! The library holds the verified core: building the ordered set of candidate
//! executable paths, selecting the first existing one, classifying the outcome
//! of a readiness probe, and the lifecycle state machine that start, stop and
//! status drive. The surrounding process, filesystem and network work is done
//! by the host shell, which feeds plain values (existence bits, spawn
//! outcomes, HTTP status codes) into these functions and acts on what they
//! return.

use vstd::prelude::*;
use vstd::string::StringExecFns;

mod paths;
mod probe;
mod supervisor;

pub use paths::backend_name_spec;
pub use paths::backend_name_windows_spec;
pub use paths::base_candidates_spec;
pub use paths::candidate_paths;
pub use paths::candidates_spec;
pub use paths::ends_with;
pub use paths::ends_with_spec;
pub use paths::fallback_candidates_spec;
pub use paths::join_path;
pub use paths::join_path_spec;
pub use paths::lemma_candidates_split;
pub use paths::lemma_resource_candidates_rooted;
pub use paths::lemma_resource_dir_wins;
pub use paths::lemma_suffix_variant_follows;
pub use paths::lemma_with_suffix_variants_concat;
pub use paths::lemma_with_suffix_variants_singleton;
pub use paths::resource_candidate_count;
pub use paths::resource_candidates_spec;
pub use paths::select_first_existing;
pub use paths::starts_with_spec;
pub use paths::views_of;
pub use paths::with_suffix_variants_spec;

pub use probe::ReadinessResult;
pub use probe::classify_probe;
pub use probe::classify_probe_spec;
pub use supervisor::LifecycleState;
pub use supervisor::ProcessHandle;
pub use supervisor::StartError;
pub use supervisor::lemma_no_double_spawn;
pub use supervisor::lemma_no_match_no_spawn;
pub use supervisor::lemma_stop_idempotent;
pub use supervisor::lemma_transitions_preserve_wf;
pub use supervisor::probe_next;
pub use supervisor::resolution_failed_next;
pub use supervisor::spawn_failed_next;
pub use supervisor::spawn_ok_next;
pub use supervisor::start_attempt_spec;
pub use supervisor::start_guard_spec;
pub use supervisor::stop_next;
pub use supervisor::stop_reaps;

verus! {

/// The fixed local readiness endpoint of the backend: loopback address,
/// fixed port, well-known health path. A probe is one HTTP GET here.
pub const HEALTH_ENDPOINT: &'static str = "http://127.0.0.1:8000/health";

/// How long a start attempt waits after spawning before its one readiness
/// probe, giving the backend time to begin listening.
pub const GRACE_PERIOD_MS: u64 = 2000;

/// The greeting the host shell shows for a name.
pub fn greet(name: &str) -> (r: String)
    ensures
        r@ == "Hello, "@ + name@ + "! You've been greeted from Rust!"@,
{
    let mut r = "Hello, ".to_owned();
    r.append(name);
    r.append("! You've been greeted from Rust!");
    r
}

/// The host-facing answer of a status query: a readiness probe that came
/// back `Ready` means the backend is running; any other answer (a
/// non-success response, or no response at all) is reported as the backend
/// not responding.
pub fn status_message(probe: ReadinessResult) -> (r: Result<String, String>)
    ensures
        probe is Ready ==> (r matches Ok(m) && m@ == "Backend is running"@),
        !(probe is Ready) ==> (r matches Err(m) && m@ == "Backend is not responding"@),
{
    match probe {
        ReadinessResult::Ready => Ok("Backend is running".to_owned()),
        _ => Err("Backend is not responding".to_owned()),
    }
}

} // verus!
