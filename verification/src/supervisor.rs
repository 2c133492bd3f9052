//! The lifecycle state machine of the supervised backend process.
//!
//! The supervisor owns one `ProcessHandle` and drives it through
//! `NotStarted -> Starting -> Running -> Stopped`, with the terminal `Failed`
//! reachable from a start attempt that found no executable, could not spawn,
//! or never confirmed readiness. The operating-system work itself (existence
//! checks, spawning, killing, reaping, the HTTP probe) happens in the host
//! shell; each function here takes the outcome of one such step as a plain
//! value and performs the verified state transition, so the decisions of
//! `start` and `stop` are proved while the I/O around them is not.
//!
//! A deliberate asymmetry, kept from the supervisor's documented policy: when
//! a spawned process fails its one startup readiness probe, the start attempt
//! reports failure but the process is left running and its identifier stays
//! recorded, so a later `stop` still terminates it.

use vstd::prelude::*;

use crate::probe::ReadinessResult;

verus! {

/// Where the supervised process is in its lifecycle.
#[derive(Clone, Copy, Debug, PartialEq, Eq, Structural)]
pub enum LifecycleState {
    /// No start attempt has been made.
    NotStarted,
    /// A process was spawned and its readiness is not yet confirmed.
    Starting,
    /// The spawned process confirmed readiness.
    Running,
    /// The recorded process was terminated and reaped.
    Stopped,
    /// A start attempt ended without a confirmed-ready process.
    Failed,
}

/// Why a start attempt failed.
#[derive(Debug, PartialEq, Eq)]
pub enum StartError {
    /// No candidate executable path existed; nothing was spawned.
    ExecutableNotFound,
    /// The operating system refused to create the process, for the reason
    /// it gave.
    SpawnFailed(String),
    /// The process was spawned but did not confirm readiness within the
    /// grace period. It is left running.
    HealthCheckFailed,
}

/// The supervised backend process: its lifecycle state, the identifier of
/// the live OS process while one is recorded, and the executable path that
/// was actually launched.
pub struct ProcessHandle {
    pub state: LifecycleState,
    pub pid: Option<u64>,
    pub exe_path: Option<String>,
}

impl ProcessHandle {
    /// Well-formedness: a process identifier is recorded exactly while a
    /// process may be live (`Starting`, `Running`, or a `Failed` attempt
    /// that left its process running), and a recorded process always has
    /// the path it was launched from.
    pub open spec fn wf(self) -> bool {
        &&& (self.state is NotStarted ==> self.pid is None && self.exe_path is None)
        &&& (self.state is Stopped ==> self.pid is None && self.exe_path is None)
        &&& (self.state is Starting ==> self.pid is Some)
        &&& (self.state is Running ==> self.pid is Some)
        &&& (self.pid is Some ==> self.exe_path is Some)
    }

    /// A fresh handle: nothing started, nothing recorded.
    pub fn new() -> (h: ProcessHandle)
        ensures
            h.wf(),
            h.state is NotStarted,
            h.pid is None,
            h.exe_path is None,
    {
        ProcessHandle { state: LifecycleState::NotStarted, pid: None, exe_path: None }
    }

    /// The re-entrancy guard of `start`: a new launch may proceed only
    /// while no launch is underway or confirmed. Otherwise `start` is a
    /// no-op that reports success without spawning anything.
    pub fn start_permitted(&self) -> (r: bool)
        ensures
            r == start_guard_spec(*self),
    {
        !(matches!(self.state, LifecycleState::Running) || matches!(
            self.state,
            LifecycleState::Starting,
        ))
    }

    /// Record that no candidate executable existed: the attempt is over,
    /// nothing was spawned, and any process left over from an earlier
    /// attempt stays recorded.
    pub fn handle_resolution_failure(&mut self) -> (e: StartError)
        requires
            old(self).wf(),
            start_guard_spec(*old(self)),
        ensures
            final(self).wf(),
            *final(self) == resolution_failed_next(*old(self)),
            e is ExecutableNotFound,
    {
        self.state = LifecycleState::Failed;
        StartError::ExecutableNotFound
    }

    /// Record the outcome of the one spawn attempt on `path`: on success the
    /// new process and its path are recorded and the handle is `Starting`;
    /// on failure the attempt is over with `SpawnFailed` carrying the
    /// operating system's reason, and the handle keeps what it had.
    pub fn handle_spawn(&mut self, path: String, outcome: Result<u64, String>) -> (r: Result<
        (),
        StartError,
    >)
        requires
            old(self).wf(),
            start_guard_spec(*old(self)),
        ensures
            final(self).wf(),
            match outcome {
                Ok(pid) => {
                    &&& *final(self) == spawn_ok_next(*old(self), path, pid)
                    &&& r is Ok
                },
                Err(reason) => {
                    &&& *final(self) == spawn_failed_next(*old(self))
                    &&& r matches Err(e) && e matches StartError::SpawnFailed(m) && m == reason
                },
            },
    {
        match outcome {
            Ok(pid) => {
                self.state = LifecycleState::Starting;
                self.pid = Some(pid);
                self.exe_path = Some(path);
                Ok(())
            },
            Err(reason) => {
                self.state = LifecycleState::Failed;
                Err(StartError::SpawnFailed(reason))
            },
        }
    }

    /// Record the result of the single readiness probe made after the grace
    /// period: `Ready` confirms the launch (`Running`); anything else ends
    /// the attempt with `HealthCheckFailed`, leaving the process running and
    /// recorded.
    pub fn handle_probe(&mut self, probe: ReadinessResult) -> (r: Result<(), StartError>)
        requires
            old(self).wf(),
            old(self).state is Starting,
        ensures
            final(self).wf(),
            *final(self) == probe_next(*old(self), probe),
            probe is Ready <==> r is Ok,
            !(probe is Ready) ==> r == Err::<(), StartError>(StartError::HealthCheckFailed),
    {
        match probe {
            ReadinessResult::Ready => {
                self.state = LifecycleState::Running;
                Ok(())
            },
            _ => {
                self.state = LifecycleState::Failed;
                Err(StartError::HealthCheckFailed)
            },
        }
    }

    /// The `stop` transition. If a process is recorded, clear the handle,
    /// mark it `Stopped`, and return the process identifier, which the
    /// caller must terminate and reap before releasing the lock around this
    /// handle. If nothing is recorded, this is a no-op and the handle is
    /// unchanged. Never fails, and calling it again returns nothing.
    pub fn stop_transition(&mut self) -> (r: Option<u64>)
        requires
            old(self).wf(),
        ensures
            final(self).wf(),
            *final(self) == stop_next(*old(self)),
            r == stop_reaps(*old(self)),
            final(self).pid is None,
    {
        match self.pid {
            Some(pid) => {
                self.pid = None;
                self.exe_path = None;
                self.state = LifecycleState::Stopped;
                Some(pid)
            },
            None => None,
        }
    }
}

/// `start` may proceed only while no launch is underway or confirmed.
pub open spec fn start_guard_spec(h: ProcessHandle) -> bool {
    !(h.state is Running || h.state is Starting)
}

/// The handle after a start attempt that found no executable: the attempt
/// failed before any spawn, and whatever process was recorded stays so.
pub open spec fn resolution_failed_next(h: ProcessHandle) -> ProcessHandle {
    ProcessHandle { state: LifecycleState::Failed, ..h }
}

/// The handle after a successful spawn of `path` as process `pid`.
pub open spec fn spawn_ok_next(h: ProcessHandle, path: String, pid: u64) -> ProcessHandle {
    ProcessHandle { state: LifecycleState::Starting, pid: Some(pid), exe_path: Some(path) }
}

/// The handle after the operating system refused to spawn: the attempt
/// failed, and whatever process was recorded stays so.
pub open spec fn spawn_failed_next(h: ProcessHandle) -> ProcessHandle {
    ProcessHandle { state: LifecycleState::Failed, ..h }
}

/// The handle after the startup readiness probe: `Ready` confirms the
/// launch, anything else fails the attempt while keeping the process
/// recorded.
pub open spec fn probe_next(h: ProcessHandle, probe: ReadinessResult) -> ProcessHandle {
    if probe is Ready {
        ProcessHandle { state: LifecycleState::Running, ..h }
    } else {
        ProcessHandle { state: LifecycleState::Failed, ..h }
    }
}

/// The handle after `stop`: cleared and `Stopped` if a process was
/// recorded, untouched otherwise.
pub open spec fn stop_next(h: ProcessHandle) -> ProcessHandle {
    if h.pid is Some {
        ProcessHandle { state: LifecycleState::Stopped, pid: None, exe_path: None }
    } else {
        h
    }
}

/// The process identifier that `stop` hands the caller to terminate and
/// reap: the recorded one, if any.
pub open spec fn stop_reaps(h: ProcessHandle) -> Option<u64> {
    h.pid
}

/// A whole start attempt over the handle, given the outcomes the outside
/// world would supply: the resolved executable path (if any candidate
/// existed), the spawn outcome, and the startup readiness probe. Yields the
/// final handle, the value `start` returns, and whether a process was
/// spawned during the attempt.
pub open spec fn start_attempt_spec(
    h: ProcessHandle,
    resolved: Option<String>,
    spawn: Result<u64, String>,
    probe: ReadinessResult,
) -> (ProcessHandle, Result<(), StartError>, bool) {
    if !start_guard_spec(h) {
        (h, Ok(()), false)
    } else {
        match resolved {
            None => (resolution_failed_next(h), Err(StartError::ExecutableNotFound), false),
            Some(path) => match spawn {
                Err(reason) => (spawn_failed_next(h), Err(StartError::SpawnFailed(reason)), false),
                Ok(pid) => {
                    let started = spawn_ok_next(h, path, pid);
                    if probe is Ready {
                        (probe_next(started, probe), Ok(()), true)
                    } else {
                        (probe_next(started, probe), Err(StartError::HealthCheckFailed), true)
                    }
                },
            },
        }
    }
}

/// The handle's well-formedness is an invariant: a whole start attempt,
/// whatever the outside outcomes, and a `stop` both preserve it.
pub proof fn lemma_transitions_preserve_wf(
    h: ProcessHandle,
    resolved: Option<String>,
    spawn: Result<u64, String>,
    probe: ReadinessResult,
)
    requires
        h.wf(),
    ensures
        start_attempt_spec(h, resolved, spawn, probe).0.wf(),
        stop_next(h).wf(),
{
}

/// Stopping is idempotent: one `stop` leaves no process recorded, so a
/// second `stop` reaps nothing and changes nothing; and a `stop` that found
/// nothing recorded (in particular, when `start` was never called) changes
/// nothing at all.
pub proof fn lemma_stop_idempotent(h: ProcessHandle)
    requires
        h.wf(),
    ensures
        stop_next(h).pid is None,
        stop_reaps(stop_next(h)) is None,
        stop_next(stop_next(h)) == stop_next(h),
        stop_reaps(h) is None ==> stop_next(h) == h,
{
}

/// No double spawn: a start attempt made while a launch is already
/// underway or confirmed spawns nothing, changes nothing, and reports
/// success, whatever the outside outcomes would have been.
pub proof fn lemma_no_double_spawn(
    h: ProcessHandle,
    resolved: Option<String>,
    spawn: Result<u64, String>,
    probe: ReadinessResult,
)
    requires
        h.wf(),
        h.state is Running || h.state is Starting,
    ensures
        start_attempt_spec(h, resolved, spawn, probe).0 == h,
        start_attempt_spec(h, resolved, spawn, probe).1 == Ok::<(), StartError>(()),
        start_attempt_spec(h, resolved, spawn, probe).2 == false,
{
}

/// No match, no spawn: a permitted start attempt with no resolved
/// executable fails with `ExecutableNotFound`, spawns nothing, and leaves
/// the recorded process (if any) as it was.
pub proof fn lemma_no_match_no_spawn(
    h: ProcessHandle,
    spawn: Result<u64, String>,
    probe: ReadinessResult,
)
    requires
        h.wf(),
        start_guard_spec(h),
    ensures
        start_attempt_spec(h, None, spawn, probe).0.state is Failed,
        start_attempt_spec(h, None, spawn, probe).0.pid == h.pid,
        start_attempt_spec(h, None, spawn, probe).1 == Err::<(), StartError>(
            StartError::ExecutableNotFound,
        ),
        start_attempt_spec(h, None, spawn, probe).2 == false,
{
}

} // verus!
