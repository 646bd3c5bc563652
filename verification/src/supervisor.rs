//! The process supervisor: owner of the single engine process.
//!
//! The supervisor is a state machine over the states `Stopped`,
//! `Starting`, `Running` and `Stopping`.  Spawning, signalling and
//! waiting are outside work; the surrounding application performs them
//! while holding one lock across a whole transition, and reports every
//! outcome back through the event methods here.  Each event method is
//! the executable form of a spec-level transition function, so laws
//! about whole start and stop sequences are stated and proved over the
//! same transitions the application runs.

use vstd::prelude::*;

verus! {

/// Probe attempts a start sequence makes before it gives up.
pub const PROBE_ATTEMPTS: u8 = 3;

/// Short settle wait after a spawn before the first exit check, in
/// milliseconds.
pub const SETTLE_WAIT_MS: u64 = 500;

/// Wait after the settle check before the first connectivity probe,
/// giving the engine time to bring its network interface up.
pub const INIT_WAIT_MS: u64 = 5000;

/// Ceiling on one connectivity probe attempt, in milliseconds.
pub const PROBE_TIMEOUT_MS: u64 = 10000;

/// Length of one polling increment while waiting for a graceful exit.
pub const STOP_POLL_INTERVAL_MS: u64 = 100;

/// Number of polling increments before termination is forced: a
/// bounded wait window of about three seconds.
pub const STOP_POLL_LIMIT: u8 = 30;

/// Pause between the stop and the start of a restart, letting the
/// operating system release bound ports and interfaces.
pub const RESTART_PAUSE_MS: u64 = 500;

/// Lifecycle states of the supervised process.
#[derive(Clone, Copy, Debug, PartialEq, Eq, Structural)]
pub enum LifecycleState {
    Stopped,
    Starting,
    Running,
    Stopping,
}

/// The supervised process: its OS id and when it was spawned, in
/// milliseconds of wall-clock time.
#[derive(Clone, Copy, Debug, PartialEq, Eq, Structural)]
pub struct ProcessHandle {
    pub pid: u32,
    pub started_at: u64,
}

/// Errors the supervisor surfaces to its callers.
#[derive(Clone, Copy, Debug, PartialEq, Eq, Structural)]
pub enum SupervisorError {
    /// A start was requested while an instance is already starting,
    /// running, or still shutting down.
    AlreadyRunning,
    /// An operation that needs a running engine found none.
    NotRunning,
    /// The engine process could not be spawned at all.
    SpawnFailed,
    /// The engine exited within the settle window; its exit code.
    ImmediateExit(i32),
    /// Every connectivity probe failed; the fresh process was torn
    /// down again.
    ConnectivityCheckFailed,
}

/// What the caller must do after reporting a probe result.
#[derive(Clone, Copy, Debug, PartialEq, Eq, Structural)]
pub enum ProbeStep {
    /// The probe succeeded: the engine is durably running.
    Established,
    /// The probe failed but attempts remain: back off, probe again.
    Retry,
    /// The last attempt failed: tear the process down (graceful, then
    /// forced), confirm its exit, and fail the start with the carried
    /// error.
    Abandon(SupervisorError),
}

/// What the caller must do after requesting a stop.
#[derive(Clone, Copy, Debug, PartialEq, Eq, Structural)]
pub enum StopStep {
    /// Nothing is running: the stop is a successful no-op.
    AlreadyStopped,
    /// Send the graceful termination signal to this process id, then
    /// poll for its exit.
    SignalTerm(u32),
}

/// What the caller must do after one exit poll.
#[derive(Clone, Copy, Debug, PartialEq, Eq, Structural)]
pub enum StopPollStep {
    /// The process is gone; the supervisor is stopped.
    Exited,
    /// Wait one polling increment and poll again.
    PollAgain,
    /// The wait window is exhausted: force-kill, block until the OS
    /// confirms the exit, then report it confirmed.
    ForceKill(u32),
}

/// A non-blocking status report.
#[derive(Clone, Copy, Debug, PartialEq, Eq, Structural)]
pub struct StatusReport {
    pub running: bool,
    pub pid: Option<u32>,
    pub uptime_ms: u64,
}

/// The owner of the single supervised process.
pub struct ProcessSupervisor {
    pub state: LifecycleState,
    pub handle: Option<ProcessHandle>,
    pub probes_left: u8,
    pub stop_polls_left: u8,
}

impl ProcessSupervisor {
    /// The state/handle discipline: stopped means no handle, running
    /// or stopping means a handle, and a start sequence always has a
    /// probe attempt left.
    pub open spec fn wf(self) -> bool {
        &&& self.state is Stopped ==> self.handle is None
        &&& self.state is Running ==> self.handle is Some
        &&& self.state is Stopping ==> self.handle is Some
        &&& self.state is Starting ==> 1 <= self.probes_left <= PROBE_ATTEMPTS
        &&& self.probes_left <= PROBE_ATTEMPTS
        &&& self.stop_polls_left <= STOP_POLL_LIMIT
    }

    /// No instance exists and none is being started or stopped.
    pub open spec fn is_stopped(self) -> bool {
        self.state is Stopped
    }

    /// An instance exists, is being started, or is still going down:
    /// a second one must not be spawned.
    pub open spec fn is_active(self) -> bool {
        !(self.state is Stopped)
    }
}

/// Transition for a start request: refused while any instance is
/// active, otherwise the sequence begins with a full probe budget.
pub open spec fn spec_request_start(s: ProcessSupervisor) -> (ProcessSupervisor, Result<
    (),
    SupervisorError,
>) {
    if s.is_active() {
        (s, Result::Err(SupervisorError::AlreadyRunning))
    } else {
        (
            ProcessSupervisor {
                state: LifecycleState::Starting,
                handle: Option::None,
                probes_left: PROBE_ATTEMPTS,
                stop_polls_left: s.stop_polls_left,
            },
            Result::Ok(()),
        )
    }
}

/// Transition for the spawn outcome: a failed spawn returns the
/// supervisor to `Stopped`; a successful one stores the handle.
pub open spec fn spec_on_spawn_result(s: ProcessSupervisor, spawned: Option<ProcessHandle>) -> (
    ProcessSupervisor,
    Result<(), SupervisorError>,
) {
    match spawned {
        Option::None => (
            ProcessSupervisor { state: LifecycleState::Stopped, handle: Option::None, ..s },
            Result::Err(SupervisorError::SpawnFailed),
        ),
        Option::Some(h) => (
            ProcessSupervisor { handle: Option::Some(h), ..s },
            Result::Ok(()),
        ),
    }
}

/// Transition for the settle check: a process that already exited
/// fails the start with its exit code and leaves the supervisor
/// stopped.
pub open spec fn spec_on_settle_check(s: ProcessSupervisor, exit_code: Option<i32>) -> (
    ProcessSupervisor,
    Result<(), SupervisorError>,
) {
    match exit_code {
        Option::Some(code) => (
            ProcessSupervisor { state: LifecycleState::Stopped, handle: Option::None, ..s },
            Result::Err(SupervisorError::ImmediateExit(code)),
        ),
        Option::None => (s, Result::Ok(())),
    }
}

/// Transition for one probe result: success makes the state durably
/// `Running`; a failure spends one attempt, and spending the last one
/// abandons the start and begins the teardown.
pub open spec fn spec_on_probe_result(s: ProcessSupervisor, success: bool) -> (
    ProcessSupervisor,
    ProbeStep,
) {
    if success {
        (ProcessSupervisor { state: LifecycleState::Running, ..s }, ProbeStep::Established)
    } else if s.probes_left > 1 {
        (
            ProcessSupervisor { probes_left: (s.probes_left - 1) as u8, ..s },
            ProbeStep::Retry,
        )
    } else {
        (
            ProcessSupervisor { state: LifecycleState::Stopping, probes_left: 0, ..s },
            ProbeStep::Abandon(SupervisorError::ConnectivityCheckFailed),
        )
    }
}

/// Transition for a stop request: a no-op when nothing is active,
/// otherwise the graceful signal goes out and the bounded poll window
/// opens.  A start sequence that has not spawned yet is simply
/// cancelled.
pub open spec fn spec_request_stop(s: ProcessSupervisor) -> (ProcessSupervisor, StopStep) {
    match s.handle {
        Option::None => (
            if s.state is Stopped {
                s
            } else {
                ProcessSupervisor { state: LifecycleState::Stopped, ..s }
            },
            StopStep::AlreadyStopped,
        ),
        Option::Some(h) => (
            ProcessSupervisor {
                state: LifecycleState::Stopping,
                stop_polls_left: STOP_POLL_LIMIT,
                ..s
            },
            StopStep::SignalTerm(h.pid),
        ),
    }
}

/// Transition for one exit poll during a stop: observed exit ends the
/// stop; otherwise the window shrinks by one increment until the kill
/// is forced.
pub open spec fn spec_on_stop_poll(s: ProcessSupervisor, exited: bool) -> (
    ProcessSupervisor,
    StopPollStep,
) {
    if exited {
        (
            ProcessSupervisor { state: LifecycleState::Stopped, handle: Option::None, ..s },
            StopPollStep::Exited,
        )
    } else if s.stop_polls_left > 0 {
        (
            ProcessSupervisor { stop_polls_left: (s.stop_polls_left - 1) as u8, ..s },
            StopPollStep::PollAgain,
        )
    } else {
        (s, StopPollStep::ForceKill(s.handle->Some_0.pid))
    }
}

/// Transition for a confirmed exit: the supervisor always ends
/// stopped with the handle cleared.
pub open spec fn spec_on_exit_confirmed(s: ProcessSupervisor) -> ProcessSupervisor {
    ProcessSupervisor { state: LifecycleState::Stopped, handle: Option::None, ..s }
}

impl ProcessSupervisor {
    /// A fresh supervisor: stopped, no process.
    pub fn new() -> (s: ProcessSupervisor)
        ensures
            s.wf(),
            s.state is Stopped,
            s.handle is None,
    {
        ProcessSupervisor {
            state: LifecycleState::Stopped,
            handle: Option::None,
            probes_left: 0,
            stop_polls_left: 0,
        }
    }

    /// Begin a start.  Fails with `AlreadyRunning` — leaving the
    /// supervisor untouched, so no second process is ever spawned —
    /// unless the supervisor is stopped.  On success the caller must
    /// spawn the engine and report the outcome.
    pub fn request_start(&mut self) -> (r: Result<(), SupervisorError>)
        requires
            old(self).wf(),
        ensures
            final(self).wf(),
            (*final(self), r) == spec_request_start(*old(self)),
    {
        if matches!(self.state, LifecycleState::Stopped) {
            self.state = LifecycleState::Starting;
            self.handle = Option::None;
            self.probes_left = PROBE_ATTEMPTS;
            Result::Ok(())
        } else {
            Result::Err(SupervisorError::AlreadyRunning)
        }
    }

    /// Report the spawn outcome.  `None` means the spawn itself
    /// failed; the start is over and the supervisor is stopped again.
    pub fn on_spawn_result(&mut self, spawned: Option<ProcessHandle>) -> (r: Result<
        (),
        SupervisorError,
    >)
        requires
            old(self).wf(),
            old(self).state is Starting,
            old(self).handle is None,
        ensures
            final(self).wf(),
            (*final(self), r) == spec_on_spawn_result(*old(self), spawned),
    {
        match spawned {
            Option::None => {
                self.state = LifecycleState::Stopped;
                self.handle = Option::None;
                Result::Err(SupervisorError::SpawnFailed)
            },
            Option::Some(h) => {
                self.handle = Option::Some(h);
                Result::Ok(())
            },
        }
    }

    /// Report the settle check made after the settle wait: the exit
    /// code if the fresh process already exited, `None` if it is
    /// still up.  An immediate exit fails the start with that code.
    pub fn on_settle_check(&mut self, exit_code: Option<i32>) -> (r: Result<(), SupervisorError>)
        requires
            old(self).wf(),
            old(self).state is Starting,
            old(self).handle is Some,
        ensures
            final(self).wf(),
            (*final(self), r) == spec_on_settle_check(*old(self), exit_code),
    {
        match exit_code {
            Option::Some(code) => {
                self.state = LifecycleState::Stopped;
                self.handle = Option::None;
                Result::Err(SupervisorError::ImmediateExit(code))
            },
            Option::None => Result::Ok(()),
        }
    }

    /// Report one connectivity probe result.  On `Abandon` the caller
    /// tears the process down and fails the start with the carried
    /// error, which is always `ConnectivityCheckFailed`.
    pub fn on_probe_result(&mut self, success: bool) -> (r: ProbeStep)
        requires
            old(self).wf(),
            old(self).state is Starting,
            old(self).handle is Some,
        ensures
            final(self).wf(),
            (*final(self), r) == spec_on_probe_result(*old(self), success),
    {
        if success {
            self.state = LifecycleState::Running;
            ProbeStep::Established
        } else if self.probes_left > 1 {
            self.probes_left = self.probes_left - 1;
            ProbeStep::Retry
        } else {
            self.probes_left = 0;
            self.state = LifecycleState::Stopping;
            ProbeStep::Abandon(SupervisorError::ConnectivityCheckFailed)
        }
    }

    /// Begin a stop.  Idempotent: with nothing active it is a
    /// successful no-op, any number of times in a row.  Otherwise the
    /// caller sends the graceful signal and polls for the exit.
    pub fn request_stop(&mut self) -> (r: StopStep)
        requires
            old(self).wf(),
        ensures
            final(self).wf(),
            (*final(self), r) == spec_request_stop(*old(self)),
    {
        match self.handle {
            Option::None => {
                if !matches!(self.state, LifecycleState::Stopped) {
                    self.state = LifecycleState::Stopped;
                }
                StopStep::AlreadyStopped
            },
            Option::Some(h) => {
                self.state = LifecycleState::Stopping;
                self.stop_polls_left = STOP_POLL_LIMIT;
                StopStep::SignalTerm(h.pid)
            },
        }
    }

    /// Report one exit poll made during a stop.
    pub fn on_stop_poll(&mut self, exited: bool) -> (r: StopPollStep)
        requires
            old(self).wf(),
            old(self).state is Stopping,
        ensures
            final(self).wf(),
            (*final(self), r) == spec_on_stop_poll(*old(self), exited),
    {
        if exited {
            self.state = LifecycleState::Stopped;
            self.handle = Option::None;
            StopPollStep::Exited
        } else if self.stop_polls_left > 0 {
            self.stop_polls_left = self.stop_polls_left - 1;
            StopPollStep::PollAgain
        } else {
            let h = self.handle.unwrap();
            StopPollStep::ForceKill(h.pid)
        }
    }

    /// Report that the OS confirmed the exit.  Whatever went before —
    /// graceful exit, forced kill, signal errors along the way — the
    /// supervisor ends stopped with the handle cleared.
    pub fn on_exit_confirmed(&mut self)
        requires
            old(self).wf(),
            old(self).state is Stopping,
        ensures
            final(self).wf(),
            *final(self) == spec_on_exit_confirmed(*old(self)),
    {
        self.state = LifecycleState::Stopped;
        self.handle = Option::None;
    }

    /// Non-blocking status.  `exit_observed` is whether a running
    /// process turned out to have exited since last observed; the
    /// supervisor then heals itself to `Stopped`.  Uptime is measured
    /// against `now_ms` and is zero for anything not running.
    pub fn status(&mut self, exit_observed: bool, now_ms: u64) -> (r: StatusReport)
        requires
            old(self).wf(),
        ensures
            final(self).wf(),
            old(self).state is Running && exit_observed ==> {
                &&& final(self).state is Stopped
                &&& final(self).handle is None
                &&& r == (StatusReport { running: false, pid: Option::<u32>::None, uptime_ms: 0 })
            },
            old(self).state is Running && !exit_observed ==> {
                &&& *final(self) == *old(self)
                &&& r.running
                &&& r.pid == Option::Some(old(self).handle->Some_0.pid)
                &&& r.uptime_ms == if now_ms >= old(self).handle->Some_0.started_at {
                    (now_ms - old(self).handle->Some_0.started_at) as u64
                } else {
                    0u64
                }
            },
            !(old(self).state is Running) ==> {
                &&& *final(self) == *old(self)
                &&& !r.running
                &&& r.pid == match old(self).handle {
                    Option::Some(h) => Option::Some(h.pid),
                    Option::None => Option::<u32>::None,
                }
                &&& r.uptime_ms == 0
            },
    {
        match self.handle {
            Option::Some(h) => {
                if matches!(self.state, LifecycleState::Running) {
                    if exit_observed {
                        self.state = LifecycleState::Stopped;
                        self.handle = Option::None;
                        StatusReport { running: false, pid: Option::None, uptime_ms: 0 }
                    } else {
                        let uptime = if now_ms >= h.started_at {
                            now_ms - h.started_at
                        } else {
                            0
                        };
                        StatusReport { running: true, pid: Option::Some(h.pid), uptime_ms: uptime }
                    }
                } else {
                    StatusReport { running: false, pid: Option::Some(h.pid), uptime_ms: 0 }
                }
            },
            Option::None => StatusReport { running: false, pid: Option::None, uptime_ms: 0 },
        }
    }

    /// The running engine's process id, or `NotRunning`: the guard
    /// control-API operations use before talking to the engine.
    pub fn require_running(&self) -> (r: Result<u32, SupervisorError>)
        requires
            self.wf(),
        ensures
            self.state is Running ==> r == Result::<u32, SupervisorError>::Ok(
                self.handle->Some_0.pid,
            ),
            !(self.state is Running) ==> r == Result::<u32, SupervisorError>::Err(
                SupervisorError::NotRunning,
            ),
    {
        match self.handle {
            Option::Some(h) => {
                if matches!(self.state, LifecycleState::Running) {
                    Result::Ok(h.pid)
                } else {
                    Result::Err(SupervisorError::NotRunning)
                }
            },
            Option::None => Result::Err(SupervisorError::NotRunning),
        }
    }
}

/// The supervisor after `n` consecutive stop requests.
pub open spec fn stop_n(s: ProcessSupervisor, n: nat) -> ProcessSupervisor
    decreases n,
{
    if n == 0 {
        s
    } else {
        spec_request_stop(stop_n(s, (n - 1) as nat)).0
    }
}

/// A second start without an intervening stop is rejected.  After a
/// successful start sequence — spawn succeeded, no immediate exit,
/// some probe succeeded — the supervisor is running, and a further
/// start request returns `AlreadyRunning` and changes nothing, so the
/// one process stays the only one.
pub proof fn lemma_second_start_rejected(s0: ProcessSupervisor, h: ProcessHandle)
    requires
        s0.wf(),
        s0.state is Stopped,
    ensures
        ({
            let (s1, r1) = spec_request_start(s0);
            let (s2, r2) = spec_on_spawn_result(s1, Option::Some(h));
            let (s3, r3) = spec_on_settle_check(s2, Option::None);
            let (s4, step) = spec_on_probe_result(s3, true);
            let (s5, r5) = spec_request_start(s4);
            &&& r1 is Ok && r2 is Ok && r3 is Ok
            &&& step == ProbeStep::Established
            &&& s4.state is Running
            &&& r5 == Result::<(), SupervisorError>::Err(SupervisorError::AlreadyRunning)
            &&& s5 == s4
        }),
{
}

/// Stopping an already-stopped supervisor is a successful no-op,
/// idempotently, any number of times in a row: the state never
/// changes and every request answers `AlreadyStopped`.
pub proof fn lemma_stop_idempotent(s: ProcessSupervisor, n: nat)
    requires
        s.wf(),
        s.state is Stopped,
    ensures
        stop_n(s, n) == s,
        spec_request_stop(stop_n(s, n)).1 == StopStep::AlreadyStopped,
    decreases n,
{
    if n > 0 {
        lemma_stop_idempotent(s, (n - 1) as nat);
    }
}

/// A start whose three probes all fail returns
/// `ConnectivityCheckFailed` and leaves the supervisor stopped with no
/// lingering child: the abandoned process is torn down and its exit
/// confirmed before the error is surfaced.
pub proof fn lemma_probe_exhaustion(s0: ProcessSupervisor, h: ProcessHandle)
    requires
        s0.wf(),
        s0.state is Stopped,
    ensures
        ({
            let (s1, r1) = spec_request_start(s0);
            let (s2, r2) = spec_on_spawn_result(s1, Option::Some(h));
            let (s3, r3) = spec_on_settle_check(s2, Option::None);
            let (s4, p1) = spec_on_probe_result(s3, false);
            let (s5, p2) = spec_on_probe_result(s4, false);
            let (s6, p3) = spec_on_probe_result(s5, false);
            let s7 = spec_on_exit_confirmed(s6);
            &&& r1 is Ok && r2 is Ok && r3 is Ok
            &&& p1 == ProbeStep::Retry
            &&& p2 == ProbeStep::Retry
            &&& p3 == ProbeStep::Abandon(SupervisorError::ConnectivityCheckFailed)
            &&& s6.state is Stopping
            &&& s7.state is Stopped
            &&& s7.handle is None
        }),
{
}

} // verus!
