//! The process supervisor's state machine.
//!
//! A [`Supervisor`] holds at most one handle to a spawned worker process,
//! recorded as the identifier the operating system gave the process. The
//! supervisor itself never talks to the operating system: the embedding
//! application polls, spawns, kills and waits, and hands the observed
//! outcomes ([`Liveness`], a spawn result, [`StopOutcome`]) to the decision
//! functions below, which say exactly how the slot changes and what the
//! caller is told. Callers must serialize access to one `Supervisor` (the
//! embedding application keeps it behind a mutual-exclusion lock), so each
//! operation below describes one atomic step of the state machine.

use vstd::prelude::*;
use vstd::string::StringExecFns;

verus! {

/// Outcome of a non-blocking liveness poll of the held worker process.
#[derive(Clone, Copy, PartialEq, Eq, Structural, Debug)]
pub enum Liveness {
    /// The operating system reports the process as still running.
    Running,
    /// The operating system reports the process as having exited.
    Exited,
}

/// Outcome of the terminate-and-reap step that a stop request triggers.
#[derive(Debug, PartialEq, Eq)]
pub enum StopOutcome {
    /// The kill signal was delivered and the exit was reaped.
    Exited,
    /// Delivering the kill signal failed; the text is the OS error.
    KillError(String),
    /// The signal was delivered but reaping the exit failed.
    WaitError(String),
}

/// Everything a supervisor operation can fail with.
#[derive(Debug, PartialEq, Eq)]
pub enum SupervisorError {
    /// A start request found the held process still running.
    AlreadyRunning,
    /// A stop request found no process held.
    NotRunning,
    /// Spawning the worker failed; the text is the OS error.
    SpawnFailed(String),
    /// Delivering the kill signal failed; the text is the OS error.
    TerminationFailed(String),
    /// Reaping the killed process failed; the text is the OS error.
    WaitFailed(String),
    /// The liveness poll itself failed; the text is the OS error.
    StatusCheckFailed(String),
}

impl SupervisorError {
    /// The human-readable message for this error, as the embedding
    /// application reports it to its caller; OS error text is carried along
    /// verbatim.
    pub fn message(&self) -> (r: String)
        ensures
            self is AlreadyRunning ==> r@ == "Python backend is already running"@,
            self is NotRunning ==> r@ == "Python backend is not running"@,
            self is SpawnFailed ==> r@ == "Failed to start Python backend: "@
                + self->SpawnFailed_0@,
            self is TerminationFailed ==> r@ == "Failed to kill Python process: "@
                + self->TerminationFailed_0@,
            self is WaitFailed ==> r@ == "Failed to wait for Python process: "@
                + self->WaitFailed_0@,
            self is StatusCheckFailed ==> r@ == "Error checking process status: "@
                + self->StatusCheckFailed_0@,
    {
        match self {
            SupervisorError::AlreadyRunning => String::from_str(
                "Python backend is already running",
            ),
            SupervisorError::NotRunning => String::from_str("Python backend is not running"),
            SupervisorError::SpawnFailed(e) => String::from_str(
                "Failed to start Python backend: ",
            ).concat(e.as_str()),
            SupervisorError::TerminationFailed(e) => String::from_str(
                "Failed to kill Python process: ",
            ).concat(e.as_str()),
            SupervisorError::WaitFailed(e) => String::from_str(
                "Failed to wait for Python process: ",
            ).concat(e.as_str()),
            SupervisorError::StatusCheckFailed(e) => String::from_str(
                "Error checking process status: ",
            ).concat(e.as_str()),
        }
    }
}

/// The supervisor: a single slot holding either nothing or the identifier of
/// the one worker process it owns.
pub struct Supervisor {
    slot: Option<u64>,
}

impl View for Supervisor {
    type V = Option<u64>;

    closed spec fn view(&self) -> Option<u64> {
        self.slot
    }
}

/// How many process handles a supervisor state holds.
pub open spec fn handle_count(s: Option<u64>) -> nat {
    if s is Some {
        1
    } else {
        0
    }
}

/// Whether a start request is admitted: it is refused exactly when a process
/// is held and the poll confirmed it running.
pub open spec fn start_check_ok(s: Option<u64>, live: Option<Liveness>) -> bool {
    !(s is Some && live == Some(Liveness::Running))
}

/// The slot after recording a spawn outcome: a successful spawn's handle
/// overwrites whatever was there (at most a stale entry for an exited
/// process); a failed spawn changes nothing.
pub open spec fn start_commit_next(s: Option<u64>, spawn: Result<u64, String>) -> Option<u64> {
    match spawn {
        Ok(id) => Some(id),
        Err(_) => s,
    }
}

/// What a stop request answers: the removed handle, or `NotRunning` when
/// none is held.
pub open spec fn stop_take_result(s: Option<u64>) -> Result<u64, SupervisorError> {
    match s {
        Some(id) => Ok(id),
        None => Err(SupervisorError::NotRunning),
    }
}

/// The slot after a status poll: only the observation that the held process
/// has exited clears it.
pub open spec fn status_next(s: Option<u64>, poll: Option<Result<Liveness, String>>) -> Option<
    u64,
> {
    if s is Some && poll == Some(Result::<Liveness, String>::Ok(Liveness::Exited)) {
        None
    } else {
        s
    }
}

/// What a status poll answers: running exactly when a process is held and
/// the poll confirmed it running; the poll's own failure is reported as
/// `StatusCheckFailed`.
pub open spec fn status_result(s: Option<u64>, poll: Option<Result<Liveness, String>>) -> Result<
    bool,
    SupervisorError,
> {
    match s {
        None => Ok(false),
        Some(_) => match poll {
            Some(Ok(Liveness::Running)) => Ok(true),
            Some(Ok(Liveness::Exited)) => Ok(false),
            Some(Err(e)) => Err(SupervisorError::StatusCheckFailed(e)),
            None => Ok(false),  // unreachable: a held process is always polled
        },
    }
}

/// The slot holds at most one live process handle in every state: it is
/// either empty or filled with exactly one identifier, so no sequence of
/// operations can make the supervisor own two processes at once.
pub proof fn lemma_at_most_one_handle(s: Option<u64>)
    ensures
        handle_count(s) <= 1,
{
}

/// A start request made while the held process is confirmed running is
/// refused with `AlreadyRunning` and changes nothing: the admission check
/// never touches the slot, so the running process is untouched.
pub proof fn lemma_start_refused_while_running(s: Option<u64>)
    requires
        s is Some,
    ensures
        !start_check_ok(s, Some(Liveness::Running)),
{
}

/// A start request made while no process is held, or while the held process
/// has already exited, is admitted, and recording the successful spawn
/// leaves exactly the new handle held, a stale entry being overwritten.
pub proof fn lemma_start_succeeds_without_live_process(
    s: Option<u64>,
    live: Option<Liveness>,
    id: u64,
)
    requires
        live is Some <==> s is Some,
        live != Some(Liveness::Running),
    ensures
        start_check_ok(s, live),
        start_commit_next(s, Ok(id)) == Some(id),
{
}

/// A start whose spawn failed changes nothing: the error is reported to the
/// caller and the slot — a stale entry for an exited process included — is
/// exactly as it was before the request.
pub proof fn lemma_failed_spawn_preserves_state(s: Option<u64>, e: String)
    ensures
        start_commit_next(s, Err(e)) == s,
{
}

/// A stop request with no process held answers `NotRunning`, and the slot
/// stays empty.
pub proof fn lemma_stop_without_process(s: Option<u64>)
    requires
        s is None,
    ensures
        stop_take_result(s) == Result::<u64, SupervisorError>::Err(SupervisorError::NotRunning),
{
}

/// A stop request with a process held hands that very handle out for
/// termination; the slot is empty afterwards whatever the termination
/// reports, because [`Supervisor::stop_take`] clears it before any signal is
/// sent and [`Supervisor::stop_finish`] touches no state.
pub proof fn lemma_stop_always_clears(s: Option<u64>, id: u64)
    requires
        s == Some(id),
    ensures
        stop_take_result(s) == Result::<u64, SupervisorError>::Ok(id),
{
}

/// A status poll that observes the held process to have exited answers
/// `false` and clears the slot, so the following status request answers
/// `false` from the empty slot, with nothing left to poll: the stale handle
/// is reported dead exactly once.
pub proof fn lemma_status_self_heals(s: Option<u64>, id: u64)
    requires
        s == Some(id),
    ensures
        status_result(s, Some(Result::<Liveness, String>::Ok(Liveness::Exited)))
            == Result::<bool, SupervisorError>::Ok(false),
        status_next(s, Some(Result::<Liveness, String>::Ok(Liveness::Exited))) is None,
        status_result(
            status_next(s, Some(Result::<Liveness, String>::Ok(Liveness::Exited))),
            None,
        ) == Result::<bool, SupervisorError>::Ok(false),
{
}

impl Supervisor {
    /// A fresh supervisor holds no process.
    pub fn new() -> (r: Supervisor)
        ensures
            r@ is None,
    {
        Supervisor { slot: None }
    }

    /// The identifier of the held process, if one is held.
    pub fn held(&self) -> (r: Option<u64>)
        ensures
            r == self@,
    {
        self.slot
    }

    /// The admission check of a start request.
    ///
    /// `live` is the outcome of a non-blocking poll of the held process, and
    /// is present exactly when a process is held. If that poll confirmed the
    /// process running, the request is refused with `AlreadyRunning`.
    /// Otherwise the request is admitted and the caller may spawn and record
    /// the outcome with [`Supervisor::start_commit`]. The check itself
    /// touches no state: a stale entry for an already-exited process stays
    /// until a successful spawn overwrites it.
    pub fn start_check(&self, live: Option<Liveness>) -> (r: Result<(), SupervisorError>)
        requires
            live is Some <==> self@ is Some,
        ensures
            r is Ok <==> start_check_ok(self@, live),
            r is Err ==> r->Err_0 is AlreadyRunning,
    {
        match live {
            Some(Liveness::Running) => Err(SupervisorError::AlreadyRunning),
            Some(Liveness::Exited) => Ok(()),
            None => Ok(()),
        }
    }

    /// Record the outcome of the spawn that an admitted start request made.
    ///
    /// On a successful spawn the new process's identifier fills the slot,
    /// overwriting at most a stale entry for an exited process, and the
    /// caller is told the worker started; a failed spawn is reported as
    /// `SpawnFailed` with the OS error text and changes nothing — the slot,
    /// stale entry included, is as it was.
    pub fn start_commit(&mut self, spawn: Result<u64, String>) -> (r: Result<
        String,
        SupervisorError,
    >)
        ensures
            final(self)@ == start_commit_next(old(self)@, spawn),
            spawn is Ok <==> r is Ok,
            r is Ok ==> r->Ok_0@ == "Python backend started successfully"@,
            spawn is Err ==> r == Result::<String, SupervisorError>::Err(
                SupervisorError::SpawnFailed(spawn->Err_0),
            ),
    {
        match spawn {
            Ok(id) => {
                self.slot = Some(id);
                Ok(String::from_str("Python backend started successfully"))
            },
            Err(e) => Err(SupervisorError::SpawnFailed(e)),
        }
    }

    /// The state-changing half of a stop request: remove the handle.
    ///
    /// With no process held the request fails with `NotRunning`. Otherwise
    /// the handle is removed and returned so the caller can signal and reap
    /// the process; the slot is empty from this point on, whatever the
    /// termination itself later reports.
    pub fn stop_take(&mut self) -> (r: Result<u64, SupervisorError>)
        ensures
            final(self)@ is None,
            r == stop_take_result(old(self)@),
    {
        match self.slot {
            Some(id) => {
                self.slot = None;
                Ok(id)
            },
            None => Err(SupervisorError::NotRunning),
        }
    }

    /// Turn the terminate-and-reap outcome of a stop request into its answer.
    ///
    /// The handle was already removed by [`Supervisor::stop_take`], so this
    /// touches no state: a clean exit is reported as success, a failed kill
    /// as `TerminationFailed`, a failed reap as `WaitFailed`.
    pub fn stop_finish(outcome: StopOutcome) -> (r: Result<String, SupervisorError>)
        ensures
            outcome is Exited <==> r is Ok,
            r is Ok ==> r->Ok_0@ == "Python backend stopped successfully"@,
            outcome is KillError ==> r == Result::<String, SupervisorError>::Err(
                SupervisorError::TerminationFailed(outcome->KillError_0),
            ),
            outcome is WaitError ==> r == Result::<String, SupervisorError>::Err(
                SupervisorError::WaitFailed(outcome->WaitError_0),
            ),
    {
        match outcome {
            StopOutcome::Exited => Ok(String::from_str("Python backend stopped successfully")),
            StopOutcome::KillError(e) => Err(SupervisorError::TerminationFailed(e)),
            StopOutcome::WaitError(e) => Err(SupervisorError::WaitFailed(e)),
        }
    }

    /// A status request.
    ///
    /// `poll` is the outcome of a non-blocking poll of the held process, and
    /// is present exactly when a process is held. With no process held the
    /// answer is `false` and nothing was polled. A held process confirmed
    /// running is reported `true` with the slot untouched; one observed to
    /// have exited is reported `false` and its stale handle is cleared, so
    /// the next status request answers `false` without polling anything. A
    /// poll that itself failed is reported as `StatusCheckFailed` and leaves
    /// the slot as it was.
    pub fn status(&mut self, poll: Option<Result<Liveness, String>>) -> (r: Result<
        bool,
        SupervisorError,
    >)
        requires
            poll is Some <==> old(self)@ is Some,
        ensures
            final(self)@ == status_next(old(self)@, poll),
            r == status_result(old(self)@, poll),
    {
        if self.slot.is_some() {
            match poll {
                Some(Ok(Liveness::Running)) => Ok(true),
                Some(Ok(Liveness::Exited)) => {
                    self.slot = None;
                    Ok(false)
                },
                Some(Err(e)) => Err(SupervisorError::StatusCheckFailed(e)),
                None => Ok(false),
            }
        } else {
            Ok(false)
        }
    }
}

} // verus!
