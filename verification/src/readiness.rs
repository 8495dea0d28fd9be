//! Waiting for the dsh web service to accept connections: a state machine that the
//! caller drives with clock readings, connection results and finished sleeps.

use vstd::prelude::*;

verus! {

/// How long the shell waits for the service to become ready, in seconds.
pub const READY_TIMEOUT_SECS: u64 = 60;

/// Pause between two connection attempts, in milliseconds.
pub const POLL_INTERVAL_MS: u64 = 500;

/// What the wait is waiting for.
#[derive(Debug, Clone, Copy, PartialEq, Eq, Structural)]
pub enum PollPhase {
    /// A reading of the time elapsed since the wait began.
    AwaitClock,
    /// The result of a connection attempt to the service.
    AwaitConnect,
    /// The end of a pause.
    AwaitSleep,
    /// The wait is over: the service is ready (`true`) or the time is up (`false`).
    Finished(bool),
}

/// What the caller reports.
#[derive(Debug, Clone, Copy, PartialEq, Eq, Structural)]
pub enum PollEvent {
    /// Nanoseconds elapsed since the wait began.
    Clock(u128),
    /// Whether the connection to the service succeeded.
    Connected(bool),
    /// The pause is over.
    Slept,
}

/// What the caller does next.
#[derive(Debug, Clone, Copy, PartialEq, Eq, Structural)]
pub enum PollAction {
    /// Read the time elapsed since the wait began.
    ReadClock,
    /// Try to connect to the service.
    Connect,
    /// Pause for the given milliseconds.
    Sleep(u64),
    /// Stop waiting, with the given readiness.
    Finish(bool),
}

/// A wait for the service, with its time limit in nanoseconds.
#[derive(Debug, Clone, Copy, PartialEq, Eq, Structural)]
pub struct ReadinessPoll {
    pub timeout_nanos: u128,
    pub phase: PollPhase,
}

/// The action that a phase waits on.
pub open spec fn awaited(phase: PollPhase) -> PollAction {
    match phase {
        PollPhase::AwaitClock => PollAction::ReadClock,
        PollPhase::AwaitConnect => PollAction::Connect,
        PollPhase::AwaitSleep => PollAction::Sleep(POLL_INTERVAL_MS),
        PollPhase::Finished(ready) => PollAction::Finish(ready),
    }
}

/// The next phase and action: while time is left, try to connect; a failed attempt
/// pauses before the clock is read again; a successful one ends the wait as ready, and a
/// reading at or past the limit ends it as not ready. An event that the phase does not
/// wait on changes nothing and asks again for what the phase waits on.
pub open spec fn poll_next(timeout_nanos: u128, phase: PollPhase, event: PollEvent) -> (
    PollPhase,
    PollAction,
) {
    match (phase, event) {
        (PollPhase::AwaitClock, PollEvent::Clock(elapsed)) => if elapsed < timeout_nanos {
            (PollPhase::AwaitConnect, PollAction::Connect)
        } else {
            (PollPhase::Finished(false), PollAction::Finish(false))
        },
        (PollPhase::AwaitConnect, PollEvent::Connected(ok)) => if ok {
            (PollPhase::Finished(true), PollAction::Finish(true))
        } else {
            (PollPhase::AwaitSleep, PollAction::Sleep(POLL_INTERVAL_MS))
        },
        (PollPhase::AwaitSleep, PollEvent::Slept) => (PollPhase::AwaitClock, PollAction::ReadClock),
        _ => (phase, awaited(phase)),
    }
}

impl ReadinessPoll {
    /// A wait with the given limit; it begins by reading the clock.
    pub fn start(timeout_nanos: u128) -> (r: (ReadinessPoll, PollAction))
        ensures
            r.0 == (ReadinessPoll { timeout_nanos, phase: PollPhase::AwaitClock }),
            r.1 == PollAction::ReadClock,
    {
        (ReadinessPoll { timeout_nanos, phase: PollPhase::AwaitClock }, PollAction::ReadClock)
    }

    /// Takes in what the caller reports and says what to do next (see `poll_next`).
    pub fn step(&mut self, event: PollEvent) -> (action: PollAction)
        ensures
            final(self).timeout_nanos == old(self).timeout_nanos,
            (final(self).phase, action) == poll_next(old(self).timeout_nanos, old(self).phase, event),
    {
        let (phase, action) = match (self.phase, event) {
            (PollPhase::AwaitClock, PollEvent::Clock(elapsed)) => {
                if elapsed < self.timeout_nanos {
                    (PollPhase::AwaitConnect, PollAction::Connect)
                } else {
                    (PollPhase::Finished(false), PollAction::Finish(false))
                }
            },
            (PollPhase::AwaitConnect, PollEvent::Connected(ok)) => {
                if ok {
                    (PollPhase::Finished(true), PollAction::Finish(true))
                } else {
                    (PollPhase::AwaitSleep, PollAction::Sleep(POLL_INTERVAL_MS))
                }
            },
            (PollPhase::AwaitSleep, PollEvent::Slept) => (PollPhase::AwaitClock, PollAction::ReadClock),
            (phase, _) => (phase, Self::awaited_action(phase)),
        };
        self.phase = phase;
        action
    }

    /// The action that a phase waits on.
    fn awaited_action(phase: PollPhase) -> (r: PollAction)
        ensures
            r == awaited(phase),
    {
        match phase {
            PollPhase::AwaitClock => PollAction::ReadClock,
            PollPhase::AwaitConnect => PollAction::Connect,
            PollPhase::AwaitSleep => PollAction::Sleep(POLL_INTERVAL_MS),
            PollPhase::Finished(ready) => PollAction::Finish(ready),
        }
    }
}

/// A finished wait stays finished with the same readiness, whatever is reported.
pub proof fn lemma_finished_stays(timeout_nanos: u128, ready: bool, event: PollEvent)
    ensures
        poll_next(timeout_nanos, PollPhase::Finished(ready), event) == (
            PollPhase::Finished(ready),
            PollAction::Finish(ready),
        ),
{
}

/// A wait ends as ready only on a successful connection, and as not ready only on a clock
/// reading at or past the limit.
pub proof fn lemma_how_a_wait_ends(
    timeout_nanos: u128,
    phase: PollPhase,
    event: PollEvent,
    ready: bool,
)
    requires
        !(phase is Finished),
        poll_next(timeout_nanos, phase, event).0 == PollPhase::Finished(ready),
    ensures
        ready ==> phase == PollPhase::AwaitConnect && event == PollEvent::Connected(true),
        !ready ==> phase == PollPhase::AwaitClock && (event matches PollEvent::Clock(elapsed)
            && elapsed >= timeout_nanos),
{
}

/// A connection is attempted only after a clock reading before the limit, or as the
/// repeated request of a wait that is already about to connect.
pub proof fn lemma_connect_only_in_time(timeout_nanos: u128, phase: PollPhase, event: PollEvent)
    requires
        poll_next(timeout_nanos, phase, event).1 == PollAction::Connect,
    ensures
        phase == PollPhase::AwaitConnect || (phase == PollPhase::AwaitClock && (
        event matches PollEvent::Clock(elapsed) && elapsed < timeout_nanos)),
{
}

/// A failed connection attempt is followed by a pause of `POLL_INTERVAL_MS` before the
/// clock is read again.
pub proof fn lemma_failed_attempt_pauses(timeout_nanos: u128)
    ensures
        poll_next(timeout_nanos, PollPhase::AwaitConnect, PollEvent::Connected(false)) == (
            PollPhase::AwaitSleep,
            PollAction::Sleep(POLL_INTERVAL_MS),
        ),
        poll_next(timeout_nanos, PollPhase::AwaitSleep, PollEvent::Slept) == (
            PollPhase::AwaitClock,
            PollAction::ReadClock,
        ),
{
}

/// Once the time is up the wait ends as not ready: any clock reading at or past the limit
/// finishes it, and any reading before the limit leads to a connection attempt.
pub proof fn lemma_time_up_ends_wait(timeout_nanos: u128, elapsed: u128)
    ensures
        elapsed >= timeout_nanos ==> poll_next(timeout_nanos, PollPhase::AwaitClock, PollEvent::Clock(elapsed))
            == (PollPhase::Finished(false), PollAction::Finish(false)),
        elapsed < timeout_nanos ==> poll_next(timeout_nanos, PollPhase::AwaitClock, PollEvent::Clock(elapsed))
            == (PollPhase::AwaitConnect, PollAction::Connect),
{
}

/// A connection attempt that succeeds ends the wait as ready; one that fails pauses
/// 500 ms and then reads the clock again.
pub proof fn lemma_connect_outcome(timeout_nanos: u128, ok: bool)
    ensures
        ok ==> poll_next(timeout_nanos, PollPhase::AwaitConnect, PollEvent::Connected(ok)) == (
            PollPhase::Finished(true),
            PollAction::Finish(true),
        ),
        !ok ==> poll_next(timeout_nanos, PollPhase::AwaitConnect, PollEvent::Connected(ok)) == (
            PollPhase::AwaitSleep,
            PollAction::Sleep(500),
        ),
{
}

} // verus!
