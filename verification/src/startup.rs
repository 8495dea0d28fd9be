//! Starting the service at the start page's request: refuse a second start, spawn the
//! service, register it and wait until it is ready, then point the window at it; on
//! timeout stop the registered service and say why.

use vstd::prelude::*;
use crate::readiness::READY_TIMEOUT_SECS;
use crate::service::{timeout_hint, timeout_hint_text, LaunchMode, SERVICE_URL};

verus! {

/// The answer to a start request while a service is already registered.
pub const ALREADY_RUNNING: &'static str = "服务已在运行";

/// Where a start request stands.
#[derive(Debug, Clone, Copy, PartialEq, Eq, Structural)]
pub enum StartPhase {
    /// The service process is being spawned.
    Spawning,
    /// The service is registered and the shell waits for it to accept connections.
    AwaitingReady,
    /// The service is ready and the window is being pointed at it.
    Navigating,
    /// The request has been answered.
    Done,
}

/// What the caller reports.
pub enum StartEvent {
    /// Spawning failed, with the error's text.
    SpawnFailed(String),
    /// The service process was spawned.
    Spawned,
    /// The wait for readiness ended: ready or timed out.
    ReadyChecked(bool),
    /// The service address could not be parsed as a URL, with the error's text.
    UrlRejected(String),
    /// The window (if there is one) was pointed at the service.
    Navigated,
}

/// What the caller does next.
pub enum StartAction {
    /// Spawn the service in the given mode.
    Spawn(LaunchMode),
    /// Register the spawned service (so that exit stops it), then wait up to the given
    /// seconds for it to become ready.
    RegisterAndAwaitReady { timeout_secs: u64 },
    /// Point the main window at the given address.
    Navigate(&'static str),
    /// Answer the request with success.
    Succeed,
    /// Answer the request with the given error text.
    Fail(String),
    /// Answer the request with the given message, without starting anything.
    Reject(&'static str),
    /// Stop the registered service, then answer with the given message.
    KillAndReject(&'static str),
    /// Nothing to do.
    Nothing,
}

/// A start request in the given mode.
pub struct StartFlow {
    pub mode: LaunchMode,
    pub phase: StartPhase,
}

/// Whether an action answers the request.
pub open spec fn is_answer(action: StartAction) -> bool {
    ||| action is Succeed
    ||| action is Fail
    ||| action is Reject
    ||| action is KillAndReject
}

/// The step from `phase` on `event` to `next`, with `action`.
pub open spec fn start_step(
    mode: LaunchMode,
    phase: StartPhase,
    event: StartEvent,
    next: StartPhase,
    action: StartAction,
) -> bool {
    match (phase, event) {
        (StartPhase::Spawning, StartEvent::SpawnFailed(msg)) => next == StartPhase::Done && action
            == StartAction::Fail(msg),
        (StartPhase::Spawning, StartEvent::Spawned) => next == StartPhase::AwaitingReady && action
            == (StartAction::RegisterAndAwaitReady { timeout_secs: READY_TIMEOUT_SECS }),
        (StartPhase::AwaitingReady, StartEvent::ReadyChecked(ready)) => if ready {
            next == StartPhase::Navigating && action == StartAction::Navigate(SERVICE_URL)
        } else {
            next == StartPhase::Done && (action matches StartAction::KillAndReject(hint)
                && hint@ == timeout_hint_text(mode))
        },
        (StartPhase::Navigating, StartEvent::UrlRejected(msg)) => next == StartPhase::Done && action
            == StartAction::Fail(msg),
        (StartPhase::Navigating, StartEvent::Navigated) => next == StartPhase::Done && action
            == StartAction::Succeed,
        _ => next == phase && action == StartAction::Nothing,
    }
}

impl StartFlow {
    /// A start request in `mode`: refused when a service is registered already, else the
    /// service is spawned.
    pub fn begin(mode: LaunchMode, service_running: bool) -> (r: (StartFlow, StartAction))
        ensures
            r.0.mode == mode,
            service_running ==> r.0.phase == StartPhase::Done && (r.1 matches StartAction::Reject(m)
                && m@ == ALREADY_RUNNING@),
            !service_running ==> r.0.phase == StartPhase::Spawning && r.1 == StartAction::Spawn(
                mode,
            ),
    {
        if service_running {
            (StartFlow { mode, phase: StartPhase::Done }, StartAction::Reject(ALREADY_RUNNING))
        } else {
            (StartFlow { mode, phase: StartPhase::Spawning }, StartAction::Spawn(mode))
        }
    }

    /// Takes in what the caller reports and says what to do next (see `start_step`).
    pub fn step(&mut self, event: StartEvent) -> (action: StartAction)
        ensures
            final(self).mode == old(self).mode,
            start_step(old(self).mode, old(self).phase, event, final(self).phase, action),
    {
        match self.phase {
            StartPhase::Spawning => match event {
                StartEvent::SpawnFailed(msg) => {
                    self.phase = StartPhase::Done;
                    StartAction::Fail(msg)
                },
                StartEvent::Spawned => {
                    self.phase = StartPhase::AwaitingReady;
                    StartAction::RegisterAndAwaitReady { timeout_secs: READY_TIMEOUT_SECS }
                },
                _ => StartAction::Nothing,
            },
            StartPhase::AwaitingReady => match event {
                StartEvent::ReadyChecked(ready) => {
                    if ready {
                        self.phase = StartPhase::Navigating;
                        StartAction::Navigate(SERVICE_URL)
                    } else {
                        self.phase = StartPhase::Done;
                        StartAction::KillAndReject(timeout_hint(self.mode))
                    }
                },
                _ => StartAction::Nothing,
            },
            StartPhase::Navigating => match event {
                StartEvent::UrlRejected(msg) => {
                    self.phase = StartPhase::Done;
                    StartAction::Fail(msg)
                },
                StartEvent::Navigated => {
                    self.phase = StartPhase::Done;
                    StartAction::Succeed
                },
                _ => StartAction::Nothing,
            },
            StartPhase::Done => StartAction::Nothing,
        }
    }
}

/// A request is answered once: every answer ends the flow, and an ended flow does nothing
/// more.
pub proof fn lemma_answered_once(
    mode: LaunchMode,
    phase: StartPhase,
    event: StartEvent,
    next: StartPhase,
    action: StartAction,
)
    requires
        start_step(mode, phase, event, next, action),
    ensures
        is_answer(action) ==> next == StartPhase::Done && phase != StartPhase::Done,
        phase == StartPhase::Done ==> next == StartPhase::Done && action == StartAction::Nothing,
{
}

/// The registered service is stopped only when the wait for it timed out, and the request
/// succeeds only after the window was pointed at the service.
pub proof fn lemma_kill_only_on_timeout(
    mode: LaunchMode,
    phase: StartPhase,
    event: StartEvent,
    next: StartPhase,
    action: StartAction,
)
    requires
        start_step(mode, phase, event, next, action),
    ensures
        action is KillAndReject ==> phase == StartPhase::AwaitingReady && (event matches StartEvent::ReadyChecked(
            ready,
        ) && !ready),
        action is Succeed ==> phase == StartPhase::Navigating && event is Navigated,
        action is Navigate ==> phase == StartPhase::AwaitingReady && (event matches StartEvent::ReadyChecked(
            ready,
        ) && ready),
{
}

/// The wait for readiness gets the same 60 seconds in every launch mode: a spawned service
/// is registered and waited on for exactly 60 s, whatever the mode.
pub proof fn lemma_wait_limit_same_in_every_mode(
    mode: LaunchMode,
    next: StartPhase,
    action: StartAction,
)
    requires
        start_step(mode, StartPhase::Spawning, StartEvent::Spawned, next, action),
    ensures
        next == StartPhase::AwaitingReady,
        action == (StartAction::RegisterAndAwaitReady { timeout_secs: 60 }),
        forall|other: LaunchMode, next2: StartPhase, action2: StartAction|
            start_step(other, StartPhase::Spawning, StartEvent::Spawned, next2, action2) ==> next2
                == next && action2 == action,
{
}

/// A wait that timed out is answered with that mode's hint, and the hints of the two modes
/// differ: WSL mode points at Node.js inside the distribution.
pub proof fn lemma_timeout_hint_per_mode(
    mode: LaunchMode,
    next: StartPhase,
    action: StartAction,
)
    requires
        start_step(mode, StartPhase::AwaitingReady, StartEvent::ReadyChecked(false), next, action),
    ensures
        next == StartPhase::Done,
        action matches StartAction::KillAndReject(hint) && hint@ == (if mode == LaunchMode::Wsl {
            "服务启动超时，请确认 WSL 发行版内已安装 Node.js（npx）后重试"@
        } else {
            "服务启动超时，请确认本机已安装 Node.js / npx 后重试"@
        }),
{
}

/// Whether the actions so far leave a service registered: the last registration or stop
/// among them decides.
pub open spec fn registered_after(actions: Seq<StartAction>) -> bool
    decreases actions.len(),
{
    if actions.len() == 0 {
        false
    } else {
        match actions.last() {
            StartAction::RegisterAndAwaitReady { .. } => true,
            StartAction::KillAndReject(_) => false,
            _ => registered_after(actions.drop_last()),
        }
    }
}

/// Whether the request was answered with success among these actions.
pub open spec fn succeeded(actions: Seq<StartAction>) -> bool {
    exists|i: int| 0 <= i < actions.len() && #[trigger] actions[i] is Succeed
}

/// Whether the request was answered with an error after the service was asked to spawn.
pub open spec fn failed(actions: Seq<StartAction>) -> bool {
    exists|i: int| 0 <= i < actions.len() && (#[trigger] actions[i] is Fail || actions[i] is KillAndReject)
}

/// What holds after the first `k` steps of a request that began spawning.
spec fn progress(phase: StartPhase, actions: Seq<StartAction>) -> bool {
    match phase {
        StartPhase::Spawning => !registered_after(actions) && !succeeded(actions) && !failed(actions),
        StartPhase::AwaitingReady | StartPhase::Navigating => registered_after(actions) && !succeeded(
            actions,
        ) && !failed(actions),
        StartPhase::Done => {
            &&& succeeded(actions) || failed(actions)
            &&& !(succeeded(actions) && failed(actions))
            &&& succeeded(actions) ==> registered_after(actions)
            &&& failed(actions) ==> !registered_after(actions)
        },
    }
}

/// One step keeps `progress`.
proof fn lemma_progress_step(
    mode: LaunchMode,
    phase: StartPhase,
    event: StartEvent,
    next: StartPhase,
    action: StartAction,
    before: Seq<StartAction>,
)
    requires
        progress(phase, before),
        start_step(mode, phase, event, next, action),
        !(event is UrlRejected),
    ensures
        progress(next, before.push(action)),
{
    let after = before.push(action);
    assert(after.drop_last() =~= before);
    assert(after.last() == action);
    assert(succeeded(after) == (succeeded(before) || action is Succeed)) by {
        if succeeded(after) {
            let i = choose|i: int| 0 <= i < after.len() && #[trigger] after[i] is Succeed;
            if i < before.len() {
                assert(before[i] == after[i]);
            }
        }
        if succeeded(before) {
            let i = choose|i: int| 0 <= i < before.len() && #[trigger] before[i] is Succeed;
            assert(after[i] == before[i]);
        }
        if action is Succeed {
            assert(after[before.len() as int] == action);
        }
    }
    assert(failed(after) == (failed(before) || action is Fail || action is KillAndReject)) by {
        if failed(after) {
            let i = choose|i: int|
                0 <= i < after.len() && (#[trigger] after[i] is Fail || after[i] is KillAndReject);
            if i < before.len() {
                assert(before[i] == after[i]);
            }
        }
        if failed(before) {
            let i = choose|i: int|
                0 <= i < before.len() && (#[trigger] before[i] is Fail || before[i] is KillAndReject);
            assert(after[i] == before[i]);
        }
        if action is Fail || action is KillAndReject {
            assert(after[before.len() as int] == action);
        }
    }
}

/// A start request that began spawning (no service was registered) and whose address
/// parsed is answered once the flow is done, with success or with an error but never
/// both; after success the spawned service stays registered, after an error none is left
/// registered (a failed spawn registered nothing, and a timeout stopped the service).
/// An unparsable address (`UrlRejected`) is left out: it leaves the service registered,
/// and it cannot occur for the constant service address.
pub proof fn lemma_start_request_outcome(
    mode: LaunchMode,
    phases: Seq<StartPhase>,
    events: Seq<StartEvent>,
    actions: Seq<StartAction>,
)
    requires
        phases.len() == events.len() + 1,
        actions.len() == events.len(),
        phases[0] == StartPhase::Spawning,
        forall|i: int|
            0 <= i < events.len() ==> start_step(
                mode,
                #[trigger] phases[i],
                events[i],
                phases[i + 1],
                actions[i],
            ),
        forall|i: int| 0 <= i < events.len() ==> !(#[trigger] events[i] is UrlRejected),
    ensures
        phases.last() == StartPhase::Done <==> (succeeded(actions) || failed(actions)),
        !(succeeded(actions) && failed(actions)),
        succeeded(actions) ==> registered_after(actions),
        failed(actions) ==> !registered_after(actions),
        phases.last() != StartPhase::Done ==> registered_after(actions) == (phases.last()
            != StartPhase::Spawning),
{
    let n = events.len() as int;
    lemma_progress_prefix(mode, phases, events, actions, n);
    assert(actions.take(n) =~= actions);
}

/// `progress` holds after every prefix of the steps.
proof fn lemma_progress_prefix(
    mode: LaunchMode,
    phases: Seq<StartPhase>,
    events: Seq<StartEvent>,
    actions: Seq<StartAction>,
    k: int,
)
    requires
        0 <= k <= events.len(),
        phases.len() == events.len() + 1,
        actions.len() == events.len(),
        phases[0] == StartPhase::Spawning,
        forall|i: int|
            0 <= i < events.len() ==> start_step(
                mode,
                #[trigger] phases[i],
                events[i],
                phases[i + 1],
                actions[i],
            ),
        forall|i: int| 0 <= i < events.len() ==> !(#[trigger] events[i] is UrlRejected),
    ensures
        progress(phases[k], actions.take(k)),
    decreases k,
{
    if k == 0 {
        assert(actions.take(0) =~= Seq::<StartAction>::empty());
    } else {
        let j = k - 1;
        lemma_progress_prefix(mode, phases, events, actions, j);
        assert(start_step(mode, phases[j], events[j], phases[j + 1], actions[j]));
        assert(!(events[j] is UrlRejected));
        lemma_progress_step(mode, phases[j], events[j], phases[j + 1], actions[j], actions.take(j));
        assert(actions.take(j).push(actions[j]) =~= actions.take(k));
    }
}

} // verus!
