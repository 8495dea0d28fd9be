use dsh_desktop::readiness::{
    PollAction, PollEvent, PollPhase, ReadinessPoll, POLL_INTERVAL_MS, READY_TIMEOUT_SECS,
};

const SECOND: u128 = 1_000_000_000;

#[test]
fn ready_on_first_attempt() {
    let (mut poll, action) = ReadinessPoll::start(60 * SECOND);
    assert_eq!(action, PollAction::ReadClock);
    assert_eq!(poll.step(PollEvent::Clock(0)), PollAction::Connect);
    assert_eq!(poll.step(PollEvent::Connected(true)), PollAction::Finish(true));
    assert_eq!(poll.phase, PollPhase::Finished(true));
}

#[test]
fn retries_every_half_second_until_the_limit() {
    let (mut poll, _) = ReadinessPoll::start(SECOND);
    assert_eq!(poll.step(PollEvent::Clock(0)), PollAction::Connect);
    assert_eq!(poll.step(PollEvent::Connected(false)), PollAction::Sleep(500));
    assert_eq!(poll.step(PollEvent::Slept), PollAction::ReadClock);
    assert_eq!(poll.step(PollEvent::Clock(SECOND / 2)), PollAction::Connect);
    assert_eq!(poll.step(PollEvent::Connected(false)), PollAction::Sleep(POLL_INTERVAL_MS));
    assert_eq!(poll.step(PollEvent::Slept), PollAction::ReadClock);
    assert_eq!(poll.step(PollEvent::Clock(SECOND)), PollAction::Finish(false));
    assert_eq!(poll.phase, PollPhase::Finished(false));
}

#[test]
fn finished_wait_stays_finished() {
    let (mut poll, _) = ReadinessPoll::start(0);
    assert_eq!(poll.step(PollEvent::Clock(0)), PollAction::Finish(false));
    assert_eq!(poll.step(PollEvent::Connected(true)), PollAction::Finish(false));
    assert_eq!(poll.step(PollEvent::Clock(0)), PollAction::Finish(false));
    assert_eq!(poll.phase, PollPhase::Finished(false));
}

#[test]
fn unexpected_event_asks_again() {
    let (mut poll, _) = ReadinessPoll::start(SECOND);
    assert_eq!(poll.step(PollEvent::Slept), PollAction::ReadClock);
    assert_eq!(poll.phase, PollPhase::AwaitClock);
    assert_eq!(poll.step(PollEvent::Clock(1)), PollAction::Connect);
    assert_eq!(poll.step(PollEvent::Clock(2)), PollAction::Connect);
    assert_eq!(poll.phase, PollPhase::AwaitConnect);
}

#[test]
fn limits() {
    assert_eq!(READY_TIMEOUT_SECS, 60);
    assert_eq!(POLL_INTERVAL_MS, 500);
}
