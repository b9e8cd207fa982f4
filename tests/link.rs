use opentrig::link::{
    Action, BringUp, BringUpError, Event, LinkState, LockStatus, LockWatch, CONFIG_DONE_BURSTS, LOCK_POLLS,
};

/// Drives a controller as a driver would, with config-done answered by
/// `config_done(round)` and every transfer succeeding; returns the actions.
fn drive(mut config_done: impl FnMut(usize) -> bool) -> (Vec<Action>, LinkState) {
    let mut b = BringUp::new();
    let mut actions = vec![b.action()];
    for round in 0..100 {
        let a = *actions.last().unwrap();
        let e = match a {
            Action::SampleConfigDone | Action::ClockBurst | Action::TrailingClocks => Event::ConfigDone(config_done(round)),
            Action::PulseReset | Action::StreamBitstream => Event::Done,
            Action::Finish | Action::Halt(_) => break,
        };
        actions.push(b.step(e));
    }
    (actions, b.state())
}

#[test]
fn already_configured_sends_nothing() {
    let (actions, state) = drive(|_| true);
    assert_eq!(actions, vec![Action::SampleConfigDone, Action::Halt(BringUpError::AlreadyConfigured)]);
    assert_eq!(state, LinkState::AlreadyConfigured);
}

#[test]
fn config_done_never_high_times_out_after_budget() {
    let (actions, state) = drive(|_| false);
    let bursts = actions.iter().filter(|a| **a == Action::ClockBurst).count();
    assert_eq!(bursts, CONFIG_DONE_BURSTS as usize);
    assert_eq!(bursts, 10);
    assert_eq!(*actions.last().unwrap(), Action::Halt(BringUpError::ConfigTimedOut));
    assert_eq!(state, LinkState::ConfigTimedOut);
    assert_eq!(&actions[..4], &[Action::SampleConfigDone, Action::PulseReset, Action::StreamBitstream, Action::SampleConfigDone]);
}

#[test]
fn config_done_high_after_bitstream_configures() {
    let (actions, state) = drive(|round| round > 0);
    assert_eq!(
        actions,
        vec![
            Action::SampleConfigDone,
            Action::PulseReset,
            Action::StreamBitstream,
            Action::SampleConfigDone,
            Action::TrailingClocks,
            Action::Finish,
        ]
    );
    assert_eq!(state, LinkState::Configured);
}

#[test]
fn config_done_after_some_bursts_configures() {
    let (actions, state) = drive(|round| round >= 6);
    let bursts = actions.iter().filter(|a| **a == Action::ClockBurst).count();
    assert_eq!(bursts, 3);
    assert_eq!(*actions.last().unwrap(), Action::Finish);
    assert_eq!(state, LinkState::Configured);
}

#[test]
fn config_done_falling_after_trailing_clocks_times_out() {
    let mut b = BringUp::new();
    b.step(Event::ConfigDone(false));
    b.step(Event::Done);
    b.step(Event::Done);
    assert_eq!(b.step(Event::ConfigDone(true)), Action::TrailingClocks);
    assert_eq!(b.step(Event::ConfigDone(false)), Action::Halt(BringUpError::ConfigTimedOut));
}

#[test]
fn bus_error_halts_bring_up() {
    let mut b = BringUp::new();
    b.step(Event::ConfigDone(false));
    assert_eq!(b.step(Event::Done), Action::StreamBitstream);
    assert_eq!(b.step(Event::BusError), Action::Halt(BringUpError::Bus));
    assert_eq!(b.state(), LinkState::BusFault);
    assert!(b.is_finished());
    assert_eq!(b.step(Event::Done), Action::Halt(BringUpError::Bus));
}

#[test]
fn unexpected_event_repeats_the_action() {
    let mut b = BringUp::new();
    assert_eq!(b.step(Event::Done), Action::SampleConfigDone);
    assert_eq!(b.state(), LinkState::Idle);
    b.step(Event::ConfigDone(false));
    assert_eq!(b.step(Event::ConfigDone(true)), Action::PulseReset);
    assert_eq!(b.state(), LinkState::ResetAsserted);
}

#[test]
fn reset_handshake() {
    let mut b = BringUp::new();
    for e in [Event::ConfigDone(false), Event::Done, Event::Done, Event::ConfigDone(true), Event::ConfigDone(true)] {
        b.step(e);
    }
    assert_eq!(b.state(), LinkState::Configured);
    assert_eq!(b.confirm_reset(true), Ok(()));
    assert_eq!(b.state(), LinkState::Configured);
    assert_eq!(b.confirm_reset(false), Err(BringUpError::ResetFailed));
    assert_eq!(b.state(), LinkState::ResetFailed);
    assert_eq!(b.action(), Action::Halt(BringUpError::ResetFailed));
}

#[test]
fn lock_watch_retries_then_warns() {
    let mut w = LockWatch::new();
    for _ in 0..LOCK_POLLS - 1 {
        assert_eq!(w.observe(false), LockStatus::Retry);
    }
    assert_eq!(w.observe(false), LockStatus::NotLocked);
    assert_eq!(w.observe(false), LockStatus::NotLocked);
    assert_eq!(w.observe(true), LockStatus::Locked);
}

#[test]
fn lock_watch_locked_at_once() {
    let mut w = LockWatch::new();
    assert_eq!(w.observe(true), LockStatus::Locked);
}
