//! Bring-up of the configurable logic device.
//!
//! The decisions of the bring-up protocol are a state machine: the driver
//! performs the [`Action`] that the machine asks for on the serial bus and
//! the control lines, and reports what it observed as an [`Event`]. The
//! machine never waits or touches hardware itself.
//!
//! What each action asks of the driver, and the event it reports after it:
//! - `SampleConfigDone`: read the config-done line; report `ConfigDone`.
//! - `PulseReset`: drive reset low for the hold time, release it and wait the
//!   settle time; report `Done`.
//! - `StreamBitstream`: with chip-select inactive send the leading dummy
//!   clocks, make chip-select active, write the whole bitstream, make
//!   chip-select inactive; report `Done`, or `BusError`.
//! - `ClockBurst`: write one burst of polling clocks, then read the
//!   config-done line; report `ConfigDone`, or `BusError`.
//! - `TrailingClocks`: write the trailing clocks, then read the config-done
//!   line; report `ConfigDone`, or `BusError`.
//! - `Finish` and `Halt`: bring-up is over; nothing more is asked.

use vstd::prelude::*;

verus! {

/// Number of polling clock bursts issued while config-done stays low before
/// bring-up gives up.
pub const CONFIG_DONE_BURSTS: u32 = 10;

/// Number of lock-indicator polls before a missing lock is reported.
pub const LOCK_POLLS: u32 = 20;

/// Delay between two lock-indicator polls, in milliseconds.
pub const LOCK_POLL_DELAY_MS: u64 = 500;

/// Time the reset line is held low, in microseconds.
pub const RESET_HOLD_US: u64 = 1;

/// Time to wait after releasing reset before the first clock, in microseconds.
pub const RESET_SETTLE_US: u64 = 1200;

/// Bytes of dummy clocks sent with chip-select inactive before the bitstream.
pub const LEADING_DUMMY_BYTES: usize = 1;

/// Bytes of clocks in one polling burst while waiting for config-done.
pub const CLOCK_BURST_BYTES: usize = 1;

/// Bytes of `0xFF` clocked out after config-done rises.
pub const TRAILING_CLOCK_BYTES: usize = 7;

/// A fatal bring-up outcome: the device is to be treated as offline.
#[derive(Clone, Copy, Debug, PartialEq, Eq, Structural)]
pub enum BringUpError {
    /// Config-done was already high before reset.
    AlreadyConfigured,
    /// Config-done did not rise within the clock budget, or fell again
    /// after the trailing clocks.
    ConfigTimedOut,
    /// The ready line did not acknowledge the final reset.
    ResetFailed,
    /// A serial bus transfer failed.
    Bus,
}

/// Where the bring-up of the device stands.
#[derive(Clone, Copy, Debug, PartialEq, Eq, Structural)]
pub enum LinkState {
    Idle,
    ResetAsserted,
    BitstreamTransferring,
    /// Waiting for config-done after `bursts` polling clock bursts.
    AwaitingConfigDone { bursts: u32 },
    TrailingClocks,
    Configured,
    AlreadyConfigured,
    ConfigTimedOut,
    ResetFailed,
    BusFault,
}

/// What the driver is asked to do next.
#[derive(Clone, Copy, Debug, PartialEq, Eq, Structural)]
pub enum Action {
    SampleConfigDone,
    PulseReset,
    StreamBitstream,
    ClockBurst,
    TrailingClocks,
    Finish,
    Halt(BringUpError),
}

/// What the driver observed while performing an action.
#[derive(Clone, Copy, Debug, PartialEq, Eq, Structural)]
pub enum Event {
    /// The level read on the config-done line.
    ConfigDone(bool),
    /// The action finished.
    Done,
    /// A serial bus transfer failed.
    BusError,
}

/// The action that the state `s` asks for.
pub open spec fn pending(s: LinkState) -> Action {
    match s {
        LinkState::Idle => Action::SampleConfigDone,
        LinkState::ResetAsserted => Action::PulseReset,
        LinkState::BitstreamTransferring => Action::StreamBitstream,
        LinkState::AwaitingConfigDone { bursts } => if bursts == 0 {
            Action::SampleConfigDone
        } else {
            Action::ClockBurst
        },
        LinkState::TrailingClocks => Action::TrailingClocks,
        LinkState::Configured => Action::Finish,
        LinkState::AlreadyConfigured => Action::Halt(BringUpError::AlreadyConfigured),
        LinkState::ConfigTimedOut => Action::Halt(BringUpError::ConfigTimedOut),
        LinkState::ResetFailed => Action::Halt(BringUpError::ResetFailed),
        LinkState::BusFault => Action::Halt(BringUpError::Bus),
    }
}

/// Whether bring-up is over in the state `s`.
pub open spec fn finished(s: LinkState) -> bool {
    match s {
        LinkState::Configured | LinkState::AlreadyConfigured | LinkState::ConfigTimedOut
        | LinkState::ResetFailed | LinkState::BusFault => true,
        _ => false,
    }
}

/// The state that follows `s` when the driver reports `e`. An event that
/// the state does not expect leaves it unchanged, so that its action is
/// asked for again.
pub open spec fn next_state(s: LinkState, e: Event) -> LinkState {
    if finished(s) {
        s
    } else if e == Event::BusError {
        LinkState::BusFault
    } else {
        match (s, e) {
            (LinkState::Idle, Event::ConfigDone(high)) => if high {
                LinkState::AlreadyConfigured
            } else {
                LinkState::ResetAsserted
            },
            (LinkState::ResetAsserted, Event::Done) => LinkState::BitstreamTransferring,
            (LinkState::BitstreamTransferring, Event::Done) => LinkState::AwaitingConfigDone {
                bursts: 0,
            },
            (LinkState::AwaitingConfigDone { bursts }, Event::ConfigDone(high)) => if high {
                LinkState::TrailingClocks
            } else if bursts < CONFIG_DONE_BURSTS {
                LinkState::AwaitingConfigDone { bursts: (bursts + 1) as u32 }
            } else {
                LinkState::ConfigTimedOut
            },
            (LinkState::TrailingClocks, Event::ConfigDone(high)) => if high {
                LinkState::Configured
            } else {
                LinkState::ConfigTimedOut
            },
            _ => s,
        }
    }
}

/// Whether `s` is a state that the machine can be in.
pub open spec fn reachable(s: LinkState) -> bool {
    match s {
        LinkState::AwaitingConfigDone { bursts } => bursts <= CONFIG_DONE_BURSTS,
        _ => true,
    }
}

/// The bring-up controller of one device.
pub struct BringUp {
    state: LinkState,
}

impl View for BringUp {
    type V = LinkState;

    closed spec fn view(&self) -> LinkState {
        self.state
    }
}

impl BringUp {
    /// Whether the controller holds a state that the machine can be in.
    pub closed spec fn wf(&self) -> bool {
        reachable(self.state)
    }

    /// A controller that has not yet looked at the device.
    pub fn new() -> (b: BringUp)
        ensures
            b@ == LinkState::Idle,
            b.wf(),
    {
        BringUp { state: LinkState::Idle }
    }

    /// Where bring-up stands.
    pub fn state(&self) -> (s: LinkState)
        ensures
            s == self@,
    {
        self.state
    }

    /// The action asked of the driver now.
    pub fn action(&self) -> (a: Action)
        ensures
            a == pending(self@),
    {
        match self.state {
            LinkState::Idle => Action::SampleConfigDone,
            LinkState::ResetAsserted => Action::PulseReset,
            LinkState::BitstreamTransferring => Action::StreamBitstream,
            LinkState::AwaitingConfigDone { bursts } => if bursts == 0 {
                Action::SampleConfigDone
            } else {
                Action::ClockBurst
            },
            LinkState::TrailingClocks => Action::TrailingClocks,
            LinkState::Configured => Action::Finish,
            LinkState::AlreadyConfigured => Action::Halt(BringUpError::AlreadyConfigured),
            LinkState::ConfigTimedOut => Action::Halt(BringUpError::ConfigTimedOut),
            LinkState::ResetFailed => Action::Halt(BringUpError::ResetFailed),
            LinkState::BusFault => Action::Halt(BringUpError::Bus),
        }
    }

    /// Whether bring-up is over.
    pub fn is_finished(&self) -> (r: bool)
        ensures
            r == finished(self@),
    {
        match self.state {
            LinkState::Configured | LinkState::AlreadyConfigured | LinkState::ConfigTimedOut
            | LinkState::ResetFailed | LinkState::BusFault => true,
            _ => false,
        }
    }

    /// Takes in what the driver observed and returns the next action.
    pub fn step(&mut self, e: Event) -> (a: Action)
        requires
            old(self).wf(),
        ensures
            final(self).wf(),
            final(self)@ == next_state(old(self)@, e),
            a == pending(final(self)@),
    {
        if !self.is_finished() {
            let next = match (self.state, e) {
                (_, Event::BusError) => LinkState::BusFault,
                (LinkState::Idle, Event::ConfigDone(high)) => if high {
                    LinkState::AlreadyConfigured
                } else {
                    LinkState::ResetAsserted
                },
                (LinkState::ResetAsserted, Event::Done) => LinkState::BitstreamTransferring,
                (LinkState::BitstreamTransferring, Event::Done) => LinkState::AwaitingConfigDone {
                    bursts: 0,
                },
                (LinkState::AwaitingConfigDone { bursts }, Event::ConfigDone(high)) => if high {
                    LinkState::TrailingClocks
                } else if bursts < CONFIG_DONE_BURSTS {
                    LinkState::AwaitingConfigDone { bursts: bursts + 1 }
                } else {
                    LinkState::ConfigTimedOut
                },
                (LinkState::TrailingClocks, Event::ConfigDone(high)) => if high {
                    LinkState::Configured
                } else {
                    LinkState::ConfigTimedOut
                },
                (s, _) => s,
            };
            self.state = next;
        }
        self.action()
    }

    /// The final reset handshake, after configuration and clock start: the
    /// ready line must read low once the device's reset was toggled.
    pub fn confirm_reset(&mut self, ready_low: bool) -> (r: Result<(), BringUpError>)
        requires
            old(self).wf(),
            old(self)@ == LinkState::Configured,
        ensures
            final(self).wf(),
            ready_low ==> r is Ok && final(self)@ == LinkState::Configured,
            !ready_low ==> r == Err::<(), BringUpError>(BringUpError::ResetFailed)
                && final(self)@ == LinkState::ResetFailed,
    {
        if ready_low {
            Ok(())
        } else {
            self.state = LinkState::ResetFailed;
            Err(BringUpError::ResetFailed)
        }
    }
}

/// What a lock-indicator poll decided.
#[derive(Clone, Copy, Debug, PartialEq, Eq, Structural)]
pub enum LockStatus {
    /// The reference clock is locked.
    Locked,
    /// Not locked yet: wait the poll delay and poll again.
    Retry,
    /// Still not locked after the whole poll budget: a recoverable warning.
    NotLocked,
}

/// The decision after a poll that saw `locked`, when `polls` polls came
/// before it.
pub open spec fn lock_status(polls: u32, locked: bool) -> LockStatus {
    if locked {
        LockStatus::Locked
    } else if polls + 1 < LOCK_POLLS {
        LockStatus::Retry
    } else {
        LockStatus::NotLocked
    }
}

/// Bounded polling of the lock indicator after the reference clock starts.
pub struct LockWatch {
    polls: u32,
}

impl View for LockWatch {
    type V = u32;

    /// The number of polls that came before.
    closed spec fn view(&self) -> u32 {
        self.polls
    }
}

impl LockWatch {
    /// Whether the number of polls lies within the budget.
    pub closed spec fn wf(&self) -> bool {
        self.polls <= LOCK_POLLS
    }

    /// A watch that has not polled yet.
    pub fn new() -> (w: LockWatch)
        ensures
            w@ == 0,
            w.wf(),
    {
        LockWatch { polls: 0 }
    }

    /// Takes in one reading of the lock indicator.
    pub fn observe(&mut self, locked: bool) -> (r: LockStatus)
        requires
            old(self).wf(),
        ensures
            final(self).wf(),
            r == lock_status(old(self)@, locked),
            final(self)@ == if old(self)@ < LOCK_POLLS {
                (old(self)@ + 1) as u32
            } else {
                old(self)@
            },
    {
        if self.polls < LOCK_POLLS {
            self.polls = self.polls + 1;
        }
        if locked {
            LockStatus::Locked
        } else if self.polls < LOCK_POLLS {
            LockStatus::Retry
        } else {
            LockStatus::NotLocked
        }
    }
}

/// What a driver reports after performing `a` while the config-done line
/// stays at `level` and every transfer succeeds.
pub open spec fn response(a: Action, level: bool) -> Event {
    match a {
        Action::SampleConfigDone | Action::ClockBurst | Action::TrailingClocks => Event::ConfigDone(
            level,
        ),
        _ => Event::Done,
    }
}

/// The first `rounds` actions that a controller in state `s` asks for, when
/// the driver answers each as [`response`] says.
pub open spec fn driven_trace(s: LinkState, level: bool, rounds: nat) -> Seq<Action>
    decreases rounds,
{
    if rounds == 0 {
        Seq::empty()
    } else {
        seq![pending(s)] + driven_trace(
            next_state(s, response(pending(s), level)),
            level,
            (rounds - 1) as nat,
        )
    }
}

/// The state of that controller after `rounds` actions.
pub open spec fn driven_state(s: LinkState, level: bool, rounds: nat) -> LinkState
    decreases rounds,
{
    if rounds == 0 {
        s
    } else {
        driven_state(next_state(s, response(pending(s), level)), level, (rounds - 1) as nat)
    }
}

/// The number of polling clock bursts in `t`.
pub open spec fn bursts_in(t: Seq<Action>) -> nat
    decreases t.len(),
{
    if t.len() == 0 {
        0
    } else {
        bursts_in(t.drop_first()) + if t[0] == Action::ClockBurst {
            1nat
        } else {
            0nat
        }
    }
}

proof fn lemma_bursts_in_prepend(a: Action, t: Seq<Action>)
    ensures
        bursts_in(seq![a] + t) == bursts_in(t) + if a == Action::ClockBurst {
            1nat
        } else {
            0nat
        },
{
    assert((seq![a] + t).drop_first() =~= t);
}

proof fn lemma_trace_len(s: LinkState, level: bool, rounds: nat)
    ensures
        driven_trace(s, level, rounds).len() == rounds,
    decreases rounds,
{
    if rounds > 0 {
        lemma_trace_len(next_state(s, response(pending(s), level)), level, (rounds - 1) as nat);
    }
}

proof fn lemma_finished_stays(s: LinkState, level: bool, rounds: nat)
    requires
        finished(s),
    ensures
        driven_state(s, level, rounds) == s,
        bursts_in(driven_trace(s, level, rounds)) == 0,
        driven_trace(s, level, rounds).len() == rounds,
        forall|i: int|
            0 <= i < rounds ==> #[trigger] driven_trace(s, level, rounds)[i] == pending(s),
    decreases rounds,
{
    if rounds > 0 {
        lemma_finished_stays(s, level, (rounds - 1) as nat);
        lemma_bursts_in_prepend(pending(s), driven_trace(s, level, (rounds - 1) as nat));
        let t = driven_trace(s, level, rounds);
        assert forall|i: int| 0 <= i < rounds implies #[trigger] t[i] == pending(s) by {
            if i > 0 {
                assert(t[i] == driven_trace(s, level, (rounds - 1) as nat)[i - 1]);
            }
        }
    }
}

proof fn lemma_bursts_while_low(bursts: u32, rounds: nat)
    requires
        1 <= bursts <= CONFIG_DONE_BURSTS,
    ensures
        bursts_in(driven_trace(LinkState::AwaitingConfigDone { bursts }, false, rounds)) == if rounds
            < CONFIG_DONE_BURSTS - bursts + 1 {
            rounds
        } else {
            (CONFIG_DONE_BURSTS - bursts + 1) as nat
        },
        rounds >= CONFIG_DONE_BURSTS - bursts + 1 ==> driven_state(
            LinkState::AwaitingConfigDone { bursts },
            false,
            rounds,
        ) == LinkState::ConfigTimedOut,
        rounds >= CONFIG_DONE_BURSTS - bursts + 2 ==> driven_trace(
            LinkState::AwaitingConfigDone { bursts },
            false,
            rounds,
        )[CONFIG_DONE_BURSTS - bursts + 1] == Action::Halt(BringUpError::ConfigTimedOut),
    decreases rounds,
{
    let s = LinkState::AwaitingConfigDone { bursts };
    if rounds > 0 {
        let next = next_state(s, response(pending(s), false));
        let rest = driven_trace(next, false, (rounds - 1) as nat);
        lemma_bursts_in_prepend(Action::ClockBurst, rest);
        lemma_trace_len(next, false, (rounds - 1) as nat);
        if bursts < CONFIG_DONE_BURSTS {
            lemma_bursts_while_low((bursts + 1) as u32, (rounds - 1) as nat);
        } else {
            lemma_finished_stays(next, false, (rounds - 1) as nat);
        }
        if rounds >= CONFIG_DONE_BURSTS - bursts + 2 {
            assert(driven_trace(s, false, rounds)[CONFIG_DONE_BURSTS - bursts + 1]
                == rest[CONFIG_DONE_BURSTS - bursts as int]);
        }
    }
}

/// When config-done is already high, bring-up stops at once with
/// `AlreadyConfigured`: after the first reading of config-done it asks for
/// nothing but that halt, so no reset is pulsed and no byte is sent.
pub proof fn lemma_already_configured_sends_nothing(rounds: nat)
    requires
        rounds >= 1,
    ensures
        driven_trace(LinkState::Idle, true, rounds).len() == rounds,
        driven_trace(LinkState::Idle, true, rounds)[0] == Action::SampleConfigDone,
        forall|i: int|
            1 <= i < rounds ==> #[trigger] driven_trace(LinkState::Idle, true, rounds)[i]
                == Action::Halt(BringUpError::AlreadyConfigured),
        driven_state(LinkState::Idle, true, rounds) == LinkState::AlreadyConfigured,
{
    let t = driven_trace(LinkState::Idle, true, rounds);
    let rest = driven_trace(LinkState::AlreadyConfigured, true, (rounds - 1) as nat);
    lemma_finished_stays(LinkState::AlreadyConfigured, true, (rounds - 1) as nat);
    assert forall|i: int| 1 <= i < rounds implies #[trigger] t[i] == Action::Halt(
        BringUpError::AlreadyConfigured,
    ) by {
        assert(t[i] == rest[i - 1]);
    }
}

/// When config-done never rises, bring-up ends in `ConfigTimedOut` after
/// exactly [`CONFIG_DONE_BURSTS`] polling clock bursts, and never issues more.
pub proof fn lemma_timeout_after_burst_budget(rounds: nat)
    ensures
        bursts_in(driven_trace(LinkState::Idle, false, rounds)) <= CONFIG_DONE_BURSTS,
        rounds >= CONFIG_DONE_BURSTS + 5 ==> bursts_in(driven_trace(LinkState::Idle, false, rounds))
            == CONFIG_DONE_BURSTS,
        rounds >= CONFIG_DONE_BURSTS + 5 ==> driven_trace(LinkState::Idle, false, rounds)[
            CONFIG_DONE_BURSTS + 4] == Action::Halt(BringUpError::ConfigTimedOut),
        rounds >= CONFIG_DONE_BURSTS + 5 ==> driven_state(LinkState::Idle, false, rounds)
            == LinkState::ConfigTimedOut,
{
    reveal_with_fuel(driven_trace, 5);
    reveal_with_fuel(driven_state, 5);
    reveal_with_fuel(bursts_in, 5);
    if rounds >= 4 {
        let await1 = LinkState::AwaitingConfigDone { bursts: 1 };
        let r = (rounds - 4) as nat;
        lemma_bursts_while_low(1, r);
        let tail = driven_trace(await1, false, r);
        lemma_trace_len(await1, false, r);
        let t3 = seq![Action::SampleConfigDone] + tail;
        let t2 = seq![Action::StreamBitstream] + t3;
        let t1 = seq![Action::PulseReset] + t2;
        let t0 = seq![Action::SampleConfigDone] + t1;
        lemma_bursts_in_prepend(Action::SampleConfigDone, tail);
        lemma_bursts_in_prepend(Action::StreamBitstream, t3);
        lemma_bursts_in_prepend(Action::PulseReset, t2);
        lemma_bursts_in_prepend(Action::SampleConfigDone, t1);
        assert(driven_trace(LinkState::Idle, false, rounds) == t0);
        if rounds >= CONFIG_DONE_BURSTS + 5 {
            assert(t0[CONFIG_DONE_BURSTS + 4] == tail[CONFIG_DONE_BURSTS as int]);
        }
    }
}

} // verus!
