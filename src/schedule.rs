//! The polling scheduler as a state machine. The driver performs each action
//! (a one-tick sleep, or a control transfer) and hands back what happened;
//! the poller decides the next action and what to report.
use vstd::prelude::*;
use crate::protocol::ReportKind;
use crate::report::{decode_report, decoded, DecodeError, Report};

verus! {

/// Ticks between two requests of report one.
pub const REPORT_ONE_PERIOD: u64 = 10;

/// Ticks between two requests of report two.
pub const REPORT_TWO_PERIOD: u64 = 30;

/// Where the poller stands within a tick.
#[derive(Debug, Clone, Copy, PartialEq, Eq, Structural)]
pub enum Phase {
    /// Between ticks: the next action is a sleep.
    Idle,
    /// The tick's report-one transfer is outstanding.
    AwaitOne,
    /// The tick's report-two transfer is outstanding.
    AwaitTwo,
}

/// The poller's state: the tick counter and the phase within the tick.
#[derive(Debug, Clone, Copy, PartialEq, Eq, Structural)]
pub struct Poller {
    pub tick: u64,
    pub phase: Phase,
}

/// What the driver reports back after performing an action.
#[derive(Debug, Clone, PartialEq, Eq)]
pub enum Event {
    /// The one-tick sleep is over.
    Slept,
    /// The transfer succeeded; these are the bytes it returned.
    Received(Vec<u8>),
    /// The transfer failed.
    Failed,
}

/// What the driver must do next.
#[derive(Debug, Clone, Copy, PartialEq, Eq, Structural)]
pub enum Action {
    Sleep,
    Request(ReportKind),
}

/// What a step hands to the output sink.
#[derive(Debug, Clone, Copy, PartialEq, Eq)]
pub enum Emission {
    /// Nothing to report.
    Nothing,
    /// Report one arrived and was decoded.
    Decoded(Result<Option<Report>, DecodeError>),
    /// Report two arrived; its content is not interpreted.
    Discarded,
    /// The transfer failed; polling goes on.
    TransferFailed,
}

/// The result of one step: the next action and what to emit.
#[derive(Debug, Clone, Copy, PartialEq, Eq)]
pub struct Step {
    pub action: Action,
    pub emission: Emission,
}

pub open spec fn report_one_due(tick: u64) -> bool {
    tick % 10 == 0
}

pub open spec fn report_two_due(tick: u64) -> bool {
    tick % 30 == 0
}

/// The counter after a tick; it wraps at the integer's limit.
pub open spec fn next_tick(tick: u64) -> u64 {
    if tick == u64::MAX {
        0
    } else {
        (tick + 1) as u64
    }
}

pub open spec fn idle_at(tick: u64) -> Poller {
    Poller { tick, phase: Phase::Idle }
}

pub open spec fn is_transfer_outcome(e: Event) -> bool {
    e is Received || e is Failed
}

/// The state after `e` arrives in state `p`. An event that does not answer
/// the outstanding action leaves the state as it is.
pub open spec fn next_poller(p: Poller, e: Event) -> Poller {
    match p.phase {
        Phase::Idle => if e is Slept {
            if report_one_due(p.tick) {
                Poller { tick: p.tick, phase: Phase::AwaitOne }
            } else if report_two_due(p.tick) {
                Poller { tick: p.tick, phase: Phase::AwaitTwo }
            } else {
                idle_at(next_tick(p.tick))
            }
        } else {
            p
        },
        Phase::AwaitOne => if is_transfer_outcome(e) {
            if report_two_due(p.tick) {
                Poller { tick: p.tick, phase: Phase::AwaitTwo }
            } else {
                idle_at(next_tick(p.tick))
            }
        } else {
            p
        },
        Phase::AwaitTwo => if is_transfer_outcome(e) {
            idle_at(next_tick(p.tick))
        } else {
            p
        },
    }
}

/// The action a state asks of the driver.
pub open spec fn action_of(p: Poller) -> Action {
    match p.phase {
        Phase::Idle => Action::Sleep,
        Phase::AwaitOne => Action::Request(ReportKind::One),
        Phase::AwaitTwo => Action::Request(ReportKind::Two),
    }
}

/// What is emitted when `e` arrives in state `p`.
pub open spec fn emission_of(p: Poller, e: Event) -> Emission {
    match (p.phase, e) {
        (Phase::AwaitOne, Event::Received(bytes)) => Emission::Decoded(decoded(bytes@)),
        (Phase::AwaitTwo, Event::Received(_)) => Emission::Discarded,
        (Phase::AwaitOne, Event::Failed) => Emission::TransferFailed,
        (Phase::AwaitTwo, Event::Failed) => Emission::TransferFailed,
        _ => Emission::Nothing,
    }
}

/// Whether the tick that starts idle at `tick` requests report one.
pub open spec fn tick_requests_one(tick: u64) -> bool {
    action_of(next_poller(idle_at(tick), Event::Slept)) == Action::Request(ReportKind::One)
}

/// Whether the tick that starts idle at `tick` requests report two, when a
/// report-one transfer of that tick ends with `outcome`.
pub open spec fn tick_requests_two(tick: u64, outcome: Event) -> bool {
    let p1 = next_poller(idle_at(tick), Event::Slept);
    action_of(p1) == Action::Request(ReportKind::Two) || (action_of(p1) == Action::Request(
        ReportKind::One,
    ) && action_of(next_poller(p1, outcome)) == Action::Request(ReportKind::Two))
}

/// The state once every transfer of the tick that starts idle at `tick` has
/// ended, the first with `first` and any second with `second`.
pub open spec fn after_tick(tick: u64, first: Event, second: Event) -> Poller {
    let p1 = next_poller(idle_at(tick), Event::Slept);
    if p1.phase is Idle {
        p1
    } else {
        let p2 = next_poller(p1, first);
        if p2.phase is Idle {
            p2
        } else {
            next_poller(p2, second)
        }
    }
}

/// Report one is requested exactly on the ticks that are multiples of 10 and
/// report two exactly on the multiples of 30, whatever the transfers return;
/// both are requested in one tick exactly on the multiples of 30. Each tick
/// ends idle at the next value of the counter.
pub proof fn lemma_request_cadence(tick: u64, first: Event, second: Event)
    requires
        is_transfer_outcome(first),
        is_transfer_outcome(second),
    ensures
        tick_requests_one(tick) <==> tick % 10 == 0,
        tick_requests_two(tick, first) <==> tick % 30 == 0,
        tick_requests_one(tick) && tick_requests_two(tick, first) <==> tick % 30 == 0,
        after_tick(tick, first, second) == idle_at(next_tick(tick)),
{
    assert(tick % 30 == 0 ==> tick % 10 == 0) by (nonlinear_arith);
}

/// A failed transfer moves the poller exactly as a successful one does: the
/// loop goes on, and the next tick still makes its requests.
pub proof fn lemma_failure_keeps_polling(p: Poller, bytes: Vec<u8>)
    ensures
        next_poller(p, Event::Failed) == next_poller(p, Event::Received(bytes)),
        p.phase !is Idle ==> next_poller(p, Event::Failed) != p,
{
}

fn advance(tick: u64) -> (r: Poller)
    ensures
        r == idle_at(next_tick(tick)),
{
    Poller { tick: tick.wrapping_add(1), phase: Phase::Idle }
}

/// The event for a finished control transfer into `buf`: `received` is the
/// byte count on success and `None` on failure. A count beyond the buffer's
/// capacity is treated as a failure.
pub fn transfer_event(buf: &[u8], received: Option<usize>) -> (e: Event)
    ensures
        match received {
            Some(len) => if len <= buf@.len() {
                e matches Event::Received(bytes) && bytes@ == buf@.subrange(0, len as int)
            } else {
                e is Failed
            },
            None => e is Failed,
        },
{
    match received {
        Some(len) => {
            if len > buf.len() {
                return Event::Failed;
            }
            let mut bytes: Vec<u8> = Vec::with_capacity(len);
            let mut i: usize = 0;
            while i < len
                invariant
                    i <= len <= buf@.len(),
                    bytes@ == buf@.subrange(0, i as int),
                decreases len - i,
            {
                bytes.push(buf[i]);
                i = i + 1;
                assert(bytes@ =~= buf@.subrange(0, i as int));
            }
            Event::Received(bytes)
        },
        None => Event::Failed,
    }
}

impl Poller {
    /// A poller at tick 0, about to sleep.
    pub fn new() -> (r: Poller)
        ensures
            r == idle_at(0),
    {
        Poller { tick: 0, phase: Phase::Idle }
    }

    /// The action the driver must perform now.
    pub fn action(&self) -> (r: Action)
        ensures
            r == action_of(*self),
    {
        match self.phase {
            Phase::Idle => Action::Sleep,
            Phase::AwaitOne => Action::Request(ReportKind::One),
            Phase::AwaitTwo => Action::Request(ReportKind::Two),
        }
    }

    /// Takes in what happened to the last action, moves to the next state,
    /// and returns the next action with what to emit.
    pub fn step(&mut self, event: Event) -> (r: Step)
        ensures
            *final(self) == next_poller(*old(self), event),
            r.action == action_of(*final(self)),
            r.emission == emission_of(*old(self), event),
    {
        let tick = self.tick;
        let emission = match (&self.phase, &event) {
            (Phase::AwaitOne, Event::Received(bytes)) => Emission::Decoded(
                decode_report(bytes.as_slice()),
            ),
            (Phase::AwaitTwo, Event::Received(_)) => Emission::Discarded,
            (Phase::AwaitOne, Event::Failed) => Emission::TransferFailed,
            (Phase::AwaitTwo, Event::Failed) => Emission::TransferFailed,
            _ => Emission::Nothing,
        };
        let answered = match event {
            Event::Slept => false,
            _ => true,
        };
        let next = match self.phase {
            Phase::Idle => {
                if answered {
                    *self
                } else if tick % REPORT_ONE_PERIOD == 0 {
                    Poller { tick, phase: Phase::AwaitOne }
                } else if tick % REPORT_TWO_PERIOD == 0 {
                    Poller { tick, phase: Phase::AwaitTwo }
                } else {
                    advance(tick)
                }
            },
            Phase::AwaitOne => {
                if !answered {
                    *self
                } else if tick % REPORT_TWO_PERIOD == 0 {
                    Poller { tick, phase: Phase::AwaitTwo }
                } else {
                    advance(tick)
                }
            },
            Phase::AwaitTwo => {
                if !answered {
                    *self
                } else {
                    advance(tick)
                }
            },
        };
        *self = next;
        Step { action: self.action(), emission }
    }
}

} // verus!
