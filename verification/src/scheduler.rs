//! The generic recurring-task scheduler: a timer source, a fixed period and a
//! task that can run once. The scheduler alternates between waiting for the
//! timer and firing the task; it never starts a round before the previous
//! round of the same task has completed, and a failed round re-arms it
//! exactly like a successful one.

use vstd::prelude::*;
use crate::plugin::PluginInstance;
use crate::plugin::WorkKind;
use crate::poller::RoundReport;

verus! {

/// Where a scheduler stands: waiting for its timer, or with a round in
/// flight.
#[derive(Clone, Copy, Debug, PartialEq, Eq, Structural)]
pub enum SchedulerState {
    /// Waiting for the next tick.
    Armed,
    /// A round is in flight; its report has not come back yet.
    Firing,
    /// Shut down; no further round will start.
    Stopped,
}

/// What a scheduler reacts to.
#[derive(Clone, Copy, Debug, PartialEq, Eq, Structural)]
pub enum SchedulerEvent {
    /// The timer elapsed.
    Tick,
    /// The in-flight round reported complete, successfully or not.
    RoundDone { ok: bool },
    /// Shutdown was requested; observed at a tick boundary.
    Shutdown,
}

/// What a scheduler asks its driver to do next.
#[derive(Clone, Copy, Debug, PartialEq, Eq, Structural)]
pub enum SchedulerAction {
    /// Run one round of the task now.
    StartRound,
    /// Wait out the period, then deliver the next tick.
    WaitTick,
    /// Stop driving the task; deliver no further event.
    Stop,
    /// The event does not fit the current state; do nothing.
    Ignore,
}

/// The transition relation: a tick while armed starts a round; a completed
/// round — failed or not — re-arms; a shutdown observed at a tick boundary
/// stops the loop for good; everything else is ignored, so a round can never
/// start while another is in flight, and an in-flight round always reports
/// before the loop stops.
pub open spec fn step_spec(s: SchedulerState, e: SchedulerEvent) -> (
    SchedulerState,
    SchedulerAction,
) {
    match (s, e) {
        (SchedulerState::Armed, SchedulerEvent::Tick) => (
            SchedulerState::Firing,
            SchedulerAction::StartRound,
        ),
        (SchedulerState::Armed, SchedulerEvent::RoundDone { .. }) => (
            SchedulerState::Armed,
            SchedulerAction::Ignore,
        ),
        (SchedulerState::Armed, SchedulerEvent::Shutdown) => (
            SchedulerState::Stopped,
            SchedulerAction::Stop,
        ),
        (SchedulerState::Firing, SchedulerEvent::Tick) => (
            SchedulerState::Firing,
            SchedulerAction::Ignore,
        ),
        (SchedulerState::Firing, SchedulerEvent::RoundDone { .. }) => (
            SchedulerState::Armed,
            SchedulerAction::WaitTick,
        ),
        (SchedulerState::Firing, SchedulerEvent::Shutdown) => (
            SchedulerState::Firing,
            SchedulerAction::Ignore,
        ),
        (SchedulerState::Stopped, _) => (SchedulerState::Stopped, SchedulerAction::Ignore),
    }
}

/// One recurring task's scheduler: its fixed period and its current state.
#[derive(Debug)]
pub struct Scheduler {
    pub period: u64,
    pub state: SchedulerState,
}

impl Scheduler {
    /// A fresh scheduler, armed for its first tick.
    pub fn new(period: u64) -> (r: Scheduler)
        ensures
            r.period == period,
            r.state is Armed,
    {
        Scheduler { period, state: SchedulerState::Armed }
    }

    /// Feeds one event through the transition relation and reports the
    /// action the driver must take.
    pub fn step(&mut self, event: SchedulerEvent) -> (action: SchedulerAction)
        ensures
            (final(self).state, action) == step_spec(old(self).state, event),
            final(self).period == old(self).period,
    {
        let (next, action) = match (self.state, event) {
            (SchedulerState::Armed, SchedulerEvent::Tick) => (
                SchedulerState::Firing,
                SchedulerAction::StartRound,
            ),
            (SchedulerState::Armed, SchedulerEvent::RoundDone { .. }) => (
                SchedulerState::Armed,
                SchedulerAction::Ignore,
            ),
            (SchedulerState::Armed, SchedulerEvent::Shutdown) => (
                SchedulerState::Stopped,
                SchedulerAction::Stop,
            ),
            (SchedulerState::Firing, SchedulerEvent::Tick) => (
                SchedulerState::Firing,
                SchedulerAction::Ignore,
            ),
            (SchedulerState::Firing, SchedulerEvent::RoundDone { .. }) => (
                SchedulerState::Armed,
                SchedulerAction::WaitTick,
            ),
            (SchedulerState::Firing, SchedulerEvent::Shutdown) => (
                SchedulerState::Firing,
                SchedulerAction::Ignore,
            ),
            (SchedulerState::Stopped, _) => (SchedulerState::Stopped, SchedulerAction::Ignore),
        };
        self.state = next;
        action
    }
}

/// The state a scheduler reaches after a sequence of events.
pub open spec fn state_after(s0: SchedulerState, events: Seq<SchedulerEvent>) -> SchedulerState
    decreases events.len(),
{
    if events.len() == 0 {
        s0
    } else {
        step_spec(state_after(s0, events.drop_last()), events.last()).0
    }
}

/// How many rounds a sequence of events makes the scheduler start.
pub open spec fn rounds_started(s0: SchedulerState, events: Seq<SchedulerEvent>) -> nat
    decreases events.len(),
{
    if events.len() == 0 {
        0
    } else {
        rounds_started(s0, events.drop_last()) + if step_spec(
            state_after(s0, events.drop_last()),
            events.last(),
        ).1 is StartRound {
            1nat
        } else {
            0nat
        }
    }
}

/// How many in-flight rounds a sequence of events completes.
pub open spec fn rounds_completed(s0: SchedulerState, events: Seq<SchedulerEvent>) -> nat
    decreases events.len(),
{
    if events.len() == 0 {
        0
    } else {
        rounds_completed(s0, events.drop_last()) + if step_spec(
            state_after(s0, events.drop_last()),
            events.last(),
        ).1 is WaitTick {
            1nat
        } else {
            0nat
        }
    }
}

/// Rounds of one task never overlap: under every event sequence, the number
/// of rounds started exceeds the number completed exactly while one round is
/// in flight — so at most one round of the task is ever in flight, and a new
/// round starts only after the previous one has completed.
pub proof fn lemma_rounds_never_overlap(s0: SchedulerState, events: Seq<SchedulerEvent>)
    requires
        s0 is Armed,
    ensures
        rounds_started(s0, events) == rounds_completed(s0, events) + if state_after(
            s0,
            events,
        ) is Firing {
            1nat
        } else {
            0nat
        },
        rounds_completed(s0, events) <= rounds_started(s0, events) <= rounds_completed(s0, events)
            + 1,
    decreases events.len(),
{
    if events.len() > 0 {
        lemma_rounds_never_overlap(s0, events.drop_last());
    }
}

/// The action a scheduler driven from `s0` takes at position `p` of an
/// event sequence.
pub open spec fn action_at(
    s0: SchedulerState,
    events: Seq<SchedulerEvent>,
    p: int,
) -> SchedulerAction {
    step_spec(state_after(s0, events.take(p)), events[p]).1
}

/// A round starts only once every previously started round has completed:
/// wherever a start is issued, the rounds started so far and the rounds
/// completed so far balance exactly.
pub proof fn lemma_start_waits_for_completion(events: Seq<SchedulerEvent>, p: int)
    requires
        0 <= p < events.len(),
        action_at(SchedulerState::Armed, events, p) is StartRound,
    ensures
        rounds_started(SchedulerState::Armed, events.take(p)) == rounds_completed(
            SchedulerState::Armed,
            events.take(p),
        ),
{
    lemma_rounds_never_overlap(SchedulerState::Armed, events.take(p));
    let s = state_after(SchedulerState::Armed, events.take(p));
    assert(s is Armed);
}

/// A failing round is contained: the scheduler re-arms on a failed report
/// exactly as on a successful one, and the next tick starts the next round.
pub proof fn lemma_failed_round_rearms(ok: bool)
    ensures
        step_spec(SchedulerState::Firing, SchedulerEvent::RoundDone { ok }) == (
            SchedulerState::Armed,
            SchedulerAction::WaitTick,
        ),
        step_spec(SchedulerState::Armed, SchedulerEvent::Tick).1 is StartRound,
{
}

/// Shutdown is final: once stopped, a scheduler ignores every event and
/// never starts another round.
pub proof fn lemma_stopped_stays_stopped(events: Seq<SchedulerEvent>)
    ensures
        state_after(SchedulerState::Stopped, events) is Stopped,
        rounds_started(SchedulerState::Stopped, events) == 0,
    decreases events.len(),
{
    if events.len() > 0 {
        lemma_stopped_stays_stopped(events.drop_last());
    }
}

/// A recurring task: one value that can run a complete round over a fixed
/// set of instances.
pub trait Task {
    /// The instances the task covers, in order.
    spec fn covered_instances(&self) -> Seq<PluginInstance>;

    /// The unit of work the task submits each round.
    spec fn work(&self) -> WorkKind;

    /// One complete round: submits one unit of work per covered instance to
    /// the execution environment and reports only once every outcome has
    /// been observed.
    fn run_once(&self) -> (r: RoundReport)
        ensures
            r.covers(self.covered_instances(), self.work()),
    ;
}

/// A source of timer ticks. Waiting is the one thing the scheduler asks of
/// it; what elapses meanwhile is outside this library's reach.
pub trait TimerSource {
    /// Returns once the period has elapsed.
    fn wait_tick(&mut self, period: u64);
}

/// A cancellation signal, observed at each tick boundary: once it reports
/// that shutdown was requested, the driver delivers `Shutdown` to the
/// scheduler and stops instead of starting another round.
pub trait ShutdownSignal {
    /// Whether shutdown has been requested.
    fn is_requested(&self) -> bool;
}

/// The simplest cancellation signal: a flag fixed when the driver starts.
#[derive(Debug)]
pub struct ShutdownFlag {
    pub requested: bool,
}

impl ShutdownSignal for ShutdownFlag {
    fn is_requested(&self) -> bool {
        self.requested
    }
}

/// A timer that does not wait at all; it only counts the ticks it was asked
/// for. Useful where rounds are driven back to back.
#[derive(Debug)]
pub struct CountingTimer {
    pub ticks: u64,
}

impl CountingTimer {
    pub fn new() -> (r: CountingTimer)
        ensures
            r.ticks == 0,
    {
        CountingTimer { ticks: 0 }
    }
}

impl TimerSource for CountingTimer {
    fn wait_tick(&mut self, period: u64) {
        if self.ticks < u64::MAX {
            self.ticks = self.ticks + 1;
        }
    }
}

/// Drives a recurring task for a bounded number of rounds: wait out the
/// period, run one round to completion, re-arm, and repeat. The scheduler
/// state machine guards every transition, so no round starts before the
/// previous round's report is complete, and a failed round never stops the
/// rounds that follow.
pub fn run_rounds<T: Task, W: TimerSource>(
    timer: &mut W,
    period: u64,
    task: &T,
    rounds: usize,
) -> (reports: Vec<RoundReport>)
    ensures
        reports@.len() == rounds,
        forall|i: int|
            0 <= i < rounds ==> (#[trigger] reports@[i]).covers(
                task.covered_instances(),
                task.work(),
            ),
{
    let mut scheduler = Scheduler::new(period);
    let mut reports: Vec<RoundReport> = Vec::new();
    let mut i: usize = 0;
    while i < rounds
        invariant
            0 <= i <= rounds,
            scheduler.state is Armed,
            scheduler.period == period,
            reports@.len() == i,
            forall|j: int|
                0 <= j < i ==> (#[trigger] reports@[j]).covers(
                    task.covered_instances(),
                    task.work(),
                ),
        decreases rounds - i,
    {
        timer.wait_tick(period);
        let action = scheduler.step(SchedulerEvent::Tick);
        assert(action is StartRound);
        let report = task.run_once();
        let ok = report.all_ok();
        let rearm = scheduler.step(SchedulerEvent::RoundDone { ok });
        assert(rearm is WaitTick);
        reports.push(report);
        i = i + 1;
    }
    reports
}

/// Drives a recurring task until shutdown is requested, for at most
/// `max_rounds` rounds. The signal is observed at each tick boundary — never
/// in the middle of a round — so an in-flight round always completes before
/// the loop stops.
pub fn run_until_shutdown<T: Task, W: TimerSource, S: ShutdownSignal>(
    timer: &mut W,
    period: u64,
    task: &T,
    signal: &S,
    max_rounds: usize,
) -> (reports: Vec<RoundReport>)
    ensures
        reports@.len() <= max_rounds,
        forall|i: int|
            0 <= i < reports@.len() ==> (#[trigger] reports@[i]).covers(
                task.covered_instances(),
                task.work(),
            ),
{
    let mut scheduler = Scheduler::new(period);
    let mut reports: Vec<RoundReport> = Vec::new();
    let mut i: usize = 0;
    while i < max_rounds
        invariant
            0 <= i <= max_rounds,
            scheduler.state is Armed,
            scheduler.period == period,
            reports@.len() == i,
            forall|j: int|
                0 <= j < i ==> (#[trigger] reports@[j]).covers(
                    task.covered_instances(),
                    task.work(),
                ),
        decreases max_rounds - i,
    {
        if signal.is_requested() {
            let halt = scheduler.step(SchedulerEvent::Shutdown);
            assert(halt is Stop);
            return reports;
        }
        timer.wait_tick(period);
        let action = scheduler.step(SchedulerEvent::Tick);
        assert(action is StartRound);
        let report = task.run_once();
        let ok = report.all_ok();
        let rearm = scheduler.step(SchedulerEvent::RoundDone { ok });
        assert(rearm is WaitTick);
        reports.push(report);
        i = i + 1;
    }
    reports
}

} // verus!
