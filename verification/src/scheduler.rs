//! The polling loop: when a cycle starts and when the program ends.
//!
//! The loop waits for the timer and for a shutdown request. It starts one cycle per tick,
//! never two at once, and a tick that falls into a running cycle is dropped: the next cycle
//! fetches everything afresh, so nothing is lost. A shutdown request is honoured between
//! cycles: a running cycle is left to finish, and no cycle starts after the request.

use vstd::prelude::*;

verus! {

/// The seconds between two ticks of the timer.
pub const POLL_PERIOD_SECS: u64 = 120;

/// Where the loop stands.
#[derive(Clone, Copy, Debug, PartialEq, Eq, Structural)]
pub enum LoopState {
    /// No cycle runs; the loop waits for a tick or a shutdown request.
    Running,
    /// A cycle runs.
    CycleInFlight,
    /// Shutdown was requested while a cycle ran; the loop waits for the cycle's end.
    ShuttingDown,
    /// The loop has ended.
    Terminated,
}

/// What the loop is told.
#[derive(Clone, Copy, Debug, PartialEq, Eq, Structural)]
pub enum LoopEvent {
    /// The timer fired.
    TimerTick,
    /// The operator asked the program to stop.
    ShutdownRequest,
    /// The running cycle came to its end.
    CycleComplete,
    /// The running cycle was given up because its fetch failed.
    CycleFailed,
}

/// What the caller is to do after an event.
#[derive(Clone, Copy, Debug, PartialEq, Eq, Structural)]
pub enum LoopAction {
    /// Nothing new: go on waiting, and let a running cycle run.
    Idle,
    /// Start a cycle now.
    StartCycle,
    /// Leave the loop.
    Exit,
}

/// Whether the event says that the running cycle is over, well or badly.
pub open spec fn ends_cycle(event: LoopEvent) -> bool {
    event == LoopEvent::CycleComplete || event == LoopEvent::CycleFailed
}

/// Whether a cycle runs in this state.
pub open spec fn cycle_runs(state: LoopState) -> bool {
    state == LoopState::CycleInFlight || state == LoopState::ShuttingDown
}

/// The state after an event.
pub open spec fn next_state(state: LoopState, event: LoopEvent) -> LoopState {
    match state {
        LoopState::Running => match event {
            LoopEvent::TimerTick => LoopState::CycleInFlight,
            LoopEvent::ShutdownRequest => LoopState::Terminated,
            _ => LoopState::Running,
        },
        LoopState::CycleInFlight => match event {
            LoopEvent::TimerTick => LoopState::CycleInFlight,
            LoopEvent::ShutdownRequest => LoopState::ShuttingDown,
            _ => LoopState::Running,
        },
        LoopState::ShuttingDown => match event {
            LoopEvent::CycleComplete | LoopEvent::CycleFailed => LoopState::Terminated,
            _ => LoopState::ShuttingDown,
        },
        LoopState::Terminated => LoopState::Terminated,
    }
}

/// What the caller is to do after an event: start a cycle on a tick that finds the loop
/// idle, leave once the loop has ended, and nothing new otherwise.
pub open spec fn action_for(state: LoopState, event: LoopEvent) -> LoopAction {
    if state == LoopState::Running && event == LoopEvent::TimerTick {
        LoopAction::StartCycle
    } else if next_state(state, event) == LoopState::Terminated {
        LoopAction::Exit
    } else {
        LoopAction::Idle
    }
}

/// The state after a run of events.
pub open spec fn run(state: LoopState, events: Seq<LoopEvent>) -> LoopState
    decreases events.len(),
{
    if events.len() == 0 {
        state
    } else {
        run(next_state(state, events[0]), events.skip(1))
    }
}

/// What the caller was asked to do during a run of events, one action for each event.
pub open spec fn actions(state: LoopState, events: Seq<LoopEvent>) -> Seq<LoopAction>
    decreases events.len(),
{
    if events.len() == 0 {
        Seq::empty()
    } else {
        seq![action_for(state, events[0])] + actions(
            next_state(state, events[0]),
            events.skip(1),
        )
    }
}

/// The polling loop's memory: nothing but where it stands.
#[derive(Debug)]
pub struct SchedulerLoop {
    state: LoopState,
}

impl View for SchedulerLoop {
    type V = LoopState;

    closed spec fn view(&self) -> LoopState {
        self.state
    }
}

impl SchedulerLoop {
    /// A loop that waits for its first tick.
    pub fn new() -> (fresh: Self)
        ensures
            fresh@ == LoopState::Running,
    {
        SchedulerLoop { state: LoopState::Running }
    }

    /// Where the loop stands.
    pub fn state(&self) -> (state: LoopState)
        ensures
            state == self@,
    {
        self.state
    }

    /// Whether the loop has ended.
    pub fn is_terminated(&self) -> (ended: bool)
        ensures
            ended == (self@ == LoopState::Terminated),
    {
        self.state == LoopState::Terminated
    }

    /// Takes an event and says what to do.
    pub fn on_event(&mut self, event: LoopEvent) -> (action: LoopAction)
        ensures
            final(self)@ == next_state(old(self)@, event),
            action == action_for(old(self)@, event),
    {
        let (next, action) = transition(self.state, event);
        self.state = next;
        action
    }
}

/// The state after an event, and what the caller is to do.
pub fn transition(state: LoopState, event: LoopEvent) -> (next: (LoopState, LoopAction))
    ensures
        next.0 == next_state(state, event),
        next.1 == action_for(state, event),
{
    match state {
        LoopState::Running => match event {
            LoopEvent::TimerTick => (LoopState::CycleInFlight, LoopAction::StartCycle),
            LoopEvent::ShutdownRequest => (LoopState::Terminated, LoopAction::Exit),
            _ => (LoopState::Running, LoopAction::Idle),
        },
        LoopState::CycleInFlight => match event {
            LoopEvent::TimerTick => (LoopState::CycleInFlight, LoopAction::Idle),
            LoopEvent::ShutdownRequest => (LoopState::ShuttingDown, LoopAction::Idle),
            _ => (LoopState::Running, LoopAction::Idle),
        },
        LoopState::ShuttingDown => match event {
            LoopEvent::CycleComplete | LoopEvent::CycleFailed => (
                LoopState::Terminated,
                LoopAction::Exit,
            ),
            _ => (LoopState::ShuttingDown, LoopAction::Idle),
        },
        LoopState::Terminated => (LoopState::Terminated, LoopAction::Exit),
    }
}

/// A run has one action for each event, and the action at `at` is the one for the state
/// that the events before `at` lead to.
pub proof fn lemma_action_at(state: LoopState, events: Seq<LoopEvent>, at: int)
    requires
        0 <= at < events.len(),
    ensures
        actions(state, events).len() == events.len(),
        actions(state, events)[at] == action_for(run(state, events.take(at)), events[at]),
    decreases events.len(),
{
    lemma_actions_len(state, events);
    let rest = events.skip(1);
    let after = next_state(state, events[0]);
    lemma_actions_len(after, rest);
    if at > 0 {
        lemma_action_at(after, rest, at - 1);
        assert(events.take(at).skip(1) =~= rest.take(at - 1));
    }
}

/// A run has one action for each event.
pub proof fn lemma_actions_len(state: LoopState, events: Seq<LoopEvent>)
    ensures
        actions(state, events).len() == events.len(),
    decreases events.len(),
{
    if events.len() > 0 {
        lemma_actions_len(next_state(state, events[0]), events.skip(1));
    }
}

/// While a cycle runs and no event ends it, the cycle keeps running and nothing new is
/// asked of the caller.
pub proof fn lemma_cycle_runs_until_it_ends(state: LoopState, events: Seq<LoopEvent>)
    requires
        cycle_runs(state),
        forall|i: int| 0 <= i < events.len() ==> !ends_cycle(#[trigger] events[i]),
    ensures
        cycle_runs(run(state, events)),
        state == LoopState::ShuttingDown ==> run(state, events) == LoopState::ShuttingDown,
        forall|i: int|
            0 <= i < events.len() ==> #[trigger] actions(state, events)[i] == LoopAction::Idle,
    decreases events.len(),
{
    lemma_actions_len(state, events);
    if events.len() > 0 {
        let rest = events.skip(1);
        let after = next_state(state, events[0]);
        lemma_cycle_runs_until_it_ends(after, rest);
        lemma_actions_len(after, rest);
    }
}

/// Cycles never overlap: a cycle starts only on a tick that finds the loop idle, the loop
/// then holds a running cycle, and between two starts there is always the end of a cycle.
pub proof fn law_cycles_are_serialized(
    state: LoopState,
    events: Seq<LoopEvent>,
    first: int,
    second: int,
)
    requires
        0 <= first < second < events.len(),
        actions(state, events)[first] == LoopAction::StartCycle,
        actions(state, events)[second] == LoopAction::StartCycle,
    ensures
        events[first] == LoopEvent::TimerTick,
        run(state, events.take(first)) == LoopState::Running,
        run(state, events.take(first + 1)) == LoopState::CycleInFlight,
        exists|k: int| first < k < second && ends_cycle(#[trigger] events[k]),
{
    lemma_action_at(state, events, first);
    lemma_action_at(state, events, second);
    let before = run(state, events.take(first));
    lemma_run_split(state, events.take(first + 1), first);
    assert(events.take(first + 1).take(first) =~= events.take(first));
    assert(events.take(first + 1).skip(first) =~= seq![events[first]]);
    lemma_run_one(before, events[first]);
    let started = run(state, events.take(first + 1));
    let between = events.subrange(first + 1, second);
    lemma_run_split(state, events.take(second), first + 1);
    assert(events.take(second).take(first + 1) =~= events.take(first + 1));
    assert(events.take(second).skip(first + 1) =~= between);
    if forall|i: int| 0 <= i < between.len() ==> !ends_cycle(#[trigger] between[i]) {
        // Then the cycle would still run at the second start.
        lemma_cycle_runs_until_it_ends(started, between);
    }
}

/// A run of one event is one step.
pub proof fn lemma_run_one(state: LoopState, event: LoopEvent)
    ensures
        run(state, seq![event]) == next_state(state, event),
{
    let events = seq![event];
    assert(run(next_state(state, events[0]), events.skip(1)) == next_state(state, event));
}

/// A run can be cut anywhere: the second part goes on where the first part ended.
pub proof fn lemma_run_split(state: LoopState, events: Seq<LoopEvent>, at: int)
    requires
        0 <= at <= events.len(),
    ensures
        run(state, events) == run(run(state, events.take(at)), events.skip(at)),
    decreases at,
{
    if at == 0 {
        assert(events.skip(0) =~= events);
    } else {
        let rest = events.skip(1);
        let after = next_state(state, events[0]);
        lemma_run_split(after, rest, at - 1);
        assert(rest.take(at - 1) =~= events.take(at).skip(1));
        assert(rest.skip(at - 1) =~= events.skip(at));
    }
}

/// Once shutdown is requested no cycle starts any more, whatever happens next and wherever
/// the loop stood.
pub proof fn law_no_cycle_starts_after_shutdown(state: LoopState, later: Seq<LoopEvent>)
    ensures
        !actions(next_state(state, LoopEvent::ShutdownRequest), later).contains(
            LoopAction::StartCycle,
        ),
{
    let stopping = next_state(state, LoopEvent::ShutdownRequest);
    lemma_never_starts_once_stopping(stopping, later);
}

/// A loop that is shutting down or has ended stays so and starts no cycle.
pub proof fn lemma_never_starts_once_stopping(state: LoopState, events: Seq<LoopEvent>)
    requires
        state == LoopState::ShuttingDown || state == LoopState::Terminated,
    ensures
        run(state, events) == LoopState::ShuttingDown || run(state, events)
            == LoopState::Terminated,
        !actions(state, events).contains(LoopAction::StartCycle),
    decreases events.len(),
{
    if events.len() > 0 {
        let rest = events.skip(1);
        let after = next_state(state, events[0]);
        lemma_never_starts_once_stopping(after, rest);
    }
}

/// Shutdown while no cycle runs ends the loop at once: the caller is told to leave, no
/// cycle is started, and the loop stays ended whatever it is told afterwards.
pub proof fn law_shutdown_when_idle(later: Seq<LoopEvent>)
    ensures
        next_state(LoopState::Running, LoopEvent::ShutdownRequest) == LoopState::Terminated,
        action_for(LoopState::Running, LoopEvent::ShutdownRequest) == LoopAction::Exit,
        run(LoopState::Terminated, later) == LoopState::Terminated,
        !actions(LoopState::Terminated, later).contains(LoopAction::StartCycle),
    decreases later.len(),
{
    lemma_never_starts_once_stopping(LoopState::Terminated, later);
    if later.len() > 0 {
        law_shutdown_when_idle(later.skip(1));
    }
}

/// Shutdown while a cycle runs lets the cycle finish. The request itself asks nothing of
/// the caller; until an event ends the cycle the loop keeps waiting and the caller is never
/// told to leave or to start anything; the end of the cycle, good or bad, then ends the
/// loop.
pub proof fn law_shutdown_mid_cycle(meanwhile: Seq<LoopEvent>, end: LoopEvent)
    requires
        forall|i: int| 0 <= i < meanwhile.len() ==> !ends_cycle(#[trigger] meanwhile[i]),
        ends_cycle(end),
    ensures
        next_state(LoopState::CycleInFlight, LoopEvent::ShutdownRequest)
            == LoopState::ShuttingDown,
        action_for(LoopState::CycleInFlight, LoopEvent::ShutdownRequest) == LoopAction::Idle,
        run(LoopState::ShuttingDown, meanwhile) == LoopState::ShuttingDown,
        forall|i: int|
            0 <= i < meanwhile.len() ==> #[trigger] actions(LoopState::ShuttingDown, meanwhile)[i]
                == LoopAction::Idle,
        next_state(LoopState::ShuttingDown, end) == LoopState::Terminated,
        action_for(LoopState::ShuttingDown, end) == LoopAction::Exit,
{
    lemma_cycle_runs_until_it_ends(LoopState::ShuttingDown, meanwhile);
}

/// A cycle that fails does not end the loop: the loop goes back to waiting, and the next
/// tick starts a fresh cycle.
pub proof fn law_failed_cycle_keeps_the_loop()
    ensures
        next_state(LoopState::CycleInFlight, LoopEvent::CycleFailed) == LoopState::Running,
        action_for(LoopState::CycleInFlight, LoopEvent::CycleFailed) == LoopAction::Idle,
        next_state(LoopState::Running, LoopEvent::TimerTick) == LoopState::CycleInFlight,
        action_for(LoopState::Running, LoopEvent::TimerTick) == LoopAction::StartCycle,
{
}

} // verus!
