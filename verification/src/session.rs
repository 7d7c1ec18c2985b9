//! The sampling loop as a state machine.
//!
//! The loop itself does no work: a driver performs the action that the current
//! state asks for (drawing, storing, waiting) and reports what came of it as an
//! event; the machine answers with the next state. A tick is the run of steps
//! from clearing the display to the wait that ends it. The wait is the only
//! place where the loop can be asked to stop: a cancellation or a closed
//! channel ends the loop there, a timeout starts the next tick.
//!
//! The ignore list is loaded once, before the display is entered, so a missing
//! list ends the program before the screen or the log is touched. Once the
//! display was entered, every way out of the loop leaves it again first.
use vstd::prelude::*;

verus! {

/// The seconds that the loop waits between two ticks.
pub const SAMPLING_INTERVAL_SECS: u64 = 10;

/// The kinds of fatal error.
#[derive(Clone, Copy, Debug, PartialEq, Eq, Structural)]
pub enum ErrorKind {
    /// The ignore list is missing or cannot be read.
    Io,
    /// The host's processes cannot be enumerated.
    Enumeration,
    /// The log store refused the schema, a write or a read.
    Storage,
    /// The terminal refused a switch of mode or a draw.
    Display,
}

/// How the loop ended.
#[derive(Clone, Copy, Debug, PartialEq, Eq, Structural)]
pub enum Exit {
    /// It was asked to stop.
    Success,
    /// A step failed.
    Fatal(ErrorKind),
}

/// The steps of a tick, in their order.
#[derive(Clone, Copy, Debug, PartialEq, Eq, Structural)]
pub enum Step {
    ClearDisplay,
    EnsureSchema,
    Sample,
    Timestamp,
    Append,
    DrawStatus,
    Wait,
}

/// The states of the loop. Each state but `Stopped` stands for one action of
/// the driver that is pending.
#[derive(Clone, Copy, Debug, PartialEq, Eq, Structural)]
pub enum LoopState {
    /// The ignore list is being loaded; the display was not entered yet.
    Loading,
    /// The display is being entered.
    Entering,
    /// The loop runs and the given step of the current tick is pending.
    Running(Step),
    /// The loop has ended and the display is being left.
    Leaving(Exit),
    /// The end: nothing is pending, and no event changes this state.
    Stopped(Exit),
}

/// How a wait ended.
#[derive(Clone, Copy, Debug, PartialEq, Eq, Structural)]
pub enum WaitOutcome {
    /// The cancellation signal arrived, during the wait or before it.
    Cancelled,
    /// The channel of the signal was closed.
    Disconnected,
    /// The interval passed without a signal.
    TimedOut,
}

/// What the driver reports of the pending action.
#[derive(Clone, Copy, Debug, PartialEq, Eq, Structural)]
pub enum Event {
    /// The action was done.
    Completed,
    /// The action failed.
    Failed(ErrorKind),
    /// The wait ended.
    Waited(WaitOutcome),
}

/// What the driver is to do.
#[derive(Clone, Copy, Debug, PartialEq, Eq, Structural)]
pub enum Action {
    LoadIgnoreList,
    EnterDisplay,
    ClearDisplay,
    EnsureSchema,
    Sample,
    Timestamp,
    Append,
    DrawStatus,
    /// Wait for the cancellation signal, for at most this many seconds.
    Wait { seconds: u64 },
    LeaveDisplay,
    /// End the process with this code.
    Exit { code: i32 },
}

/// The step that follows `step` when it was done; after the wait, the first
/// step of the next tick.
pub open spec fn step_after(step: Step) -> Step {
    match step {
        Step::ClearDisplay => Step::EnsureSchema,
        Step::EnsureSchema => Step::Sample,
        Step::Sample => Step::Timestamp,
        Step::Timestamp => Step::Append,
        Step::Append => Step::DrawStatus,
        Step::DrawStatus => Step::Wait,
        Step::Wait => Step::ClearDisplay,
    }
}

/// How many steps of the tick are to be done from `step` until the wait is
/// pending.
pub open spec fn steps_until_wait(step: Step) -> nat {
    match step {
        Step::ClearDisplay => 6,
        Step::EnsureSchema => 5,
        Step::Sample => 4,
        Step::Timestamp => 3,
        Step::Append => 2,
        Step::DrawStatus => 1,
        Step::Wait => 0,
    }
}

/// The exit of a loop that was ending with `exit` when leaving the display
/// failed with `kind`: the first failure is the one reported.
pub open spec fn exit_after_failed_leave(exit: Exit, kind: ErrorKind) -> Exit {
    match exit {
        Exit::Success => Exit::Fatal(kind),
        Exit::Fatal(_) => exit,
    }
}

/// The state that follows `state` on `event`.
///
/// An event that does not fit the pending action (the end of a wait where no
/// wait is pending, a completion where the wait is pending) changes nothing.
pub open spec fn next_state(state: LoopState, event: Event) -> LoopState {
    match state {
        LoopState::Loading => match event {
            Event::Completed => LoopState::Entering,
            Event::Failed(kind) => LoopState::Stopped(Exit::Fatal(kind)),
            Event::Waited(_) => state,
        },
        LoopState::Entering => match event {
            Event::Completed => LoopState::Running(Step::ClearDisplay),
            Event::Failed(kind) => LoopState::Stopped(Exit::Fatal(kind)),
            Event::Waited(_) => state,
        },
        LoopState::Running(Step::Wait) => match event {
            Event::Waited(WaitOutcome::TimedOut) => LoopState::Running(Step::ClearDisplay),
            Event::Waited(_) => LoopState::Leaving(Exit::Success),
            Event::Failed(kind) => LoopState::Leaving(Exit::Fatal(kind)),
            Event::Completed => state,
        },
        LoopState::Running(step) => match event {
            Event::Completed => LoopState::Running(step_after(step)),
            Event::Failed(kind) => LoopState::Leaving(Exit::Fatal(kind)),
            Event::Waited(_) => state,
        },
        LoopState::Leaving(exit) => match event {
            Event::Completed => LoopState::Stopped(exit),
            Event::Failed(kind) => LoopState::Stopped(exit_after_failed_leave(exit, kind)),
            Event::Waited(_) => state,
        },
        LoopState::Stopped(_) => state,
    }
}

/// The exit code of the process: zero for a loop that was asked to stop, one
/// and the same code for every kind of fatal error.
pub open spec fn exit_code_of(exit: Exit) -> i32 {
    match exit {
        Exit::Success => 0,
        Exit::Fatal(_) => 1,
    }
}

/// The action that is pending in `state`.
pub open spec fn action_of(state: LoopState) -> Action {
    match state {
        LoopState::Loading => Action::LoadIgnoreList,
        LoopState::Entering => Action::EnterDisplay,
        LoopState::Running(step) => match step {
            Step::ClearDisplay => Action::ClearDisplay,
            Step::EnsureSchema => Action::EnsureSchema,
            Step::Sample => Action::Sample,
            Step::Timestamp => Action::Timestamp,
            Step::Append => Action::Append,
            Step::DrawStatus => Action::DrawStatus,
            Step::Wait => Action::Wait { seconds: SAMPLING_INTERVAL_SECS },
        },
        LoopState::Leaving(_) => Action::LeaveDisplay,
        LoopState::Stopped(exit) => Action::Exit { code: exit_code_of(exit) },
    }
}

/// The state that is reached from `state` by the events in their order.
pub open spec fn run(state: LoopState, events: Seq<Event>) -> LoopState
    decreases events.len(),
{
    if events.len() == 0 {
        state
    } else {
        next_state(run(state, events.drop_last()), events.last())
    }
}

/// `count` completions in a row.
pub open spec fn completions(count: nat) -> Seq<Event> {
    Seq::new(count, |i: int| Event::Completed)
}

/// The exit code for `exit`.
pub fn exit_code(exit: Exit) -> (code: i32)
    ensures
        code == exit_code_of(exit),
{
    match exit {
        Exit::Success => 0,
        Exit::Fatal(_) => 1,
    }
}

impl LoopState {
    /// The state in which the program starts.
    pub fn start() -> (state: LoopState)
        ensures
            state == LoopState::Loading,
    {
        LoopState::Loading
    }

    /// Whether the loop has stopped.
    pub fn is_stopped(&self) -> (stopped: bool)
        ensures
            stopped == (*self is Stopped),
    {
        match self {
            LoopState::Stopped(_) => true,
            _ => false,
        }
    }

    /// The action that is pending in this state.
    pub fn pending_action(&self) -> (action: Action)
        ensures
            action == action_of(*self),
    {
        match *self {
            LoopState::Loading => Action::LoadIgnoreList,
            LoopState::Entering => Action::EnterDisplay,
            LoopState::Running(step) => match step {
                Step::ClearDisplay => Action::ClearDisplay,
                Step::EnsureSchema => Action::EnsureSchema,
                Step::Sample => Action::Sample,
                Step::Timestamp => Action::Timestamp,
                Step::Append => Action::Append,
                Step::DrawStatus => Action::DrawStatus,
                Step::Wait => Action::Wait { seconds: SAMPLING_INTERVAL_SECS },
            },
            LoopState::Leaving(_) => Action::LeaveDisplay,
            LoopState::Stopped(exit) => Action::Exit { code: exit_code(exit) },
        }
    }

    /// The state that follows this one on `event`.
    pub fn advance(self, event: Event) -> (next: LoopState)
        ensures
            next == next_state(self, event),
    {
        match self {
            LoopState::Loading => match event {
                Event::Completed => LoopState::Entering,
                Event::Failed(kind) => LoopState::Stopped(Exit::Fatal(kind)),
                Event::Waited(_) => self,
            },
            LoopState::Entering => match event {
                Event::Completed => LoopState::Running(Step::ClearDisplay),
                Event::Failed(kind) => LoopState::Stopped(Exit::Fatal(kind)),
                Event::Waited(_) => self,
            },
            LoopState::Running(step) => match event {
                Event::Failed(kind) => LoopState::Leaving(Exit::Fatal(kind)),
                Event::Completed => match step {
                    Step::ClearDisplay => LoopState::Running(Step::EnsureSchema),
                    Step::EnsureSchema => LoopState::Running(Step::Sample),
                    Step::Sample => LoopState::Running(Step::Timestamp),
                    Step::Timestamp => LoopState::Running(Step::Append),
                    Step::Append => LoopState::Running(Step::DrawStatus),
                    Step::DrawStatus => LoopState::Running(Step::Wait),
                    Step::Wait => self,
                },
                Event::Waited(outcome) => match step {
                    Step::Wait => match outcome {
                        WaitOutcome::TimedOut => LoopState::Running(Step::ClearDisplay),
                        WaitOutcome::Cancelled => LoopState::Leaving(Exit::Success),
                        WaitOutcome::Disconnected => LoopState::Leaving(Exit::Success),
                    },
                    _ => self,
                },
            },
            LoopState::Leaving(exit) => match event {
                Event::Completed => LoopState::Stopped(exit),
                Event::Failed(kind) => match exit {
                    Exit::Success => LoopState::Stopped(Exit::Fatal(kind)),
                    Exit::Fatal(_) => LoopState::Stopped(exit),
                },
                Event::Waited(_) => self,
            },
            LoopState::Stopped(_) => self,
        }
    }

    /// One turn of the loop: the state that follows on `event`, and the action
    /// that the driver is to perform next.
    pub fn step(self, event: Event) -> (turn: (LoopState, Action))
        ensures
            turn.0 == next_state(self, event),
            turn.1 == action_of(turn.0),
    {
        let next = self.advance(event);
        (next, next.pending_action())
    }
}

/// Running the events `first` and then the events `second` is running
/// `second` from where `first` led.
pub proof fn lemma_run_in_two_parts(state: LoopState, first: Seq<Event>, second: Seq<Event>)
    ensures
        run(state, first + second) == run(run(state, first), second),
    decreases second.len(),
{
    if second.len() == 0 {
        assert(first + second =~= first);
    } else {
        assert((first + second).drop_last() =~= first + second.drop_last());
        assert((first + second).last() == second.last());
        lemma_run_in_two_parts(state, first, second.drop_last());
    }
}

/// A stopped loop stays stopped, with the exit it stopped with, whatever is
/// reported to it.
pub proof fn lemma_stopped_is_final(exit: Exit, events: Seq<Event>)
    ensures
        run(LoopState::Stopped(exit), events) == LoopState::Stopped(exit),
    decreases events.len(),
{
    if events.len() > 0 {
        lemma_stopped_is_final(exit, events.drop_last());
    }
}

/// From any step of a tick the wait is pending after the steps that are left
/// of the tick were done, which are six at most.
pub proof fn lemma_tick_reaches_wait(step: Step)
    ensures
        steps_until_wait(step) <= 6,
        run(LoopState::Running(step), completions(steps_until_wait(step))) == LoopState::Running(
            Step::Wait,
        ),
    decreases steps_until_wait(step),
{
    let count = steps_until_wait(step);
    if count > 0 {
        let rest = completions((count - 1) as nat);
        let first = seq![Event::Completed];
        assert(completions(count) =~= first + rest);
        lemma_run_in_two_parts(LoopState::Running(step), first, rest);
        assert(first.drop_last() =~= Seq::<Event>::empty());
        assert(run(LoopState::Running(step), first) == next_state(
            run(LoopState::Running(step), first.drop_last()),
            first.last(),
        ));
        assert(run(LoopState::Running(step), first) == LoopState::Running(step_after(step)));
        lemma_tick_reaches_wait(step_after(step));
    } else {
        assert(completions(0) =~= Seq::<Event>::empty());
    }
}

/// A request to stop is met within the tick in which it arrives: from any
/// step, once the steps left of the tick are done and the wait reports the
/// cancellation or the closed channel, the display is left and the loop stops
/// with success. No step of another tick is started on the way, and whatever
/// is reported after that changes nothing.
pub proof fn lemma_stop_request_ends_loop(step: Step, outcome: WaitOutcome, later: Seq<Event>)
    requires
        outcome != WaitOutcome::TimedOut,
    ensures
        run(
            LoopState::Running(step),
            completions(steps_until_wait(step)) + seq![Event::Waited(outcome)],
        ) == LoopState::Leaving(Exit::Success),
        run(
            LoopState::Running(step),
            completions(steps_until_wait(step)) + seq![Event::Waited(outcome), Event::Completed]
                + later,
        ) == LoopState::Stopped(Exit::Success),
{
    let start = LoopState::Running(step);
    let tick = completions(steps_until_wait(step));
    lemma_tick_reaches_wait(step);
    let asked = seq![Event::Waited(outcome)];
    let asked_and_left = seq![Event::Waited(outcome), Event::Completed];
    assert(asked.drop_last() =~= Seq::<Event>::empty());
    assert(asked_and_left.drop_last() =~= asked);
    let waiting = LoopState::Running(Step::Wait);
    assert(run(waiting, asked) == next_state(run(waiting, asked.drop_last()), asked.last()));
    assert(run(waiting, asked) == LoopState::Leaving(Exit::Success));
    assert(run(waiting, asked_and_left) == next_state(
        run(waiting, asked_and_left.drop_last()),
        asked_and_left.last(),
    ));
    assert(run(waiting, asked_and_left) == LoopState::Stopped(Exit::Success));
    lemma_run_in_two_parts(start, tick, asked);
    lemma_run_in_two_parts(start, tick, asked_and_left);
    lemma_run_in_two_parts(start, tick + asked_and_left, later);
    lemma_stopped_is_final(Exit::Success, later);
}

/// A timeout is no reason to stop: in no state does it end the loop or make it
/// leave the display, and where the wait is pending it starts the next tick.
pub proof fn lemma_timeout_never_ends_loop(state: LoopState)
    ensures
        next_state(state, Event::Waited(WaitOutcome::TimedOut)) is Stopped ==> state is Stopped,
        next_state(state, Event::Waited(WaitOutcome::TimedOut)) is Leaving ==> state is Leaving,
        state == LoopState::Running(Step::Wait) ==> next_state(
            state,
            Event::Waited(WaitOutcome::TimedOut),
        ) == LoopState::Running(Step::ClearDisplay),
{
}

/// The display is left on every way out of the running loop: a running state
/// never stops at once, and the only states that do are those of a loop that
/// is leaving the display or has not entered it yet.
pub proof fn lemma_display_left_before_stop(state: LoopState, event: Event)
    requires
        !(state is Stopped),
        next_state(state, event) is Stopped,
    ensures
        state is Leaving || state is Loading || state is Entering,
        state is Leaving ==> action_of(state) == Action::LeaveDisplay,
{
}

/// A failure of any step of a tick, whatever its kind, leads to leaving the
/// display and then to a stop that reports this failure.
pub proof fn lemma_failed_step_is_fatal(step: Step, kind: ErrorKind)
    ensures
        next_state(LoopState::Running(step), Event::Failed(kind)) == LoopState::Leaving(
            Exit::Fatal(kind),
        ),
        next_state(LoopState::Leaving(Exit::Fatal(kind)), Event::Completed) == LoopState::Stopped(
            Exit::Fatal(kind),
        ),
        exit_code_of(Exit::Fatal(kind)) != 0,
{
}

/// An ignore list that cannot be loaded ends the program at once: the loop
/// stops with this failure in the state in which it started, and stays
/// stopped, so that neither the display nor the log is asked for anything.
pub proof fn lemma_failed_load_stops_at_once(kind: ErrorKind, later: Seq<Event>)
    ensures
        run(LoopState::Loading, seq![Event::Failed(kind)] + later) == LoopState::Stopped(
            Exit::Fatal(kind),
        ),
{
    let failed = seq![Event::Failed(kind)];
    assert(failed.drop_last() =~= Seq::<Event>::empty());
    assert(run(LoopState::Loading, failed) == next_state(
        run(LoopState::Loading, failed.drop_last()),
        failed.last(),
    ));
    lemma_run_in_two_parts(LoopState::Loading, failed, later);
    lemma_stopped_is_final(Exit::Fatal(kind), later);
}

} // verus!
