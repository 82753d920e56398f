//! The life of the supervised child as a state machine.
//!
//! The threads that spawn the child, wait for it and answer an interrupt share
//! one [`Supervisor`] behind a lock. Each reports what happened as an
//! [`Event`]; the supervisor moves to its next state and answers with the
//! [`Action`] that the reporting thread has to perform. The child's handle is
//! acted on only on an answer of [`Action::Wait`] or [`Action::Kill`], so what
//! is proved of the answers is what holds of the handle.

use vstd::prelude::*;

verus! {

/// Where the supervised child is in its life.
#[derive(Clone, Copy, Debug, PartialEq, Eq, Structural)]
pub enum Phase {
    /// No child has been started.
    NotStarted,
    /// The child runs; the wait path holds its handle.
    Spawned,
    /// The child ended on its own. Terminal.
    Exited,
    /// Termination of the child was requested. Terminal.
    Killed,
}

/// What a thread reports to the supervisor.
#[derive(Clone, Copy, Debug, PartialEq, Eq, Structural)]
pub enum Event {
    /// The child was started and has this process identifier.
    Spawned(u32),
    /// The child could not be started.
    SpawnFailed,
    /// Waiting for the child has returned.
    Exited,
    /// The operator sent an interrupt.
    Interrupt,
}

/// What the reporting thread has to do next.
#[derive(Clone, Copy, Debug, PartialEq, Eq, Structural)]
pub enum Action {
    /// Nothing.
    Idle,
    /// Wait for the child to end, then report [`Event::Exited`].
    Wait,
    /// Take the child's handle out of its slot and request termination.
    Kill,
}

/// The shared state: the child's phase, its published process identifier and
/// the stop signal.
#[derive(Clone, Copy, Debug, PartialEq, Eq, Structural)]
pub struct State {
    /// Where the child is in its life.
    pub phase: Phase,
    /// Written once, when the child is spawned; read by the sampler.
    pub pid: Option<u32>,
    /// Once set, sampling ends and the run winds down.
    pub stop: bool,
}

impl State {
    /// The state before anything has happened.
    pub open spec fn initial() -> State {
        State { phase: Phase::NotStarted, pid: None, stop: false }
    }

    /// An identifier is published exactly from the moment of the spawn, and a
    /// child that has ended or was killed has fired the stop signal.
    pub open spec fn wf(self) -> bool {
        &&& self.phase is NotStarted <==> self.pid is None
        &&& self.is_terminal() ==> self.stop
    }

    pub open spec fn is_terminal(self) -> bool {
        self.phase is Exited || self.phase is Killed
    }

    /// The handle is in its slot exactly while the child runs.
    pub open spec fn holds_handle(self) -> bool {
        self.phase is Spawned
    }

    /// The state that follows `self` on `event`.
    pub open spec fn after(self, event: Event) -> State {
        match (self.phase, event) {
            (Phase::NotStarted, Event::Spawned(pid)) => State {
                phase: Phase::Spawned,
                pid: Some(pid),
                stop: self.stop,
            },
            (Phase::NotStarted, Event::SpawnFailed) => State { stop: true, ..self },
            (Phase::Spawned, Event::Exited) => State { phase: Phase::Exited, stop: true, ..self },
            (Phase::Spawned, Event::Interrupt) => State {
                phase: Phase::Killed,
                stop: true,
                ..self
            },
            (_, Event::Interrupt) => State { stop: true, ..self },
            _ => self,
        }
    }

    /// The answer to `event` in state `self`.
    pub open spec fn action(self, event: Event) -> Action {
        match (self.phase, event) {
            (Phase::NotStarted, Event::Spawned(_)) => Action::Wait,
            (Phase::Spawned, Event::Interrupt) => Action::Kill,
            _ => Action::Idle,
        }
    }

    /// The state after all of `events`, in order.
    pub open spec fn run(self, events: Seq<Event>) -> State
        decreases events.len(),
    {
        if events.len() == 0 {
            self
        } else {
            self.run(events.drop_last()).after(events.last())
        }
    }

    /// The answer to the event at index `i` of `events`, started in `self`.
    pub open spec fn action_at(self, events: Seq<Event>, i: int) -> Action
        recommends
            0 <= i < events.len(),
    {
        self.run(events.take(i)).action(events[i])
    }

    /// How many of the answers to `events`, started in `self`, are `action`.
    pub open spec fn answers(self, events: Seq<Event>, action: Action) -> nat
        decreases events.len(),
    {
        if events.len() == 0 {
            0
        } else {
            let before = self.answers(events.drop_last(), action);
            if self.run(events.drop_last()).action(events.last()) == action {
                before + 1
            } else {
                before
            }
        }
    }
}

/// The supervisor of one child.
pub struct Supervisor {
    state: State,
}

impl View for Supervisor {
    type V = State;

    closed spec fn view(&self) -> State {
        self.state
    }
}

impl Supervisor {
    #[verifier::type_invariant]
    spec fn inv(self) -> bool {
        self.state.wf()
    }

    /// A supervisor whose child has not been started.
    pub fn new() -> (sup: Supervisor)
        ensures
            sup@ == State::initial(),
    {
        Supervisor { state: State { phase: Phase::NotStarted, pid: None, stop: false } }
    }

    /// The current state; it is well formed.
    pub fn state(&self) -> (state: State)
        ensures
            state == self@,
            state.wf(),
    {
        proof {
            use_type_invariant(self);
        }
        self.state
    }

    /// Whether the stop signal has fired.
    pub fn stop_requested(&self) -> (stop: bool)
        ensures
            stop == self@.stop,
    {
        self.state.stop
    }

    /// The child's process identifier, once it is published.
    pub fn pid(&self) -> (pid: Option<u32>)
        ensures
            pid == self@.pid,
    {
        self.state.pid
    }

    /// Takes `event` in: moves to the next state and answers with what the
    /// reporting thread has to do.
    pub fn step(&mut self, event: Event) -> (action: Action)
        ensures
            final(self)@ == old(self)@.after(event),
            action == old(self)@.action(event),
            final(self)@.wf(),
    {
        proof {
            use_type_invariant(&*self);
        }
        let current = self.state;
        let (next, action) = match (current.phase, event) {
            (Phase::NotStarted, Event::Spawned(pid)) => (
                State { phase: Phase::Spawned, pid: Some(pid), stop: current.stop },
                Action::Wait,
            ),
            (Phase::NotStarted, Event::SpawnFailed) => (
                State { phase: current.phase, pid: current.pid, stop: true },
                Action::Idle,
            ),
            (Phase::Spawned, Event::Exited) => (
                State { phase: Phase::Exited, pid: current.pid, stop: true },
                Action::Idle,
            ),
            (Phase::Spawned, Event::Interrupt) => (
                State { phase: Phase::Killed, pid: current.pid, stop: true },
                Action::Kill,
            ),
            (_, Event::Interrupt) => (
                State { phase: current.phase, pid: current.pid, stop: true },
                Action::Idle,
            ),
            _ => (current, Action::Idle),
        };
        self.state = next;
        action
    }
}

/// Every step keeps the state well formed, so every state that a run reaches
/// from a well-formed one is well formed.
pub proof fn run_keeps_well_formed(s: State, events: Seq<Event>)
    requires
        s.wf(),
    ensures
        s.run(events).wf(),
    decreases events.len(),
{
    if events.len() > 0 {
        run_keeps_well_formed(s, events.drop_last());
    }
}

/// The stop signal fires once: whatever is reported after it has fired, it
/// stays set.
pub proof fn stop_is_permanent(s: State, events: Seq<Event>)
    requires
        s.stop,
    ensures
        s.run(events).stop,
    decreases events.len(),
{
    if events.len() > 0 {
        stop_is_permanent(s, events.drop_last());
    }
}

/// The process identifier is written once: after it is published no report
/// changes it.
pub proof fn pid_is_written_once(s: State, events: Seq<Event>)
    requires
        s.pid is Some,
        s.wf(),
    ensures
        s.run(events).pid == s.pid,
    decreases events.len(),
{
    if events.len() > 0 {
        pid_is_written_once(s, events.drop_last());
        run_keeps_well_formed(s, events.drop_last());
    }
}

/// Until a spawn is reported no identifier is published, so the sampler has
/// no process to ask about.
pub proof fn no_spawn_no_pid(events: Seq<Event>)
    requires
        forall|i: int| 0 <= i < events.len() ==> !(#[trigger] events[i] is Spawned),
    ensures
        State::initial().run(events).pid is None,
        State::initial().run(events).phase is NotStarted,
    decreases events.len(),
{
    if events.len() > 0 {
        no_spawn_no_pid(events.drop_last());
    }
}

/// `Exited` and `Killed` are terminal: a child that has ended or was killed
/// stays as it is, and every later report is answered with `Idle`.
pub proof fn terminal_is_final(s: State, events: Seq<Event>)
    requires
        s.wf(),
        s.is_terminal(),
    ensures
        s.run(events) == s,
        forall|i: int| 0 <= i < events.len() ==> s.action_at(events, i) is Idle,
    decreases events.len(),
{
    if events.len() > 0 {
        terminal_is_final(s, events.drop_last());
    }
    assert forall|i: int| 0 <= i < events.len() implies s.action_at(events, i) is Idle by {
        terminal_is_final(s, events.take(i));
    }
}

/// An interrupt fires the stop signal in every state, and while the child
/// runs it is answered with the one request to kill it.
pub proof fn interrupt_stops_and_kills(s: State)
    ensures
        s.after(Event::Interrupt).stop,
        s.holds_handle() ==> s.action(Event::Interrupt) is Kill,
        s.holds_handle() ==> s.after(Event::Interrupt).phase is Killed,
        !s.holds_handle() ==> s.action(Event::Interrupt) is Idle,
        !s.holds_handle() ==> s.after(Event::Interrupt).phase == s.phase,
{
}

/// A second interrupt right after the first changes nothing and asks for
/// nothing.
pub proof fn second_interrupt_is_noop(s: State)
    ensures
        s.after(Event::Interrupt).after(Event::Interrupt) == s.after(Event::Interrupt),
        s.after(Event::Interrupt).action(Event::Interrupt) is Idle,
{
}

/// The handle is consumed at most once by a kill: over any run at most one
/// answer is `Kill`, it is given only while the child runs, and after it the
/// child counts as killed.
pub proof fn at_most_one_kill(s: State, events: Seq<Event>)
    ensures
        s.answers(events, Action::Kill) <= 1,
        s.answers(events, Action::Kill) == 1 ==> s.run(events).phase is Killed,
        s.answers(events, Action::Kill) == 1 ==> s.phase is NotStarted || s.phase is Spawned,
    decreases events.len(),
{
    if events.len() > 0 {
        at_most_one_kill(s, events.drop_last());
        phase_order(s, events.drop_last());
    }
}

/// The child is waited for at most once: over any run at most one answer is
/// `Wait`, it is the answer to the first report of a spawn, and a kill is
/// asked for only after it.
pub proof fn at_most_one_wait(s: State, events: Seq<Event>)
    ensures
        s.answers(events, Action::Wait) <= 1,
        s.answers(events, Action::Wait) == 1 ==> s.phase is NotStarted,
        s.answers(events, Action::Wait) == 1 ==> !(s.run(events).phase is NotStarted),
        s.phase is NotStarted && s.answers(events, Action::Wait) == 0
            ==> s.run(events).phase is NotStarted,
        s.phase is NotStarted && s.answers(events, Action::Wait) == 0
            ==> s.answers(events, Action::Kill) == 0,
    decreases events.len(),
{
    if events.len() > 0 {
        at_most_one_wait(s, events.drop_last());
        phase_order(s, events.drop_last());
    }
}

/// The phase only moves forward: `NotStarted`, then `Spawned`, then one of the
/// two terminal phases.
pub proof fn phase_order(s: State, events: Seq<Event>)
    ensures
        s.phase is Spawned ==> !(s.run(events).phase is NotStarted),
        s.phase is Exited ==> s.run(events).phase is Exited,
        s.phase is Killed ==> s.run(events).phase is Killed,
    decreases events.len(),
{
    if events.len() > 0 {
        phase_order(s, events.drop_last());
    }
}

/// A child that ends on its own before any interrupt is never killed:
/// whatever is reported after its exit, no answer is `Kill`.
pub proof fn natural_exit_is_never_killed(s: State, later: Seq<Event>)
    requires
        s.holds_handle(),
    ensures
        s.after(Event::Exited).phase is Exited,
        s.after(Event::Exited).answers(later, Action::Kill) == 0,
        s.after(Event::Exited).run(later).phase is Exited,
{
    at_most_one_kill(s.after(Event::Exited), later);
    phase_order(s.after(Event::Exited), later);
}

} // verus!
