//! The scheduling decisions of the executor.
//!
//! The executor is a loop around three steps that only the board can do:
//! masking interrupts, polling the root task and sleeping. What happens
//! between them is decided here.
use vstd::prelude::*;
use crate::runtime::{CriticalSection, Runtime};

verus! {

/// Where a runtime stands in its life.
#[derive(Clone, Copy, PartialEq, Eq, Debug, Structural)]
pub enum Phase {
    /// Nothing to do until an interrupt raises the readiness flag.
    Idle,
    /// The readiness flag was found raised.
    Ready,
    /// Interrupts are masked and the snapshot is being taken.
    Snapshotting,
    /// The root task is being polled against the snapshot.
    Polling,
    /// The root task has finished. Nothing leaves this phase.
    Shutdown,
}

/// What makes a runtime pass from one phase to the next.
#[derive(Clone, Copy, PartialEq, Eq, Debug, Structural)]
pub enum Event {
    /// The readiness flag was found raised.
    Wake,
    /// Interrupts were masked.
    Mask,
    /// The snapshot was taken and the readiness flag cleared.
    Snapshot,
    /// The root task was polled and is not finished.
    Yield,
    /// The root task was polled and has finished.
    Resolve,
}

/// What the loop around the executor has to do next, after unmasking interrupts.
#[derive(Clone, Copy, PartialEq, Eq, Debug, Structural)]
pub enum Action {
    /// Poll the root task and report the outcome with `Executor::polled`.
    Poll,
    /// Call the runtime's `idle`, then start the next iteration.
    Idle,
    /// Call the runtime's `shutdown`, for ever.
    Shutdown,
}

impl Phase {
    /// The phase that follows `self` on `event`. An event that has no meaning
    /// in a phase leaves the phase as it is.
    pub open spec fn after(self, event: Event) -> Phase {
        match (self, event) {
            (Phase::Idle, Event::Wake) => Phase::Ready,
            (Phase::Ready, Event::Mask) => Phase::Snapshotting,
            (Phase::Snapshotting, Event::Snapshot) => Phase::Polling,
            (Phase::Polling, Event::Yield) => Phase::Idle,
            (Phase::Polling, Event::Resolve) => Phase::Shutdown,
            (phase, _) => phase,
        }
    }

    /// The phase that follows `self` on `event`.
    pub fn next(self, event: Event) -> (phase: Phase)
        ensures
            phase == self.after(event),
    {
        match (self, event) {
            (Phase::Idle, Event::Wake) => Phase::Ready,
            (Phase::Ready, Event::Mask) => Phase::Snapshotting,
            (Phase::Snapshotting, Event::Snapshot) => Phase::Polling,
            (Phase::Polling, Event::Yield) => Phase::Idle,
            (Phase::Polling, Event::Resolve) => Phase::Shutdown,
            (phase, _) => phase,
        }
    }

    /// The phase reached from `self` by the events `events`, first to last.
    pub open spec fn after_all(self, events: Seq<Event>) -> Phase
        decreases events.len(),
    {
        if events.len() == 0 {
            self
        } else {
            self.after_all(events.drop_last()).after(events.last())
        }
    }
}

/// Shutdown is final: no sequence of events leads out of it.
pub proof fn lemma_shutdown_is_terminal(events: Seq<Event>)
    ensures
        Phase::Shutdown.after_all(events) == Phase::Shutdown,
    decreases events.len(),
{
    if events.len() > 0 {
        lemma_shutdown_is_terminal(events.drop_last());
    }
}

/// The root task is polled only against a fresh snapshot: the one way into
/// `Polling` is the end of a snapshot, the one way into `Snapshotting` is
/// masking interrupts after the readiness flag was found raised.
pub proof fn lemma_poll_follows_snapshot(phase: Phase, event: Event)
    ensures
        phase != Phase::Polling && phase.after(event) == Phase::Polling ==> phase
            == Phase::Snapshotting && event == Event::Snapshot,
        phase != Phase::Snapshotting && phase.after(event) == Phase::Snapshotting ==> phase
            == Phase::Ready && event == Event::Mask,
        phase != Phase::Ready && phase.after(event) == Phase::Ready ==> phase == Phase::Idle
            && event == Event::Wake,
{
}

/// The executor's own state: the phase the runtime is in.
pub struct Executor {
    phase: Phase,
}

impl Executor {
    /// The phase the runtime is in.
    pub closed spec fn view(&self) -> Phase {
        self.phase
    }

    /// An executor for a runtime that has not run yet.
    pub fn new() -> (ex: Self)
        ensures
            ex@ == Phase::Idle,
    {
        Executor { phase: Phase::Idle }
    }

    /// The phase the runtime is in.
    pub fn phase(&self) -> (phase: Phase)
        ensures
            phase == self@,
    {
        self.phase
    }

    /// One scheduling decision, taken with interrupts masked.
    ///
    /// If the readiness flag is raised, the runtime takes its snapshot, which
    /// clears the flag, and the root task is to be polled. Because flag and
    /// snapshot are handled under one mask, an interrupt cannot raise the flag
    /// between the two and be lost. If the flag is not raised the runtime is
    /// left as it is and the processor is to sleep. Once the root task has
    /// finished, the answer is `Shutdown` every time.
    pub fn tick<R: Runtime>(&mut self, runtime: &mut R, cs: &CriticalSection) -> (action: Action)
        requires
            old(self)@ == Phase::Idle || old(self)@ == Phase::Shutdown,
        ensures
            old(self)@ == Phase::Shutdown ==> {
                &&& action == Action::Shutdown
                &&& final(self)@ == Phase::Shutdown
                &&& *final(runtime) == *old(runtime)
            },
            old(self)@ == Phase::Idle && old(runtime).ready() ==> {
                &&& action == Action::Poll
                &&& final(self)@ == Phase::Idle.after(Event::Wake).after(Event::Mask).after(
                    Event::Snapshot,
                )
                &&& final(self)@ == Phase::Polling
                &&& !final(runtime).ready()
                &&& exists|rt: &mut R|
                    *rt == *old(runtime) && #[trigger] call_ensures(R::snapshot, (rt, cs), ())
                        && *final(rt) == *final(runtime)
            },
            old(self)@ == Phase::Idle && !old(runtime).ready() ==> {
                &&& action == Action::Idle
                &&& final(self)@ == Phase::Idle
                &&& *final(runtime) == *old(runtime)
            },
    {
        if self.phase == Phase::Shutdown {
            Action::Shutdown
        } else if runtime.is_ready(cs) {
            self.phase = self.phase.next(Event::Wake).next(Event::Mask);
            runtime.snapshot(cs);
            self.phase = self.phase.next(Event::Snapshot);
            Action::Poll
        } else {
            Action::Idle
        }
    }

    /// Takes note of the outcome of polling the root task: `resolved` says
    /// whether it has finished. A finished root task ends the run for good;
    /// otherwise the next iteration starts with `tick`.
    pub fn polled(&mut self, resolved: bool) -> (action: Option<Action>)
        requires
            old(self)@ == Phase::Polling,
        ensures
            resolved ==> final(self)@ == Phase::Shutdown && action == Some(Action::Shutdown),
            !resolved ==> final(self)@ == Phase::Idle && action is None,
            final(self)@ == old(self)@.after(
                if resolved {
                    Event::Resolve
                } else {
                    Event::Yield
                },
            ),
    {
        if resolved {
            self.phase = self.phase.next(Event::Resolve);
            Some(Action::Shutdown)
        } else {
            self.phase = self.phase.next(Event::Yield);
            None
        }
    }

    /// Carries out what `action` asks of the runtime, once: `idle` for
    /// `Action::Idle`, `shutdown` for `Action::Shutdown`, nothing for
    /// `Action::Poll`.
    pub fn rest<R: Runtime>(&self, runtime: &R, action: Action)
        ensures
            action == Action::Idle ==> call_ensures(R::idle, (runtime,), ()),
            action == Action::Shutdown ==> call_ensures(R::shutdown, (runtime,), ()),
    {
        match action {
            Action::Poll => {},
            Action::Idle => runtime.idle(),
            Action::Shutdown => runtime.shutdown(),
        }
    }
}

} // verus!
