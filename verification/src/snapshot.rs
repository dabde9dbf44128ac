//! A runtime made of a readiness flag and a state that interrupt handlers
//! write and tasks read.
use vstd::prelude::*;
use crate::runtime::{CriticalSection, Memory, Ready};

verus! {

/// State that interrupt handlers write and tasks read. Tasks see what the
/// last snapshot has put in place for them.
pub trait State {
    /// Moves what interrupt handlers wrote into the form that tasks read.
    /// Runs with interrupts masked.
    fn snapshot(&mut self, cs: &CriticalSection);
}

/// A state with its readiness flag.
pub struct Runtime<S: State> {
    ready: bool,
    state: S,
}

impl<S: State> Runtime<S> {
    /// The readiness flag.
    pub closed spec fn flag(&self) -> bool {
        self.ready
    }

    /// The state.
    pub closed spec fn view(&self) -> S {
        self.state
    }

    /// The runtime around `state` whose readiness flag is down.
    pub closed spec fn at_rest(state: S) -> Self {
        Runtime { ready: false, state }
    }

    /// The runtime at rest has its readiness flag down and holds its state.
    pub proof fn lemma_at_rest(state: S)
        ensures
            !Self::at_rest(state).flag(),
            Self::at_rest(state)@ == state,
    {
    }

    /// A runtime around `state` whose readiness flag is down.
    pub fn new(state: S) -> (runtime: Self)
        ensures
            !runtime.flag(),
            runtime@ == state,
            runtime == Self::at_rest(state),
    {
        Runtime { ready: false, state }
    }

    /// Lets an interrupt handler change the state: `f` changes it and says
    /// whether the change makes progress possible, and the readiness flag is
    /// raised if it does. A flag that is raised stays raised.
    pub fn modify<F: Fn(&mut S) -> bool>(&mut self, cs: &CriticalSection, f: F)
        requires
            forall|s: &mut S| *s == old(self)@ ==> f.requires((s,)),
        ensures
            exists|s: &mut S, progress: bool|
                {
                    &&& *s == old(self)@
                    &&& #[trigger] f.ensures((s,), progress)
                    &&& final(self)@ == *final(s)
                    &&& final(self).flag() == (old(self).flag() || progress)
                },
    {
        if f(&mut self.state) {
            self.ready = true;
        }
    }

    /// Reads the readiness flag.
    pub fn is_ready(&self) -> (r: bool)
        ensures
            r == self.flag(),
    {
        self.ready
    }

    /// Clears the readiness flag, then has the state take its snapshot. Runs
    /// with interrupts masked, so that no interrupt can raise the flag
    /// between the two.
    pub fn snapshot(&mut self, cs: &CriticalSection)
        ensures
            !final(self).flag(),
            exists|s: &mut S|
                {
                    &&& *s == old(self)@
                    &&& #[trigger] call_ensures(S::snapshot, (s, cs), ())
                    &&& final(self)@ == *final(s)
                },
    {
        self.ready = false;
        self.state.snapshot(cs)
    }

    /// The state, to be read.
    pub fn state(&self) -> (state: &S)
        ensures
            *state == self@,
    {
        &self.state
    }

    /// Raises the readiness flag.
    pub fn wake(&mut self)
        ensures
            final(self).flag(),
            final(self)@ == old(self)@,
    {
        self.ready = true;
    }
}

impl<S: State> Ready for Runtime<S> {
    open spec fn ready(&self) -> bool {
        self.flag()
    }

    fn is_ready(&self, cs: &CriticalSection) -> (r: bool) {
        self.ready
    }
}

impl<S: State + Memory> crate::runtime::Runtime for Runtime<S> {
    type Memory = S;

    type Arguments = ();

    fn new(mem: S, cs: &CriticalSection) -> (Runtime<S>, ())
        returns
            (Runtime::<S>::at_rest(mem), ()),
    {
        (Runtime { ready: false, state: mem }, ())
    }

    fn snapshot(&mut self, cs: &CriticalSection) {
        Runtime::snapshot(self, cs)
    }

    /// Returns at once: this runtime has no way of sleeping.
    fn idle(&self) {
    }

    fn wake(&mut self)
        ensures
            final(self)@ == old(self)@,
    {
        Runtime::wake(self)
    }

    /// Returns at once: this runtime has no way of parking the processor.
    fn shutdown(&self) {
    }
}

} // verus!
