//! The contract between the scheduling core and the board it runs on.
use vstd::prelude::*;

verus! {

/// Token that stands for a critical section: a stretch of code during which
/// interrupts are masked. Functions that must only run inside a critical
/// section ask for a reference to one.
pub struct CriticalSection {
    _private: (),
}

impl CriticalSection {
    /// A token for the critical section the caller is in.
    ///
    /// To be called only while interrupts are masked: by an interrupt handler,
    /// or by foreground code between masking and unmasking.
    pub fn new() -> (cs: Self) {
        CriticalSection { _private: () }
    }
}

/// A value with a readiness flag.
pub trait Ready {
    /// The readiness flag: whether something happened that the tasks have not
    /// been polled for yet.
    spec fn ready(&self) -> bool;

    /// Reads the readiness flag.
    fn is_ready(&self, cs: &CriticalSection) -> (r: bool)
        ensures
            r == self.ready(),
    ;
}

/// Storage that is reserved once and turned into the handles that own it.
pub trait Memory: Sized {
    /// The reserved storage, not yet handed out.
    type Slab;

    /// Reserves the storage.
    fn reserve() -> Self::Slab;

    /// Turns reserved storage into the handles that own it.
    fn from_ptr(mem: Self::Slab) -> Self;
}

/// What a board has to provide to have tasks run on it.
///
/// Interrupt handlers change the state that the runtime owns and raise its
/// readiness flag; the executor reads the flag, has the runtime take a
/// snapshot of that state while interrupts are masked, and polls the tasks
/// against the snapshot.
pub trait Runtime: Ready + Sized {
    /// The storage the runtime is built on.
    type Memory: Memory;

    /// What the root task is started with.
    type Arguments;

    /// Builds the runtime on its storage, with interrupts masked.
    fn new(mem: Self::Memory, cs: &CriticalSection) -> (Self, Self::Arguments);

    /// Sets the hardware up, with interrupts masked. Does nothing unless the
    /// board has something to set up.
    fn init(&mut self, cs: &CriticalSection) {
    }

    /// The part of the runtime in the handler of interrupt `vector`. Runs
    /// with interrupts masked. Does nothing unless the board takes part in
    /// that interrupt.
    fn interrupt(&mut self, vector: usize, cs: &CriticalSection) {
    }

    /// Moves what interrupt handlers wrote into the form that tasks read, and
    /// clears the readiness flag. Runs with interrupts masked.
    fn snapshot(&mut self, cs: &CriticalSection)
        ensures
            !final(self).ready(),
    ;

    /// Puts the processor to sleep until the next interrupt.
    fn idle(&self);

    /// Raises the readiness flag. Needs no critical section.
    fn wake(&mut self)
        ensures
            final(self).ready(),
    ;

    /// Parks the processor for good; only a reset leaves this state.
    fn shutdown(&self);
}

} // verus!
