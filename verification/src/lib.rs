//! Cooperative task runtime core for single-threaded, interrupt-driven
//! microcontrollers: fixed-capacity queues, a counting semaphore, a mutex, the
//! contract a board runtime has to meet and the scheduling decisions of the
//! executor. Everything is allocation free and every function carries a
//! machine-checked contract.
use vstd::prelude::*;

pub mod executor;
pub mod queue;
pub mod runtime;
pub mod slab;
pub mod snapshot;
pub mod sync;
pub mod task;
pub mod ticker;
pub mod time;
pub mod twi;
pub mod twi2;
pub mod unique_queue;

mod sync_unsafe_cell;

pub use sync_unsafe_cell::SyncUnsafeCell;

verus! {

/// Outcome of polling a suspension-capable operation once.
#[derive(Debug, PartialEq, Eq)]
pub enum Poll<T> {
    /// The operation has finished with this value.
    Ready(T),
    /// The operation could not finish yet and has to be polled again.
    Pending,
}

impl<T> Poll<T> {
    /// Whether the operation has finished.
    pub open spec fn spec_is_ready(&self) -> bool {
        self is Ready
    }

    /// Whether the operation has finished.
    #[verifier::when_used_as_spec(spec_is_ready)]
    pub fn is_ready(&self) -> (r: bool)
        ensures
            r == (self is Ready),
    {
        match self {
            Poll::Ready(_) => true,
            Poll::Pending => false,
        }
    }

    /// Whether the operation has to be polled again.
    pub open spec fn spec_is_pending(&self) -> bool {
        self is Pending
    }

    /// Whether the operation has to be polled again.
    #[verifier::when_used_as_spec(spec_is_pending)]
    pub fn is_pending(&self) -> (r: bool)
        ensures
            r == (self is Pending),
    {
        match self {
            Poll::Ready(_) => false,
            Poll::Pending => true,
        }
    }
}

/// Gives the other tasks a turn: the first poll answers `Pending` and wakes
/// the runtime, so that the tasks are polled again without waiting for an
/// interrupt; every later poll answers `Ready`.
#[derive(Debug)]
pub struct Yield(bool);

impl Yield {
    /// Whether the turn has been given.
    pub closed spec fn yielded(&self) -> bool {
        self.0
    }

    /// A `Yield` that has not given the turn yet.
    pub fn new() -> (y: Self)
        ensures
            !y.yielded(),
    {
        Yield(false)
    }

    /// `Pending` the first time, with the runtime woken; `Ready` from then on.
    pub fn poll<R: runtime::Runtime>(&mut self, runtime: &mut R) -> (r: Poll<()>)
        ensures
            final(self).yielded(),
            old(self).yielded() ==> r is Ready && *final(runtime) == *old(runtime),
            !old(self).yielded() ==> r is Pending && final(runtime).ready(),
    {
        if self.0 {
            Poll::Ready(())
        } else {
            self.0 = true;
            runtime.wake();
            Poll::Pending
        }
    }
}

impl Default for Yield {
    fn default() -> (y: Self)
        ensures
            !y.yielded(),
    {
        Yield::new()
    }
}

/// A `Yield` that has not given the turn yet.
pub fn ayield() -> (y: Yield)
    ensures
        !y.yielded(),
{
    Yield::new()
}

} // verus!
