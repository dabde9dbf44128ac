//! A queue between tasks: putting into an empty queue and taking from a full
//! one wake the runtime, because a task may wait for just that.
use vstd::prelude::*;
use crate::Poll;
use crate::queue::{dequeued, enqueued};
use crate::runtime::Runtime;

verus! {

/// A queue of capacity `N` that wakes the runtime when it stops being empty
/// and when it stops being full.
pub struct Queue<T, const N: usize> {
    inner: crate::queue::Queue<T, N>,
}

/// A value on its way into a queue, polled until the queue has room for it.
pub struct Enqueue<T> {
    v: Option<T>,
}

/// A request for the oldest value of a queue, polled until there is one.
pub struct Dequeue {
    done: bool,
}

impl<T, const N: usize> Queue<T, N> {
    /// The elements held, oldest first.
    pub closed spec fn view(&self) -> Seq<T> {
        self.inner@
    }

    /// The invariant of the representation.
    pub closed spec fn wf(&self) -> bool {
        self.inner.wf()
    }

    /// A well-formed queue never holds more than `N` elements.
    pub proof fn lemma_len_bounded(&self)
        requires
            self.wf(),
        ensures
            self@.len() <= N,
    {
        self.inner.lemma_len_bounded();
    }

    /// An empty queue.
    pub fn new() -> (q: Self)
        ensures
            q.wf(),
            q@ == Seq::<T>::empty(),
    {
        Queue { inner: crate::queue::Queue::new() }
    }

    /// Appends `val` if there is room, and hands it back if there is none.
    /// The runtime is woken if the queue was empty and is not any more.
    pub fn try_enqueue<R: Runtime>(&mut self, val: T, runtime: &mut R) -> (r: Result<(), T>)
        requires
            old(self).wf(),
        ensures
            final(self).wf(),
            (final(self)@, r) == enqueued(old(self)@, N as nat, val),
            r is Err ==> *final(self) == *old(self),
            r is Ok && old(self)@.len() == 0 ==> final(runtime).ready(),
            !(r is Ok && old(self)@.len() == 0) ==> *final(runtime) == *old(runtime),
    {
        let signal = self.inner.is_empty();
        match self.inner.enqueue(val) {
            Ok(()) => {
                if signal {
                    runtime.wake();
                }
                Ok(())
            },
            Err(val) => Err(val),
        }
    }

    /// Removes the oldest element and returns it, if there is one. The
    /// runtime is woken if the queue was full and is not any more.
    pub fn try_dequeue<R: Runtime>(&mut self, runtime: &mut R) -> (r: Option<T>)
        requires
            old(self).wf(),
        ensures
            final(self).wf(),
            (final(self)@, r) == dequeued(old(self)@),
            r is None ==> *final(self) == *old(self),
            r is Some && old(self)@.len() == N ==> final(runtime).ready(),
            !(r is Some && old(self)@.len() == N) ==> *final(runtime) == *old(runtime),
    {
        let signal = self.inner.is_full();
        match self.inner.dequeue() {
            Some(val) => {
                if signal {
                    runtime.wake();
                }
                Some(val)
            },
            None => None,
        }
    }

    /// The value `val` on its way into the queue, to be polled until the
    /// queue has taken it.
    pub fn enqueue(&self, val: T) -> (e: Enqueue<T>)
        ensures
            e@ == Some(val),
    {
        Enqueue::new(val)
    }

    /// A request for the oldest value, to be polled until there is one.
    pub fn dequeue(&self) -> (d: Dequeue)
        ensures
            !d.done(),
    {
        Dequeue::new()
    }
}

impl<T> Enqueue<T> {
    /// The value that is still to be put into the queue; `None` once the
    /// queue has taken it.
    pub closed spec fn view(&self) -> Option<T> {
        self.v
    }

    /// Whether the queue has taken the value.
    pub fn is_done(&self) -> (done: bool)
        ensures
            done == (self@ is None),
    {
        self.v.is_none()
    }

    /// The value `val` on its way into a queue.
    pub fn new(val: T) -> (e: Self)
        ensures
            e@ == Some(val),
    {
        Enqueue { v: Some(val) }
    }

    /// Puts the value into `q` if there is room: the answer is `Ready` then,
    /// and the runtime is woken if the queue was empty. Otherwise the value
    /// is kept and the answer is `Pending`.
    pub fn poll<const N: usize, R: Runtime>(
        &mut self,
        q: &mut Queue<T, N>,
        runtime: &mut R,
    ) -> (r: Poll<()>)
        requires
            old(self)@ is Some,
            old(q).wf(),
        ensures
            final(q).wf(),
            old(q)@.len() < N ==> {
                &&& r is Ready
                &&& final(self)@ is None
                &&& final(q)@ == old(q)@.push(old(self)@->Some_0)
            },
            old(q)@.len() >= N ==> {
                &&& r is Pending
                &&& final(self)@ == old(self)@
                &&& *final(q) == *old(q)
            },
            old(q)@.len() == 0 && 0 < N ==> final(runtime).ready(),
            !(old(q)@.len() == 0 && 0 < N) ==> *final(runtime) == *old(runtime),
    {
        match self.v.take() {
            Some(val) => match q.try_enqueue(val, runtime) {
                Ok(()) => Poll::Ready(()),
                Err(val) => {
                    self.v = Some(val);
                    proof {
                        q.lemma_len_bounded();
                    }
                    Poll::Pending
                },
            },
            None => Poll::Pending,
        }
    }
}

impl Dequeue {
    /// Whether the value has been handed over.
    pub closed spec fn done(&self) -> bool {
        self.done
    }

    /// Whether the value has been handed over.
    pub fn is_done(&self) -> (done: bool)
        ensures
            done == self.done(),
    {
        self.done
    }

    /// A request for the oldest value of a queue.
    pub fn new() -> (d: Self)
        ensures
            !d.done(),
    {
        Dequeue { done: false }
    }

    /// Takes the oldest value of `q` if there is one: the answer is `Ready`
    /// with that value then, and the runtime is woken if the queue was full.
    /// Otherwise the answer is `Pending`.
    pub fn poll<T, const N: usize, R: Runtime>(
        &mut self,
        q: &mut Queue<T, N>,
        runtime: &mut R,
    ) -> (r: Poll<T>)
        requires
            !old(self).done(),
            old(q).wf(),
        ensures
            final(q).wf(),
            old(q)@.len() > 0 ==> {
                &&& r == Poll::Ready(old(q)@[0])
                &&& final(self).done()
                &&& final(q)@ == old(q)@.subrange(1, old(q)@.len() as int)
            },
            old(q)@.len() == 0 ==> {
                &&& r is Pending
                &&& !final(self).done()
                &&& *final(q) == *old(q)
            },
            old(q)@.len() == N && 0 < N ==> final(runtime).ready(),
            !(old(q)@.len() == N && 0 < N) ==> *final(runtime) == *old(runtime),
    {
        match q.try_dequeue(runtime) {
            Some(val) => {
                self.done = true;
                Poll::Ready(val)
            },
            None => Poll::Pending,
        }
    }
}

impl<T, const N: usize> Default for Queue<T, N> {
    fn default() -> (q: Self)
        ensures
            q.wf(),
            q@ == Seq::<T>::empty(),
    {
        Queue::new()
    }
}

} // verus!
