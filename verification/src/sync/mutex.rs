//! Mutual exclusion between tasks, in two forms: a mutex built on a semaphore
//! of one permit, and a lighter one that keeps the identifier of the task
//! that owns it and a queue of the identifiers of the tasks that wait.
use vstd::prelude::*;
use crate::Poll;
use crate::queue::Queue;
use crate::runtime::Runtime;
use super::semaphore::{Acquire, AcquireView, Semaphore, woken_by_cancel};
use super::semaphore::imp::Request;
use super::semaphore::model::SemaphoreState;

verus! {

/// The mutex is held by somebody else.
#[derive(Debug, PartialEq, Eq)]
pub struct TryLockError;

/// A value guarded by a semaphore of one permit, with room for `N` waiters.
pub struct Mutex<T, const N: usize> {
    lock: Semaphore<N>,
    value: T,
}

/// Proof of holding a `Mutex`. The value is reached through it, and the
/// mutex is given up by handing it to `Mutex::unlock`.
pub struct MutexGuard {
    _private: (),
}

/// Proof of holding a `Mutex`, narrowed to a part of the value: the part
/// that the projection `f` picks.
pub struct MappedMutexGuard<F> {
    f: F,
}

/// A request for a `Mutex`, polled until the mutex is held.
pub struct Lock {
    acquire: Acquire,
}

impl<T, const N: usize> Mutex<T, N> {
    /// The state of the semaphore that guards the value.
    pub closed spec fn semaphore(&self) -> SemaphoreState {
        self.lock@
    }

    /// The value guarded.
    pub closed spec fn value(&self) -> T {
        self.value
    }

    /// The invariant of the representation: the semaphore is well formed and
    /// has one permit.
    pub closed spec fn wf(&self) -> bool {
        &&& self.lock.wf()
        &&& self.lock@.permits == 1
    }

    /// Whether the mutex is held, by a guard or by a waiter that has been
    /// served and has not taken its guard yet.
    pub open spec fn locked(&self) -> bool {
        self.semaphore().locking == 1
    }

    /// What the invariant says of the semaphore.
    pub proof fn lemma_wf(&self)
        requires
            self.wf(),
        ensures
            self.semaphore().wf(N as nat),
            self.semaphore().permits == 1,
            self.semaphore().locking <= 1,
    {
        self.lock.lemma_wf();
    }

    /// Whether the mutex is held.
    pub fn is_locked(&self) -> (b: bool)
        requires
            self.wf(),
        ensures
            b == self.locked(),
    {
        proof {
            self.lock.lemma_wf();
        }
        self.lock.locking() == 1
    }

    /// A mutex around `initial` that nobody holds.
    pub fn new(initial: T) -> (m: Self)
        ensures
            m.wf(),
            m.value() == initial,
            m.semaphore() == SemaphoreState::fresh(1),
    {
        Mutex { lock: Semaphore::new(1), value: initial }
    }

    /// A request for the mutex, to be polled until the mutex is held.
    pub fn lock(&self) -> (l: Lock)
        ensures
            l@ == AcquireView::Asking(1),
    {
        Lock::new(self)
    }

    /// Takes the mutex if nobody holds it. A mutex that is held answers with
    /// an error and stays as it is; nobody joins the queue of waiters.
    pub fn try_lock(&mut self) -> (r: Result<MutexGuard, TryLockError>)
        requires
            old(self).wf(),
        ensures
            final(self).wf(),
            final(self).value() == old(self).value(),
            r is Ok <==> !old(self).locked(),
            r is Ok ==> final(self).semaphore() == old(self).semaphore().acquire(1)
                && final(self).locked(),
            r is Err ==> *final(self) == *old(self),
    {
        proof {
            self.lock.lemma_wf();
        }
        match self.lock.try_acquire() {
            Ok(permit) => {
                permit.forget();
                Ok(MutexGuard { _private: () })
            },
            Err(_) => Err(TryLockError),
        }
    }

    /// The value, for the holder of the mutex to read.
    pub fn get(&self, guard: &MutexGuard) -> (value: &T)
        ensures
            *value == self.value(),
    {
        &self.value
    }

    /// The value, for the holder of the mutex to change.
    pub fn get_mut(&mut self, guard: &mut MutexGuard) -> (value: &mut T)
        ensures
            *value == old(self).value(),
            final(self).value() == *final(value),
            final(self).semaphore() == old(self).semaphore(),
            final(self).wf() == old(self).wf(),
    {
        &mut self.value
    }

    /// Gives the mutex up that a narrowed guard holds, as `unlock` does.
    pub fn unlock_mapped<F, R: Runtime>(&mut self, guard: MappedMutexGuard<F>, runtime: &mut R)
        requires
            old(self).wf(),
            old(self).locked(),
        ensures
            final(self).wf(),
            final(self).value() == old(self).value(),
            final(self).semaphore() == old(self).semaphore().release(1),
            (SemaphoreState { locking: 0, ..old(self).semaphore() }).serves()
                ==> final(runtime).ready(),
            !(SemaphoreState { locking: 0, ..old(self).semaphore() }).serves() ==> *final(runtime)
                == *old(runtime),
    {
        self.unlock(MutexGuard { _private: () }, runtime)
    }

    /// Gives the mutex up. If somebody waits for it, the first waiter in the
    /// queue that lacks the permit gets it and the runtime is woken; if
    /// nobody does, the mutex is free.
    pub fn unlock<R: Runtime>(&mut self, guard: MutexGuard, runtime: &mut R)
        requires
            old(self).wf(),
            old(self).locked(),
        ensures
            final(self).wf(),
            final(self).value() == old(self).value(),
            final(self).semaphore() == old(self).semaphore().release(1),
            (SemaphoreState { locking: 0, ..old(self).semaphore() }).serves()
                ==> final(runtime).ready(),
            !(SemaphoreState { locking: 0, ..old(self).semaphore() }).serves() ==> *final(runtime)
                == *old(runtime),
    {
        proof {
            self.lock.lemma_inner();
            self.lock.lemma_wf();
            crate::sync::semaphore::model::lemma_progress_wf(
                SemaphoreState { locking: 0, ..self.lock@ },
                N as nat,
            );
        }
        if self.lock.inner().release(1) {
            runtime.wake();
        }
        proof {
            self.lock.lemma_inner();
        }
    }
}

impl MutexGuard {
    /// Narrows the guard to the part of the value that `f` picks.
    pub fn map<F>(this: Self, f: F) -> (mapped: MappedMutexGuard<F>)
        ensures
            mapped.projection() == f,
    {
        MappedMutexGuard { f }
    }
}

impl<F> MappedMutexGuard<F> {
    /// The projection that picks the part of the value.
    pub closed spec fn projection(&self) -> F {
        self.f
    }

    /// The part of the value of `mutex` that the guard gives access to.
    pub fn get_mut<'a, T, U, const N: usize>(&self, mutex: &'a mut Mutex<T, N>) -> (part:
        &'a mut U) where F: Fn(&'a mut T) -> &'a mut U
        requires
            forall|value: &mut T| call_requires(self.projection(), (value,)),
        ensures
            final(mutex).semaphore() == old(mutex).semaphore(),
            final(mutex).wf() == old(mutex).wf(),
            exists|value: &mut T|
                {
                    &&& *value == old(mutex).value()
                    &&& #[trigger] call_ensures(self.projection(), (value,), part)
                    &&& final(mutex).value() == *final(value)
                },
    {
        proof {
            assert(self.projection() == self.f);
        }
        let value = &mut mutex.value;
        proof {
            assert(call_requires(self.projection(), (value,)));
        }
        (self.f)(value)
    }
}

impl Lock {
    /// What the request stands for.
    pub closed spec fn view(&self) -> AcquireView {
        self.acquire@
    }

    /// Whether the request can be polled on a mutex whose semaphore is in
    /// state `sem` and has room for `cap` waiters.
    pub open spec fn valid(&self, sem: SemaphoreState, cap: nat) -> bool {
        match self@ {
            AcquireView::Asking(_) => true,
            AcquireView::Waiting(Request::Granted(n)) => n <= sem.locking,
            AcquireView::Waiting(Request::Queued { slot, permits }) => sem.holds(
                cap,
                slot,
                permits,
            ),
            AcquireView::Done => false,
        }
    }

    /// Whether the mutex has been handed over.
    pub fn is_done(&self) -> (done: bool)
        ensures
            done == (self@ is Done),
    {
        self.acquire.is_done()
    }

    /// Whether the request can be polled on `mutex`.
    pub fn is_valid<T, const N: usize>(&self, mutex: &Mutex<T, N>) -> (b: bool)
        requires
            mutex.wf(),
        ensures
            b == self.valid(mutex.semaphore(), N as nat),
    {
        self.acquire.is_valid(&mutex.lock)
    }

    /// A request for `mutex`.
    pub fn new<T, const N: usize>(mutex: &Mutex<T, N>) -> (l: Self)
        ensures
            l@ == AcquireView::Asking(1),
    {
        Lock { acquire: mutex.lock.acquire() }
    }

    /// Tries to take the mutex.
    ///
    /// A request that has not reached the mutex yet takes it if it is free.
    /// If it is not, the request joins the queue of waiters, or stays as it
    /// is where the queue is full. A request that waits takes the mutex once
    /// it has been served, and leaves the queue.
    pub fn poll<T, const N: usize>(&mut self, mutex: &mut Mutex<T, N>) -> (r: Poll<MutexGuard>)
        requires
            old(mutex).wf(),
            old(self).valid(old(mutex).semaphore(), N as nat),
        ensures
            final(mutex).wf(),
            final(mutex).value() == old(mutex).value(),
            r is Pending ==> final(self).valid(final(mutex).semaphore(), N as nat),
            r is Ready ==> final(self)@ is Done,
            match old(self)@ {
                AcquireView::Asking(n) => if old(mutex).semaphore().available() >= n {
                    &&& r is Ready
                    &&& final(mutex).semaphore() == old(mutex).semaphore().acquire(n)
                } else if old(mutex).semaphore().waiters.len() < N {
                    &&& r is Pending
                    &&& final(mutex).semaphore() == old(mutex).semaphore().enqueue(N as nat, n)
                    &&& final(self)@ == AcquireView::Waiting(
                        Request::Queued {
                            slot: final(mutex).semaphore().slot_of(
                                N as nat,
                                old(mutex).semaphore().waiters.len() as int,
                            ),
                            permits: n,
                        },
                    )
                } else {
                    &&& r is Pending
                    &&& *final(mutex) == *old(mutex)
                    &&& *final(self) == *old(self)
                },
                AcquireView::Waiting(Request::Granted(n)) => {
                    &&& r is Ready
                    &&& *final(mutex) == *old(mutex)
                },
                AcquireView::Waiting(Request::Queued { slot, permits }) => if old(mutex)
                    .semaphore().outstanding(N as nat, slot) == Some(0nat) {
                    &&& r is Ready
                    &&& final(mutex).semaphore() == old(mutex).semaphore().vacate(
                        N as nat,
                        old(mutex).semaphore().position(N as nat, slot),
                    )
                } else {
                    &&& r is Pending
                    &&& *final(mutex) == *old(mutex)
                    &&& final(self)@ == old(self)@
                },
                AcquireView::Done => false,
            },
    {
        let ghost before = mutex.semaphore();
        let r = match self.acquire.poll(&mut mutex.lock) {
            Poll::Pending => Poll::Pending,
            Poll::Ready(permit) => {
                permit.forget();
                Poll::Ready(MutexGuard { _private: () })
            },
        };
        proof {
            old(mutex).lock.lemma_wf();
            if let AcquireView::Waiting(Request::Queued { slot, permits }) = old(self)@ {
                if before.outstanding(N as nat, slot) == Some(0nat) {
                    crate::sync::semaphore::model::lemma_locking_bounded(
                        before,
                        N as nat,
                        0,
                        before.position(N as nat, slot),
                        0,
                    );
                    crate::sync::semaphore::model::lemma_trim(
                        SemaphoreState {
                            waiters: before.waiters.update(before.position(N as nat, slot), None),
                            ..before
                        },
                        N as nat,
                    );
                }
            }
        }
        r
    }

    /// Gives the request up: a place in the queue is given up, and a permit
    /// that the waiter had been given goes to the next waiter. The runtime
    /// is woken if a waiter is thereby served.
    pub fn cancel<T, const N: usize, R: Runtime>(self, mutex: &mut Mutex<T, N>, runtime: &mut R)
        requires
            old(mutex).wf(),
            self@ is Done || self.valid(old(mutex).semaphore(), N as nat),
        ensures
            final(mutex).wf(),
            final(mutex).value() == old(mutex).value(),
            final(mutex).semaphore() == (match self@ {
                AcquireView::Waiting(Request::Granted(n)) => old(mutex).semaphore().release(n),
                AcquireView::Waiting(Request::Queued { slot, permits }) => old(mutex)
                    .semaphore().cancel(
                    N as nat,
                    old(mutex).semaphore().position(N as nat, slot),
                    permits,
                ),
                _ => old(mutex).semaphore(),
            }),
            woken_by_cancel(self@, old(mutex).semaphore(), N as nat) ==> final(runtime).ready(),
            !woken_by_cancel(self@, old(mutex).semaphore(), N as nat) ==> *final(runtime)
                == *old(runtime),
    {
        let ghost before = mutex.semaphore();
        self.acquire.cancel(&mut mutex.lock, runtime);
        proof {
            old(mutex).lock.lemma_wf();
            match self@ {
                AcquireView::Waiting(Request::Granted(n)) => {
                    crate::sync::semaphore::model::lemma_progress_wf(
                        SemaphoreState { locking: (before.locking - n) as nat, ..before },
                        N as nat,
                    );
                },
                AcquireView::Waiting(Request::Queued { slot, permits }) => {
                    let p = before.position(N as nat, slot);
                    crate::sync::semaphore::model::lemma_trim(
                        SemaphoreState { waiters: before.waiters.update(p, None), ..before },
                        N as nat,
                    );
                    let left = before.vacate(N as nat, p);
                    crate::sync::semaphore::model::lemma_progress_wf(
                        SemaphoreState {
                            locking: (left.locking - (permits - crate::sync::semaphore::model::owed(
                                before.waiters[p],
                            ))) as nat,
                            ..left
                        },
                        N as nat,
                    );
                },
                _ => {},
            }
        }
    }
}

/// A value guarded by the identifier of the task that owns it, with a queue
/// of the identifiers of up to `N` tasks that wait for it. A task holds the
/// mutex while its identifier is the owner; giving the mutex up makes the
/// task that has waited longest the owner.
pub struct TaskMutex<T, const N: usize> {
    owner: Option<usize>,
    waiters: Queue<usize, N>,
    value: T,
}

/// Proof of holding a `TaskMutex`.
pub struct TaskMutexGuard {
    task: usize,
}

/// A request of a task for a `TaskMutex`, polled until the task owns it.
pub struct TaskLock {
    task: usize,
    queued: bool,
}

/// The identifiers in `queue` but `task`, in their order.
pub open spec fn without(queue: Seq<usize>, task: usize) -> Seq<usize>
    decreases queue.len(),
{
    if queue.len() == 0 {
        queue
    } else if queue.last() == task {
        without(queue.drop_last(), task)
    } else {
        without(queue.drop_last(), task).push(queue.last())
    }
}

impl TaskMutexGuard {
    /// The task that holds the mutex.
    pub closed spec fn task(&self) -> usize {
        self.task
    }

    /// The task that holds the mutex.
    pub fn id(&self) -> (task: usize)
        ensures
            task == self.task(),
    {
        self.task
    }
}

impl<T, const N: usize> TaskMutex<T, N> {
    /// The task that holds the mutex, if one does.
    pub closed spec fn owner(&self) -> Option<usize> {
        self.owner
    }

    /// The tasks that wait for the mutex, the one that has waited longest first.
    pub closed spec fn queue(&self) -> Seq<usize> {
        self.waiters@
    }

    /// The value guarded.
    pub closed spec fn value(&self) -> T {
        self.value
    }

    /// The invariant of the representation: nobody waits for a mutex that
    /// nobody holds.
    pub closed spec fn wf(&self) -> bool {
        &&& self.waiters.wf()
        &&& self.owner is None ==> self.waiters@.len() == 0
    }

    /// What the invariant says.
    pub proof fn lemma_wf(&self)
        requires
            self.wf(),
        ensures
            self.queue().len() <= N,
            self.owner() is None ==> self.queue().len() == 0,
    {
        self.waiters.lemma_len_bounded();
    }

    /// The task that holds the mutex, if one does.
    pub fn holder(&self) -> (owner: Option<usize>)
        ensures
            owner == self.owner(),
    {
        self.owner
    }

    /// A mutex around `initial` that nobody holds.
    pub fn new(initial: T) -> (m: Self)
        ensures
            m.wf(),
            m.owner() is None,
            m.queue() == Seq::<usize>::empty(),
            m.value() == initial,
    {
        TaskMutex { owner: None, waiters: Queue::new(), value: initial }
    }

    /// A request of `task` for the mutex, to be polled until it owns it.
    pub fn lock(&self, task: usize) -> (l: TaskLock)
        ensures
            l.task() == task,
            !l.queued(),
    {
        TaskLock { task, queued: false }
    }

    /// Makes `task` the owner if nobody holds the mutex. A mutex that is held
    /// answers with an error and stays as it is; `task` does not join the
    /// queue.
    pub fn try_lock(&mut self, task: usize) -> (r: Result<TaskMutexGuard, TryLockError>)
        requires
            old(self).wf(),
        ensures
            final(self).wf(),
            final(self).value() == old(self).value(),
            final(self).queue() == old(self).queue(),
            r is Ok <==> old(self).owner() is None,
            r is Ok ==> final(self).owner() == Some(task) && r->Ok_0.task() == task,
            r is Err ==> *final(self) == *old(self),
    {
        if self.owner.is_none() {
            self.owner = Some(task);
            Ok(TaskMutexGuard { task })
        } else {
            Err(TryLockError)
        }
    }

    /// The value, for the holder of the mutex to read.
    pub fn get(&self, guard: &TaskMutexGuard) -> (value: &T)
        ensures
            *value == self.value(),
    {
        &self.value
    }

    /// The value, for the holder of the mutex to change.
    pub fn get_mut(&mut self, guard: &mut TaskMutexGuard) -> (value: &mut T)
        ensures
            *value == old(self).value(),
            final(self).value() == *final(value),
            final(self).owner() == old(self).owner(),
            final(self).queue() == old(self).queue(),
            final(self).wf() == old(self).wf(),
    {
        &mut self.value
    }

    /// Gives the mutex up. The task that has waited longest becomes the
    /// owner and the runtime is woken; if nobody waits, nobody owns the mutex.
    pub fn unlock<R: Runtime>(&mut self, guard: TaskMutexGuard, runtime: &mut R)
        requires
            old(self).wf(),
            old(self).owner() == Some(guard.task()),
        ensures
            final(self).wf(),
            final(self).value() == old(self).value(),
            old(self).queue().len() > 0 ==> {
                &&& final(self).owner() == Some(old(self).queue()[0])
                &&& final(self).queue() == old(self).queue().subrange(
                    1,
                    old(self).queue().len() as int,
                )
                &&& final(runtime).ready()
            },
            old(self).queue().len() == 0 ==> {
                &&& final(self).owner() is None
                &&& final(self).queue() == old(self).queue()
                &&& *final(runtime) == *old(runtime)
            },
    {
        self.owner = self.waiters.dequeue();
        if self.owner.is_some() {
            runtime.wake();
        }
    }

    /// Takes `task` out of the queue of waiters.
    fn leave(&mut self, task: usize)
        requires
            old(self).wf(),
            old(self).owner() is Some,
        ensures
            final(self).wf(),
            final(self).owner() == old(self).owner(),
            final(self).value() == old(self).value(),
            final(self).queue() == without(old(self).queue(), task),
    {
        let len = self.waiters.len();
        let ghost start = self.waiters@;
        let mut i: usize = 0;
        proof {
            assert(start.subrange(0, len as int) =~= start);
            assert(self.waiters@ =~= start.subrange(0, len as int) + without(
                start.subrange(0, 0),
                task,
            ));
        }
        while i < len
            invariant
                i <= len,
                len == start.len(),
                len <= N,
                self.waiters.wf(),
                self.owner == old(self).owner,
                self.value == old(self).value,
                self.waiters@ == start.subrange(i as int, len as int) + without(
                    start.subrange(0, i as int),
                    task,
                ),
                without(start.subrange(0, i as int), task).len() <= i,
            decreases len - i,
        {
            proof {
                let front = start.subrange(0, i + 1);
                assert(front.drop_last() =~= start.subrange(0, i as int));
                assert(front.last() == start[i as int]);
            }
            match self.waiters.dequeue() {
                Some(id) => {
                    assert(id == start[i as int]);
                    if id != task {
                        let r = self.waiters.enqueue(id);
                        assert(r is Ok);
                    }
                    assert(self.waiters@ =~= start.subrange(i + 1, len as int) + without(
                        start.subrange(0, i + 1),
                        task,
                    ));
                },
                None => {},
            }
            i += 1;
        }
        proof {
            assert(start.subrange(0, len as int) =~= start);
            assert(self.waiters@ =~= without(start, task));
        }
    }
}

impl TaskLock {
    /// The task that asks for the mutex.
    pub closed spec fn task(&self) -> usize {
        self.task
    }

    /// Whether the task has joined the queue of waiters.
    pub closed spec fn queued(&self) -> bool {
        self.queued
    }

    /// Tries to make the task the owner of `mutex`.
    ///
    /// A task that has not joined the queue takes a mutex that nobody holds;
    /// if somebody holds it, the task joins the queue, or stays as it is
    /// where the queue is full. A task that has joined the queue holds the
    /// mutex as soon as it is the owner.
    pub fn poll<T, const N: usize>(&mut self, mutex: &mut TaskMutex<T, N>) -> (r: Poll<
        TaskMutexGuard,
    >)
        requires
            old(mutex).wf(),
        ensures
            final(mutex).wf(),
            final(mutex).value() == old(mutex).value(),
            final(self).task() == old(self).task(),
            r is Ready ==> r->Ready_0.task() == old(self).task() && final(mutex).owner() == Some(
                old(self).task(),
            ),
            if old(self).queued() {
                &&& *final(mutex) == *old(mutex)
                &&& *final(self) == *old(self)
                &&& r is Ready <==> old(mutex).owner() == Some(old(self).task())
            } else if old(mutex).owner() is None {
                &&& r is Ready
                &&& final(mutex).owner() == Some(old(self).task())
                &&& final(mutex).queue() == old(mutex).queue()
                &&& !final(self).queued()
            } else if old(mutex).queue().len() < N {
                &&& r is Pending
                &&& final(mutex).owner() == old(mutex).owner()
                &&& final(mutex).queue() == old(mutex).queue().push(old(self).task())
                &&& final(self).queued()
            } else {
                &&& r is Pending
                &&& *final(mutex) == *old(mutex)
                &&& *final(self) == *old(self)
            },
    {
        if self.queued {
            match mutex.owner {
                Some(owner) => if owner == self.task {
                    Poll::Ready(TaskMutexGuard { task: self.task })
                } else {
                    Poll::Pending
                },
                None => Poll::Pending,
            }
        } else if mutex.owner.is_none() {
            mutex.owner = Some(self.task);
            Poll::Ready(TaskMutexGuard { task: self.task })
        } else {
            match mutex.waiters.enqueue(self.task) {
                Ok(()) => {
                    self.queued = true;
                    Poll::Pending
                },
                Err(_) => {
                    proof {
                        mutex.waiters.lemma_len_bounded();
                    }
                    Poll::Pending
                },
            }
        }
    }

    /// Gives the request up. A task that waits leaves the queue; a task that
    /// has become the owner without having taken its guard gives the mutex
    /// up, as `unlock` does.
    pub fn cancel<T, const N: usize, R: Runtime>(
        self,
        mutex: &mut TaskMutex<T, N>,
        runtime: &mut R,
    )
        requires
            old(mutex).wf(),
        ensures
            final(mutex).wf(),
            final(mutex).value() == old(mutex).value(),
            !self.queued() ==> *final(mutex) == *old(mutex) && *final(runtime) == *old(runtime),
            self.queued() && old(mutex).owner() == Some(self.task()) ==> {
                &&& final(mutex).owner() == (if old(mutex).queue().len() > 0 {
                    Some(old(mutex).queue()[0])
                } else {
                    None
                })
                &&& final(mutex).queue() == (if old(mutex).queue().len() > 0 {
                    old(mutex).queue().subrange(1, old(mutex).queue().len() as int)
                } else {
                    old(mutex).queue()
                })
            },
            self.queued() && old(mutex).owner() != Some(self.task()) && old(mutex).owner()
                is Some ==> {
                &&& final(mutex).owner() == old(mutex).owner()
                &&& final(mutex).queue() == without(old(mutex).queue(), self.task())
                &&& *final(runtime) == *old(runtime)
            },
    {
        if self.queued {
            match mutex.owner {
                Some(owner) => if owner == self.task {
                    mutex.unlock(TaskMutexGuard { task: self.task }, runtime);
                } else {
                    mutex.leave(self.task);
                },
                None => {},
            }
        }
    }
}

impl<T: Default, const N: usize> Default for Mutex<T, N> {
    fn default() -> (m: Self)
        ensures
            m.wf(),
            m.semaphore() == SemaphoreState::fresh(1),
            T::default.ensures((), m.value()),
    {
        Mutex::new(T::default())
    }
}

impl<T, const N: usize> From<T> for Mutex<T, N> {
    fn from(t: T) -> (m: Self)
        ensures
            m.wf(),
            m.value() == t,
            m.semaphore() == SemaphoreState::fresh(1),
    {
        Mutex::new(t)
    }
}

impl<T, const N: usize> vstd::std_specs::convert::FromSpecImpl<T> for Mutex<T, N> {
    open spec fn obeys_from_spec() -> bool {
        false
    }

    closed spec fn from_spec(t: T) -> Self {
        arbitrary()
    }
}

} // verus!
