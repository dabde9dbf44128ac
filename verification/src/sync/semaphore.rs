//! Counting semaphore with a first-come first-served queue of waiters.
use vstd::prelude::*;
use crate::Poll;
use crate::runtime::Runtime;
use self::imp::{InnerSemaphore, Request, TryAcquireEnqueue};
use self::model::{SemaphoreState, owed};

pub mod imp;
pub mod ledger;
pub mod model;

pub use self::imp::{SemaphorePermit, TryAcquireError};

verus! {

/// A counting semaphore with room for `N` waiters.
///
/// Permits are taken at once with `try_acquire_many`, or by polling an
/// `Acquire`, which joins the queue of waiters when the permits are not free.
/// Whenever an operation gives a waiter the last permit that it lacked, the
/// runtime is woken, so that the waiter is polled again.
#[derive(Debug)]
pub struct Semaphore<const N: usize> {
    inner: InnerSemaphore<N>,
}

/// How far a request for permits has come.
enum Progress {
    Asking(usize),
    Waiting(TryAcquireEnqueue),
}

/// A request for permits that is polled until it is granted.
pub struct Acquire {
    state: Option<Progress>,
}

/// What an `Acquire` stands for.
pub enum AcquireView {
    /// The request for this many permits has not reached the semaphore yet.
    Asking(nat),
    /// The semaphore has taken note of the request.
    Waiting(Request),
    /// The permits have been handed over.
    Done,
}

impl<const N: usize> Semaphore<N> {
    /// The state of the semaphore.
    pub closed spec fn view(&self) -> SemaphoreState {
        self.inner@
    }

    /// The invariant of the representation; it makes the state well formed.
    pub closed spec fn wf(&self) -> bool {
        self.inner.wf()
    }

    /// What the invariant says of the state.
    pub proof fn lemma_wf(&self)
        requires
            self.wf(),
        ensures
            self@.wf(N as nat),
            self@.locking <= self@.permits,
    {
        self.inner.lemma_wf();
    }

    /// A semaphore of `permits` permits that nobody holds or waits for.
    pub fn new(permits: usize) -> (s: Self)
        ensures
            s.wf(),
            s@ == SemaphoreState::fresh(permits as nat),
    {
        Semaphore { inner: InnerSemaphore::new(permits) }
    }

    /// Adds `n` permits and deals the free permits out to the waiters, first
    /// come, first served. The runtime is woken if a waiter got the last
    /// permit that it lacked.
    pub fn add_permits<R: Runtime>(&mut self, n: usize, runtime: &mut R)
        requires
            old(self).wf(),
            old(self)@.permits + n <= usize::MAX,
        ensures
            final(self).wf(),
            final(self)@ == old(self)@.add_permits(n as nat),
            final(self)@.locking <= final(self)@.permits,
            (SemaphoreState { permits: old(self)@.permits + n as nat, ..old(self)@ }).serves()
                ==> final(runtime).ready(),
            !(SemaphoreState { permits: old(self)@.permits + n as nat, ..old(self)@ }).serves()
                ==> *final(runtime) == *old(runtime),
    {
        if self.inner.add_permits(n) {
            runtime.wake();
        }
    }

    /// Takes `n` permits if so many are free.
    pub fn try_acquire_many(&mut self, n: usize) -> (r: Result<SemaphorePermit, TryAcquireError>)
        requires
            old(self).wf(),
        ensures
            final(self).wf(),
            final(self)@ == old(self)@.acquire(n as nat),
            final(self)@.locking <= final(self)@.permits,
            r is Ok <==> old(self)@.available() >= n,
            r is Ok ==> r->Ok_0.permits() == n,
            r is Err ==> *final(self) == *old(self),
    {
        self.inner.try_acquire(n)
    }

    /// Takes one permit if one is free.
    pub fn try_acquire(&mut self) -> (r: Result<SemaphorePermit, TryAcquireError>)
        requires
            old(self).wf(),
        ensures
            final(self).wf(),
            final(self)@ == old(self)@.acquire(1),
            final(self)@.locking <= final(self)@.permits,
            r is Ok <==> old(self)@.available() >= 1,
            r is Ok ==> r->Ok_0.permits() == 1,
            r is Err ==> *final(self) == *old(self),
    {
        self.try_acquire_many(1)
    }

    /// A request for `n` permits, to be polled until it is granted.
    pub fn acquire_many(&self, n: usize) -> (a: Acquire)
        ensures
            a@ == AcquireView::Asking(n as nat),
    {
        Acquire::new(n)
    }

    /// A request for one permit, to be polled until it is granted.
    pub fn acquire(&self) -> (a: Acquire)
        ensures
            a@ == AcquireView::Asking(1),
    {
        self.acquire_many(1)
    }

    /// Hands the permits of `permit` back and deals the free permits out to
    /// the waiters, first come, first served. The runtime is woken if a
    /// waiter got the last permit that it lacked.
    pub fn release<R: Runtime>(&mut self, permit: SemaphorePermit, runtime: &mut R)
        requires
            old(self).wf(),
            permit.permits() <= old(self)@.locking,
        ensures
            final(self).wf(),
            final(self)@ == old(self)@.release(permit.permits() as nat),
            final(self)@.locking <= final(self)@.permits,
            (SemaphoreState {
                locking: (old(self)@.locking - permit.permits()) as nat,
                ..old(self)@
            }).serves() ==> final(runtime).ready(),
            !(SemaphoreState {
                locking: (old(self)@.locking - permit.permits()) as nat,
                ..old(self)@
            }).serves() ==> *final(runtime) == *old(runtime),
    {
        if permit.release(&mut self.inner) {
            runtime.wake();
        }
    }

    /// The total number of permits.
    pub fn permits(&self) -> (n: usize)
        ensures
            n == self@.permits,
    {
        self.inner.permits()
    }

    /// The number of permits handed out.
    pub fn locking(&self) -> (n: usize)
        ensures
            n == self@.locking,
    {
        self.inner.locking()
    }

    /// The bookkeeping of the semaphore.
    pub fn inner(&mut self) -> (inner: &mut InnerSemaphore<N>)
        ensures
            *inner == old(self).spec_inner(),
            *final(inner) == final(self).spec_inner(),
    {
        &mut self.inner
    }

    /// The bookkeeping of the semaphore.
    pub closed spec fn spec_inner(&self) -> InnerSemaphore<N> {
        self.inner
    }

    /// The semaphore is as well formed as its bookkeeping, and has its state.
    pub proof fn lemma_inner(&self)
        ensures
            self.wf() == self.spec_inner().wf(),
            self@ == self.spec_inner()@,
    {
    }
}

/// Whether giving up the request `request` on a semaphore in state `sem`
/// gives some waiter the last permit that it lacked.
pub open spec fn woken_by_cancel(request: AcquireView, sem: SemaphoreState, cap: nat) -> bool {
    match request {
        AcquireView::Waiting(Request::Granted(n)) => (SemaphoreState {
            locking: (sem.locking - n) as nat,
            ..sem
        }).serves(),
        AcquireView::Waiting(Request::Queued { slot, permits }) => (SemaphoreState {
            locking: (sem.locking - (permits - owed(sem.outstanding(cap, slot)))) as nat,
            ..sem.vacate(cap, sem.position(cap, slot))
        }).serves(),
        _ => false,
    }
}

impl Acquire {
    /// What the request stands for.
    pub closed spec fn view(&self) -> AcquireView {
        match self.state {
            Some(Progress::Asking(n)) => AcquireView::Asking(n as nat),
            Some(Progress::Waiting(request)) => AcquireView::Waiting(request@),
            None => AcquireView::Done,
        }
    }

    /// Whether the request can be polled on a semaphore in state `sem` with
    /// room for `cap` waiters: it has not been granted yet, and a place that
    /// it has in the queue is still taken by it. A request that has not
    /// reached the semaphore yet can always be polled, however many permits
    /// it asks for.
    pub open spec fn valid(&self, sem: SemaphoreState, cap: nat) -> bool {
        match self@ {
            AcquireView::Asking(_) => true,
            AcquireView::Waiting(Request::Granted(n)) => n <= sem.locking,
            AcquireView::Waiting(Request::Queued { slot, permits }) => sem.holds(
                cap,
                slot,
                permits,
            ),
            AcquireView::Done => false,
        }
    }

    fn new(n: usize) -> (a: Self)
        ensures
            a@ == AcquireView::Asking(n as nat),
    {
        Acquire { state: Some(Progress::Asking(n)) }
    }

    /// Whether the request can be polled on `sem`.
    pub fn is_valid<const N: usize>(&self, sem: &Semaphore<N>) -> (b: bool)
        requires
            sem.wf(),
        ensures
            b == self.valid(sem@, N as nat),
    {
        match &self.state {
            Some(Progress::Asking(_)) => true,
            Some(Progress::Waiting(request)) => match request.granted() {
                Some(n) => n <= sem.inner.locking(),
                None => request.is_valid(&sem.inner),
            },
            None => false,
        }
    }

    /// Whether the permits have been handed over.
    pub fn is_done(&self) -> (done: bool)
        ensures
            done == (self@ is Done),
    {
        self.state.is_none()
    }

    /// Tries to make the request come true.
    ///
    /// A request that has not reached the semaphore yet takes its permits if
    /// they are free, and is done. If they are not, it joins the queue of
    /// waiters, or stays as it is where the queue is full. A request that
    /// waits takes its permits once it has been served in full, and leaves
    /// the queue.
    pub fn poll<const N: usize>(&mut self, sem: &mut Semaphore<N>) -> (r: Poll<SemaphorePermit>)
        requires
            old(sem).wf(),
            old(self).valid(old(sem)@, N as nat),
        ensures
            final(sem).wf(),
            final(sem)@.locking <= final(sem)@.permits,
            r is Pending ==> final(self).valid(final(sem)@, N as nat),
            match old(self)@ {
                AcquireView::Asking(n) => if old(sem)@.available() >= n {
                    &&& r is Ready
                    &&& r->Ready_0.permits() == n
                    &&& final(self)@ is Done
                    &&& final(sem)@ == old(sem)@.acquire(n)
                } else if old(sem)@.waiters.len() < N {
                    &&& r is Pending
                    &&& final(sem)@ == old(sem)@.enqueue(N as nat, n)
                    &&& final(self)@ == AcquireView::Waiting(
                        Request::Queued {
                            slot: final(sem)@.slot_of(N as nat, old(sem)@.waiters.len() as int),
                            permits: n,
                        },
                    )
                } else {
                    &&& r is Pending
                    &&& *final(sem) == *old(sem)
                    &&& *final(self) == *old(self)
                },
                AcquireView::Waiting(Request::Granted(n)) => {
                    &&& r is Ready
                    &&& r->Ready_0.permits() == n
                    &&& final(self)@ is Done
                    &&& *final(sem) == *old(sem)
                },
                AcquireView::Waiting(Request::Queued { slot, permits }) => if old(sem)@
                    .outstanding(N as nat, slot) == Some(0nat) {
                    &&& r is Ready
                    &&& r->Ready_0.permits() == permits
                    &&& final(self)@ is Done
                    &&& final(sem)@ == old(sem)@.vacate(
                        N as nat,
                        old(sem)@.position(N as nat, slot),
                    )
                } else {
                    &&& r is Pending
                    &&& *final(sem) == *old(sem)
                    &&& final(self)@ == old(self)@
                },
                AcquireView::Done => false,
            },
    {
        let mut state = self.state.take();
        loop
            invariant
                state is Some,
                self.state is None,
                sem.wf(),
                state matches Some(Progress::Asking(n)) ==> {
                    &&& old(self)@ == AcquireView::Asking(n as nat)
                    &&& *sem == *old(sem)
                },
                state matches Some(Progress::Waiting(request)) ==> {
                    &&& request.valid(&sem.inner)
                    &&& (request@ matches Request::Granted(n) ==> n <= sem@.locking)
                    &&& if old(self)@ is Asking {
                        let n = old(self)@->Asking_0;
                        if old(sem)@.available() >= n {
                            &&& request@ == Request::Granted(n)
                            &&& sem@ == old(sem)@.acquire(n)
                        } else {
                            &&& old(sem)@.waiters.len() < N
                            &&& sem@ == old(sem)@.enqueue(N as nat, n)
                            &&& request@ == (Request::Queued {
                                slot: sem@.slot_of(N as nat, old(sem)@.waiters.len() as int),
                                permits: n,
                            })
                            &&& sem@.outstanding(
                                N as nat,
                                sem@.slot_of(N as nat, old(sem)@.waiters.len() as int),
                            ) == Some(n)
                        }
                    } else {
                        &&& old(self)@ == AcquireView::Waiting(request@)
                        &&& *sem == *old(sem)
                    }
                },
            decreases
                    (if state matches Some(Progress::Asking(_)) {
                        1nat
                    } else {
                        0nat
                    }),
        {
            match state {
                Some(Progress::Asking(n)) => {
                    match sem.inner.try_acquire_enqueue(n) {
                        Some(request) => {
                            proof {
                                if old(sem)@.available() < n {
                                    let after = sem@;
                                    let len = old(sem)@.waiters.len() as int;
                                    assert(after.position(N as nat, after.slot_of(N as nat, len))
                                        == len);
                                }
                            }
                            state = Some(Progress::Waiting(request));
                        },
                        None => {
                            self.state = Some(Progress::Asking(n));
                            proof {
                                sem.lemma_wf();
                            }
                            return Poll::Pending;
                        },
                    }
                },
                Some(Progress::Waiting(request)) => {
                    match request.try_lock(&mut sem.inner) {
                        Ok(permit) => {
                            proof {
                                sem.lemma_wf();
                            }
                            return Poll::Ready(permit);
                        },
                        Err(request) => {
                            self.state = Some(Progress::Waiting(request));
                            proof {
                                sem.lemma_wf();
                            }
                            return Poll::Pending;
                        },
                    }
                },
                None => {
                    return Poll::Pending;
                },
            }
        }
    }

    /// Gives the request up: a place in the queue is given up together with
    /// what the waiter had been given so far, and the permits handed back
    /// are dealt out to the other waiters. The runtime is woken if a waiter
    /// got the last permit that it lacked.
    pub fn cancel<const N: usize, R: Runtime>(self, sem: &mut Semaphore<N>, runtime: &mut R)
        requires
            old(sem).wf(),
            self@ is Done || self.valid(old(sem)@, N as nat),
        ensures
            final(sem).wf(),
            final(sem)@.locking <= final(sem)@.permits,
            final(sem)@ == (match self@ {
                AcquireView::Waiting(Request::Granted(n)) => old(sem)@.release(n),
                AcquireView::Waiting(Request::Queued { slot, permits }) => old(sem)@.cancel(
                    N as nat,
                    old(sem)@.position(N as nat, slot),
                    permits,
                ),
                _ => old(sem)@,
            }),
            self@ is Asking || self@ is Done ==> *final(runtime) == *old(runtime) && *final(sem)
                == *old(sem),
            woken_by_cancel(self@, old(sem)@, N as nat) ==> final(runtime).ready(),
            !woken_by_cancel(self@, old(sem)@, N as nat) ==> *final(runtime) == *old(runtime),
    {
        match self.state {
            Some(Progress::Waiting(request)) => {
                if request.cancel(&mut sem.inner) {
                    runtime.wake();
                }
            },
            _ => {
                proof {
                    sem.lemma_wf();
                }
            },
        }
    }
}

} // verus!
