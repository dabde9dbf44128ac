//! The semaphore's bookkeeping: permits, and a ring of waiter descriptors.
use vstd::prelude::*;
use crate::queue::{ring_len, ring_slot};
use super::model::{
    SemaphoreState, demand, lemma_progress_all, lemma_progress_until, owed, settled,
};

verus! {

/// The permits asked for are not free at the moment.
#[derive(Debug, PartialEq, Eq)]
pub struct TryAcquireError;

/// Permits, the number of them handed out, and a ring of up to `N` waiter
/// descriptors. A descriptor holds what its waiter still lacks; every pass
/// that deals out free permits lowers it, and the waiter is served when it
/// has come down to zero.
#[derive(Debug)]
pub struct InnerSemaphore<const N: usize> {
    permits: usize,
    locking: usize,
    bounds: Option<(usize, usize)>,
    buffer: [Option<usize>; N],
}

/// A number of permits held. They go back to the semaphore with `release`,
/// or stay handed out for good with `forget`.
#[derive(Debug)]
pub struct SemaphorePermit {
    permits: usize,
}

/// A place in a semaphore's queue of waiters.
#[derive(Debug)]
pub struct EnqueuedLock {
    slot: usize,
    permits: usize,
}

/// What a request for permits has led to.
#[derive(Debug)]
enum Stage {
    Granted(SemaphorePermit),
    Queued(EnqueuedLock),
}

/// A request for permits that the semaphore has taken note of: it was either
/// granted at once or has a place in the queue.
#[derive(Debug)]
pub struct TryAcquireEnqueue {
    state: Stage,
}

/// What a `TryAcquireEnqueue` stands for.
pub enum Request {
    /// The permits have been granted; this many.
    Granted(nat),
    /// The request waits in slot `slot` for `permits` permits.
    Queued { slot: nat, permits: nat },
}

impl SemaphorePermit {
    /// The number of permits held.
    pub closed spec fn spec_permits(&self) -> usize {
        self.permits
    }

    /// The number of permits held.
    #[verifier::when_used_as_spec(spec_permits)]
    pub fn permits(&self) -> (n: usize)
        ensures
            n == self.permits(),
    {
        self.permits
    }

    /// Hands the permits back to `sem`, which deals them out to its waiters.
    /// The answer says whether some waiter has thereby been served in full.
    pub fn release<const N: usize>(self, sem: &mut InnerSemaphore<N>) -> (served: bool)
        requires
            old(sem).wf(),
            self.permits() <= old(sem)@.locking,
        ensures
            final(sem).wf(),
            final(sem)@ == old(sem)@.release(self.permits() as nat),
            served == (SemaphoreState {
                locking: (old(sem)@.locking - self.permits()) as nat,
                ..old(sem)@
            }).serves(),
            final(sem)@.locking <= final(sem)@.permits,
    {
        sem.release(self.permits)
    }

    /// Gives the permits up without handing them back: they stay handed out
    /// for good.
    pub fn forget(self) {
    }
}

impl EnqueuedLock {
    /// The slot of the waiter's descriptor.
    pub closed spec fn slot(&self) -> nat {
        self.slot as nat
    }

    /// The number of permits asked for.
    pub closed spec fn permits(&self) -> nat {
        self.permits as nat
    }

    /// Takes the permits if the waiter has been served in full; the waiter
    /// then leaves the queue. Otherwise the place in the queue is kept.
    pub fn try_lock<const N: usize>(self, sem: &mut InnerSemaphore<N>) -> (r: Result<
        SemaphorePermit,
        EnqueuedLock,
    >)
        requires
            old(sem).wf(),
            old(sem).holds(&self),
        ensures
            final(sem).wf(),
            old(sem).outstanding(&self) == Some(0nat) ==> {
                &&& r is Ok
                &&& r->Ok_0.permits() == self.permits()
                &&& final(sem)@ == old(sem)@.vacate(N as nat, old(sem).position(&self))
            },
            old(sem).outstanding(&self) != Some(0nat) ==> {
                &&& r is Err
                &&& r->Err_0 == self
                &&& *final(sem) == *old(sem)
            },
    {
        proof {
            sem.lemma_slot_of_holder(&self);
        }
        match sem.buffer[self.slot] {
            Some(0) => {
                sem.vacate(self.slot);
                Ok(SemaphorePermit { permits: self.permits })
            },
            _ => Err(self),
        }
    }

    /// Gives the place in the queue up and hands back what the waiter had
    /// been given so far; the permits handed back are dealt out to the other
    /// waiters. The answer says whether some waiter has thereby been served
    /// in full.
    pub fn cancel<const N: usize>(self, sem: &mut InnerSemaphore<N>) -> (served: bool)
        requires
            old(sem).wf(),
            old(sem).holds(&self),
        ensures
            final(sem).wf(),
            final(sem)@ == old(sem)@.cancel(
                N as nat,
                old(sem).position(&self),
                self.permits(),
            ),
            served == (SemaphoreState {
                locking: (old(sem)@.locking - (self.permits() - owed(
                    old(sem).outstanding(&self),
                ))) as nat,
                ..old(sem)@.vacate(N as nat, old(sem).position(&self))
            }).serves(),
            final(sem)@.locking <= final(sem)@.permits,
    {
        proof {
            sem.lemma_slot_of_holder(&self);
        }
        match sem.buffer[self.slot] {
            Some(d) => {
                let given = self.permits - d;
                sem.vacate(self.slot);
                sem.release(given)
            },
            None => false,
        }
    }
}

impl TryAcquireEnqueue {
    /// What the request stands for.
    pub closed spec fn view(&self) -> Request {
        match self.state {
            Stage::Granted(permit) => Request::Granted(permit.permits as nat),
            Stage::Queued(lock) => Request::Queued {
                slot: lock.slot as nat,
                permits: lock.permits as nat,
            },
        }
    }

    fn from_permit(p: SemaphorePermit) -> (r: Self)
        ensures
            r@ == Request::Granted(p.permits as nat),
    {
        TryAcquireEnqueue { state: Stage::Granted(p) }
    }

    fn from_enqued_lock(p: EnqueuedLock) -> (r: Self)
        ensures
            r@ == (Request::Queued { slot: p.slot(), permits: p.permits() }),
    {
        TryAcquireEnqueue { state: Stage::Queued(p) }
    }

    /// Whether the request is one that `sem` can be asked about: it was
    /// granted, or its place in the queue of `sem` is still taken by it.
    pub open spec fn valid<const N: usize>(&self, sem: &InnerSemaphore<N>) -> bool {
        match self@ {
            Request::Granted(_) => true,
            Request::Queued { slot, permits } => sem@.holds(N as nat, slot, permits),
        }
    }

    /// Whether the request is one that `sem` can be asked about.
    pub fn is_valid<const N: usize>(&self, sem: &InnerSemaphore<N>) -> (b: bool)
        requires
            sem.wf(),
        ensures
            b == self.valid(sem),
    {
        match &self.state {
            Stage::Granted(_) => true,
            Stage::Queued(lock) => sem.is_holder(lock),
        }
    }

    /// The number of permits that were granted at once, if any were.
    pub fn granted(&self) -> (n: Option<usize>)
        ensures
            match self@ {
                Request::Granted(permits) => n == Some(permits as usize) && n->Some_0 == permits,
                Request::Queued { .. } => n is None,
            },
    {
        match &self.state {
            Stage::Granted(permit) => Some(permit.permits),
            Stage::Queued(_) => None,
        }
    }

    /// Takes the permits if they were granted at once or if the waiter has
    /// been served in full since; otherwise the request stays as it is.
    pub fn try_lock<const N: usize>(self, sem: &mut InnerSemaphore<N>) -> (r: Result<
        SemaphorePermit,
        TryAcquireEnqueue,
    >)
        requires
            old(sem).wf(),
            self.valid(old(sem)),
        ensures
            final(sem).wf(),
            match self@ {
                Request::Granted(n) => {
                    &&& r is Ok
                    &&& r->Ok_0.permits() == n
                    &&& *final(sem) == *old(sem)
                },
                Request::Queued { slot, permits } => if old(sem)@.outstanding(N as nat, slot)
                    == Some(0nat) {
                    &&& r is Ok
                    &&& r->Ok_0.permits() == permits
                    &&& final(sem)@ == old(sem)@.vacate(
                        N as nat,
                        old(sem)@.position(N as nat, slot),
                    )
                } else {
                    &&& r is Err
                    &&& r->Err_0 == self
                    &&& *final(sem) == *old(sem)
                },
            },
    {
        match self.state {
            Stage::Granted(p) => Ok(p),
            Stage::Queued(q) => match q.try_lock(sem) {
                Ok(p) => Ok(p),
                Err(q) => Err(Self::from_enqued_lock(q)),
            },
        }
    }

    /// Gives the request up: permits that were granted go back to the
    /// semaphore, a place in the queue is given up together with what the
    /// waiter had been given so far. The answer says whether some waiter has
    /// thereby been served in full.
    pub fn cancel<const N: usize>(self, sem: &mut InnerSemaphore<N>) -> (served: bool)
        requires
            old(sem).wf(),
            self.valid(old(sem)),
            self@ matches Request::Granted(n) ==> n <= old(sem)@.locking,
        ensures
            final(sem).wf(),
            final(sem)@ == (match self@ {
                Request::Granted(n) => old(sem)@.release(n),
                Request::Queued { slot, permits } => old(sem)@.cancel(
                    N as nat,
                    old(sem)@.position(N as nat, slot),
                    permits,
                ),
            }),
            served == (match self@ {
                Request::Granted(n) => (SemaphoreState {
                    locking: (old(sem)@.locking - n) as nat,
                    ..old(sem)@
                }).serves(),
                Request::Queued { slot, permits } => (SemaphoreState {
                    locking: (old(sem)@.locking - (permits - owed(
                        old(sem)@.outstanding(N as nat, slot),
                    ))) as nat,
                    ..old(sem)@.vacate(N as nat, old(sem)@.position(N as nat, slot))
                }).serves(),
            }),
            final(sem)@.locking <= final(sem)@.permits,
    {
        match self.state {
            Stage::Granted(p) => p.release(sem),
            Stage::Queued(q) => q.cancel(sem),
        }
    }
}

impl<const N: usize> InnerSemaphore<N> {
    /// Number of descriptors in the ring.
    closed spec fn count(&self) -> int {
        match self.bounds {
            Some((head, tail)) => ring_len(N as int, head as int, tail as int),
            None => 0,
        }
    }

    /// Slot of the oldest descriptor (0 when there is none).
    closed spec fn head(&self) -> int {
        match self.bounds {
            Some((head, _)) => head as int,
            None => 0,
        }
    }

    /// The `i`-th descriptor, oldest first.
    closed spec fn waiter(&self, i: int) -> Option<nat> {
        match self.buffer@[ring_slot(N as int, self.head(), i)] {
            Some(d) => Some(d as nat),
            None => None,
        }
    }

    /// The state of the semaphore.
    pub closed spec fn view(&self) -> SemaphoreState {
        SemaphoreState {
            permits: self.permits as nat,
            locking: self.locking as nat,
            head: self.head() as nat,
            waiters: Seq::new(self.count() as nat, |i: int| self.waiter(i)),
        }
    }

    /// What holds of the representation at every moment.
    closed spec fn inv(&self) -> bool {
        &&& self.locking <= self.permits
        &&& match self.bounds {
            Some((head, tail)) => head < N && tail < N,
            None => true,
        }
    }

    /// The invariant of the representation; it makes the state well formed.
    pub closed spec fn wf(&self) -> bool {
        &&& self.inv()
        &&& self@.wf(N as nat)
    }

    /// What the invariant says of the state.
    pub proof fn lemma_wf(&self)
        requires
            self.wf(),
        ensures
            self@.wf(N as nat),
            self@.locking <= self@.permits,
            self@.waiters.len() <= N,
    {
    }

    /// The place in the queue of the waiter that holds `lock`.
    pub open spec fn position(&self, lock: &EnqueuedLock) -> int {
        self@.position(N as nat, lock.slot())
    }

    /// What the waiter that holds `lock` still lacks; `None` where `lock`
    /// does not stand for a waiter of this semaphore.
    pub open spec fn outstanding(&self, lock: &EnqueuedLock) -> Option<nat> {
        self@.outstanding(N as nat, lock.slot())
    }

    /// Whether `lock` stands for a waiter of this semaphore.
    pub open spec fn holds(&self, lock: &EnqueuedLock) -> bool {
        self@.holds(N as nat, lock.slot(), lock.permits())
    }

    /// The descriptor of a waiter is found in the slot that its lock names.
    proof fn lemma_slot_of_holder(&self, lock: &EnqueuedLock)
        requires
            self.wf(),
            self.holds(lock),
        ensures
            lock.slot < N,
            0 <= self.position(lock) < self.count(),
            ring_slot(N as int, self.head(), self.position(lock)) == lock.slot,
            self.buffer@[lock.slot as int] is Some,
            self.outstanding(lock) == Some(self.buffer@[lock.slot as int]->Some_0 as nat),
            self.buffer@[lock.slot as int]->Some_0 <= lock.permits,
            lock.permits - self.buffer@[lock.slot as int]->Some_0 <= self.locking,
    {
        let p = self.position(lock);
        assert(self@.waiters[p] == self.waiter(p));
    }

    /// Whether `lock` stands for a waiter of this semaphore.
    pub fn is_holder(&self, lock: &EnqueuedLock) -> (b: bool)
        requires
            self.wf(),
        ensures
            b == self.holds(lock),
    {
        match self.bounds {
            Some((head, tail)) => {
                if lock.slot >= N {
                    return false;
                }
                let inside = if head <= tail {
                    head <= lock.slot && lock.slot <= tail
                } else {
                    lock.slot >= head || lock.slot <= tail
                };
                proof {
                    let p = self.position(lock);
                    if inside {
                        assert(0 <= p < self.count());
                        assert(ring_slot(N as int, self.head(), p) == lock.slot);
                        assert(self@.waiters[p] == self.waiter(p));
                    }
                }
                if inside {
                    match self.buffer[lock.slot] {
                        Some(d) => d <= lock.permits && lock.permits - d <= self.locking,
                        None => false,
                    }
                } else {
                    false
                }
            },
            None => false,
        }
    }

    /// A semaphore of `permits` permits that nobody holds or waits for.
    pub fn new(permits: usize) -> (s: Self)
        ensures
            s.wf(),
            s@ == SemaphoreState::fresh(permits as nat),
    {
        let s = InnerSemaphore { permits, locking: 0, bounds: None, buffer: [None;N] };
        assert(s@.waiters =~= Seq::empty());
        s
    }

    /// Adds `n` permits and deals the free permits out to the waiters. The
    /// answer says whether some waiter has thereby been served in full.
    pub fn add_permits(&mut self, n: usize) -> (served: bool)
        requires
            old(self).wf(),
            old(self)@.permits + n <= usize::MAX,
        ensures
            final(self).wf(),
            final(self)@ == old(self)@.add_permits(n as nat),
            served == (SemaphoreState {
                permits: old(self)@.permits + n as nat,
                ..old(self)@
            }).serves(),
            final(self)@.locking <= final(self)@.permits,
    {
        self.permits = self.permits + n;
        assert(self@.waiters =~= old(self)@.waiters);
        self.progress_queue()
    }

    /// The number of descriptors in the queue, those of waiters that have
    /// left but whose slot has not been reclaimed yet among them.
    pub fn len(&self) -> (n: usize)
        requires
            self.wf(),
        ensures
            n == self@.waiters.len(),
            n <= N,
    {
        match self.bounds {
            Some((head, tail)) => {
                if head <= tail {
                    tail - head + 1
                } else {
                    tail + (N - head) + 1
                }
            },
            None => 0,
        }
    }

    /// The number of free permits.
    pub fn available(&self) -> (n: usize)
        requires
            self.wf(),
        ensures
            n == self@.available(),
    {
        self.permits - self.locking
    }

    /// The total number of permits.
    pub fn permits(&self) -> (n: usize)
        ensures
            n == self@.permits,
    {
        self.permits
    }

    /// The number of permits handed out.
    pub fn locking(&self) -> (n: usize)
        ensures
            n == self@.locking,
    {
        self.locking
    }

    /// Takes `perms` permits if so many are free; if not, joins the queue of
    /// waiters if there is room. `None` says that neither was possible.
    pub fn try_acquire_enqueue(&mut self, perms: usize) -> (r: Option<TryAcquireEnqueue>)
        requires
            old(self).wf(),
        ensures
            final(self).wf(),
            final(self)@.locking <= final(self)@.permits,
            old(self)@.available() >= perms ==> {
                &&& r is Some
                &&& r->Some_0@ == Request::Granted(perms as nat)
                &&& final(self)@ == old(self)@.acquire(perms as nat)
            },
            old(self)@.available() < perms && old(self)@.waiters.len() < N ==> {
                &&& r is Some
                &&& r->Some_0@ == (Request::Queued {
                    slot: final(self)@.slot_of(N as nat, old(self)@.waiters.len() as int),
                    permits: perms as nat,
                })
                &&& final(self)@ == old(self)@.enqueue(N as nat, perms as nat)
            },
            old(self)@.available() < perms && old(self)@.waiters.len() >= N ==> {
                &&& r is None
                &&& *final(self) == *old(self)
            },
            r is Some ==> r->Some_0.valid(final(self)),
    {
        match self.try_acquire(perms) {
            Ok(p) => Some(TryAcquireEnqueue::from_permit(p)),
            Err(_) => match self.try_enqueue(perms) {
                Some(lock) => Some(TryAcquireEnqueue::from_enqued_lock(lock)),
                None => None,
            },
        }
    }

    /// Takes `perms` permits if so many are free.
    pub fn try_acquire(&mut self, perms: usize) -> (r: Result<SemaphorePermit, TryAcquireError>)
        requires
            old(self).wf(),
        ensures
            final(self).wf(),
            final(self)@ == old(self)@.acquire(perms as nat),
            final(self)@.locking <= final(self)@.permits,
            r is Ok <==> old(self)@.available() >= perms,
            r is Ok ==> r->Ok_0.permits() == perms,
            r is Err ==> *final(self) == *old(self),
    {
        let avail = self.permits - self.locking;
        if avail >= perms {
            self.locking += perms;
            assert(self@.waiters =~= old(self)@.waiters);
            Ok(SemaphorePermit { permits: perms })
        } else {
            Err(TryAcquireError)
        }
    }

    fn try_enqueue(&mut self, perms: usize) -> (r: Option<EnqueuedLock>)
        requires
            old(self).wf(),
        ensures
            final(self).wf(),
            old(self)@.waiters.len() < N ==> {
                &&& r is Some
                &&& r->Some_0.slot() == final(self)@.slot_of(
                    N as nat,
                    old(self)@.waiters.len() as int,
                )
                &&& r->Some_0.permits() == perms
                &&& final(self)@ == old(self)@.enqueue(N as nat, perms as nat)
                &&& final(self).holds(&r->Some_0)
            },
            old(self)@.waiters.len() >= N ==> r is None && *final(self) == *old(self),
    {
        self.inner_enqueue(perms)
    }

    fn inner_enqueue(&mut self, perms: usize) -> (r: Option<EnqueuedLock>)
        requires
            old(self).wf(),
        ensures
            final(self).wf(),
            old(self)@.waiters.len() < N ==> {
                &&& r is Some
                &&& r->Some_0.slot() == final(self)@.slot_of(
                    N as nat,
                    old(self)@.waiters.len() as int,
                )
                &&& r->Some_0.permits() == perms
                &&& final(self)@ == old(self)@.enqueue(N as nat, perms as nat)
                &&& final(self).holds(&r->Some_0)
            },
            old(self)@.waiters.len() >= N ==> r is None && *final(self) == *old(self),
    {
        let next = match self.bounds {
            Some((head, tail)) => {
                let next_tail = Self::inc(tail);
                if head == next_tail {
                    None
                } else {
                    Some((head, next_tail))
                }
            },
            None => if N == 0 {
                None
            } else {
                Some((0, 0))
            },
        };
        match next {
            Some((head, tail)) => {
                self.bounds = Some((head, tail));
                self.buffer[tail] = Some(perms);
                let lock = EnqueuedLock { slot: tail, permits: perms };
                proof {
                    let before = *old(self);
                    let after = *self;
                    let n = before.count();
                    assert(after.count() == n + 1);
                    assert(ring_slot(N as int, head as int, n) == tail);
                    assert forall|i: int| 0 <= i < n implies #[trigger] after.waiter(i)
                        == before.waiter(i) by {
                        let s = ring_slot(N as int, head as int, i);
                        assert(s != tail);
                        assert(after.buffer@[s] == before.buffer@[s]);
                    }
                    assert(after.waiter(n) == Some(perms as nat));
                    assert(after@.waiters =~= before@.waiters.push(Some(perms as nat)));
                    assert(before@.waiters.len() > 0 ==> after@.waiters[0] == before@.waiters[0]);
                    assert(after@.position(N as nat, tail as nat) == n);
                    assert(after@.waiters[n] == Some(perms as nat));
                }
                Some(lock)
            },
            None => None,
        }
    }

    /// The slot after `val`, wrapping round at the end of the ring.
    fn inc(val: usize) -> (next: usize)
        requires
            val < N,
        ensures
            next == ring_slot(N as int, val as int, 1),
            next < N,
    {
        proof {
            if val + 1 < N {
                vstd::arithmetic::div_mod::lemma_small_mod((val + 1) as nat, N as nat);
            } else {
                vstd::arithmetic::div_mod::lemma_mod_self_0(N as int);
            }
        }
        (val + 1) % N
    }

    /// Marks the descriptor in `slot` as left and reclaims what can be
    /// reclaimed.
    fn vacate(&mut self, slot: usize)
        requires
            old(self).wf(),
            slot < N,
            0 <= old(self)@.position(N as nat, slot as nat) < old(self)@.waiters.len(),
        ensures
            final(self).wf(),
            final(self)@ == old(self)@.vacate(N as nat, old(self)@.position(N as nat, slot as nat)),
            final(self)@.locking == old(self)@.locking,
            final(self)@.permits == old(self)@.permits,
    {
        self.buffer[slot] = None;
        proof {
            let before = *old(self);
            let after = *self;
            let p = before@.position(N as nat, slot as nat);
            assert(ring_slot(N as int, before.head(), p) == slot);
            assert forall|i: int| 0 <= i < before.count() && i != p implies #[trigger] after.waiter(
                i,
            ) == before.waiter(i) by {
                let s = ring_slot(N as int, before.head(), i);
                assert(s != slot);
                assert(after.buffer@[s] == before.buffer@[s]);
            }
            assert(after.waiter(p) == None::<nat>);
            assert(after@.waiters =~= before@.waiters.update(p, None));
        }
        self.signal_descriptor();
    }

    /// Reclaims, from the front of the ring, the slots of waiters that have left.
    fn signal_descriptor(&mut self)
        requires
            old(self).inv(),
            old(self)@.waiters.len() <= N,
        ensures
            final(self).wf(),
            final(self)@ == old(self)@.trim(N as nat),
            final(self)@.locking == old(self)@.locking,
            final(self)@.permits == old(self)@.permits,
    {
        loop
            invariant
                self.inv(),
                self@.trim(N as nat) == old(self)@.trim(N as nat),
                self.locking == old(self).locking,
                self.permits == old(self).permits,
            ensures
                self.wf(),
                self@ == old(self)@.trim(N as nat),
                self.locking == old(self).locking,
                self.permits == old(self).permits,
            decreases self.count(),
        {
            match self.bounds {
                Some((head, tail)) => {
                    assert(self@.waiters[0] == self.waiter(0));
                    if self.buffer[head].is_none() {
                        let ghost before = *self;
                        if head == tail {
                            self.bounds = None;
                        } else {
                            self.bounds = Some((Self::inc(head), tail));
                        }
                        proof {
                            let after = *self;
                            assert(after.count() == before.count() - 1);
                            assert forall|i: int|
                                0 <= i < after.count() implies #[trigger] after.waiter(i)
                                == before.waiter(i + 1) by {
                                assert(ring_slot(N as int, after.head(), i) == ring_slot(
                                    N as int,
                                    before.head(),
                                    i + 1,
                                ));
                            }
                            assert(after@.waiters =~= before@.waiters.subrange(
                                1,
                                before@.waiters.len() as int,
                            ));
                            assert(after@.head == (if before@.waiters.len() == 1 {
                                0nat
                            } else {
                                before@.slot_of(N as nat, 1)
                            }));
                        }
                    } else {
                        break ;
                    }
                },
                None => {
                    assert(self@.waiters.len() == 0);
                    break ;
                },
            }
        }
    }

    /// Hands `permits` permits back and deals the free permits out to the
    /// waiters. The answer says whether some waiter has thereby been served
    /// in full.
    pub fn release(&mut self, permits: usize) -> (served: bool)
        requires
            old(self).wf(),
            permits <= old(self)@.locking,
        ensures
            final(self).wf(),
            final(self)@ == old(self)@.release(permits as nat),
            served == (SemaphoreState {
                locking: (old(self)@.locking - permits) as nat,
                ..old(self)@
            }).serves(),
            final(self)@.locking <= final(self)@.permits,
    {
        self.locking -= permits;
        assert(self@.waiters =~= old(self)@.waiters);
        self.progress_queue()
    }

    /// Deals the free permits out to the waiters, oldest first: each waiter
    /// in turn gets what it lacks, or all that is left. The answer says
    /// whether some waiter got the last permit that it lacked.
    fn progress_queue(&mut self) -> (served: bool)
        requires
            old(self).wf(),
        ensures
            final(self).wf(),
            final(self)@ == old(self)@.progress(),
            served == old(self)@.serves(),
    {
        let len = self.len();
        let ghost start = self@;
        let ghost w = start.waiters;
        if len == 0 {
            proof {
                lemma_progress_all(start);
                assert(start.progress().waiters =~= start.waiters);
            }
            return false;
        }
        let head = match self.bounds {
            Some((head, _)) => head,
            None => 0,
        };
        let mut served = false;
        let mut i: usize = 0;
        while i < len
            invariant
                i <= len,
                len == w.len(),
                0 < len <= N,
                head == start.head,
                head < N,
                self.inv(),
                self.count() == len,
                self.head() == head,
                self.permits == start.permits,
                start.wf(N as nat),
                start == old(self)@,
                w == start.waiters,
                demand(w, i as int) <= start.available(),
                self.locking == start.locking + demand(w, i as int),
                forall|j: int| 0 <= j < i ==> #[trigger] self.waiter(j) == settled(w[j]),
                forall|j: int| i <= j < len ==> #[trigger] self.waiter(j) == w[j],
                served <==> exists|j: int| 0 <= j < i && owed(#[trigger] w[j]) > 0,
            decreases len - i,
        {
            let idx = if i < N - head {
                head + i
            } else {
                i - (N - head)
            };
            assert(idx == ring_slot(N as int, head as int, i as int));
            assert(self.waiter(i as int) == w[i as int]);
            assert(demand(w, i + 1) == demand(w, i as int) + owed(w[i as int]));
            let ghost before = *self;
            match self.buffer[idx] {
                Some(task) => {
                    let remaining = self.permits - self.locking;
                    if remaining <= task {
                        self.buffer[idx] = Some(task - remaining);
                        self.locking = self.permits;
                        let hit = task > 0 && remaining == task;
                        proof {
                            let after = *self;
                            after.lemma_slot_written(before, idx, i as int);
                            lemma_progress_until(start, i as int);
                            assert forall|j: int| 0 <= j < len implies #[trigger] after@.waiters[j]
                                == start.progress().waiters[j] by {
                                assert(after@.waiters[j] == after.waiter(j));
                                if j != i {
                                    assert(after.waiter(j) == before.waiter(j));
                                }
                            }
                            assert(after@.waiters =~= start.progress().waiters);
                        }
                        return served || hit;
                    } else {
                        self.locking += task;
                        self.buffer[idx] = Some(0);
                        proof {
                            let after = *self;
                            after.lemma_slot_written(before, idx, i as int);
                            if task > 0 {
                                assert(0 <= i < i + 1 && owed(w[i as int]) > 0);
                            }
                        }
                        if task > 0 {
                            served = true;
                        }
                    }
                },
                None => {},
            }
            i += 1;
        }
        proof {
            let after = *self;
            lemma_progress_all(start);
            assert forall|j: int| 0 <= j < len implies #[trigger] after@.waiters[j]
                == start.progress().waiters[j] by {
                assert(after@.waiters[j] == after.waiter(j));
            }
            assert(after@.waiters =~= start.progress().waiters);
        }
        served
    }

    /// Writing one slot of the ring changes the descriptor at one place.
    proof fn lemma_slot_written(&self, before: Self, slot: usize, p: int)
        requires
            before.inv(),
            before.count() <= N,
            0 <= p < before.count(),
            slot == ring_slot(N as int, before.head(), p),
            self.bounds == before.bounds,
            self.buffer@ == before.buffer@.update(slot as int, self.buffer@[slot as int]),
        ensures
            forall|j: int|
                0 <= j < before.count() && j != p ==> #[trigger] self.waiter(j) == before.waiter(j),
            self.waiter(p) == (match self.buffer@[slot as int] {
                Some(d) => Some(d as nat),
                None => None,
            }),
    {
        assert forall|j: int| 0 <= j < before.count() && j != p implies #[trigger] self.waiter(j)
            == before.waiter(j) by {
            let s = ring_slot(N as int, before.head(), j);
            assert(s != slot);
            assert(self.buffer@[s] == before.buffer@[s]);
        }
    }
}

} // verus!
