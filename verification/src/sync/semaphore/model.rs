//! The semaphore as a mathematical object: its state, what each operation
//! does to it, and the laws that follow.
use vstd::prelude::*;

verus! {

/// State of a semaphore.
pub struct SemaphoreState {
    /// Total number of permits.
    pub permits: nat,
    /// Number of permits handed out, to holders and to waiters.
    pub locking: nat,
    /// Slot of the oldest waiter (0 while nobody waits).
    pub head: nat,
    /// The waiters, oldest first. `Some(d)` is a waiter that still lacks `d`
    /// permits; `None` is a waiter that has left and whose slot has not been
    /// reclaimed yet.
    pub waiters: Seq<Option<nat>>,
}

/// The number of permits that a waiter still lacks.
pub open spec fn owed(waiter: Option<nat>) -> nat {
    match waiter {
        Some(d) => d,
        None => 0,
    }
}

/// The number of permits that the first `i` waiters lack together.
pub open spec fn demand(waiters: Seq<Option<nat>>, i: int) -> nat
    decreases i,
{
    if i <= 0 {
        0
    } else {
        demand(waiters, i - 1) + owed(waiters[i - 1])
    }
}

/// The number of permits that waiter `i` receives when `avail` free permits
/// are dealt out first come, first served: what is left once all waiters in
/// front of it have been served in full, up to what it lacks.
pub open spec fn grant(avail: nat, waiters: Seq<Option<nat>>, i: int) -> nat {
    let before = demand(waiters, i);
    if avail <= before {
        0
    } else if avail - before >= owed(waiters[i]) {
        owed(waiters[i])
    } else {
        (avail - before) as nat
    }
}

/// The smaller of two numbers.
pub open spec fn least(a: nat, b: nat) -> nat {
    if a <= b {
        a
    } else {
        b
    }
}

impl SemaphoreState {
    /// A semaphore of `permits` permits that nobody holds or waits for.
    pub open spec fn fresh(permits: nat) -> Self {
        SemaphoreState { permits, locking: 0, head: 0, waiters: Seq::empty() }
    }

    /// The number of free permits.
    pub open spec fn available(self) -> nat {
        (self.permits - self.locking) as nat
    }

    /// What holds of every semaphore with room for `cap` waiters: no more
    /// permits are handed out than there are, the waiters fit, and the oldest
    /// waiter has not left.
    pub open spec fn wf(self, cap: nat) -> bool {
        &&& self.locking <= self.permits
        &&& self.waiters.len() <= cap
        &&& self.waiters.len() > 0 ==> self.head < cap && self.waiters[0] is Some
        &&& self.waiters.len() == 0 ==> self.head == 0
    }

    /// The slot of waiter `i`.
    pub open spec fn slot_of(self, cap: nat, i: int) -> nat {
        if self.head + i < cap {
            (self.head + i) as nat
        } else {
            (self.head + i - cap) as nat
        }
    }

    /// The place in the queue of the waiter in slot `slot`.
    pub open spec fn position(self, cap: nat, slot: nat) -> int {
        if slot >= self.head {
            slot - self.head
        } else {
            slot + cap - self.head
        }
    }

    /// What the waiter in slot `slot` still lacks; `None` where no waiter
    /// stands in that slot.
    pub open spec fn outstanding(self, cap: nat, slot: nat) -> Option<nat> {
        let p = self.position(cap, slot);
        if slot < cap && p < self.waiters.len() {
            self.waiters[p]
        } else {
            None
        }
    }

    /// Whether a waiter that asked for `asked` permits stands in slot `slot`:
    /// the slot holds a descriptor that lacks no more than was asked for, and
    /// what the waiter has been given is among the permits handed out.
    pub open spec fn holds(self, cap: nat, slot: nat, asked: nat) -> bool {
        match self.outstanding(cap, slot) {
            Some(d) => d <= asked && asked - d <= self.locking,
            None => false,
        }
    }

    /// The state after the free permits have been dealt out to the waiters,
    /// first come, first served.
    pub open spec fn progress(self) -> Self {
        SemaphoreState {
            locking: self.locking + least(
                self.available(),
                demand(self.waiters, self.waiters.len() as int),
            ),
            waiters: Seq::new(
                self.waiters.len(),
                |i: int|
                    match self.waiters[i] {
                        Some(d) => Some((d - grant(self.available(), self.waiters, i)) as nat),
                        None => None,
                    },
            ),
            ..self
        }
    }

    /// Whether dealing out the free permits gives some waiter the last permit
    /// that it lacked.
    pub open spec fn serves(self) -> bool {
        exists|i: int|
            0 <= i < self.waiters.len() && owed(#[trigger] self.waiters[i]) > 0 && grant(
                self.available(),
                self.waiters,
                i,
            ) == owed(self.waiters[i])
    }

    /// The state after the slots of waiters that have left have been
    /// reclaimed from the front of the queue.
    pub open spec fn trim(self, cap: nat) -> Self
        decreases self.waiters.len(),
    {
        if self.waiters.len() > 0 && self.waiters[0] is None {
            SemaphoreState {
                head: if self.waiters.len() == 1 {
                    0
                } else {
                    self.slot_of(cap, 1)
                },
                waiters: self.waiters.subrange(1, self.waiters.len() as int),
                ..self
            }.trim(cap)
        } else {
            self
        }
    }

    /// The state after `n` permits have been taken, if so many are free.
    pub open spec fn acquire(self, n: nat) -> Self {
        if self.available() >= n {
            SemaphoreState { locking: self.locking + n, ..self }
        } else {
            self
        }
    }

    /// The state after a waiter for `n` permits has joined the queue, if
    /// there is room.
    pub open spec fn enqueue(self, cap: nat, n: nat) -> Self {
        if self.waiters.len() < cap {
            SemaphoreState {
                head: if self.waiters.len() == 0 {
                    0
                } else {
                    self.head
                },
                waiters: self.waiters.push(Some(n)),
                ..self
            }
        } else {
            self
        }
    }

    /// The state after the waiter at place `p` has left the queue.
    pub open spec fn vacate(self, cap: nat, p: int) -> Self {
        SemaphoreState { waiters: self.waiters.update(p, None), ..self }.trim(cap)
    }

    /// The state after `n` permits have been handed back.
    pub open spec fn release(self, n: nat) -> Self {
        SemaphoreState { locking: (self.locking - n) as nat, ..self }.progress()
    }

    /// The state after `n` permits have been added.
    pub open spec fn add_permits(self, n: nat) -> Self {
        SemaphoreState { permits: self.permits + n, ..self }.progress()
    }

    /// The state after the waiter at place `p`, who asked for `asked`
    /// permits, has given up: it leaves the queue and hands back what it had
    /// been given so far.
    pub open spec fn cancel(self, cap: nat, p: int, asked: nat) -> Self {
        self.vacate(cap, p).release((asked - owed(self.waiters[p])) as nat)
    }
}

/// What the first `j` waiters lack is at least what the first `i` of them lack.
pub proof fn lemma_demand_monotonic(waiters: Seq<Option<nat>>, i: int, j: int)
    requires
        i <= j,
    ensures
        demand(waiters, i) <= demand(waiters, j),
    decreases j - i,
{
    if i < j {
        lemma_demand_monotonic(waiters, i, j - 1);
    }
}

/// A waiter that has been given all that it lacked.
pub open spec fn settled(waiter: Option<nat>) -> Option<nat> {
    match waiter {
        Some(_) => Some(0),
        None => None,
    }
}

/// Where the free permits cover what all waiters lack, every waiter is served
/// in full.
pub proof fn lemma_progress_all(s: SemaphoreState)
    requires
        s.locking <= s.permits,
        demand(s.waiters, s.waiters.len() as int) <= s.available(),
    ensures
        s.progress().locking == s.locking + demand(s.waiters, s.waiters.len() as int),
        s.progress().waiters.len() == s.waiters.len(),
        forall|j: int|
            0 <= j < s.waiters.len() ==> #[trigger] s.progress().waiters[j] == settled(
                s.waiters[j],
            ),
        s.serves() <==> exists|j: int|
            0 <= j < s.waiters.len() && owed(#[trigger] s.waiters[j]) > 0,
{
    let w = s.waiters;
    let n = w.len() as int;
    assert forall|j: int| 0 <= j < n implies grant(s.available(), w, j) == owed(w[j]) by {
        lemma_demand_monotonic(w, j + 1, n);
        assert(demand(w, j + 1) == demand(w, j) + owed(w[j]));
    }
    if s.serves() {
        let k = choose|k: int|
            0 <= k < w.len() && owed(#[trigger] w[k]) > 0 && grant(s.available(), w, k) == owed(
                w[k],
            );
        assert(0 <= k < w.len() && owed(w[k]) > 0);
    }
    if exists|j: int| 0 <= j < w.len() && owed(#[trigger] w[j]) > 0 {
        let k = choose|j: int| 0 <= j < w.len() && owed(#[trigger] w[j]) > 0;
        assert(grant(s.available(), w, k) == owed(w[k]));
    }
}

/// Where the free permits run out at waiter `i`, the waiters in front of it
/// are served in full, waiter `i` gets what is left, and the waiters behind
/// it get nothing.
pub proof fn lemma_progress_until(s: SemaphoreState, i: int)
    requires
        s.locking <= s.permits,
        0 <= i < s.waiters.len(),
        demand(s.waiters, i) <= s.available() <= demand(s.waiters, i) + owed(s.waiters[i]),
    ensures
        s.progress().locking == s.permits,
        s.progress().waiters.len() == s.waiters.len(),
        forall|j: int| 0 <= j < i ==> #[trigger] s.progress().waiters[j] == settled(s.waiters[j]),
        s.progress().waiters[i] == (match s.waiters[i] {
            Some(d) => Some((d - (s.available() - demand(s.waiters, i))) as nat),
            None => None,
        }),
        forall|j: int|
            i < j < s.waiters.len() ==> #[trigger] s.progress().waiters[j] == s.waiters[j],
        s.serves() <==> (exists|j: int| 0 <= j < i && owed(#[trigger] s.waiters[j]) > 0) || (owed(
            s.waiters[i],
        ) > 0 && s.available() == demand(s.waiters, i) + owed(s.waiters[i])),
{
    let w = s.waiters;
    let n = w.len() as int;
    let avail = s.available();
    assert(demand(w, i + 1) == demand(w, i) + owed(w[i]));
    lemma_demand_monotonic(w, i + 1, n);
    assert forall|j: int| 0 <= j < i implies grant(avail, w, j) == owed(w[j]) by {
        lemma_demand_monotonic(w, j + 1, i);
        assert(demand(w, j + 1) == demand(w, j) + owed(w[j]));
    }
    assert forall|j: int| i < j < n implies grant(avail, w, j) == 0 by {
        lemma_demand_monotonic(w, i + 1, j);
    }
    let rhs = (exists|j: int| 0 <= j < i && owed(#[trigger] w[j]) > 0) || (owed(w[i]) > 0 && avail
        == demand(w, i) + owed(w[i]));
    if s.serves() {
        let k = choose|k: int|
            0 <= k < w.len() && owed(#[trigger] w[k]) > 0 && grant(avail, w, k) == owed(w[k]);
        if k < i {
            assert(0 <= k < i && owed(w[k]) > 0);
        } else if k > i {
            assert(grant(avail, w, k) == 0);
        }
        assert(rhs);
    }
    if rhs {
        if exists|j: int| 0 <= j < i && owed(#[trigger] w[j]) > 0 {
            let k = choose|j: int| 0 <= j < i && owed(#[trigger] w[j]) > 0;
            assert(grant(avail, w, k) == owed(w[k]));
            assert(0 <= k < w.len() && owed(w[k]) > 0 && grant(avail, w, k) == owed(w[k]));
        } else {
            assert(grant(avail, w, i) == owed(w[i]));
            assert(0 <= i < w.len() && owed(w[i]) > 0 && grant(avail, w, i) == owed(w[i]));
        }
        assert(s.serves());
    }
}

/// Reclaiming slots changes neither the permits nor the number handed out;
/// what is left of the queue is its tail from some place on, and it is well
/// formed.
pub proof fn lemma_trim(s: SemaphoreState, cap: nat)
    requires
        s.locking <= s.permits,
        s.waiters.len() <= cap,
        s.waiters.len() > 0 ==> s.head < cap,
        s.waiters.len() == 0 ==> s.head == 0,
    ensures
        s.trim(cap).permits == s.permits,
        s.trim(cap).locking == s.locking,
        s.trim(cap).wf(cap),
        s.trim(cap).waiters.len() <= s.waiters.len(),
        s.trim(cap).waiters == s.waiters.subrange(
            s.waiters.len() - s.trim(cap).waiters.len(),
            s.waiters.len() as int,
        ),
        forall|j: int|
            0 <= j < s.waiters.len() - s.trim(cap).waiters.len() ==> (#[trigger] s.waiters[j])
                is None,
        s.trim(cap).waiters.len() > 0 ==> s.trim(cap).head == s.slot_of(
            cap,
            s.waiters.len() - s.trim(cap).waiters.len(),
        ),
    decreases s.waiters.len(),
{
    if s.waiters.len() > 0 && s.waiters[0] is None {
        let next = SemaphoreState {
            head: if s.waiters.len() == 1 {
                0
            } else {
                s.slot_of(cap, 1)
            },
            waiters: s.waiters.subrange(1, s.waiters.len() as int),
            ..s
        };
        lemma_trim(next, cap);
        let t = next.trim(cap);
        assert(s.trim(cap) == t);
        let k = s.waiters.len() - t.waiters.len();
        assert(t.waiters =~= s.waiters.subrange(k, s.waiters.len() as int));
        assert forall|j: int| 0 <= j < k implies (#[trigger] s.waiters[j]) is None by {
            if j > 0 {
                assert(next.waiters[j - 1] == s.waiters[j]);
            }
        }
    } else {
        assert(s.trim(cap).waiters =~= s.waiters.subrange(0, s.waiters.len() as int));
    }
}

/// Dealing out the free permits keeps a semaphore well formed: no waiter
/// joins or leaves, and no more permits are handed out than there are.
pub proof fn lemma_progress_wf(s: SemaphoreState, cap: nat)
    requires
        s.wf(cap),
    ensures
        s.progress().wf(cap),
        s.progress().permits == s.permits,
        s.progress().locking >= s.locking,
        s.progress().waiters.len() == s.waiters.len(),
        forall|i: int|
            0 <= i < s.waiters.len() ==> ((#[trigger] s.progress().waiters[i]) is Some
                <==> s.waiters[i] is Some),
{
}

/// Never more permits handed out than there are: every operation takes a
/// well-formed semaphore to a well-formed one, in which `locking` is at most
/// `permits`.
pub proof fn lemma_locking_bounded(s: SemaphoreState, cap: nat, n: nat, p: int, asked: nat)
    requires
        s.wf(cap),
    ensures
        s.acquire(n).wf(cap),
        s.enqueue(cap, n).wf(cap),
        s.add_permits(n).wf(cap),
        n <= s.locking ==> s.release(n).wf(cap),
        0 <= p < s.waiters.len() ==> s.vacate(cap, p).wf(cap),
        0 <= p < s.waiters.len() && owed(s.waiters[p]) <= asked && asked - owed(s.waiters[p])
            <= s.locking ==> s.cancel(cap, p, asked).wf(cap),
{
    lemma_progress_wf(SemaphoreState { permits: s.permits + n, ..s }, cap);
    if n <= s.locking {
        lemma_progress_wf(SemaphoreState { locking: (s.locking - n) as nat, ..s }, cap);
    }
    if 0 <= p < s.waiters.len() {
        let marked = SemaphoreState { waiters: s.waiters.update(p, None), ..s };
        lemma_trim(marked, cap);
        if owed(s.waiters[p]) <= asked && asked - owed(s.waiters[p]) <= s.locking {
            let left = s.vacate(cap, p);
            let given = (asked - owed(s.waiters[p])) as nat;
            lemma_progress_wf(
                SemaphoreState { locking: (left.locking - given) as nat, ..left },
                cap,
            );
        }
    }
}

/// First come, first served: in a pass that deals out the free permits, a
/// waiter receives something only if every waiter in front of it receives
/// all that it lacks. This holds of the pass that follows `add_permits` and
/// of the one that follows a release.
pub proof fn lemma_first_come_first_served(s: SemaphoreState, i: int, j: int)
    requires
        0 <= i < j < s.waiters.len(),
        grant(s.available(), s.waiters, j) > 0,
    ensures
        grant(s.available(), s.waiters, i) == owed(s.waiters[i]),
        owed(s.progress().waiters[i]) == 0,
{
    lemma_demand_monotonic(s.waiters, i + 1, j);
    assert(demand(s.waiters, i + 1) == demand(s.waiters, i) + owed(s.waiters[i]));
}

/// A waiter that gives up hands back what it had been given: where no other
/// waiter lacks anything, the permits that the waiter at place `p` had been
/// given are free again after it has left, so that a request for that many
/// permits is granted.
pub proof fn lemma_cancel_returns_permits(s: SemaphoreState, cap: nat, p: int, asked: nat)
    requires
        s.wf(cap),
        0 <= p < s.waiters.len(),
        s.waiters[p] is Some,
        owed(s.waiters[p]) <= asked,
        asked - owed(s.waiters[p]) <= s.locking,
        forall|j: int| 0 <= j < s.waiters.len() && j != p ==> owed(#[trigger] s.waiters[j]) == 0,
    ensures
        s.cancel(cap, p, asked).locking == s.locking - (asked - owed(s.waiters[p])),
        s.cancel(cap, p, asked).permits == s.permits,
        s.cancel(cap, p, asked).available() >= asked - owed(s.waiters[p]),
        s.cancel(cap, p, asked).acquire((asked - owed(s.waiters[p])) as nat).locking
            == s.cancel(cap, p, asked).locking + (asked - owed(s.waiters[p])),
{
    let given = (asked - owed(s.waiters[p])) as nat;
    let marked = SemaphoreState { waiters: s.waiters.update(p, None), ..s };
    lemma_trim(marked, cap);
    let left = s.vacate(cap, p);
    let k = marked.waiters.len() - left.waiters.len();
    assert forall|j: int| 0 <= j < left.waiters.len() implies owed(#[trigger] left.waiters[j])
        == 0 by {
        assert(left.waiters[j] == marked.waiters[j + k]);
    }
    let back = SemaphoreState { locking: (left.locking - given) as nat, ..left };
    lemma_demand_of_settled_front(back.waiters, back.waiters.len() as int);
}

/// A pass that deals out the free permits leaves every waiter in its slot:
/// what the waiter lacks goes down by what it receives, and that is among the
/// permits handed out afterwards.
pub proof fn lemma_progress_keeps_waiter(s: SemaphoreState, cap: nat, slot: nat, asked: nat)
    requires
        s.wf(cap),
        s.holds(cap, slot, asked),
    ensures
        s.progress().holds(cap, slot, asked),
        s.progress().outstanding(cap, slot) == Some(
            (owed(s.outstanding(cap, slot)) - grant(
                s.available(),
                s.waiters,
                s.position(cap, slot),
            )) as nat,
        ),
{
    let p = s.position(cap, slot);
    let n = s.waiters.len() as int;
    lemma_demand_monotonic(s.waiters, p + 1, n);
    assert(demand(s.waiters, p + 1) == demand(s.waiters, p) + owed(s.waiters[p]));
}

/// Adding permits leaves every waiter in its slot.
pub proof fn lemma_add_permits_keeps_waiter(
    s: SemaphoreState,
    cap: nat,
    n: nat,
    slot: nat,
    asked: nat,
)
    requires
        s.wf(cap),
        s.holds(cap, slot, asked),
    ensures
        s.add_permits(n).holds(cap, slot, asked),
{
    lemma_progress_keeps_waiter(SemaphoreState { permits: s.permits + n, ..s }, cap, slot, asked);
}

/// Handing back `n` permits leaves a waiter in its slot, if what the waiter
/// has been given is not among the permits handed back.
pub proof fn lemma_release_keeps_waiter(
    s: SemaphoreState,
    cap: nat,
    n: nat,
    slot: nat,
    asked: nat,
)
    requires
        s.wf(cap),
        s.holds(cap, slot, asked),
        asked - owed(s.outstanding(cap, slot)) + n <= s.locking,
    ensures
        s.release(n).holds(cap, slot, asked),
{
    lemma_progress_keeps_waiter(
        SemaphoreState { locking: (s.locking - n) as nat, ..s },
        cap,
        slot,
        asked,
    );
}

/// Where none of the first `i` waiters lacks anything, they lack nothing together.
pub proof fn lemma_demand_of_settled_front(waiters: Seq<Option<nat>>, i: int)
    requires
        0 <= i <= waiters.len(),
        forall|j: int| 0 <= j < i ==> owed(#[trigger] waiters[j]) == 0,
    ensures
        demand(waiters, i) == 0,
    decreases i,
{
    if i > 0 {
        lemma_demand_of_settled_front(waiters, i - 1);
    }
}

/// One permit handed back serves one waiter: when all permits are handed out
/// and one of them comes back, it goes to the first waiter that lacks
/// something, and every other waiter stays as it is. Where no waiter lacks
/// anything the permit is free, and no waiter changes.
pub proof fn lemma_release_one_serves_one(s: SemaphoreState, cap: nat, i: int)
    requires
        s.wf(cap),
        s.locking == s.permits,
        s.permits >= 1,
        0 <= i <= s.waiters.len(),
        forall|j: int| 0 <= j < i ==> owed(#[trigger] s.waiters[j]) == 0,
        i < s.waiters.len() ==> owed(s.waiters[i]) > 0,
    ensures
        s.release(1).permits == s.permits,
        s.release(1).waiters.len() == s.waiters.len(),
        forall|j: int|
            0 <= j < s.waiters.len() && j != i ==> #[trigger] s.release(1).waiters[j]
                == s.waiters[j],
        i < s.waiters.len() ==> s.release(1).locking == s.locking && s.release(1).waiters[i]
            == Some((owed(s.waiters[i]) - 1) as nat),
        i == s.waiters.len() ==> s.release(1).locking == s.locking - 1,
{
    let back = SemaphoreState { locking: (s.locking - 1) as nat, ..s };
    lemma_demand_of_settled_front(s.waiters, i);
    if i < s.waiters.len() {
        lemma_progress_until(back, i);
        assert forall|j: int| 0 <= j < i implies #[trigger] back.progress().waiters[j]
            == s.waiters[j] by {
            assert(owed(s.waiters[j]) == 0);
        }
    } else {
        lemma_progress_all(back);
        assert forall|j: int| 0 <= j < i implies #[trigger] back.progress().waiters[j]
            == s.waiters[j] by {
            assert(owed(s.waiters[j]) == 0);
        }
    }
}

/// A waiter that leaves the queue leaves every other waiter in its slot,
/// lacking what it lacked.
pub proof fn lemma_vacate_keeps_waiter(
    s: SemaphoreState,
    cap: nat,
    p: int,
    slot: nat,
    asked: nat,
)
    requires
        s.wf(cap),
        0 <= p < s.waiters.len(),
        s.holds(cap, slot, asked),
        s.position(cap, slot) != p,
    ensures
        s.vacate(cap, p).holds(cap, slot, asked),
        s.vacate(cap, p).outstanding(cap, slot) == s.outstanding(cap, slot),
{
    let marked = SemaphoreState { waiters: s.waiters.update(p, None), ..s };
    lemma_trim(marked, cap);
    let left = marked.trim(cap);
    let q = s.position(cap, slot);
    let k = marked.waiters.len() - left.waiters.len();
    assert(marked.waiters[q] is Some);
    assert(q >= k);
    assert(left.waiters[q - k] == marked.waiters[q]);
}

/// Taking free permits and joining the queue leave every waiter in its slot,
/// lacking what it lacked.
pub proof fn lemma_requests_keep_waiter(s: SemaphoreState, cap: nat, n: nat, slot: nat, asked: nat)
    requires
        s.wf(cap),
        s.holds(cap, slot, asked),
    ensures
        s.acquire(n).holds(cap, slot, asked),
        s.acquire(n).outstanding(cap, slot) == s.outstanding(cap, slot),
        s.enqueue(cap, n).holds(cap, slot, asked),
        s.enqueue(cap, n).outstanding(cap, slot) == s.outstanding(cap, slot),
{
}

} // verus!
