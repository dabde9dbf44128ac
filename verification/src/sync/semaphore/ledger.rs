//! The books of a semaphore: every permit that is handed out is in the hands
//! of a holder or of a waiter, and none is counted twice.
use vstd::prelude::*;
use super::model::{SemaphoreState, demand, grant, least, lemma_trim, owed};

verus! {

/// A semaphore together with what its users hold: the permits in the hands
/// of holders, and what each waiter asked for.
pub struct Ledger {
    /// The state of the semaphore.
    pub sem: SemaphoreState,
    /// The number of permits in the hands of holders.
    pub held: nat,
    /// What each waiter asked for, oldest waiter first.
    pub asked: Seq<nat>,
}

/// What waiter `i` has been given so far: what it asked for less what it
/// still lacks; nothing for a waiter that has left.
pub open spec fn given_to(waiters: Seq<Option<nat>>, asked: Seq<nat>, i: int) -> nat {
    match waiters[i] {
        Some(d) => (asked[i] - d) as nat,
        None => 0,
    }
}

/// What the first `i` waiters have been given together.
pub open spec fn given(waiters: Seq<Option<nat>>, asked: Seq<nat>, i: int) -> nat
    decreases i,
{
    if i <= 0 {
        0
    } else {
        given(waiters, asked, i - 1) + given_to(waiters, asked, i - 1)
    }
}

/// What the first `i` waiters receive together when `avail` free permits are
/// dealt out.
pub open spec fn granted(avail: nat, waiters: Seq<Option<nat>>, i: int) -> nat
    decreases i,
{
    if i <= 0 {
        0
    } else {
        granted(avail, waiters, i - 1) + grant(avail, waiters, i - 1)
    }
}

impl Ledger {
    /// The books of a fresh semaphore.
    pub open spec fn fresh(permits: nat) -> Self {
        Ledger { sem: SemaphoreState::fresh(permits), held: 0, asked: Seq::empty() }
    }

    /// Whether the books balance: the semaphore is well formed, no waiter
    /// lacks more than it asked for, and the permits handed out are those in
    /// the hands of holders and those given to waiters.
    pub open spec fn balanced(self, cap: nat) -> bool {
        &&& self.sem.wf(cap)
        &&& self.asked.len() == self.sem.waiters.len()
        &&& forall|i: int|
            0 <= i < self.asked.len() ==> owed(#[trigger] self.sem.waiters[i]) <= self.asked[i]
        &&& self.sem.locking == self.held + given(
            self.sem.waiters,
            self.asked,
            self.asked.len() as int,
        )
    }

    /// The books with the semaphore in state `sem` and the waiters that
    /// `sem` has kept.
    pub open spec fn with(self, sem: SemaphoreState) -> Self {
        Ledger {
            sem,
            asked: self.asked.subrange(
                self.asked.len() - sem.waiters.len(),
                self.asked.len() as int,
            ),
            ..self
        }
    }

    /// The books after a request for `n` permits that was granted at once,
    /// if they were free.
    pub open spec fn acquire(self, n: nat) -> Self {
        if self.sem.available() >= n {
            Ledger { sem: self.sem.acquire(n), held: self.held + n, ..self }
        } else {
            self
        }
    }

    /// The books after a waiter for `n` permits has joined the queue, if
    /// there was room.
    pub open spec fn enqueue(self, cap: nat, n: nat) -> Self {
        if self.sem.waiters.len() < cap {
            Ledger { sem: self.sem.enqueue(cap, n), asked: self.asked.push(n), ..self }
        } else {
            self
        }
    }

    /// The books after the free permits have been dealt out.
    pub open spec fn progress(self) -> Self {
        Ledger { sem: self.sem.progress(), ..self }
    }

    /// The books after `n` permits have been added.
    pub open spec fn add_permits(self, n: nat) -> Self {
        Ledger { sem: self.sem.add_permits(n), ..self }
    }

    /// The books after a holder has handed back `n` permits.
    pub open spec fn release(self, n: nat) -> Self {
        Ledger { sem: self.sem.release(n), held: (self.held - n) as nat, ..self }
    }

    /// The books after the waiter at place `p`, which lacks nothing, has
    /// taken its permits and left the queue.
    pub open spec fn claim(self, cap: nat, p: int) -> Self {
        Ledger {
            asked: self.asked.update(p, 0),
            held: self.held + self.asked[p],
            ..self
        }.with(self.sem.vacate(cap, p))
    }

    /// The books after the waiter at place `p` has given up.
    pub open spec fn cancel(self, cap: nat, p: int) -> Self {
        Ledger { asked: self.asked.update(p, 0), ..self }.with(
            self.sem.cancel(cap, p, self.asked[p]),
        )
    }
}

/// What the first `j` waiters have been given is at least what the first
/// `i` of them have been given.
pub proof fn lemma_given_monotonic(waiters: Seq<Option<nat>>, asked: Seq<nat>, i: int, j: int)
    requires
        i <= j,
    ensures
        given(waiters, asked, i) <= given(waiters, asked, j),
    decreases j - i,
{
    if i < j {
        lemma_given_monotonic(waiters, asked, i, j - 1);
    }
}

/// What has been given depends on the waiters and on what they asked for,
/// place by place.
pub proof fn lemma_given_agrees(
    w1: Seq<Option<nat>>,
    a1: Seq<nat>,
    w2: Seq<Option<nat>>,
    a2: Seq<nat>,
    shift: int,
    i: int,
)
    requires
        0 <= i,
        forall|j: int| 0 <= j < i ==> given_to(w1, a1, j + shift) == given_to(w2, a2, j),
        forall|j: int| 0 <= j < shift ==> given_to(w1, a1, j) == 0,
        0 <= shift,
    ensures
        given(w1, a1, i + shift) == given(w2, a2, i),
    decreases i + shift,
{
    if i > 0 {
        lemma_given_agrees(w1, a1, w2, a2, shift, i - 1);
    } else if shift > 0 {
        lemma_given_agrees(w1, a1, w2, a2, shift - 1, 0);
    }
}

/// Changing one waiter changes what has been given by what that waiter has
/// been given.
pub proof fn lemma_given_update(
    w1: Seq<Option<nat>>,
    a1: Seq<nat>,
    w2: Seq<Option<nat>>,
    a2: Seq<nat>,
    p: int,
    i: int,
)
    requires
        0 <= p < i,
        forall|j: int| 0 <= j < i && j != p ==> given_to(w1, a1, j) == given_to(w2, a2, j),
    ensures
        given(w1, a1, i) + given_to(w2, a2, p) == given(w2, a2, i) + given_to(w1, a1, p),
    decreases i,
{
    if i - 1 > p {
        lemma_given_update(w1, a1, w2, a2, p, i - 1);
    } else {
        lemma_given_agrees(w1, a1, w2, a2, 0, p);
    }
}

/// What the waiters receive together when the free permits are dealt out is
/// what is free, or all that they lack if that is less.
pub proof fn lemma_granted(avail: nat, waiters: Seq<Option<nat>>, i: int)
    requires
        0 <= i <= waiters.len(),
    ensures
        granted(avail, waiters, i) == least(avail, demand(waiters, i)),
    decreases i,
{
    if i > 0 {
        lemma_granted(avail, waiters, i - 1);
        assert(demand(waiters, i) == demand(waiters, i - 1) + owed(waiters[i - 1]));
    }
}

/// Dealing out the free permits adds to what the waiters have been given
/// what they receive.
pub proof fn lemma_given_after_progress(s: SemaphoreState, asked: Seq<nat>, i: int)
    requires
        0 <= i <= s.waiters.len(),
        asked.len() == s.waiters.len(),
        forall|j: int| 0 <= j < asked.len() ==> owed(#[trigger] s.waiters[j]) <= asked[j],
    ensures
        given(s.progress().waiters, asked, i) == given(s.waiters, asked, i) + granted(
            s.available(),
            s.waiters,
            i,
        ),
    decreases i,
{
    if i > 0 {
        lemma_given_after_progress(s, asked, i - 1);
        assert(owed(s.waiters[i - 1]) <= asked[i - 1]);
    }
}

/// Dealing out the free permits keeps the books balanced.
pub proof fn lemma_progress_balanced(l: Ledger, cap: nat)
    requires
        l.balanced(cap),
    ensures
        l.progress().balanced(cap),
{
    let n = l.asked.len() as int;
    lemma_given_after_progress(l.sem, l.asked, n);
    lemma_granted(l.sem.available(), l.sem.waiters, n);
    assert forall|i: int| 0 <= i < n implies owed(#[trigger] l.sem.progress().waiters[i])
        <= l.asked[i] by {
        assert(owed(l.sem.waiters[i]) <= l.asked[i]);
    }
}

/// The books stay balanced when slots are reclaimed.
pub proof fn lemma_with_trim_balanced(l: Ledger, cap: nat)
    requires
        l.sem.locking <= l.sem.permits,
        l.sem.waiters.len() <= cap,
        l.sem.waiters.len() > 0 ==> l.sem.head < cap,
        l.sem.waiters.len() == 0 ==> l.sem.head == 0,
        l.asked.len() == l.sem.waiters.len(),
        forall|i: int| 0 <= i < l.asked.len() ==> owed(#[trigger] l.sem.waiters[i]) <= l.asked[i],
        l.sem.locking == l.held + given(l.sem.waiters, l.asked, l.asked.len() as int),
    ensures
        l.with(l.sem.trim(cap)).balanced(cap),
{
    lemma_trim(l.sem, cap);
    let t = l.sem.trim(cap);
    let after = l.with(t);
    let k = l.sem.waiters.len() - t.waiters.len();
    assert forall|j: int| 0 <= j < t.waiters.len() implies given_to(
        l.sem.waiters,
        l.asked,
        j + k,
    ) == given_to(t.waiters, after.asked, j) by {
        assert(t.waiters[j] == l.sem.waiters[j + k]);
        assert(after.asked[j] == l.asked[j + k]);
    }
    assert forall|j: int| 0 <= j < k implies given_to(l.sem.waiters, l.asked, j) == 0 by {
        assert(l.sem.waiters[j] is None);
    }
    lemma_given_agrees(l.sem.waiters, l.asked, t.waiters, after.asked, k, t.waiters.len() as int);
    assert forall|i: int| 0 <= i < after.asked.len() implies owed(#[trigger] t.waiters[i])
        <= after.asked[i] by {
        assert(t.waiters[i] == l.sem.waiters[i + k]);
        assert(owed(l.sem.waiters[i + k]) <= l.asked[i + k]);
    }
}

/// No permit is lost and none is counted twice: whatever the users of a
/// semaphore do, the books stay balanced. Permits are taken at once or
/// waited for, the free permits are dealt out, permits are added, a holder
/// hands back permits that it holds, a waiter that lacks nothing takes its
/// permits, a waiter gives up.
pub proof fn lemma_books_balance(l: Ledger, cap: nat, n: nat, p: int)
    requires
        l.balanced(cap),
    ensures
        Ledger::fresh(n).balanced(cap),
        l.acquire(n).balanced(cap),
        l.enqueue(cap, n).balanced(cap),
        l.progress().balanced(cap),
        l.add_permits(n).balanced(cap),
        n <= l.held ==> l.release(n).balanced(cap),
        0 <= p < l.asked.len() && l.sem.waiters[p] == Some(0nat) ==> l.claim(cap, p).balanced(cap),
        0 <= p < l.asked.len() && l.sem.waiters[p] is Some ==> l.cancel(cap, p).balanced(cap),
{
    let len = l.asked.len() as int;
    let w = l.sem.waiters;
    // joining the queue
    if w.len() < cap {
        let e = l.enqueue(cap, n);
        lemma_given_agrees(w, l.asked, e.sem.waiters, e.asked, 0, len);
        assert forall|i: int| 0 <= i < e.asked.len() implies owed(#[trigger] e.sem.waiters[i])
            <= e.asked[i] by {
            if i < len {
                assert(owed(w[i]) <= l.asked[i]);
            }
        }
    }
    // dealing out, adding, handing back
    lemma_progress_balanced(l, cap);
    let added = Ledger { sem: SemaphoreState { permits: l.sem.permits + n, ..l.sem }, ..l };
    lemma_given_agrees(w, l.asked, added.sem.waiters, added.asked, 0, len);
    lemma_progress_balanced(added, cap);
    if n <= l.held {
        let back = Ledger {
            sem: SemaphoreState { locking: (l.sem.locking - n) as nat, ..l.sem },
            held: (l.held - n) as nat,
            ..l
        };
        lemma_given_agrees(w, l.asked, back.sem.waiters, back.asked, 0, len);
        lemma_progress_balanced(back, cap);
    }
    // leaving the queue
    if 0 <= p < len && w[p] is Some {
        assert(owed(w[p]) <= l.asked[p]);
        let marked_w = w.update(p, None);
        let marked_a = l.asked.update(p, 0);
        lemma_given_update(w, l.asked, marked_w, marked_a, p, len);
        lemma_given_monotonic(w, l.asked, p + 1, len);
        assert forall|i: int| 0 <= i < len implies owed(#[trigger] marked_w[i]) <= marked_a[i] by {
            if i != p {
                assert(owed(w[i]) <= l.asked[i]);
            }
        }
        let gone = (l.asked[p] - owed(w[p])) as nat;
        if w[p] == Some(0nat) {
            let marked = Ledger {
                sem: SemaphoreState { waiters: marked_w, ..l.sem },
                asked: marked_a,
                held: l.held + l.asked[p],
            };
            lemma_with_trim_balanced(marked, cap);
            assert(l.claim(cap, p) == marked.with(marked.sem.trim(cap)));
        }
        let given_up = Ledger {
            sem: SemaphoreState {
                waiters: marked_w,
                locking: (l.sem.locking - gone) as nat,
                ..l.sem
            },
            asked: marked_a,
            held: l.held,
        };
        lemma_given_agrees(marked_w, marked_a, given_up.sem.waiters, given_up.asked, 0, len);
        lemma_with_trim_balanced(given_up, cap);
        let marked_sem = SemaphoreState { waiters: marked_w, ..l.sem };
        lemma_trim(marked_sem, cap);
        lemma_trim(given_up.sem, cap);
        let left = given_up.with(given_up.sem.trim(cap));
        assert(given_up.sem.trim(cap).waiters == marked_sem.trim(cap).waiters);
        lemma_trim_ignores_locking(marked_sem, cap, (l.sem.locking - gone) as nat);
        assert(left.sem == SemaphoreState {
            locking: (l.sem.vacate(cap, p).locking - gone) as nat,
            ..l.sem.vacate(cap, p)
        });
        lemma_progress_balanced(left, cap);
        assert(l.cancel(cap, p).sem == left.sem.progress());
        assert(l.cancel(cap, p).asked =~= left.asked);
    }
}

/// Reclaiming slots does not look at the number of permits handed out.
pub proof fn lemma_trim_ignores_locking(s: SemaphoreState, cap: nat, locking: nat)
    ensures
        (SemaphoreState { locking, ..s }).trim(cap) == (SemaphoreState {
            locking,
            ..s.trim(cap)
        }),
    decreases s.waiters.len(),
{
    if s.waiters.len() > 0 && s.waiters[0] is None {
        let next = SemaphoreState {
            head: if s.waiters.len() == 1 {
                0
            } else {
                s.slot_of(cap, 1)
            },
            waiters: s.waiters.subrange(1, s.waiters.len() as int),
            ..s
        };
        lemma_trim_ignores_locking(next, cap, locking);
        assert((SemaphoreState { locking, ..s }).slot_of(cap, 1) == s.slot_of(cap, 1));
    }
}

/// Who keeps the books can always go on: in balanced books, what a holder
/// holds is among the permits handed out, and every waiter has its place in
/// the queue, with what it has been given among the permits handed out.
pub proof fn lemma_balanced_books_allow(l: Ledger, cap: nat, p: int)
    requires
        l.balanced(cap),
    ensures
        l.held <= l.sem.locking,
        l.sem.locking <= l.sem.permits,
        0 <= p < l.asked.len() && l.sem.waiters[p] is Some ==> l.sem.holds(
            cap,
            l.sem.slot_of(cap, p),
            l.asked[p],
        ),
{
    let len = l.asked.len() as int;
    if 0 <= p < len && l.sem.waiters[p] is Some {
        lemma_given_monotonic(l.sem.waiters, l.asked, p + 1, len);
        assert(owed(l.sem.waiters[p]) <= l.asked[p]);
        assert(l.sem.position(cap, l.sem.slot_of(cap, p)) == p);
    }
}

} // verus!
