//! Fixed-capacity first-in first-out queue that holds no value twice.
use vstd::prelude::*;
use vstd::std_specs::cmp::PartialEqSpec;
use crate::queue::{Queue, dequeued};

verus! {

/// A queue of capacity `N` that refuses a value equal to one it holds.
pub struct UniqueQueue<T, const N: usize> {
    inner: Queue<T, N>,
}

/// Whether `s` holds a value equal to `val`.
pub open spec fn holds_equal<T: PartialEq>(s: Seq<T>, val: T) -> bool {
    exists|i: int| 0 <= i < s.len() && (#[trigger] s[i]).eq_spec(&val)
}

/// Whether no value of `s` is equal to one behind it.
pub open spec fn distinct<T: PartialEq>(s: Seq<T>) -> bool {
    forall|i: int, j: int| #![trigger s[i], s[j]] 0 <= i < j < s.len() ==> !s[i].eq_spec(&s[j])
}

/// What `enqueue` does to the contents `s` of a queue of capacity `cap`: the
/// contents afterwards and the answer. A value equal to one that is held
/// comes back as `Ok(Some(..))`, whether there is room or not; a value for
/// which there is no room comes back as `Err(..)`.
pub open spec fn enqueued_once<T: PartialEq>(s: Seq<T>, cap: nat, val: T) -> (
    Seq<T>,
    Result<Option<T>, T>,
) {
    if holds_equal(s, val) {
        (s, Ok(Some(val)))
    } else if s.len() < cap {
        (s.push(val), Ok(None))
    } else {
        (s, Err(val))
    }
}

impl<T: PartialEq, const N: usize> UniqueQueue<T, N> {
    /// The elements held, oldest first.
    pub closed spec fn view(&self) -> Seq<T> {
        self.inner@
    }

    /// The invariant of the representation. Where `==` on `T` is what its
    /// specification says, no value is held twice.
    pub closed spec fn wf(&self) -> bool {
        &&& self.inner.wf()
        &&& T::obeys_eq_spec() ==> distinct(self.inner@)
    }

    /// A well-formed queue holds at most `N` elements, and none of them twice.
    pub proof fn lemma_wf(&self)
        requires
            self.wf(),
        ensures
            self@.len() <= N,
            T::obeys_eq_spec() ==> distinct(self@),
    {
        self.inner.lemma_len_bounded();
    }

    /// An empty queue.
    pub fn new() -> (q: Self)
        ensures
            q.wf(),
            q@ == Seq::<T>::empty(),
    {
        UniqueQueue { inner: Queue::new() }
    }

    /// The number of elements the queue can hold.
    pub fn capacity(&self) -> (c: usize)
        ensures
            c == N,
    {
        N
    }

    /// The number of elements held.
    pub fn len(&self) -> (n: usize)
        requires
            self.wf(),
        ensures
            n == self@.len(),
            n <= N,
    {
        self.inner.len()
    }

    /// Whether the queue holds no element.
    pub fn is_empty(&self) -> (b: bool)
        requires
            self.wf(),
        ensures
            b <==> self@.len() == 0,
    {
        self.inner.is_empty()
    }

    /// Whether the queue holds as many elements as it can.
    pub fn is_full(&self) -> (b: bool)
        requires
            self.wf(),
        ensures
            b <==> self@.len() == N,
    {
        self.inner.is_full()
    }

    /// Whether the queue holds a value equal to `val`.
    pub fn contains(&self, val: &T) -> (b: bool)
        requires
            self.wf(),
        ensures
            T::obeys_eq_spec() ==> b == holds_equal(self@, *val),
    {
        let len = self.inner.len();
        let mut i: usize = 0;
        while i < len
            invariant
                i <= len,
                len == self.inner@.len(),
                self.inner.wf(),
                T::obeys_eq_spec() ==> forall|j: int|
                    0 <= j < i ==> !(#[trigger] self.inner@[j]).eq_spec(val),
            decreases len - i,
        {
            match self.inner.get(i) {
                Some(held) => {
                    if *held == *val {
                        return true;
                    }
                },
                None => {},
            }
            i += 1;
        }
        false
    }

    /// Appends `val` behind the newest element, unless a value equal to it is
    /// held already or there is no room. A value that is held already comes
    /// back as `Ok(Some(..))`, a value for which there is no room as
    /// `Err(..)`; in both cases the queue stays as it is.
    pub fn enqueue(&mut self, val: T) -> (r: Result<Option<T>, T>)
        requires
            old(self).wf(),
        ensures
            final(self).wf(),
            match r {
                Ok(None) => old(self)@.len() < N && final(self)@ == old(self)@.push(val),
                Ok(Some(back)) => back == val && *final(self) == *old(self),
                Err(back) => back == val && old(self)@.len() >= N && *final(self) == *old(self),
            },
            T::obeys_eq_spec() ==> (final(self)@, r) == enqueued_once(old(self)@, N as nat, val),
    {
        if self.contains(&val) {
            return Ok(Some(val));
        }
        match self.inner.enqueue(val) {
            Ok(()) => {
                proof {
                    if T::obeys_eq_spec() {
                        let before = old(self).inner@;
                        let after = self.inner@;
                        assert forall|i: int, j: int|
                            #![trigger after[i], after[j]]
                            0 <= i < j < after.len() implies !after[i].eq_spec(&after[j]) by {
                            if j < before.len() {
                                assert(after[i] == before[i] && after[j] == before[j]);
                            } else {
                                assert(after[i] == before[i]);
                            }
                        }
                    }
                }
                Ok(None)
            },
            Err(val) => Err(val),
        }
    }

    /// Removes the oldest element and returns it; an empty queue answers `None`.
    pub fn dequeue(&mut self) -> (r: Option<T>)
        requires
            old(self).wf(),
        ensures
            final(self).wf(),
            (final(self)@, r) == dequeued(old(self)@),
            r is None ==> *final(self) == *old(self),
    {
        let r = self.inner.dequeue();
        proof {
            if T::obeys_eq_spec() && r is Some {
                let before = old(self).inner@;
                let after = self.inner@;
                assert forall|i: int, j: int|
                    #![trigger after[i], after[j]]
                    0 <= i < j < after.len() implies !after[i].eq_spec(&after[j]) by {
                    assert(after[i] == before[i + 1] && after[j] == before[j + 1]);
                }
            }
        }
        r
    }
}

impl<T: PartialEq, const N: usize> Default for UniqueQueue<T, N> {
    fn default() -> (q: Self)
        ensures
            q.wf(),
            q@ == Seq::<T>::empty(),
    {
        UniqueQueue::new()
    }
}

} // verus!
