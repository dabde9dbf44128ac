//! Fixed-capacity first-in first-out queue over an inline ring buffer.
use vstd::prelude::*;

verus! {

/// Ring buffer of capacity `N`.
///
/// The occupied range is kept as an optional `(head, tail)` pair of slot
/// indices, both inclusive; `None` stands for the empty queue, so that a full
/// buffer never looks like an empty one and no slot is wasted. A queue of
/// capacity zero is empty and full at once.
pub struct Queue<T, const N: usize> {
    bounds: Option<(usize, usize)>,
    buffer: [Option<T>; N],
}

/// A vacant slot, for whatever place in the buffer.
fn vacant<T>(i: usize) -> (slot: Option<T>)
    ensures
        slot is None,
{
    None
}

/// `core::array::from_fn` with `vacant` as the function: an array whose
/// element at each index is what `vacant` gives for that index.
#[verifier::external_body]
fn vacant_slots<T, const N: usize>() -> (slots: [Option<T>; N])
    ensures
        forall|i: int|
            0 <= i < N ==> call_ensures(vacant::<T>, (i as usize,), #[trigger] slots@[i]),
{
    core::array::from_fn(vacant)
}

/// Number of occupied slots of a ring of `cap` slots whose occupied range
/// runs from `head` to `tail`, both inclusive.
pub open spec fn ring_len(cap: int, head: int, tail: int) -> int {
    if head <= tail {
        tail - head + 1
    } else {
        tail + cap - head + 1
    }
}

/// Slot that holds the `i`-th element of a ring of `cap` slots starting at `head`.
pub open spec fn ring_slot(cap: int, head: int, i: int) -> int {
    if head + i < cap {
        head + i
    } else {
        head + i - cap
    }
}

/// What `enqueue` does to the contents `s` of a queue of capacity `cap`: the
/// contents afterwards and the answer.
pub open spec fn enqueued<T>(s: Seq<T>, cap: nat, val: T) -> (Seq<T>, Result<(), T>) {
    if s.len() < cap {
        (s.push(val), Ok(()))
    } else {
        (s, Err(val))
    }
}

/// What `dequeue` does to the contents `s` of a queue: the contents
/// afterwards and the answer.
pub open spec fn dequeued<T>(s: Seq<T>) -> (Seq<T>, Option<T>) {
    if s.len() > 0 {
        (s.subrange(1, s.len() as int), Some(s[0]))
    } else {
        (s, None)
    }
}

impl<T, const N: usize> Queue<T, N> {
    /// Number of elements held.
    pub closed spec fn count(&self) -> int {
        match self.bounds {
            Some((head, tail)) => ring_len(N as int, head as int, tail as int),
            None => 0,
        }
    }

    /// Slot index of the oldest element (0 when empty).
    pub closed spec fn head(&self) -> int {
        match self.bounds {
            Some((head, _)) => head as int,
            None => 0,
        }
    }

    /// Whether slot `s` lies inside the occupied range.
    pub closed spec fn occupied(&self, s: int) -> bool {
        match self.bounds {
            Some((head, tail)) => if head <= tail {
                head <= s <= tail
            } else {
                s >= head || s <= tail
            },
            None => false,
        }
    }

    /// The invariant of the representation: the bounds lie inside the buffer,
    /// every slot inside the occupied range holds a value and every slot
    /// outside of it is vacant.
    pub closed spec fn wf(&self) -> bool {
        &&& match self.bounds {
            Some((head, tail)) => head < N && tail < N,
            None => true,
        }
        &&& forall|s: int|
            0 <= s < N ==> ((#[trigger] self.buffer@[s]) is Some <==> self.occupied(s))
    }

    /// The elements held, oldest first.
    pub closed spec fn view(&self) -> Seq<T> {
        Seq::new(
            self.count() as nat,
            |i: int| self.buffer@[ring_slot(N as int, self.head(), i)]->Some_0,
        )
    }

    /// A well-formed queue never holds more than `N` elements.
    pub proof fn lemma_len_bounded(&self)
        requires
            self.wf(),
        ensures
            self@.len() <= N,
    {
    }

    /// An empty queue.
    pub fn new() -> (q: Self)
        ensures
            q.wf(),
            q@ == Seq::<T>::empty(),
    {
        let q = Queue { bounds: None, buffer: vacant_slots() };
        assert(forall|i: int| 0 <= i < N ==> (#[trigger] q.buffer@[i]) is None);
        assert(q@ =~= Seq::<T>::empty());
        q
    }

    /// The number of elements the queue can hold.
    pub fn capacity(&self) -> (c: usize)
        ensures
            c == N,
    {
        N
    }

    /// The number of elements held.
    pub fn len(&self) -> (n: usize)
        requires
            self.wf(),
        ensures
            n == self@.len(),
            n <= N,
    {
        match self.bounds {
            Some((head, tail)) => {
                if head <= tail {
                    tail - head + 1
                } else {
                    tail + (N - head) + 1
                }
            },
            None => 0,
        }
    }

    /// Whether the queue holds no element.
    pub fn is_empty(&self) -> (b: bool)
        requires
            self.wf(),
        ensures
            b <==> self@.len() == 0,
    {
        self.bounds.is_none()
    }

    /// Whether the queue holds as many elements as it can.
    pub fn is_full(&self) -> (b: bool)
        requires
            self.wf(),
        ensures
            b <==> self@.len() == N,
    {
        match self.bounds {
            Some((head, tail)) => head == Self::inc(tail),
            None => N == 0,
        }
    }

    /// The slot after `val`, wrapping round at the end of the buffer.
    fn inc(val: usize) -> (next: usize)
        requires
            val < N,
        ensures
            next == ring_slot(N as int, val as int, 1),
            next < N,
    {
        proof {
            if val + 1 < N {
                vstd::arithmetic::div_mod::lemma_small_mod((val + 1) as nat, N as nat);
            } else {
                vstd::arithmetic::div_mod::lemma_mod_self_0(N as int);
            }
        }
        (val + 1) % N
    }

    /// Appends `val` behind the newest element; a full queue hands `val`
    /// back and stays as it is.
    pub fn enqueue(&mut self, val: T) -> (r: Result<(), T>)
        requires
            old(self).wf(),
        ensures
            final(self).wf(),
            (final(self)@, r) == enqueued(old(self)@, N as nat, val),
            r is Err ==> *final(self) == *old(self),
    {
        let next = match self.bounds {
            Some((head, tail)) => {
                let next_tail = Self::inc(tail);
                if head == next_tail {
                    None
                } else {
                    Some((head, next_tail))
                }
            },
            None => if N == 0 {
                None
            } else {
                Some((0, 0))
            },
        };
        match next {
            Some((head, tail)) => {
                self.bounds = Some((head, tail));
                self.buffer[tail] = Some(val);
                proof {
                    let before = *old(self);
                    let after = *self;
                    assert(after.count() == before.count() + 1);
                    assert(after.head() == head);
                    assert(before.count() > 0 ==> before.head() == head);
                    assert(ring_slot(N as int, head as int, before.count()) == tail);
                    assert forall|s: int| 0 <= s < N implies ((#[trigger] after.buffer@[s]) is Some
                        <==> after.occupied(s)) by {
                        if s != tail {
                            assert(after.buffer@[s] == before.buffer@[s]);
                        }
                    }
                    assert forall|i: int| 0 <= i < before.count() implies #[trigger] after@[i]
                        == before@[i] by {
                        let s = ring_slot(N as int, head as int, i);
                        assert(s != tail);
                        assert(after.buffer@[s] == before.buffer@[s]);
                    }
                    assert(after@ =~= before@.push(val));
                }
                Ok(())
            },
            None => Err(val),
        }
    }

    /// Removes the oldest element and returns it; an empty queue answers `None`.
    pub fn dequeue(&mut self) -> (r: Option<T>)
        requires
            old(self).wf(),
        ensures
            final(self).wf(),
            (final(self)@, r) == dequeued(old(self)@),
            r is None ==> *final(self) == *old(self),
    {
        match self.bounds {
            Some((head, tail)) => {
                assert(self.occupied(head as int));
                let v = self.buffer[head].take();
                if head == tail {
                    self.bounds = None;
                } else {
                    self.bounds = Some((Self::inc(head), tail));
                }
                proof {
                    let before = *old(self);
                    let after = *self;
                    assert(before.buffer@[head as int] is Some);
                    assert(after.count() == before.count() - 1);
                    assert(before@[0] == before.buffer@[head as int]->Some_0);
                    assert forall|s: int| 0 <= s < N implies ((#[trigger] after.buffer@[s]) is Some
                        <==> after.occupied(s)) by {
                        if s != head {
                            assert(after.buffer@[s] == before.buffer@[s]);
                        }
                    }
                    assert forall|i: int| 0 <= i < after.count() implies #[trigger] after@[i]
                        == before@[i + 1] by {
                        let s = ring_slot(N as int, after.head(), i);
                        assert(s == ring_slot(N as int, head as int, i + 1));
                        assert(s != head);
                        assert(after.buffer@[s] == before.buffer@[s]);
                    }
                    assert(after@ =~= before@.subrange(1, before@.len() as int));
                }
                v
            },
            None => None,
        }
    }

    /// The element `i` places behind the oldest one.
    pub fn get(&self, i: usize) -> (r: Option<&T>)
        requires
            self.wf(),
        ensures
            i < self@.len() ==> r == Some(&self@[i as int]),
            i >= self@.len() ==> r is None,
    {
        if i >= self.len() {
            None
        } else {
            let head = match self.bounds {
                Some((head, _)) => head,
                None => 0,
            };
            let slot = if i < N - head {
                head + i
            } else {
                i - (N - head)
            };
            assert(slot == ring_slot(N as int, head as int, i as int));
            assert(self.occupied(slot as int));
            self.buffer[slot].as_ref()
        }
    }

    /// An iterator over the elements, oldest first.
    pub fn iter(&self) -> (it: Iter<'_, T, N>)
        requires
            self.wf(),
        ensures
            it.wf(),
            it.remaining() == self@,
    {
        Iter::new(self)
    }

    /// An iterator over the elements, oldest first, through which each
    /// element can be changed in place.
    pub fn iter_mut(&mut self) -> (it: IterMut<'_, T, N>)
        requires
            old(self).wf(),
        ensures
            it.wf(),
            it.contents() == old(self)@,
            it.position() == 0,
    {
        IterMut::new(self)
    }

    /// The element `i` places behind the oldest one, to be changed in place.
    pub fn get_mut(&mut self, i: usize) -> (r: Option<&mut T>)
        requires
            old(self).wf(),
        ensures
            i >= old(self)@.len() ==> r is None && *final(self) == *old(self),
            i < old(self)@.len() ==> {
                &&& r is Some
                &&& *r->Some_0 == old(self)@[i as int]
                &&& final(self).wf()
                &&& final(self)@ == old(self)@.update(i as int, *final(r->Some_0))
            },
    {
        if i >= self.len() {
            None
        } else {
            let head = match self.bounds {
                Some((head, _)) => head,
                None => 0,
            };
            let slot = if i < N - head {
                head + i
            } else {
                i - (N - head)
            };
            assert(slot == ring_slot(N as int, head as int, i as int));
            assert(self.occupied(slot as int));
            self.buffer[slot].as_mut()
        }
    }
}

/// Walks a queue from the oldest element to the newest.
pub struct Iter<'a, T, const N: usize> {
    q: &'a Queue<T, N>,
    len: usize,
    index: usize,
}

impl<'a, T, const N: usize> Iter<'a, T, N> {
    /// The invariant of the representation.
    pub closed spec fn wf(&self) -> bool {
        &&& self.q.wf()
        &&& self.len == self.q@.len()
        &&& self.index <= self.len
    }

    /// The elements not handed out yet, oldest first.
    pub closed spec fn remaining(&self) -> Seq<T> {
        self.q@.subrange(self.index as int, self.len as int)
    }

    /// An iterator that starts at the oldest element of `q`.
    pub fn new(q: &'a Queue<T, N>) -> (it: Self)
        requires
            q.wf(),
        ensures
            it.wf(),
            it.remaining() == q@,
    {
        let it = Iter { q, len: q.len(), index: 0 };
        assert(it.remaining() =~= q@);
        it
    }

    /// The next element, or `None` once all have been handed out.
    pub fn next(&mut self) -> (r: Option<&'a T>)
        requires
            old(self).wf(),
        ensures
            final(self).wf(),
            old(self).remaining().len() == 0 ==> {
                &&& r is None
                &&& final(self).remaining() == old(self).remaining()
            },
            old(self).remaining().len() > 0 ==> {
                &&& r == Some(&old(self).remaining()[0])
                &&& final(self).remaining() == old(self).remaining().subrange(
                    1,
                    old(self).remaining().len() as int,
                )
            },
    {
        if self.index >= self.len {
            None
        } else {
            let r = self.q.get(self.index);
            self.index += 1;
            assert(self.remaining() =~= old(self).remaining().subrange(
                1,
                old(self).remaining().len() as int,
            ));
            r
        }
    }
}

/// Walks a queue from the oldest element to the newest and lets each element
/// be changed in place.
pub struct IterMut<'a, T, const N: usize> {
    q: &'a mut Queue<T, N>,
    len: usize,
    index: usize,
}

impl<'a, T, const N: usize> IterMut<'a, T, N> {
    /// The invariant of the representation.
    pub closed spec fn wf(&self) -> bool {
        &&& self.q.wf()
        &&& self.len == self.q@.len()
        &&& self.index <= self.len
    }

    /// The elements of the queue as they stand now.
    pub closed spec fn contents(&self) -> Seq<T> {
        self.q@
    }

    /// How many elements have been handed out.
    pub closed spec fn position(&self) -> nat {
        self.index as nat
    }

    /// An iterator that starts at the oldest element of `q`.
    pub fn new(q: &'a mut Queue<T, N>) -> (it: Self)
        requires
            old(q).wf(),
        ensures
            it.wf(),
            it.contents() == old(q)@,
            it.position() == 0,
    {
        let len = q.len();
        IterMut { q, len, index: 0 }
    }

    /// The next element, or `None` once all have been handed out.
    pub fn next(&mut self) -> (r: Option<&mut T>)
        requires
            old(self).wf(),
        ensures
            old(self).position() >= old(self).contents().len() ==> r is None && *final(self)
                == *old(self),
            old(self).position() < old(self).contents().len() ==> {
                &&& r is Some
                &&& *r->Some_0 == old(self).contents()[old(self).position() as int]
                &&& final(self).wf()
                &&& final(self).position() == old(self).position() + 1
                &&& final(self).contents() == old(self).contents().update(
                    old(self).position() as int,
                    *final(r->Some_0),
                )
            },
    {
        if self.index >= self.len {
            None
        } else {
            let i = self.index;
            self.index += 1;
            self.q.get_mut(i)
        }
    }
}

/// One step of a history of operations on a queue.
pub enum Op<T> {
    /// A call of `enqueue` with this value.
    Enqueue(T),
    /// A call of `dequeue`.
    Dequeue,
}

/// Where a history of operations leaves a queue that started empty.
pub struct Trace<T> {
    /// The contents of the queue.
    pub contents: Seq<T>,
    /// The values that `enqueue` accepted, in the order of the calls.
    pub accepted: Seq<T>,
    /// The values that `dequeue` handed out, in the order of the calls.
    pub removed: Seq<T>,
}

/// Runs the operations `ops`, first to last, on an empty queue of capacity `cap`.
pub open spec fn replay<T>(ops: Seq<Op<T>>, cap: nat) -> Trace<T>
    decreases ops.len(),
{
    if ops.len() == 0 {
        Trace { contents: Seq::empty(), accepted: Seq::empty(), removed: Seq::empty() }
    } else {
        let prev = replay(ops.drop_last(), cap);
        match ops.last() {
            Op::Enqueue(val) => {
                let (contents, answer) = enqueued(prev.contents, cap, val);
                Trace {
                    contents,
                    accepted: if answer is Ok {
                        prev.accepted.push(val)
                    } else {
                        prev.accepted
                    },
                    removed: prev.removed,
                }
            },
            Op::Dequeue => {
                let (contents, answer) = dequeued(prev.contents);
                Trace {
                    contents,
                    accepted: prev.accepted,
                    removed: match answer {
                        Some(val) => prev.removed.push(val),
                        None => prev.removed,
                    },
                }
            },
        }
    }
}

/// First in, first out: after any history of `enqueue` and `dequeue` calls on
/// a queue that started empty, the queue holds at most `cap` elements, and the
/// values handed out so far followed by the values still held are exactly the
/// values accepted, in the order in which they were accepted.
pub proof fn lemma_fifo<T>(ops: Seq<Op<T>>, cap: nat)
    ensures
        replay(ops, cap).contents.len() <= cap,
        replay(ops, cap).accepted == replay(ops, cap).removed + replay(ops, cap).contents,
    decreases ops.len(),
{
    let now = replay(ops, cap);
    if ops.len() == 0 {
        assert(now.accepted =~= now.removed + now.contents);
    } else {
        lemma_fifo(ops.drop_last(), cap);
        let prev = replay(ops.drop_last(), cap);
        assert(prev.accepted =~= prev.removed + prev.contents);
        assert(now.accepted =~= now.removed + now.contents);
    }
}

impl<T, const N: usize> Default for Queue<T, N> {
    fn default() -> (q: Self)
        ensures
            q.wf(),
            q@ == Seq::<T>::empty(),
    {
        Queue::new()
    }
}

} // verus!
