//! A ticker: a counter of ticks that an interrupt handler advances, with a
//! slot per listener into which every snapshot puts the news.
use vstd::prelude::*;
use crate::Poll;
use crate::runtime::{CriticalSection, Memory};
use crate::slab::{Slab, SlabBox};
use crate::snapshot::State;

verus! {

/// The number of listeners that a ticker has room for.
pub const LISTENERS: usize = 4;

/// `heapless::Vec`: a vector of at most `N` elements that lives in place.
#[verifier::external_type_specification]
#[verifier::external_body]
#[verifier::reject_recursive_types(T)]
pub struct ExVec<T, const N: usize>(heapless::Vec<T, N>);

/// The elements of a vector of slots, first to last.
pub uninterp spec fn slots(v: heapless::Vec<Option<u8>, LISTENERS>) -> Seq<Option<u8>>;

/// Whether a vector with the elements `s` has room for one more.
pub open spec fn has_room(s: Seq<Option<u8>>) -> bool {
    s.len() < LISTENERS
}

/// `heapless::Vec::new`: a vector without elements.
#[verifier::external_body]
fn no_slots() -> (v: heapless::Vec<Option<u8>, LISTENERS>)
    ensures
        slots(v) == Seq::<Option<u8>>::empty(),
{
    heapless::Vec::new()
}

/// `heapless::Vec::push`: appends `item` where the vector holds fewer
/// elements than it has room for, which is `LISTENERS`; hands `item` back
/// and leaves the vector as it is where it is full.
#[verifier::external_body]
fn push_slot(v: &mut TickerSlab, item: Option<u8>) -> (r: Result<(), Option<u8>>)
    ensures
        r is Ok == has_room(slots(*old(v))),
        r is Ok ==> slots(*final(v)) == slots(*old(v)).push(item),
        r is Err ==> r->Err_0 == item && slots(*final(v)) == slots(*old(v)),
{
    v.push(item)
}

/// `heapless::Vec::as_slice`: the elements as a slice.
#[verifier::external_body]
fn slots_of(v: &heapless::Vec<Option<u8>, LISTENERS>) -> (s: &[Option<u8>])
    ensures
        s@ == slots(*v),
{
    v.as_slice()
}

/// `heapless::Vec::deref_mut`: the elements as a slice through which they
/// can be changed; their number stays.
#[verifier::external_body]
fn slots_mut(v: &mut heapless::Vec<Option<u8>, LISTENERS>) -> (s: &mut [Option<u8>])
    ensures
        s@ == slots(*old(v)),
        slots(*final(v)) == final(s)@,
{
    core::ops::DerefMut::deref_mut(v)
}

/// The storage of a ticker's slots.
pub type TickerSlab = heapless::Vec<Option<u8>, LISTENERS>;

/// A count of ticks, from 0 to 3 and round again, that goes on with every
/// second call of `tick`, and a slot per listener. A snapshot puts the count
/// into every slot if it has gone on since the snapshot before, and empties
/// every slot if it has not.
pub struct Ticker {
    half: bool,
    changed: bool,
    current: u8,
    snapshots: SlabBox<TickerSlab>,
}

/// The right to read one slot of a ticker.
pub struct TickerListener {
    index: usize,
}

/// A wait for the next news in a listener's slot.
pub struct NextTick {
    index: usize,
}

/// The count after `current`.
pub open spec fn following(current: u8) -> u8 {
    if current == 3 {
        0
    } else {
        (current + 1) as u8
    }
}

impl Ticker {
    /// Whether the next call of `tick` is the second of a pair.
    pub closed spec fn half(&self) -> bool {
        self.half
    }

    /// Whether the count has gone on since the last snapshot.
    pub closed spec fn changed(&self) -> bool {
        self.changed
    }

    /// The count.
    pub closed spec fn current(&self) -> u8 {
        self.current
    }

    /// The slots of the listeners, first listener first.
    pub closed spec fn snapshots(&self) -> Seq<Option<u8>> {
        slots(self.snapshots@)
    }

    /// The invariant of the representation: the count is below 4.
    #[verifier::type_invariant]
    spec fn inv(&self) -> bool {
        self.current < 4
    }

    /// A ticker at count 0 without listeners, with its slots in `slab`.
    pub fn new(slab: Slab<TickerSlab>) -> (ticker: Self)
        ensures
            !ticker.half(),
            !ticker.changed(),
            ticker.current() == 0,
            ticker.snapshots() == Seq::<Option<u8>>::empty(),
    {
        Ticker { half: false, changed: false, current: 0, snapshots: slab.get(no_slots()) }
    }

    /// The number of listeners.
    pub fn listeners(&self) -> (n: usize)
        ensures
            n == self.snapshots().len(),
    {
        slots_of(self.snapshots.as_ptr()).len()
    }

    /// Adds a listener, if there is room for one more slot. The slot starts
    /// empty.
    pub fn subscribe(&mut self) -> (listener: Option<TickerListener>)
        ensures
            final(self).half() == old(self).half(),
            final(self).changed() == old(self).changed(),
            final(self).current() == old(self).current(),
            old(self).snapshots().len() < LISTENERS ==> {
                &&& listener is Some
                &&& listener->Some_0.index() == old(self).snapshots().len()
                &&& final(self).snapshots() == old(self).snapshots().push(None)
            },
            old(self).snapshots().len() >= LISTENERS ==> {
                &&& listener is None
                &&& final(self).snapshots() == old(self).snapshots()
            },
    {
        proof {
            use_type_invariant(&*self);
        }
        let index = slots_of(self.snapshots.as_ptr()).len();
        match push_slot(self.snapshots.as_ptr_mut(), None) {
            Ok(()) => Some(TickerListener { index }),
            Err(_) => None,
        }
    }

    /// Puts the news into the slots: the count into every slot if the count
    /// has gone on since the last snapshot, nothing if it has not.
    pub fn snapshot(&mut self, cs: &CriticalSection)
        ensures
            final(self).half() == old(self).half(),
            !final(self).changed(),
            final(self).current() == old(self).current(),
            final(self).snapshots() == Seq::new(
                old(self).snapshots().len(),
                |i: int|
                    if old(self).changed() {
                        Some(old(self).current())
                    } else {
                        None
                    },
            ),
    {
        proof {
            use_type_invariant(&*self);
        }
        let news = if self.changed {
            Some(self.current)
        } else {
            None
        };
        self.changed = false;
        fill(slots_mut(self.snapshots.as_ptr_mut()), news);
    }

    /// Takes note of a tick. Every second tick makes the count go on, from
    /// 3 to 0. The answer says whether the count has gone on since the last
    /// snapshot.
    pub fn tick(&mut self, cs: &CriticalSection) -> (changed: bool)
        ensures
            final(self).snapshots() == old(self).snapshots(),
            final(self).half() == !old(self).half(),
            final(self).changed() == (old(self).half() || old(self).changed()),
            final(self).current() == (if old(self).half() {
                following(old(self).current())
            } else {
                old(self).current()
            }),
            changed == final(self).changed(),
    {
        proof {
            use_type_invariant(&*self);
        }
        if self.half {
            self.half = false;
            self.changed = true;
            self.current = (self.current + 1) % 4;
        } else {
            self.half = true;
        }
        self.changed
    }
}

impl State for Ticker {
    fn snapshot(&mut self, cs: &CriticalSection)
        ensures
            final(self).half() == old(self).half(),
            !final(self).changed(),
            final(self).current() == old(self).current(),
            final(self).snapshots() == Seq::new(
                old(self).snapshots().len(),
                |i: int|
                    if old(self).changed() {
                        Some(old(self).current())
                    } else {
                        None
                    },
            ),
    {
        Ticker::snapshot(self, cs)
    }
}

impl Memory for Ticker {
    type Slab = Option<TickerSlab>;

    fn reserve() -> (mem: Option<TickerSlab>)
        ensures
            mem is None,
    {
        None
    }

    fn from_ptr(mem: Option<TickerSlab>) -> (ticker: Self)
        ensures
            !ticker.half(),
            !ticker.changed(),
            ticker.current() == 0,
            ticker.snapshots() == Seq::<Option<u8>>::empty(),
    {
        Ticker::new(Slab::from_ptr(mem))
    }
}

/// Puts `value` into every element of `s`.
fn fill(s: &mut [Option<u8>], value: Option<u8>)
    ensures
        final(s)@ == Seq::new(old(s)@.len(), |i: int| value),
{
    let len = s.len();
    let mut i: usize = 0;
    while i < len
        invariant
            i <= len,
            len == s@.len(),
            s@.len() == old(s)@.len(),
            forall|j: int| 0 <= j < i ==> s@[j] == value,
        decreases len - i,
    {
        s[i] = value;
        i += 1;
    }
    assert(s@ =~= Seq::new(old(s)@.len(), |i: int| value));
}

impl TickerListener {
    /// The number of the listener's slot.
    pub closed spec fn index(&self) -> nat {
        self.index as nat
    }

    /// A wait for the next news in the slot.
    pub fn next(&mut self) -> (next: NextTick)
        ensures
            next.index() == old(self).index(),
            final(self).index() == old(self).index(),
    {
        NextTick { index: self.index }
    }
}

impl NextTick {
    /// The number of the slot waited on.
    pub closed spec fn index(&self) -> nat {
        self.index as nat
    }

    /// Takes the news out of the slot: `Ready` with the count if the slot
    /// holds one, `Pending` if it is empty. A slot that the ticker does not
    /// have never holds news: the answer is `Pending`, and the ticker stays
    /// as it is.
    pub fn poll(&mut self, ticker: &mut Ticker) -> (r: Poll<u8>)
        ensures
            final(self).index() == old(self).index(),
            final(ticker).half() == old(ticker).half(),
            final(ticker).changed() == old(ticker).changed(),
            final(ticker).current() == old(ticker).current(),
            old(self).index() < old(ticker).snapshots().len() ==> {
                &&& final(ticker).snapshots() == old(ticker).snapshots().update(
                    old(self).index() as int,
                    None,
                )
                &&& r == (match old(ticker).snapshots()[old(self).index() as int] {
                    Some(count) => Poll::Ready(count),
                    None => Poll::Pending,
                })
            },
            old(self).index() >= old(ticker).snapshots().len() ==> {
                &&& final(ticker).snapshots() == old(ticker).snapshots()
                &&& r is Pending
            },
    {
        proof {
            use_type_invariant(&*ticker);
        }
        let s = slots_mut(ticker.snapshots.as_ptr_mut());
        if self.index < s.len() {
            match s[self.index].take() {
                Some(count) => Poll::Ready(count),
                None => Poll::Pending,
            }
        } else {
            Poll::Pending
        }
    }
}

} // verus!
