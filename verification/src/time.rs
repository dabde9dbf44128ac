//! Time as a count of ticks: a counter that an interrupt handler advances,
//! and delays measured against it.
use vstd::prelude::*;
use crate::Poll;
use crate::runtime::CriticalSection;
use crate::snapshot::State;

verus! {

/// An unsigned integer type that can count ticks.
pub trait UInt: Copy + Sized {
    /// The number that a value stands for.
    spec fn value(self) -> nat;

    /// The largest number of the type.
    spec fn max() -> nat;

    /// No value stands for a number above `max`.
    proof fn lemma_bounded(self)
        ensures
            self.value() <= Self::max(),
    ;

    /// Zero.
    fn zero() -> (r: Self)
        ensures
            r.value() == 0,
    ;

    /// The largest value of the type.
    fn max_value() -> (r: Self)
        ensures
            r.value() == Self::max(),
    ;

    /// The sum, if the type can hold it.
    fn checked_add(self, other: Self) -> (r: Option<Self>)
        ensures
            self.value() + other.value() <= Self::max() ==> r is Some && r->Some_0.value()
                == self.value() + other.value(),
            self.value() + other.value() > Self::max() ==> r is None,
    ;

    /// The difference of a value and one that is not larger.
    fn minus(self, other: Self) -> (r: Self)
        requires
            other.value() <= self.value(),
        ensures
            r.value() == self.value() - other.value(),
    ;

    /// The value after this one; zero after the largest.
    fn successor(self) -> (r: Self)
        ensures
            r.value() == (if self.value() == Self::max() {
                0
            } else {
                self.value() + 1
            }),
    ;

    /// Whether this value is larger than `other`.
    fn exceeds(self, other: Self) -> (r: bool)
        ensures
            r == (self.value() > other.value()),
    ;
}

impl UInt for u8 {
    open spec fn value(self) -> nat {
        self as nat
    }

    open spec fn max() -> nat {
        u8::MAX as nat
    }

    proof fn lemma_bounded(self) {
    }

    fn zero() -> (r: Self) {
        0
    }

    fn max_value() -> (r: Self) {
        u8::MAX
    }

    fn checked_add(self, other: Self) -> (r: Option<Self>) {
        if other <= u8::MAX - self {
            Some(self + other)
        } else {
            None
        }
    }

    fn minus(self, other: Self) -> (r: Self) {
        self - other
    }

    fn successor(self) -> (r: Self) {
        if self == u8::MAX {
            0
        } else {
            self + 1
        }
    }

    fn exceeds(self, other: Self) -> (r: bool) {
        self > other
    }
}

impl UInt for u16 {
    open spec fn value(self) -> nat {
        self as nat
    }

    open spec fn max() -> nat {
        u16::MAX as nat
    }

    proof fn lemma_bounded(self) {
    }

    fn zero() -> (r: Self) {
        0
    }

    fn max_value() -> (r: Self) {
        u16::MAX
    }

    fn checked_add(self, other: Self) -> (r: Option<Self>) {
        if other <= u16::MAX - self {
            Some(self + other)
        } else {
            None
        }
    }

    fn minus(self, other: Self) -> (r: Self) {
        self - other
    }

    fn successor(self) -> (r: Self) {
        if self == u16::MAX {
            0
        } else {
            self + 1
        }
    }

    fn exceeds(self, other: Self) -> (r: bool) {
        self > other
    }
}

impl UInt for u32 {
    open spec fn value(self) -> nat {
        self as nat
    }

    open spec fn max() -> nat {
        u32::MAX as nat
    }

    proof fn lemma_bounded(self) {
    }

    fn zero() -> (r: Self) {
        0
    }

    fn max_value() -> (r: Self) {
        u32::MAX
    }

    fn checked_add(self, other: Self) -> (r: Option<Self>) {
        if other <= u32::MAX - self {
            Some(self + other)
        } else {
            None
        }
    }

    fn minus(self, other: Self) -> (r: Self) {
        self - other
    }

    fn successor(self) -> (r: Self) {
        if self == u32::MAX {
            0
        } else {
            self + 1
        }
    }

    fn exceeds(self, other: Self) -> (r: bool) {
        self > other
    }
}

impl UInt for u64 {
    open spec fn value(self) -> nat {
        self as nat
    }

    open spec fn max() -> nat {
        u64::MAX as nat
    }

    proof fn lemma_bounded(self) {
    }

    fn zero() -> (r: Self) {
        0
    }

    fn max_value() -> (r: Self) {
        u64::MAX
    }

    fn checked_add(self, other: Self) -> (r: Option<Self>) {
        if other <= u64::MAX - self {
            Some(self + other)
        } else {
            None
        }
    }

    fn minus(self, other: Self) -> (r: Self) {
        self - other
    }

    fn successor(self) -> (r: Self) {
        if self == u64::MAX {
            0
        } else {
            self + 1
        }
    }

    fn exceeds(self, other: Self) -> (r: bool) {
        self > other
    }
}

impl UInt for usize {
    open spec fn value(self) -> nat {
        self as nat
    }

    open spec fn max() -> nat {
        usize::MAX as nat
    }

    proof fn lemma_bounded(self) {
    }

    fn zero() -> (r: Self) {
        0
    }

    fn max_value() -> (r: Self) {
        usize::MAX
    }

    fn checked_add(self, other: Self) -> (r: Option<Self>) {
        if other <= usize::MAX - self {
            Some(self + other)
        } else {
            None
        }
    }

    fn minus(self, other: Self) -> (r: Self) {
        self - other
    }

    fn successor(self) -> (r: Self) {
        if self == usize::MAX {
            0
        } else {
            self + 1
        }
    }

    fn exceeds(self, other: Self) -> (r: bool) {
        self > other
    }
}

/// A count of ticks. An interrupt handler advances the counter; tasks read
/// the value that the last snapshot has put in place for them.
pub struct TickCounter<I: UInt> {
    counter: I,
    snapshot: I,
}

/// The number of ticks from `start` to `now` on a counter that starts again
/// at zero after `max`: `now - start` where the counter has not started
/// again, and `max - start + now` where it has.
pub open spec fn ticks_between(start: nat, now: nat, max: nat) -> nat {
    if start > now {
        (max - start + now) as nat
    } else {
        (now - start) as nat
    }
}

/// The number of ticks from `start` to `now`.
pub fn elapsed<I: UInt>(start: I, now: I) -> (r: Option<I>)
    ensures
        r is Some,
        r->Some_0.value() == ticks_between(start.value(), now.value(), I::max()),
{
    proof {
        start.lemma_bounded();
        now.lemma_bounded();
    }
    if start.exceeds(now) {
        I::max_value().minus(start).checked_add(now)
    } else {
        Some(now.minus(start))
    }
}

impl<I: UInt> TickCounter<I> {
    /// The count as interrupt handlers see it.
    pub closed spec fn counter(&self) -> nat {
        self.counter.value()
    }

    /// The count as tasks see it.
    pub closed spec fn view(&self) -> nat {
        self.snapshot.value()
    }

    /// A counter at zero.
    pub fn new() -> (c: Self)
        ensures
            c.counter() == 0,
            c@ == 0,
    {
        TickCounter { counter: I::zero(), snapshot: I::zero() }
    }

    /// Advances the count by one tick; after the largest count it starts
    /// again at zero. For interrupt handlers.
    pub fn inc(&mut self, cs: &CriticalSection)
        ensures
            final(self)@ == old(self)@,
            final(self).counter() == (if old(self).counter() == I::max() {
                0
            } else {
                old(self).counter() + 1
            }),
    {
        self.counter = self.counter.successor();
    }

    /// The count as of the last snapshot.
    pub fn get(&self) -> (ticks: I)
        ensures
            ticks.value() == self@,
    {
        self.snapshot
    }

    /// The count as it is now, read inside a critical section.
    pub fn get_real(&self, cs: &CriticalSection) -> (ticks: I)
        ensures
            ticks.value() == self.counter(),
    {
        self.counter
    }

    /// A delay of `delay` ticks from now.
    pub fn delay(&self, delay: I) -> (d: TickDelay<I>)
        ensures
            d.start() == self@,
            d.delay() == delay.value(),
    {
        TickDelay::new(self, delay)
    }

    /// An interval of `interval` ticks.
    pub fn interval(&self, interval: I) -> (i: TickInterval<I>)
        ensures
            i.interval() == interval.value(),
    {
        TickInterval::new(self, interval)
    }
}

impl<I: UInt> State for TickCounter<I> {
    fn snapshot(&mut self, cs: &CriticalSection)
        ensures
            final(self)@ == old(self).counter(),
            final(self).counter() == old(self).counter(),
    {
        self.snapshot = self.counter;
    }
}

impl<I: UInt> Default for TickCounter<I> {
    fn default() -> (c: Self)
        ensures
            c.counter() == 0,
            c@ == 0,
    {
        TickCounter::new()
    }
}

/// A wait for a number of ticks.
pub struct TickDelay<I: UInt> {
    start: I,
    delay: I,
}

impl<I: UInt> TickDelay<I> {
    /// The count at which the wait began.
    pub closed spec fn start(&self) -> nat {
        self.start.value()
    }

    /// The number of ticks to wait.
    pub closed spec fn delay(&self) -> nat {
        self.delay.value()
    }

    /// A wait of `delay` ticks that begins at the count that `tick` shows.
    pub fn new(tick: &TickCounter<I>, delay: I) -> (d: Self)
        ensures
            d.start() == tick@,
            d.delay() == delay.value(),
    {
        TickDelay { start: tick.get(), delay }
    }

    /// `Ready` once the count that `tick` shows is `delay` ticks or more past
    /// the count at which the wait began.
    pub fn poll(&self, tick: &TickCounter<I>) -> (r: Poll<()>)
        ensures
            r is Ready <==> ticks_between(self.start(), tick@, I::max()) >= self.delay(),
    {
        let done = match elapsed(self.start, tick.get()) {
            Some(ticks) => !self.delay.exceeds(ticks),
            None => true,
        };
        if done {
            Poll::Ready(())
        } else {
            Poll::Pending
        }
    }
}

/// A source of waits of one length.
pub struct TickInterval<I: UInt> {
    interval: I,
}

impl<I: UInt> TickInterval<I> {
    /// The length of the waits, in ticks.
    pub closed spec fn interval(&self) -> nat {
        self.interval.value()
    }

    /// A source of waits of `interval` ticks on `tick`.
    pub fn new(tick: &TickCounter<I>, interval: I) -> (i: Self)
        ensures
            i.interval() == interval.value(),
    {
        TickInterval { interval }
    }

    /// A wait of one interval that begins at the count that `tick` shows.
    pub fn next(&self, tick: &TickCounter<I>) -> (d: TickDelay<I>)
        ensures
            d.start() == tick@,
            d.delay() == self.interval(),
    {
        TickDelay::new(tick, self.interval)
    }
}

} // verus!
