//! Storage that is reserved once, handed out once and initialised once.
use vstd::prelude::*;
use crate::runtime::{CriticalSection, Memory};

verus! {

/// Reserved storage for one value of type `T`, not initialised yet. Writing a
/// value into it with `get` uses the slab up and gives the handle that owns
/// the value.
pub struct Slab<T> {
    mem: Option<T>,
}

/// The owner of a value that lives in a slab.
pub struct SlabBox<T> {
    mem: T,
}

impl<T> Slab<T> {
    /// Whether the storage holds nothing.
    pub closed spec fn vacant(&self) -> bool {
        self.mem is None
    }

    /// A slab over storage that holds nothing.
    pub fn new() -> (slab: Self)
        ensures
            slab.vacant(),
    {
        Slab { mem: None }
    }

    /// Writes `value` into the storage and hands out the owner of the value.
    /// Whatever the storage held before is dropped.
    pub fn get(self, value: T) -> (owner: SlabBox<T>)
        ensures
            owner@ == value,
    {
        SlabBox { mem: value }
    }
}

impl<T> Memory for Slab<T> {
    type Slab = Option<T>;

    fn reserve() -> (mem: Option<T>)
        ensures
            mem is None,
    {
        None
    }

    fn from_ptr(mem: Option<T>) -> (slab: Self)
        ensures
            slab.vacant() == (mem is None),
    {
        Slab { mem }
    }
}

impl<T> SlabBox<T> {
    /// The value owned.
    pub closed spec fn view(&self) -> T {
        self.mem
    }

    /// The owner of `value`, for a value that lives in a slab already.
    pub fn from_ptr(value: T) -> (owner: Self)
        ensures
            owner@ == value,
    {
        SlabBox { mem: value }
    }

    /// The value, to be read.
    pub fn as_ptr(&self) -> (value: &T)
        ensures
            *value == self@,
    {
        &self.mem
    }

    /// The value, to be changed.
    pub fn as_ptr_mut(&mut self) -> (value: &mut T)
        ensures
            *value == old(self)@,
            final(self)@ == *final(value),
        no_unwind
    {
        &mut self.mem
    }

    /// The value, to be read.
    pub fn as_ref(&self) -> (value: &T)
        ensures
            *value == self@,
    {
        &self.mem
    }

    /// The value, to be changed.
    pub fn as_mut(&mut self) -> (value: &mut T)
        ensures
            *value == old(self)@,
            final(self)@ == *final(value),
    {
        &mut self.mem
    }

    /// Gives the value to the caller; the owner is gone and will not drop it.
    pub fn leak(this: Self) -> (value: T)
        ensures
            value == this@,
    {
        this.mem
    }
}

/// The one instance of a slab, or of a set of slabs, `M`: the storage
/// together with the flag that says whether it has been handed out.
pub struct SingletonSlab<M: Memory> {
    taken: bool,
    mem: Option<M::Slab>,
}

impl<M: Memory> SingletonSlab<M> {
    /// Whether the instance has been handed out.
    pub closed spec fn taken(&self) -> bool {
        self.taken
    }

    /// The storage, as long as it has not been handed out.
    pub closed spec fn storage(&self) -> Option<M::Slab> {
        self.mem
    }

    /// The invariant of the representation: storage that has not been handed
    /// out is there.
    pub closed spec fn wf(&self) -> bool {
        !self.taken ==> self.mem is Some
    }

    /// Reserves the storage; it has not been handed out.
    pub fn new() -> (slab: Self)
        ensures
            slab.wf(),
            !slab.taken(),
            slab.storage() is Some,
            call_ensures(M::reserve, (), slab.storage()->Some_0),
    {
        SingletonSlab { taken: false, mem: Some(M::reserve()) }
    }

    /// Hands the instance out if it has not been handed out before, and
    /// marks it as handed out. The flag is only touched inside a critical
    /// section, so that an interrupt cannot come between reading and
    /// writing it.
    pub fn take(&mut self, cs: &CriticalSection) -> (instance: Option<M>)
        requires
            old(self).wf(),
        ensures
            final(self).wf(),
            (final(self).taken(), instance is Some) == taken_step(old(self).taken()),
            instance is Some ==> call_ensures(
                M::from_ptr,
                (old(self).storage()->Some_0,),
                instance->Some_0,
            ),
            instance is Some ==> final(self).storage() is None,
            instance is None ==> final(self).storage() == old(self).storage(),
    {
        if self.taken {
            None
        } else {
            self.taken = true;
            match self.mem.take() {
                Some(mem) => Some(M::from_ptr(mem)),
                None => None,
            }
        }
    }
}

/// What `take` does to the flag, and whether it hands the instance out.
pub open spec fn taken_step(taken: bool) -> (bool, bool) {
    (true, !taken)
}

/// Whether each of `n` calls of `take` on a fresh singleton hands the
/// instance out, first call first, and the flag after the last of them.
pub open spec fn takes(n: nat) -> (bool, Seq<bool>)
    decreases n,
{
    if n == 0 {
        (false, Seq::empty())
    } else {
        let (taken, handed) = takes((n - 1) as nat);
        (taken_step(taken).0, handed.push(taken_step(taken).1))
    }
}

/// Handed out exactly once: of any number of calls of `take` on a fresh
/// singleton, the first hands the instance out and no other does.
pub proof fn lemma_taken_once(n: nat)
    ensures
        takes(n).1.len() == n,
        takes(n).0 == (n > 0),
        forall|i: int| 0 <= i < n ==> #[trigger] takes(n).1[i] == (i == 0),
    decreases n,
{
    if n > 0 {
        lemma_taken_once((n - 1) as nat);
    }
}

} // verus!
