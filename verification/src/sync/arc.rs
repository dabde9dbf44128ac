//! The bookkeeping of a value that has several owners.
use vstd::prelude::*;

verus! {

/// A value together with the number of its owners. The value is dropped
/// when the last owner has gone.
pub struct ArcSlab<T> {
    count: usize,
    value: Option<T>,
}

impl<T> ArcSlab<T> {
    /// The number of owners.
    pub closed spec fn count(&self) -> nat {
        self.count as nat
    }

    /// The value; `None` once the last owner has gone.
    pub closed spec fn view(&self) -> Option<T> {
        self.value
    }

    /// The invariant of the representation: the value is there as long as
    /// it has an owner.
    pub closed spec fn wf(&self) -> bool {
        self.count > 0 <==> self.value is Some
    }

    /// `value` with one owner.
    pub fn new(value: T) -> (slab: Self)
        ensures
            slab.wf(),
            slab.count() == 1,
            slab@ == Some(value),
    {
        ArcSlab { count: 1, value: Some(value) }
    }

    /// Takes note of one more owner.
    pub fn inc(&mut self)
        requires
            old(self).wf(),
            0 < old(self).count() < usize::MAX,
        ensures
            final(self).wf(),
            final(self).count() == old(self).count() + 1,
            final(self)@ == old(self)@,
    {
        self.count += 1;
    }

    /// Takes note that an owner has gone. The value is handed out, to be
    /// dropped, when that was the last owner.
    pub fn dec(&mut self) -> (dropped: Option<T>)
        requires
            old(self).wf(),
            old(self).count() > 0,
        ensures
            final(self).wf(),
            final(self).count() == old(self).count() - 1,
            old(self).count() == 1 ==> dropped == old(self)@ && final(self)@ is None,
            old(self).count() > 1 ==> dropped is None && final(self)@ == old(self)@,
    {
        self.count -= 1;
        if self.count == 0 {
            self.value.take()
        } else {
            None
        }
    }

    /// The number of owners.
    pub fn strong_count(&self) -> (count: usize)
        ensures
            count == self.count(),
    {
        self.count
    }

    /// The value, for an owner to read.
    pub fn value(&self) -> (value: &T)
        requires
            self.wf(),
            self.count() > 0,
        ensures
            Some(*value) == self@,
    {
        match &self.value {
            Some(value) => value,
            None => vstd::pervasive::unreached(),
        }
    }
}

} // verus!
