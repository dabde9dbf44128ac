//! A cell for state that interrupt handlers and foreground code share.
use vstd::prelude::*;

verus! {

/// A value that may be placed in storage shared between interrupt handlers
/// and foreground code. It is read through `get` and changed through
/// `get_mut`; whoever changes it must hold it exclusively, which on this
/// hardware means: inside a critical section.
pub struct SyncUnsafeCell<T> {
    value: T,
}

impl<T> SyncUnsafeCell<T> {
    /// The value held.
    pub closed spec fn view(&self) -> T {
        self.value
    }

    /// A cell that holds `value`.
    pub fn new(value: T) -> (cell: Self)
        ensures
            cell@ == value,
    {
        SyncUnsafeCell { value }
    }

    /// The value held; the cell is gone.
    pub fn into_inner(self) -> (value: T)
        ensures
            value == self@,
    {
        self.value
    }

    /// The value, to be read.
    pub fn get(&self) -> (value: &T)
        ensures
            *value == self@,
    {
        &self.value
    }

    /// The value, to be changed.
    pub fn get_mut(&mut self) -> (value: &mut T)
        ensures
            *value == old(self)@,
            final(self)@ == *final(value),
    {
        &mut self.value
    }
}

impl<T: Default> Default for SyncUnsafeCell<T> {
    fn default() -> (cell: Self)
        ensures
            T::default.ensures((), cell@),
    {
        SyncUnsafeCell::new(T::default())
    }
}

impl<T> From<T> for SyncUnsafeCell<T> {
    fn from(t: T) -> (cell: Self)
        ensures
            cell@ == t,
    {
        SyncUnsafeCell::new(t)
    }
}

impl<T> vstd::std_specs::convert::FromSpecImpl<T> for SyncUnsafeCell<T> {
    open spec fn obeys_from_spec() -> bool {
        true
    }

    closed spec fn from_spec(t: T) -> Self {
        SyncUnsafeCell { value: t }
    }
}

} // verus!
