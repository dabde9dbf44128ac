//! Transfers described as a sequence of actions.
use vstd::prelude::*;
use super::Address;
use super::buffer::{InputBuffer, OutputBuffer};

verus! {

/// One step of a transfer.
pub enum Action<O: OutputBuffer, I: InputBuffer> {
    /// Send the bytes of the buffer to the device.
    Write(Address, O),
    /// Fill the buffer with bytes from the device.
    Read(Address, I),
}

/// What turns into a step of a transfer with a device.
pub trait IntoAction {
    /// The source of the bytes of a write.
    type Output: OutputBuffer;

    /// The place for the bytes of a read.
    type Input: InputBuffer;

    /// The step of a transfer with the device `address`.
    fn into_action(&mut self, address: Address) -> Action<Self::Output, Self::Input>;
}

/// A sequence of actions.
pub trait Transaction<O: OutputBuffer, I: InputBuffer> {
    /// The actions that have not been handed out yet, next one first.
    spec fn pending(&self) -> Seq<Action<O, I>>;

    /// The next action, or `None` when all have been handed out.
    fn next(&mut self) -> (action: Option<Action<O, I>>)
        ensures
            old(self).pending().len() == 0 ==> {
                &&& action is None
                &&& final(self).pending() == old(self).pending()
            },
            old(self).pending().len() > 0 ==> {
                &&& action == Some(old(self).pending()[0])
                &&& final(self).pending() == old(self).pending().subrange(
                    1,
                    old(self).pending().len() as int,
                )
            },
    ;
}

/// A transfer of one action.
pub struct SingleActionTransaction<O: OutputBuffer, I: InputBuffer> {
    action: Option<Action<O, I>>,
}

impl<O: OutputBuffer, I: InputBuffer> SingleActionTransaction<O, I> {
    /// The transfer that consists of `action`.
    pub fn new(action: Action<O, I>) -> (t: Self)
        ensures
            t.pending() == seq![action],
    {
        SingleActionTransaction { action: Some(action) }
    }
}

impl<O: OutputBuffer, I: InputBuffer> Transaction<O, I> for SingleActionTransaction<O, I> {
    closed spec fn pending(&self) -> Seq<Action<O, I>> {
        match self.action {
            Some(action) => seq![action],
            None => Seq::empty(),
        }
    }

    fn next(&mut self) -> (action: Option<Action<O, I>>) {
        let action = self.action.take();
        proof {
            if action is Some {
                assert(self.pending() =~= old(self).pending().subrange(
                    1,
                    old(self).pending().len() as int,
                ));
            }
        }
        action
    }
}

} // verus!
