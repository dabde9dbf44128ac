//! Two-wire bus master that is driven by the bus interrupt: a transfer is a
//! sequence of commands, each started by a task and completed by the
//! interrupt handler.
use vstd::prelude::*;
use crate::Poll;
use self::peripheral::TwiOps;
use self::raw::TwoWireInterface;

pub mod peripheral;
pub mod raw;
pub mod read;
pub mod transaction;
pub mod write;

pub use self::peripheral::Error;

verus! {

/// A wait on the flag that says that the hardware works on a command.
pub struct Wait {
    _private: (),
}

impl Wait {
    /// A wait on the flag of `twi`.
    pub fn new<'b, TWI: TwiOps, SDA, SCL>(twi: &mut TwoWireInterface<'b, TWI, SDA, SCL>) -> (wait:
        Self)
        ensures
            *final(twi) == *old(twi),
    {
        Wait { _private: () }
    }

    /// `Ready` while the flag of `twi` is up, `Pending` while it is down.
    pub fn poll<'b, TWI: TwiOps, SDA, SCL>(
        &mut self,
        twi: &TwoWireInterface<'b, TWI, SDA, SCL>,
    ) -> (r: Poll<()>)
        ensures
            r is Ready <==> twi.set(),
    {
        if twi.is_set() {
            Poll::Ready(())
        } else {
            Poll::Pending
        }
    }
}

} // verus!
