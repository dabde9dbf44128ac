//! Several transfers between one start and one stop condition.
use vstd::prelude::*;
use crate::Poll;
use super::peripheral::TwiOps;
use super::raw::{Command, TwoWireInterface};

pub mod read;
pub mod write;

verus! {

/// A request for a transaction, polled until the bus is there for it.
pub struct GetTransaction {
    done: bool,
}

/// A transaction: transfers that follow each other without the bus being
/// given up in between. Ending the transaction sends the stop condition, if
/// a transfer has got as far as its start condition.
pub struct Transaction {
    started: bool,
}

impl GetTransaction {
    /// Whether the transaction has been handed over.
    pub closed spec fn done(&self) -> bool {
        self.done
    }

    /// Whether the transaction has been handed over.
    pub fn is_done(&self) -> (done: bool)
        ensures
            done == self.done(),
    {
        self.done
    }

    /// A request for a transaction on `twi`.
    pub fn new<'b, TWI: TwiOps, SDA, SCL>(twi: &TwoWireInterface<'b, TWI, SDA, SCL>) -> (get: Self)
        ensures
            !get.done(),
    {
        GetTransaction { done: false }
    }

    /// Hands the transaction over while the flag of `twi` is up; `Pending`
    /// while it is down.
    pub fn poll<'b, TWI: TwiOps, SDA, SCL>(
        &mut self,
        twi: &TwoWireInterface<'b, TWI, SDA, SCL>,
    ) -> (r: Poll<Transaction>)
        requires
            !old(self).done(),
        ensures
            r is Ready <==> twi.set(),
            final(self).done() == twi.set(),
            r is Ready ==> !r->Ready_0.started(),
    {
        if twi.is_set() {
            self.done = true;
            Poll::Ready(Transaction::new())
        } else {
            Poll::Pending
        }
    }
}

impl Transaction {
    /// Whether a transfer of the transaction has got as far as its start
    /// condition.
    pub closed spec fn started(&self) -> bool {
        self.started
    }

    /// Whether a transfer of the transaction has got as far as its start
    /// condition.
    pub fn is_started(&self) -> (started: bool)
        ensures
            started == self.started(),
    {
        self.started
    }

    fn new() -> (tx: Self)
        ensures
            !tx.started(),
    {
        Transaction { started: false }
    }

    /// Takes note that a transfer has got as far as its start condition.
    pub(crate) fn start(&mut self)
        ensures
            final(self).started(),
    {
        self.started = true;
    }

    /// A write of `buf` to the device `addr` as part of the transaction. A
    /// start condition is asked for.
    pub fn write<'b, TWI: TwiOps, SDA, SCL>(
        &mut self,
        twi: &mut TwoWireInterface<'b, TWI, SDA, SCL>,
        addr: u8,
        buf: &'b [u8],
    ) -> (write: write::Write<'b>)
        ensures
            final(self).started() == old(self).started(),
            final(twi).wf(),
            final(twi).set(),
            final(twi).command() == Some(Command::Start(None)),
            write@ == write::Stage::Start(addr, buf@),
    {
        write::Write::new(twi, addr, buf)
    }

    /// A read from the device `addr` that fills `buf`, as part of the
    /// transaction. A start condition is asked for.
    pub fn read<'b, TWI: TwiOps, SDA, SCL>(
        &mut self,
        twi: &mut TwoWireInterface<'b, TWI, SDA, SCL>,
        addr: u8,
        buf: &'b mut [u8],
    ) -> (read: read::Read<'b>)
        ensures
            final(self).started() == old(self).started(),
            final(twi).wf(),
            final(twi).set(),
            final(twi).command() == Some(Command::Start(None)),
            read@ == read::Stage::Start(addr, old(buf)@),
            read.wf(),
    {
        read::Read::new(twi, addr, buf)
    }

    /// Ends the transaction: a stop condition that nobody waits for is asked
    /// for, if a transfer has got as far as its start condition; otherwise
    /// the bus stays as it is.
    pub fn finish<'b, TWI: TwiOps, SDA, SCL>(self, twi: &mut TwoWireInterface<'b, TWI, SDA, SCL>)
        ensures
            self.started() ==> {
                &&& final(twi).wf()
                &&& final(twi).set()
                &&& final(twi).command() == Some(Command::Stop(None))
            },
            !self.started() ==> {
                &&& final(twi).set() == old(twi).set()
                &&& final(twi).command() == old(twi).command()
                &&& final(twi).hardware() == old(twi).hardware()
            },
    {
        if self.started {
            twi.stop_unbound();
        }
    }
}

} // verus!
