//! Reading from a device inside a transaction: start, address, bytes.
use vstd::prelude::*;
use crate::Poll;
use super::Transaction;
use super::super::peripheral::{Direction, Error, TwiOps};
use super::super::raw::{Command, Kind, SlaRw, Start, TwoWireInterface};

verus! {

/// How far a read has come.
enum State<'b> {
    Start(Start, u8, &'b mut [u8]),
    SlaR(SlaRw, &'b mut [u8]),
    Read(super::super::raw::Read, Option<&'b mut [u8]>),
}

/// A read from a device inside a transaction, polled until it has finished.
pub struct Read<'b> {
    state: Option<State<'b>>,
}

/// What a `Read` stands for.
pub enum Stage {
    /// A start condition has been asked for.
    Start(u8, Seq<u8>),
    /// The address has been sent.
    SlaR(Seq<u8>),
    /// The bytes are being received. Where there is room for none, the
    /// buffer is at hand.
    Read(Option<Seq<u8>>),
    /// The outcome has been handed over.
    Done,
}

impl Stage {
    /// Whether a read at this stage fits a bus whose command is `command`.
    pub open spec fn fits(self, command: Option<Command>) -> bool {
        match self {
            Stage::Start(_, _) => command matches Some(Command::Start(_)),
            Stage::SlaR(_) => command matches Some(Command::SlaRw { .. }),
            Stage::Read(None) => command matches Some(Command::Read { .. }),
            Stage::Read(Some(buf)) => buf.len() == 0,
            Stage::Done => false,
        }
    }

    /// How many stages a read can still pass without waiting.
    pub open spec fn rank(self) -> nat {
        match self {
            Stage::Start(_, _) => 3,
            Stage::SlaR(_) => 2,
            Stage::Read(_) => 1,
            Stage::Done => 0,
        }
    }
}

/// Where polling takes a read at stage `stage`, in a transaction of which
/// `started` says whether it has got as far as a start condition, on a bus
/// with command `command` and flag `set`: the stage, the transaction's flag,
/// the command and the bus's flag afterwards, and the answer, which holds
/// the outcome and the content of the buffer.
pub open spec fn polled(stage: Stage, started: bool, command: Option<Command>, set: bool) -> (
    Stage,
    bool,
    Option<Command>,
    bool,
    Poll<(Result<(), Error>, Seq<u8>)>,
) {
    match stage {
        Stage::Start(addr, buf) => match command {
            Some(Command::Start(Some(Ok(())))) => (
                Stage::SlaR(buf),
                true,
                Some(Command::SlaRw { addr, direction: Direction::Read, res: None }),
                true,
                Poll::Pending,
            ),
            Some(Command::Start(Some(Err(err)))) => (
                Stage::Done,
                started,
                Some(Command::Start(None)),
                set,
                Poll::Ready((Err(err), buf)),
            ),
            _ => (stage, started, command, set, Poll::Pending),
        },
        Stage::SlaR(buf) => match command {
            Some(Command::SlaRw { addr, direction, res: Some(Ok(())) }) => if buf.len() > 0 {
                (
                    Stage::Read(None),
                    started,
                    Some(Command::Read { buf, idx: 0, res: None }),
                    true,
                    Poll::Pending,
                )
            } else {
                (
                    Stage::Done,
                    started,
                    Some(Command::SlaRw { addr, direction, res: None }),
                    set,
                    Poll::Ready((Ok(()), buf)),
                )
            },
            Some(Command::SlaRw { addr, direction, res: Some(Err(err)) }) => (
                Stage::Done,
                started,
                Some(Command::SlaRw { addr, direction, res: None }),
                set,
                Poll::Ready((Err(err), buf)),
            ),
            _ => (stage, started, command, set, Poll::Pending),
        },
        Stage::Read(None) => match command {
            Some(Command::Read { buf, idx, res: Some(res) }) => (
                Stage::Done,
                started,
                None,
                false,
                Poll::Ready((res, buf)),
            ),
            _ => (stage, started, command, set, Poll::Pending),
        },
        Stage::Read(Some(buf)) => (Stage::Done, started, command, set, Poll::Ready((Ok(()), buf))),
        Stage::Done => (stage, started, command, set, Poll::Pending),
    }
}

/// What an answer of `poll` says: the outcome and the content of the buffer.
pub open spec fn answer(r: Poll<(Result<(), Error>, &mut [u8])>) -> Poll<
    (Result<(), Error>, Seq<u8>),
> {
    match r {
        Poll::Ready((res, buf)) => Poll::Ready((res, buf@)),
        Poll::Pending => Poll::Pending,
    }
}

impl<'b> Read<'b> {
    /// What the read stands for.
    pub closed spec fn view(&self) -> Stage {
        match self.state {
            Some(State::Start(_, addr, buf)) => Stage::Start(addr, buf@),
            Some(State::SlaR(_, buf)) => Stage::SlaR(buf@),
            Some(State::Read(_, Some(buf))) => Stage::Read(Some(buf@)),
            Some(State::Read(_, None)) => Stage::Read(None),
            None => Stage::Done,
        }
    }

    /// The invariant of the representation.
    pub closed spec fn wf(&self) -> bool {
        match self.state {
            Some(State::Read(read, buf)) => read.active() == (buf is None),
            _ => true,
        }
    }

    /// Whether the read can be polled on `twi`: whether its stage fits the
    /// command of the bus.
    pub fn is_fitting<TWI: TwiOps, SDA, SCL>(
        &self,
        twi: &TwoWireInterface<'b, TWI, SDA, SCL>,
    ) -> (b: bool)
        ensures
            b == self@.fits(twi.command()),
    {
        let kind = twi.kind();
        match &self.state {
            Some(State::Start(_, _, _)) => kind == Some(Kind::Start),
            Some(State::SlaR(_, _)) => kind == Some(Kind::SlaRw),
            Some(State::Read(_, None)) => kind == Some(Kind::Read),
            Some(State::Read(_, Some(buf))) => buf.len() == 0,
            None => false,
        }
    }

    /// A read from the device `addr` that fills `buf`. A start condition is
    /// asked for.
    pub(crate) fn new<TWI: TwiOps, SDA, SCL>(
        twi: &mut TwoWireInterface<'b, TWI, SDA, SCL>,
        addr: u8,
        buf: &'b mut [u8],
    ) -> (read: Self)
        ensures
            final(twi).wf(),
            final(twi).set(),
            final(twi).command() == Some(Command::Start(None)),
            read@ == Stage::Start(addr, old(buf)@),
            read.wf(),
    {
        let start = twi.start();
        Read { state: Some(State::Start(start, addr, buf)) }
    }

    /// Takes the read as far as it goes without waiting.
    ///
    /// Each stage waits for the hardware to report on its command. When the
    /// report is there, the next command is issued: after the start
    /// condition, from which on the transaction counts as started, the
    /// address with the read direction, and after the address the request
    /// for the bytes. The first error ends the read; no stop condition is
    /// asked for. The buffer comes back with the outcome.
    pub fn poll<TWI: TwiOps, SDA, SCL>(
        &mut self,
        tx: &mut Transaction,
        twi: &mut TwoWireInterface<'b, TWI, SDA, SCL>,
    ) -> (r: Poll<(Result<(), Error>, &'b mut [u8])>)
        requires
            old(twi).wf(),
            old(self).wf(),
            old(self)@.fits(old(twi).command()),
        ensures
            final(twi).wf(),
            final(self).wf(),
            r is Pending ==> final(self)@.fits(final(twi).command()),
            r is Ready ==> final(self)@ is Done,
            (final(self)@, final(tx).started(), final(twi).command(), final(twi).set(), answer(r))
                == polled(old(self)@, old(tx).started(), old(twi).command(), old(twi).set()),
    {
        loop
            invariant
                twi.wf(),
                self.wf(),
                self@.fits(twi.command()),
                polled(self@, tx.started(), twi.command(), twi.set()) == polled(
                    old(self)@,
                    old(tx).started(),
                    old(twi).command(),
                    old(twi).set(),
                ),
            decreases self@.rank(),
        {
            match self.state.take() {
                Some(State::Start(mut fut, addr, buf)) => match fut.poll(twi) {
                    Poll::Pending => {
                        self.state = Some(State::Start(fut, addr, buf));
                        return Poll::Pending;
                    },
                    Poll::Ready(res) => match res {
                        Ok(()) => {
                            tx.start();
                            let slar = twi.sla_rw(addr, Direction::Read);
                            self.state = Some(State::SlaR(slar, buf));
                        },
                        Err(err) => {
                            return Poll::Ready((Err(err), buf));
                        },
                    },
                },
                Some(State::SlaR(mut fut, buf)) => match fut.poll(twi) {
                    Poll::Pending => {
                        self.state = Some(State::SlaR(fut, buf));
                        return Poll::Pending;
                    },
                    Poll::Ready(res) => match res {
                        Ok(()) => {
                            let (read, back) = twi.read(buf);
                            self.state = Some(State::Read(read, back));
                        },
                        Err(err) => {
                            return Poll::Ready((Err(err), buf));
                        },
                    },
                },
                Some(State::Read(mut fut, back)) => match fut.poll(twi) {
                    Poll::Pending => {
                        self.state = Some(State::Read(fut, back));
                        return Poll::Pending;
                    },
                    Poll::Ready(res) => {
                        let buf = match back {
                            Some(buf) => Some(buf),
                            None => twi.take_buffer(),
                        };
                        match buf {
                            Some(buf) => {
                                return Poll::Ready((res, buf));
                            },
                            None => {
                                return Poll::Pending;
                            },
                        }
                    },
                },
                None => {
                    return Poll::Pending;
                },
            }
        }
    }
}

} // verus!
