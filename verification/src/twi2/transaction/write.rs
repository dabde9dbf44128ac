//! Writing to a device inside a transaction: start, address, bytes.
use vstd::prelude::*;
use crate::Poll;
use super::Transaction;
use super::super::peripheral::{Direction, Error, TwiOps};
use super::super::raw::{Command, Kind, SlaRw, Start, TwoWireInterface};

verus! {

/// How far a write has come.
enum State<'b> {
    Start(Start, u8, &'b [u8]),
    SlaW(SlaRw, &'b [u8]),
    Write(super::super::raw::Write),
}

/// A write to a device inside a transaction, polled until it has finished.
pub struct Write<'b> {
    state: Option<State<'b>>,
}

/// What a `Write` stands for.
pub enum Stage {
    /// A start condition has been asked for.
    Start(u8, Seq<u8>),
    /// The address has been sent.
    SlaW(Seq<u8>),
    /// The bytes are being sent; the flag says whether there are any.
    Write(bool),
    /// The outcome has been handed over.
    Done,
}

impl Stage {
    /// Whether a write at this stage fits a bus whose command is `command`.
    pub open spec fn fits(self, command: Option<Command>) -> bool {
        match self {
            Stage::Start(_, _) => command matches Some(Command::Start(_)),
            Stage::SlaW(_) => command matches Some(Command::SlaRw { .. }),
            Stage::Write(active) => active ==> command matches Some(Command::Write { .. }),
            Stage::Done => false,
        }
    }

    /// How many stages a write can still pass without waiting.
    pub open spec fn rank(self) -> nat {
        match self {
            Stage::Start(_, _) => 3,
            Stage::SlaW(_) => 2,
            Stage::Write(_) => 1,
            Stage::Done => 0,
        }
    }
}

/// Where polling takes a write at stage `stage`, in a transaction of which
/// `started` says whether it has got as far as a start condition, on a bus
/// with command `command` and flag `set`: the stage, the transaction's flag,
/// the command and the bus's flag afterwards, and the answer.
pub open spec fn polled(stage: Stage, started: bool, command: Option<Command>, set: bool) -> (
    Stage,
    bool,
    Option<Command>,
    bool,
    Poll<Result<(), Error>>,
) {
    match stage {
        Stage::Start(addr, buf) => match command {
            Some(Command::Start(Some(Ok(())))) => (
                Stage::SlaW(buf),
                true,
                Some(Command::SlaRw { addr, direction: Direction::Write, res: None }),
                true,
                Poll::Pending,
            ),
            Some(Command::Start(Some(Err(err)))) => (
                Stage::Done,
                started,
                Some(Command::Start(None)),
                set,
                Poll::Ready(Err(err)),
            ),
            _ => (stage, started, command, set, Poll::Pending),
        },
        Stage::SlaW(buf) => match command {
            Some(Command::SlaRw { addr, direction, res: Some(Ok(())) }) => if buf.len() > 0 {
                (
                    Stage::Write(true),
                    started,
                    Some(Command::Write { buf, idx: 0, res: None }),
                    true,
                    Poll::Pending,
                )
            } else {
                (
                    Stage::Done,
                    started,
                    Some(Command::SlaRw { addr, direction, res: None }),
                    set,
                    Poll::Ready(Ok(())),
                )
            },
            Some(Command::SlaRw { addr, direction, res: Some(Err(err)) }) => (
                Stage::Done,
                started,
                Some(Command::SlaRw { addr, direction, res: None }),
                set,
                Poll::Ready(Err(err)),
            ),
            _ => (stage, started, command, set, Poll::Pending),
        },
        Stage::Write(active) => if active {
            match command {
                Some(Command::Write { buf, idx, res: Some(res) }) => (
                    Stage::Done,
                    started,
                    Some(Command::Write { buf, idx, res: None }),
                    set,
                    Poll::Ready(res),
                ),
                _ => (stage, started, command, set, Poll::Pending),
            }
        } else {
            (Stage::Done, started, command, set, Poll::Ready(Ok(())))
        },
        Stage::Done => (stage, started, command, set, Poll::Pending),
    }
}

impl<'b> Write<'b> {
    /// What the write stands for.
    pub closed spec fn view(&self) -> Stage {
        match self.state {
            Some(State::Start(_, addr, buf)) => Stage::Start(addr, buf@),
            Some(State::SlaW(_, buf)) => Stage::SlaW(buf@),
            Some(State::Write(write)) => Stage::Write(write.active()),
            None => Stage::Done,
        }
    }

    /// Whether the write can be polled on `twi`: whether its stage fits the
    /// command of the bus.
    pub fn is_fitting<TWI: TwiOps, SDA, SCL>(
        &self,
        twi: &TwoWireInterface<'b, TWI, SDA, SCL>,
    ) -> (b: bool)
        ensures
            b == self@.fits(twi.command()),
    {
        let kind = twi.kind();
        match &self.state {
            Some(State::Start(_, _, _)) => kind == Some(Kind::Start),
            Some(State::SlaW(_, _)) => kind == Some(Kind::SlaRw),
            Some(State::Write(write)) => !write.is_active() || kind == Some(Kind::Write),
            None => false,
        }
    }

    /// A write of `buf` to the device `addr`. A start condition is asked for.
    pub(crate) fn new<TWI: TwiOps, SDA, SCL>(
        twi: &mut TwoWireInterface<'b, TWI, SDA, SCL>,
        addr: u8,
        buf: &'b [u8],
    ) -> (write: Self)
        ensures
            final(twi).wf(),
            final(twi).set(),
            final(twi).command() == Some(Command::Start(None)),
            write@ == Stage::Start(addr, buf@),
    {
        let start = twi.start();
        Write { state: Some(State::Start(start, addr, buf)) }
    }

    /// Takes the write as far as it goes without waiting.
    ///
    /// Each stage waits for the hardware to report on its command. When the
    /// report is there, the next command is issued: after the start
    /// condition, from which on the transaction counts as started, the
    /// address with the write direction, and after the address the bytes.
    /// The first error ends the write; no stop condition is asked for.
    pub fn poll<TWI: TwiOps, SDA, SCL>(
        &mut self,
        tx: &mut Transaction,
        twi: &mut TwoWireInterface<'b, TWI, SDA, SCL>,
    ) -> (r: Poll<Result<(), Error>>)
        requires
            old(twi).wf(),
            old(self)@.fits(old(twi).command()),
        ensures
            final(twi).wf(),
            r is Pending ==> final(self)@.fits(final(twi).command()),
            r is Ready ==> final(self)@ is Done,
            (final(self)@, final(tx).started(), final(twi).command(), final(twi).set(), r)
                == polled(old(self)@, old(tx).started(), old(twi).command(), old(twi).set()),
    {
        loop
            invariant
                twi.wf(),
                self@.fits(twi.command()),
                polled(self@, tx.started(), twi.command(), twi.set()) == polled(
                    old(self)@,
                    old(tx).started(),
                    old(twi).command(),
                    old(twi).set(),
                ),
            decreases self@.rank(),
        {
            match self.state.take() {
                Some(State::Start(mut fut, addr, buf)) => match fut.poll(twi) {
                    Poll::Pending => {
                        self.state = Some(State::Start(fut, addr, buf));
                        return Poll::Pending;
                    },
                    Poll::Ready(res) => match res {
                        Ok(()) => {
                            tx.start();
                            let slaw = twi.sla_rw(addr, Direction::Write);
                            self.state = Some(State::SlaW(slaw, buf));
                        },
                        Err(err) => {
                            return Poll::Ready(Err(err));
                        },
                    },
                },
                Some(State::SlaW(mut fut, buf)) => match fut.poll(twi) {
                    Poll::Pending => {
                        self.state = Some(State::SlaW(fut, buf));
                        return Poll::Pending;
                    },
                    Poll::Ready(res) => match res {
                        Ok(()) => {
                            let write = twi.write(buf);
                            self.state = Some(State::Write(write));
                        },
                        Err(err) => {
                            return Poll::Ready(Err(err));
                        },
                    },
                },
                Some(State::Write(mut fut)) => match fut.poll(twi) {
                    Poll::Pending => {
                        self.state = Some(State::Write(fut));
                        return Poll::Pending;
                    },
                    Poll::Ready(res) => {
                        return Poll::Ready(res);
                    },
                },
                None => {
                    return Poll::Pending;
                },
            }
        }
    }
}

} // verus!
