//! Writing to a device: start, address, bytes, stop.
use vstd::prelude::*;
use crate::Poll;
use super::Wait;
use super::peripheral::{Direction, Error, TwiOps};
use super::raw::{Command, Kind, SlaRw, Start, Stop, TwoWireInterface};

verus! {

/// How far a write has come.
enum State<'b> {
    Wait(Wait, u8, &'b [u8]),
    Start(Start, u8, &'b [u8]),
    SlaW(SlaRw, &'b [u8]),
    Write(super::raw::Write),
    Stop(Stop, Result<(), Error>),
}

/// A write to a device, polled until it has finished.
pub struct Write<'b> {
    state: Option<State<'b>>,
}

/// What a `Write` stands for.
pub enum Stage {
    /// The write waits for the bus; address and bytes are still to be sent.
    Wait(u8, Seq<u8>),
    /// A start condition has been asked for.
    Start(u8, Seq<u8>),
    /// The address has been sent.
    SlaW(Seq<u8>),
    /// The bytes are being sent; the flag says whether there are any.
    Write(bool),
    /// A stop condition has been asked for; the outcome of the write stands.
    Stop(Result<(), Error>),
    /// The outcome has been handed over.
    Done,
}

impl Stage {
    /// Whether a write at this stage fits a bus whose command is `command`.
    pub open spec fn fits(self, command: Option<Command>) -> bool {
        match self {
            Stage::Wait(_, _) => true,
            Stage::Start(_, _) => command matches Some(Command::Start(_)),
            Stage::SlaW(_) => command matches Some(Command::SlaRw { .. }),
            Stage::Write(active) => active ==> command matches Some(Command::Write { .. }),
            Stage::Stop(_) => command matches Some(Command::Stop(_)),
            Stage::Done => false,
        }
    }

    /// How many stages a write can still pass without waiting.
    pub open spec fn rank(self) -> nat {
        match self {
            Stage::Wait(_, _) => 5,
            Stage::Start(_, _) => 4,
            Stage::SlaW(_) => 3,
            Stage::Write(_) => 2,
            Stage::Stop(_) => 1,
            Stage::Done => 0,
        }
    }
}

impl<'b> Write<'b> {
    /// What the write stands for.
    pub closed spec fn view(&self) -> Stage {
        match self.state {
            Some(State::Wait(_, addr, buf)) => Stage::Wait(addr, buf@),
            Some(State::Start(_, addr, buf)) => Stage::Start(addr, buf@),
            Some(State::SlaW(_, buf)) => Stage::SlaW(buf@),
            Some(State::Write(write)) => Stage::Write(write.active()),
            Some(State::Stop(_, res)) => Stage::Stop(res),
            None => Stage::Done,
        }
    }

    /// Whether the write can be polled on `twi`: whether its stage fits the
    /// command of the bus.
    pub fn is_fitting<TWI: TwiOps, SDA, SCL>(
        &self,
        twi: &TwoWireInterface<'b, TWI, SDA, SCL>,
    ) -> (b: bool)
        ensures
            b == self@.fits(twi.command()),
    {
        let kind = twi.kind();
        match &self.state {
            Some(State::Wait(_, _, _)) => true,
            Some(State::Start(_, _, _)) => kind == Some(Kind::Start),
            Some(State::SlaW(_, _)) => kind == Some(Kind::SlaRw),
            Some(State::Write(write)) => !write.is_active() || kind == Some(Kind::Write),
            Some(State::Stop(_, _)) => kind == Some(Kind::Stop),
            None => false,
        }
    }

    /// A write of `buf` to the device `addr`. Where the hardware works on a
    /// command, the write waits; where it does not, a start condition is
    /// asked for.
    pub fn new<TWI: TwiOps, SDA, SCL>(
        twi: &mut TwoWireInterface<'b, TWI, SDA, SCL>,
        addr: u8,
        buf: &'b [u8],
    ) -> (write: Self)
        requires
            old(twi).wf(),
        ensures
            final(twi).wf(),
            write@.fits(final(twi).command()),
            old(twi).set() ==> {
                &&& write@ == Stage::Wait(addr, buf@)
                &&& final(twi).command() == old(twi).command()
                &&& final(twi).set()
            },
            !old(twi).set() ==> {
                &&& write@ == Stage::Start(addr, buf@)
                &&& final(twi).command() == Some(Command::Start(None))
                &&& final(twi).set()
            },
    {
        let state = if twi.is_set() {
            State::Wait(Wait::new(twi), addr, buf)
        } else {
            State::Start(twi.start(), addr, buf)
        };
        Write { state: Some(state) }
    }

    /// Takes the write as far as it goes without waiting.
    ///
    /// Each stage waits for the hardware to report on its command. When the
    /// report is there, the next command is issued: after the start
    /// condition the address with the write direction, after the address
    /// the bytes, after the bytes the stop condition. An error of the start
    /// condition ends the write at once; an error of the address or of the
    /// bytes is kept, a stop condition is asked for, and the error is the
    /// outcome once the stop condition has been sent.
    pub fn poll<TWI: TwiOps, SDA, SCL>(
        &mut self,
        twi: &mut TwoWireInterface<'b, TWI, SDA, SCL>,
    ) -> (r: Poll<Result<(), Error>>)
        requires
            old(twi).wf(),
            old(self)@.fits(old(twi).command()),
        ensures
            final(twi).wf(),
            r is Pending ==> final(self)@.fits(final(twi).command()),
            r is Ready ==> final(self)@ is Done,
            (final(self)@, final(twi).command(), final(twi).set(), r) == polled(
                old(self)@,
                old(twi).command(),
                old(twi).set(),
            ),
    {
        loop
            invariant
                twi.wf(),
                self@.fits(twi.command()),
                polled(self@, twi.command(), twi.set()) == polled(
                    old(self)@,
                    old(twi).command(),
                    old(twi).set(),
                ),
            decreases self@.rank(),
        {
            match self.state.take() {
                Some(State::Wait(mut fut, addr, buf)) => match fut.poll(twi) {
                    Poll::Pending => {
                        self.state = Some(State::Wait(fut, addr, buf));
                        return Poll::Pending;
                    },
                    Poll::Ready(()) => {
                        let start = twi.start();
                        self.state = Some(State::Start(start, addr, buf));
                    },
                },
                Some(State::Start(mut fut, addr, buf)) => match fut.poll(twi) {
                    Poll::Pending => {
                        self.state = Some(State::Start(fut, addr, buf));
                        return Poll::Pending;
                    },
                    Poll::Ready(res) => match res {
                        Ok(()) => {
                            let slaw = twi.sla_rw(addr, Direction::Write);
                            self.state = Some(State::SlaW(slaw, buf));
                        },
                        Err(err) => {
                            return Poll::Ready(Err(err));
                        },
                    },
                },
                Some(State::SlaW(mut fut, buf)) => match fut.poll(twi) {
                    Poll::Pending => {
                        self.state = Some(State::SlaW(fut, buf));
                        return Poll::Pending;
                    },
                    Poll::Ready(res) => match res {
                        Ok(()) => {
                            let write = twi.write(buf);
                            self.state = Some(State::Write(write));
                        },
                        Err(err) => {
                            let stop = twi.stop();
                            self.state = Some(State::Stop(stop, Err(err)));
                        },
                    },
                },
                Some(State::Write(mut fut)) => match fut.poll(twi) {
                    Poll::Pending => {
                        self.state = Some(State::Write(fut));
                        return Poll::Pending;
                    },
                    Poll::Ready(res) => {
                        let stop = twi.stop();
                        self.state = Some(State::Stop(stop, res));
                    },
                },
                Some(State::Stop(mut fut, res)) => match fut.poll(twi) {
                    Poll::Pending => {
                        self.state = Some(State::Stop(fut, res));
                        return Poll::Pending;
                    },
                    Poll::Ready(()) => {
                        return Poll::Ready(res);
                    },
                },
                None => {
                    return Poll::Pending;
                },
            }
        }
    }
}

/// Where polling takes a write at stage `stage` on a bus with command
/// `command` and flag `set`: the stage, the command and the flag afterwards,
/// and the answer.
pub open spec fn polled(stage: Stage, command: Option<Command>, set: bool) -> (
    Stage,
    Option<Command>,
    bool,
    Poll<Result<(), Error>>,
) {
    match stage {
        Stage::Wait(addr, buf) => if set {
            (Stage::Start(addr, buf), Some(Command::Start(None)), true, Poll::Pending)
        } else {
            (stage, command, set, Poll::Pending)
        },
        Stage::Start(addr, buf) => match command {
            Some(Command::Start(Some(Ok(())))) => (
                Stage::SlaW(buf),
                Some(Command::SlaRw { addr, direction: Direction::Write, res: None }),
                true,
                Poll::Pending,
            ),
            Some(Command::Start(Some(Err(err)))) => (
                Stage::Done,
                Some(Command::Start(None)),
                set,
                Poll::Ready(Err(err)),
            ),
            _ => (stage, command, set, Poll::Pending),
        },
        Stage::SlaW(buf) => match command {
            Some(Command::SlaRw { res: Some(Ok(())), .. }) => if buf.len() > 0 {
                (
                    Stage::Write(true),
                    Some(Command::Write { buf, idx: 0, res: None }),
                    true,
                    Poll::Pending,
                )
            } else {
                (Stage::Stop(Ok(())), Some(Command::Stop(None)), true, Poll::Pending)
            },
            Some(Command::SlaRw { res: Some(Err(err)), .. }) => (
                Stage::Stop(Err(err)),
                Some(Command::Stop(None)),
                true,
                Poll::Pending,
            ),
            _ => (stage, command, set, Poll::Pending),
        },
        Stage::Write(active) => if active {
            match command {
                Some(Command::Write { buf, idx, res: Some(res) }) => (
                    Stage::Stop(res),
                    Some(Command::Stop(None)),
                    true,
                    Poll::Pending,
                ),
                _ => (stage, command, set, Poll::Pending),
            }
        } else {
            (Stage::Stop(Ok(())), Some(Command::Stop(None)), true, Poll::Pending)
        },
        Stage::Stop(res) => match command {
            Some(Command::Stop(Some(_))) => (
                Stage::Done,
                Some(Command::Stop(None)),
                set,
                Poll::Ready(res),
            ),
            _ => (stage, command, set, Poll::Pending),
        },
        Stage::Done => (stage, command, set, Poll::Pending),
    }
}

} // verus!
