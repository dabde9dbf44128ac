//! Reading from a device: start, address, bytes, stop.
use vstd::prelude::*;
use crate::Poll;
use super::Wait;
use super::peripheral::{Direction, Error, TwiOps};
use super::raw::{Command, Kind, SlaRw, Start, Stop, TwoWireInterface};

verus! {

/// How far a read has come.
enum State<'b> {
    Wait(Wait, u8, &'b mut [u8]),
    Start(Start, u8, &'b mut [u8]),
    SlaR(SlaRw, &'b mut [u8]),
    Read(super::raw::Read, Option<&'b mut [u8]>),
    Stop(Stop, Result<(), Error>, &'b mut [u8]),
}

/// A read from a device, polled until it has finished.
pub struct Read<'b> {
    state: Option<State<'b>>,
}

/// What a `Read` stands for.
pub enum Stage {
    /// The read waits for the bus; the address is still to be sent.
    Wait(u8, Seq<u8>),
    /// A start condition has been asked for.
    Start(u8, Seq<u8>),
    /// The address has been sent.
    SlaR(Seq<u8>),
    /// The bytes are being received. Where there is room for none, the
    /// buffer is at hand.
    Read(Option<Seq<u8>>),
    /// A stop condition has been asked for; the outcome of the read and the
    /// content of the buffer stand.
    Stop(Result<(), Error>, Seq<u8>),
    /// The outcome has been handed over.
    Done,
}

impl Stage {
    /// Whether a read at this stage fits a bus whose command is `command`.
    pub open spec fn fits(self, command: Option<Command>) -> bool {
        match self {
            Stage::Wait(_, _) => true,
            Stage::Start(_, _) => command matches Some(Command::Start(_)),
            Stage::SlaR(_) => command matches Some(Command::SlaRw { .. }),
            Stage::Read(None) => command matches Some(Command::Read { .. }),
            Stage::Read(Some(buf)) => buf.len() == 0,
            Stage::Stop(_, _) => command matches Some(Command::Stop(_)),
            Stage::Done => false,
        }
    }

    /// How many stages a read can still pass without waiting.
    pub open spec fn rank(self) -> nat {
        match self {
            Stage::Wait(_, _) => 5,
            Stage::Start(_, _) => 4,
            Stage::SlaR(_) => 3,
            Stage::Read(_) => 2,
            Stage::Stop(_, _) => 1,
            Stage::Done => 0,
        }
    }
}

/// Where polling takes a read at stage `stage` on a bus with command
/// `command` and flag `set`: the stage, the command and the flag afterwards,
/// and the answer, which holds the outcome and the content of the buffer.
pub open spec fn polled(stage: Stage, command: Option<Command>, set: bool) -> (
    Stage,
    Option<Command>,
    bool,
    Poll<(Result<(), Error>, Seq<u8>)>,
) {
    match stage {
        Stage::Wait(addr, buf) => if set {
            (Stage::Start(addr, buf), Some(Command::Start(None)), true, Poll::Pending)
        } else {
            (stage, command, set, Poll::Pending)
        },
        Stage::Start(addr, buf) => match command {
            Some(Command::Start(Some(Ok(())))) => (
                Stage::SlaR(buf),
                Some(Command::SlaRw { addr, direction: Direction::Write, res: None }),
                true,
                Poll::Pending,
            ),
            Some(Command::Start(Some(Err(err)))) => (
                Stage::Done,
                Some(Command::Start(None)),
                set,
                Poll::Ready((Err(err), buf)),
            ),
            _ => (stage, command, set, Poll::Pending),
        },
        Stage::SlaR(buf) => match command {
            Some(Command::SlaRw { res: Some(Ok(())), .. }) => if buf.len() > 0 {
                (
                    Stage::Read(None),
                    Some(Command::Read { buf, idx: 0, res: None }),
                    true,
                    Poll::Pending,
                )
            } else {
                (Stage::Stop(Ok(()), buf), Some(Command::Stop(None)), true, Poll::Pending)
            },
            Some(Command::SlaRw { res: Some(Err(err)), .. }) => (
                Stage::Stop(Err(err), buf),
                Some(Command::Stop(None)),
                true,
                Poll::Pending,
            ),
            _ => (stage, command, set, Poll::Pending),
        },
        Stage::Read(None) => match command {
            Some(Command::Read { buf, idx, res: Some(res) }) => (
                Stage::Stop(res, buf),
                Some(Command::Stop(None)),
                true,
                Poll::Pending,
            ),
            _ => (stage, command, set, Poll::Pending),
        },
        Stage::Read(Some(buf)) => (
            Stage::Stop(Ok(()), buf),
            Some(Command::Stop(None)),
            true,
            Poll::Pending,
        ),
        Stage::Stop(res, buf) => match command {
            Some(Command::Stop(Some(_))) => (
                Stage::Done,
                Some(Command::Stop(None)),
                set,
                Poll::Ready((res, buf)),
            ),
            _ => (stage, command, set, Poll::Pending),
        },
        Stage::Done => (stage, command, set, Poll::Pending),
    }
}

/// What an answer of `poll` says: the outcome and the content of the buffer.
pub open spec fn answer(r: Poll<(Result<(), Error>, &mut [u8])>) -> Poll<
    (Result<(), Error>, Seq<u8>),
> {
    match r {
        Poll::Ready((res, buf)) => Poll::Ready((res, buf@)),
        Poll::Pending => Poll::Pending,
    }
}

impl<'b> Read<'b> {
    /// What the read stands for.
    pub closed spec fn view(&self) -> Stage {
        match self.state {
            Some(State::Wait(_, addr, buf)) => Stage::Wait(addr, buf@),
            Some(State::Start(_, addr, buf)) => Stage::Start(addr, buf@),
            Some(State::SlaR(_, buf)) => Stage::SlaR(buf@),
            Some(State::Read(_, Some(buf))) => Stage::Read(Some(buf@)),
            Some(State::Read(_, None)) => Stage::Read(None),
            Some(State::Stop(_, res, buf)) => Stage::Stop(res, buf@),
            None => Stage::Done,
        }
    }

    /// The invariant of the representation.
    pub closed spec fn wf(&self) -> bool {
        match self.state {
            Some(State::Read(read, buf)) => read.active() == (buf is None),
            _ => true,
        }
    }

    /// Whether the read can be polled on `twi`: whether its stage fits the
    /// command of the bus.
    pub fn is_fitting<TWI: TwiOps, SDA, SCL>(
        &self,
        twi: &TwoWireInterface<'b, TWI, SDA, SCL>,
    ) -> (b: bool)
        ensures
            b == self@.fits(twi.command()),
    {
        let kind = twi.kind();
        match &self.state {
            Some(State::Wait(_, _, _)) => true,
            Some(State::Start(_, _, _)) => kind == Some(Kind::Start),
            Some(State::SlaR(_, _)) => kind == Some(Kind::SlaRw),
            Some(State::Read(_, None)) => kind == Some(Kind::Read),
            Some(State::Read(_, Some(buf))) => buf.len() == 0,
            Some(State::Stop(_, _, _)) => kind == Some(Kind::Stop),
            None => false,
        }
    }

    /// A read from the device `addr` that fills `buf`. Where the hardware
    /// works on a command, the read waits; where it does not, a start
    /// condition is asked for.
    pub fn new<TWI: TwiOps, SDA, SCL>(
        twi: &mut TwoWireInterface<'b, TWI, SDA, SCL>,
        addr: u8,
        buf: &'b mut [u8],
    ) -> (read: Self)
        requires
            old(twi).wf(),
        ensures
            final(twi).wf(),
            read.wf(),
            read@.fits(final(twi).command()),
            old(twi).set() ==> {
                &&& read@ == Stage::Wait(addr, old(buf)@)
                &&& final(twi).command() == old(twi).command()
                &&& final(twi).set()
            },
            !old(twi).set() ==> {
                &&& read@ == Stage::Start(addr, old(buf)@)
                &&& final(twi).command() == Some(Command::Start(None))
                &&& final(twi).set()
            },
    {
        let state = if twi.is_set() {
            State::Wait(Wait::new(twi), addr, buf)
        } else {
            State::Start(twi.start(), addr, buf)
        };
        Read { state: Some(state) }
    }

    /// Takes the read as far as it goes without waiting.
    ///
    /// Each stage waits for the hardware to report on its command. When the
    /// report is there, the next command is issued: after the start
    /// condition the address, after the address the request for the bytes,
    /// after the bytes the stop condition. An error of the start condition
    /// ends the read at once; an error of the address or of the bytes is
    /// kept, a stop condition is asked for, and the error is the outcome
    /// once the stop condition has been sent. The buffer comes back with
    /// the outcome.
    pub fn poll<TWI: TwiOps, SDA, SCL>(
        &mut self,
        twi: &mut TwoWireInterface<'b, TWI, SDA, SCL>,
    ) -> (r: Poll<(Result<(), Error>, &'b mut [u8])>)
        requires
            old(twi).wf(),
            old(self).wf(),
            old(self)@.fits(old(twi).command()),
        ensures
            final(twi).wf(),
            final(self).wf(),
            r is Pending ==> final(self)@.fits(final(twi).command()),
            r is Ready ==> final(self)@ is Done,
            (final(self)@, final(twi).command(), final(twi).set(), answer(r)) == polled(
                old(self)@,
                old(twi).command(),
                old(twi).set(),
            ),
    {
        loop
            invariant
                twi.wf(),
                self.wf(),
                self@.fits(twi.command()),
                polled(self@, twi.command(), twi.set()) == polled(
                    old(self)@,
                    old(twi).command(),
                    old(twi).set(),
                ),
            decreases self@.rank(),
        {
            match self.state.take() {
                Some(State::Wait(mut fut, addr, buf)) => match fut.poll(twi) {
                    Poll::Pending => {
                        self.state = Some(State::Wait(fut, addr, buf));
                        return Poll::Pending;
                    },
                    Poll::Ready(()) => {
                        let start = twi.start();
                        self.state = Some(State::Start(start, addr, buf));
                    },
                },
                Some(State::Start(mut fut, addr, buf)) => match fut.poll(twi) {
                    Poll::Pending => {
                        self.state = Some(State::Start(fut, addr, buf));
                        return Poll::Pending;
                    },
                    Poll::Ready(res) => match res {
                        Ok(()) => {
                            let slar = twi.sla_rw(addr, Direction::Write);
                            self.state = Some(State::SlaR(slar, buf));
                        },
                        Err(err) => {
                            return Poll::Ready((Err(err), buf));
                        },
                    },
                },
                Some(State::SlaR(mut fut, buf)) => match fut.poll(twi) {
                    Poll::Pending => {
                        self.state = Some(State::SlaR(fut, buf));
                        return Poll::Pending;
                    },
                    Poll::Ready(res) => match res {
                        Ok(()) => {
                            let (read, back) = twi.read(buf);
                            self.state = Some(State::Read(read, back));
                        },
                        Err(err) => {
                            let stop = twi.stop();
                            self.state = Some(State::Stop(stop, Err(err), buf));
                        },
                    },
                },
                Some(State::Read(mut fut, back)) => match fut.poll(twi) {
                    Poll::Pending => {
                        self.state = Some(State::Read(fut, back));
                        return Poll::Pending;
                    },
                    Poll::Ready(res) => {
                        let buf = match back {
                            Some(buf) => Some(buf),
                            None => twi.take_buffer(),
                        };
                        match buf {
                            Some(buf) => {
                                let stop = twi.stop();
                                self.state = Some(State::Stop(stop, res, buf));
                            },
                            None => {
                                return Poll::Pending;
                            },
                        }
                    },
                },
                Some(State::Stop(mut fut, res, buf)) => match fut.poll(twi) {
                    Poll::Pending => {
                        self.state = Some(State::Stop(fut, res, buf));
                        return Poll::Pending;
                    },
                    Poll::Ready(()) => {
                        return Poll::Ready((res, buf));
                    },
                },
                None => {
                    return Poll::Pending;
                },
            }
        }
    }
}

} // verus!
