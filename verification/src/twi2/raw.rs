//! The commands of a transfer: what a task asks the hardware to do, and what
//! the interrupt handler makes of the hardware's answer.
use vstd::prelude::*;
use crate::Poll;
use crate::runtime::{CriticalSection, Runtime};
use super::peripheral::{Direction, Error, TwiOps, TwiPeripheral};

verus! {

/// A command in progress, with the place for its outcome.
#[allow(inconsistent_fields)]
pub enum State<'b> {
    /// A start condition.
    Start(Option<Result<(), Error>>),
    /// The address `addr` with the direction.
    SlaRw { addr: u8, direction: Direction, res: Option<Result<(), Error>> },
    /// The bytes of `buf`, of which `idx` have been acknowledged.
    Write { buf: &'b [u8], idx: usize, res: Option<Result<(), Error>> },
    /// Bytes to fill `buf`, of which `idx` have been received.
    Read { buf: &'b mut [u8], idx: usize, res: Option<Result<(), Error>> },
    /// A stop condition.
    Stop(Option<()>),
}

/// What a command in progress stands for.
pub enum Command {
    /// A start condition, with its outcome.
    Start(Option<Result<(), Error>>),
    /// The address `addr` with the direction, with the outcome.
    SlaRw { addr: u8, direction: Direction, res: Option<Result<(), Error>> },
    /// The bytes `buf`, of which `idx` have been acknowledged, with the outcome.
    Write { buf: Seq<u8>, idx: nat, res: Option<Result<(), Error>> },
    /// Bytes to fill `buf`, of which `idx` have been received, with the outcome.
    Read { buf: Seq<u8>, idx: nat, res: Option<Result<(), Error>> },
    /// A stop condition, with its outcome.
    Stop(Option<()>),
}

/// The kind of a command.
#[derive(Debug, Clone, Copy, PartialEq, Eq, Structural)]
pub enum Kind {
    /// A start condition.
    Start,
    /// Address and direction.
    SlaRw,
    /// Bytes to send.
    Write,
    /// Bytes to receive.
    Read,
    /// A stop condition.
    Stop,
}

/// What the hardware reports when it has finished a step.
#[derive(Debug, Clone, Copy, PartialEq, Eq)]
pub enum Report {
    /// The outcome of a start condition.
    Start(Result<(), Error>),
    /// The outcome of sending address and direction.
    SlaRw(Result<(), Error>),
    /// The outcome of sending a byte.
    Write(Result<(), Error>),
    /// The outcome of asking for a byte: the byte received.
    Read(Result<u8, Error>),
    /// A stop condition has been sent.
    Stop,
}

/// What the hardware is to do next.
#[derive(Debug, Clone, Copy, PartialEq, Eq, Structural)]
pub enum Next {
    /// Nothing.
    Nothing,
    /// Send this byte.
    Write(u8),
    /// Ask for a byte; the flag says that it is the last one.
    Read(bool),
}

/// Where a report leaves a command: the command afterwards, whether it has
/// finished, and what the hardware is to do next.
pub struct Step {
    /// The command afterwards.
    pub command: Command,
    /// Whether the command has finished.
    pub done: bool,
    /// What the hardware is to do next.
    pub next: Next,
}

impl Command {
    /// Whether the command can take a report: a write or a read has a byte left.
    pub open spec fn active(self) -> bool {
        match self {
            Command::Write { buf, idx, res } => idx < buf.len(),
            Command::Read { buf, idx, res } => idx < buf.len(),
            _ => true,
        }
    }

    /// The kind of the command.
    pub open spec fn kind(self) -> Kind {
        match self {
            Command::Start(_) => Kind::Start,
            Command::SlaRw { .. } => Kind::SlaRw,
            Command::Write { .. } => Kind::Write,
            Command::Read { .. } => Kind::Read,
            Command::Stop(_) => Kind::Stop,
        }
    }

    /// Whether `report` is of the kind that the command waits for.
    pub open spec fn awaits(self, report: Report) -> bool {
        match (self, report) {
            (Command::Start(_), Report::Start(_)) => true,
            (Command::SlaRw { .. }, Report::SlaRw(_)) => true,
            (Command::Write { .. }, Report::Write(_)) => true,
            (Command::Read { .. }, Report::Read(_)) => true,
            (Command::Stop(_), Report::Stop) => true,
            _ => false,
        }
    }

    /// Where `report` leaves the command.
    ///
    /// A start, an address and a stop finish with the first report. A write
    /// goes on to the next byte on every acknowledgement and finishes when
    /// all bytes are acknowledged, or with the first error. A read stores
    /// every byte received and finishes when the buffer is full; an error is
    /// noted as the outcome without finishing the command.
    pub open spec fn after(self, report: Report) -> Step {
        match (self, report) {
            (Command::Start(_), Report::Start(r)) => Step {
                command: Command::Start(Some(r)),
                done: true,
                next: Next::Nothing,
            },
            (Command::SlaRw { addr, direction, res }, Report::SlaRw(r)) => Step {
                command: Command::SlaRw { addr, direction, res: Some(r) },
                done: true,
                next: Next::Nothing,
            },
            (Command::Write { buf, idx, res }, Report::Write(Ok(()))) => if idx + 1 == buf.len() {
                Step {
                    command: Command::Write { buf, idx: idx + 1, res: Some(Ok(())) },
                    done: true,
                    next: Next::Nothing,
                }
            } else {
                Step {
                    command: Command::Write { buf, idx: idx + 1, res },
                    done: false,
                    next: Next::Write(buf[idx + 1 as int]),
                }
            },
            (Command::Write { buf, idx, res }, Report::Write(Err(e))) => Step {
                command: Command::Write { buf, idx, res: Some(Err(e)) },
                done: true,
                next: Next::Nothing,
            },
            (Command::Read { buf, idx, res }, Report::Read(Ok(byte))) => if idx + 1
                == buf.len() {
                Step {
                    command: Command::Read {
                        buf: buf.update(idx as int, byte),
                        idx: idx + 1,
                        res: Some(Ok(())),
                    },
                    done: true,
                    next: Next::Nothing,
                }
            } else {
                Step {
                    command: Command::Read { buf: buf.update(idx as int, byte), idx: idx + 1, res },
                    done: false,
                    next: Next::Read(idx + 2 == buf.len()),
                }
            },
            (Command::Read { buf, idx, res }, Report::Read(Err(e))) => Step {
                command: Command::Read { buf, idx, res: Some(Err(e)) },
                done: false,
                next: Next::Nothing,
            },
            (Command::Stop(_), Report::Stop) => Step {
                command: Command::Stop(Some(())),
                done: true,
                next: Next::Nothing,
            },
            (command, _) => Step { command, done: false, next: Next::Nothing },
        }
    }
}

impl<'b> State<'b> {
    /// What the command stands for.
    pub open spec fn view(&self) -> Command {
        match self {
            State::Start(res) => Command::Start(*res),
            State::SlaRw { addr, direction, res } => Command::SlaRw {
                addr: *addr,
                direction: *direction,
                res: *res,
            },
            State::Write { buf, idx, res } => Command::Write {
                buf: buf@,
                idx: *idx as nat,
                res: *res,
            },
            State::Read { buf, idx, res } => Command::Read {
                buf: buf@,
                idx: *idx as nat,
                res: *res,
            },
            State::Stop(res) => Command::Stop(*res),
        }
    }

    /// Whether the command can take a report.
    pub fn is_active(&self) -> (active: bool)
        ensures
            active == self@.active(),
    {
        match self {
            State::Write { buf, idx, .. } => *idx < buf.len(),
            State::Read { buf, idx, .. } => *idx < buf.len(),
            _ => true,
        }
    }

    /// The kind of the command.
    pub fn kind(&self) -> (kind: Kind)
        ensures
            kind == self@.kind(),
    {
        match self {
            State::Start(_) => Kind::Start,
            State::SlaRw { .. } => Kind::SlaRw,
            State::Write { .. } => Kind::Write,
            State::Read { .. } => Kind::Read,
            State::Stop(_) => Kind::Stop,
        }
    }

    /// Takes note of what the hardware reports and says whether the command
    /// has finished and what the hardware is to do next.
    pub fn advance(&mut self, report: Report) -> (step: (bool, Next))
        requires
            old(self)@.active(),
        ensures
            final(self)@ == old(self)@.after(report).command,
            step.0 == old(self)@.after(report).done,
            step.1 == old(self)@.after(report).next,
            !step.0 ==> final(self)@.active(),
    {
        match self {
            State::Start(res) => match report {
                Report::Start(r) => {
                    *res = Some(r);
                    (true, Next::Nothing)
                },
                _ => (false, Next::Nothing),
            },
            State::SlaRw { res, .. } => match report {
                Report::SlaRw(r) => {
                    *res = Some(r);
                    (true, Next::Nothing)
                },
                _ => (false, Next::Nothing),
            },
            State::Write { buf, idx, res } => match report {
                Report::Write(Ok(())) => {
                    let len = buf.len();
                    *idx = *idx + 1;
                    if len == *idx {
                        *res = Some(Ok(()));
                        (true, Next::Nothing)
                    } else {
                        (false, Next::Write(buf[*idx]))
                    }
                },
                Report::Write(Err(err)) => {
                    *res = Some(Err(err));
                    (true, Next::Nothing)
                },
                _ => (false, Next::Nothing),
            },
            State::Read { buf, idx, res } => match report {
                Report::Read(Ok(byte)) => {
                    let len = buf.len();
                    buf[*idx] = byte;
                    *idx = *idx + 1;
                    if len == *idx {
                        *res = Some(Ok(()));
                        (true, Next::Nothing)
                    } else {
                        (false, Next::Read(len - 1 == *idx))
                    }
                },
                Report::Read(Err(err)) => {
                    *res = Some(Err(err));
                    (false, Next::Nothing)
                },
                _ => (false, Next::Nothing),
            },
            State::Stop(res) => match report {
                Report::Stop => {
                    *res = Some(());
                    (true, Next::Nothing)
                },
                _ => (false, Next::Nothing),
            },
        }
    }
}

/// The bus as tasks and the interrupt handler share it: the hardware, the
/// command in progress, and the flag that says that the hardware works on it.
pub struct TwoWireInterface<'b, TWI: TwiOps, SDA, SCL> {
    peripheral: TwiPeripheral<TWI, SDA, SCL>,
    command: Option<State<'b>>,
    set: bool,
}

/// A start condition that has been asked for.
pub struct Start {
    _private: (),
}

/// Address and direction that have been sent.
pub struct SlaRw {
    _private: (),
}

/// Bytes that are being sent.
pub struct Write {
    active: bool,
}

/// Bytes that are being received.
pub struct Read {
    active: bool,
}

/// A stop condition that has been asked for.
pub struct Stop {
    _private: (),
}

impl<'b, TWI: TwiOps, SDA, SCL> TwoWireInterface<'b, TWI, SDA, SCL> {
    /// The command in progress, or the last one.
    pub closed spec fn command(&self) -> Option<Command> {
        match self.command {
            Some(state) => Some(state@),
            None => None,
        }
    }

    /// Whether the hardware works on the command.
    pub closed spec fn set(&self) -> bool {
        self.set
    }

    /// The hardware.
    pub closed spec fn hardware(&self) -> TWI {
        self.peripheral@
    }

    /// The invariant of the representation: while the hardware works on a
    /// command, there is one, and it can take a report.
    pub open spec fn wf(&self) -> bool {
        self.set() ==> self.command() is Some && self.command()->Some_0.active()
    }

    /// The bus at rest on `peripheral`.
    pub fn new(peripheral: TwiPeripheral<TWI, SDA, SCL>) -> (twi: Self)
        ensures
            twi.wf(),
            twi.command() is None,
            !twi.set(),
            twi.hardware() == peripheral@,
    {
        TwoWireInterface { peripheral, command: None, set: false }
    }

    /// The kind of the command in progress, or of the last one.
    pub fn kind(&self) -> (kind: Option<Kind>)
        ensures
            kind == (match self.command() {
                Some(command) => Some(command.kind()),
                None => None,
            }),
    {
        match &self.command {
            Some(state) => Some(state.kind()),
            None => None,
        }
    }

    /// Whether the hardware works on a command.
    pub fn is_set(&self) -> (set: bool)
        ensures
            set == self.set(),
    {
        self.set
    }

    /// The hardware.
    pub fn peripheral(&mut self) -> (p: &mut TwiPeripheral<TWI, SDA, SCL>)
        ensures
            final(self).command() == old(self).command(),
            final(self).set() == old(self).set(),
            p@ == old(self).hardware(),
            final(self).hardware() == final(p)@,
    {
        &mut self.peripheral
    }

    /// A request for a transaction on this bus.
    pub fn transaction(&self) -> (get: super::transaction::GetTransaction)
        ensures
            !get.done(),
    {
        super::transaction::GetTransaction::new(self)
    }

    /// Has the hardware do `next`.
    fn send(&mut self, next: Next)
        ensures
            final(self).command() == old(self).command(),
            final(self).set() == old(self).set(),
            match next {
                Next::Nothing => final(self).hardware() == old(self).hardware(),
                Next::Write(byte) => exists|hw: &mut TWI|
                    *hw == old(self).hardware() && #[trigger] call_ensures(
                        TWI::send_write,
                        (hw, byte),
                        (),
                    ) && *final(hw) == final(self).hardware(),
                Next::Read(last) => exists|hw: &mut TWI|
                    *hw == old(self).hardware() && #[trigger] call_ensures(
                        TWI::send_read,
                        (hw, last),
                        (),
                    ) && *final(hw) == final(self).hardware(),
            },
    {
        match next {
            Next::Nothing => {},
            Next::Write(byte) => self.peripheral.as_mut().send_write(byte),
            Next::Read(last) => self.peripheral.as_mut().send_read(last),
        }
    }

    /// Asks the hardware whether it has finished a step.
    fn poll_hardware(&mut self) -> (ready: bool)
        ensures
            final(self).command() == old(self).command(),
            final(self).set() == old(self).set(),
            exists|hw: &mut TWI|
                *hw == old(self).hardware() && #[trigger] call_ensures(TWI::is_ready, (hw,), ready)
                    && *final(hw) == final(self).hardware(),
    {
        self.peripheral.as_mut().is_ready()
    }

    /// Fetches from the hardware the report that the command waits for.
    fn receive(&mut self) -> (report: Report)
        requires
            old(self).command() is Some,
        ensures
            final(self).command() == old(self).command(),
            final(self).set() == old(self).set(),
            old(self).command()->Some_0.awaits(report),
            match report {
                Report::Start(r) => exists|hw: &mut TWI|
                    *hw == old(self).hardware() && #[trigger] call_ensures(
                        TWI::recv_start,
                        (hw,),
                        r,
                    ) && *final(hw) == final(self).hardware(),
                Report::SlaRw(r) => exists|hw: &mut TWI|
                    *hw == old(self).hardware() && #[trigger] call_ensures(
                        TWI::recv_slarw,
                        (hw,),
                        r,
                    ) && *final(hw) == final(self).hardware(),
                Report::Write(r) => exists|hw: &mut TWI|
                    *hw == old(self).hardware() && #[trigger] call_ensures(
                        TWI::recv_write,
                        (hw,),
                        r,
                    ) && *final(hw) == final(self).hardware(),
                Report::Read(r) => exists|hw: &mut TWI|
                    *hw == old(self).hardware() && #[trigger] call_ensures(
                        TWI::recv_read,
                        (hw,),
                        r,
                    ) && *final(hw) == final(self).hardware(),
                Report::Stop => final(self).hardware() == old(self).hardware(),
            },
    {
        match &self.command {
            Some(State::Start(_)) => Report::Start(self.peripheral.as_mut().recv_start()),
            Some(State::SlaRw { .. }) => Report::SlaRw(self.peripheral.as_mut().recv_slarw()),
            Some(State::Write { .. }) => Report::Write(self.peripheral.as_mut().recv_write()),
            Some(State::Read { .. }) => Report::Read(self.peripheral.as_mut().recv_read()),
            Some(State::Stop(_)) => Report::Stop,
            None => Report::Stop,
        }
    }

    /// Stops the hardware from raising interrupts.
    fn quiet(&mut self)
        ensures
            final(self).command() == old(self).command(),
            final(self).set() == old(self).set(),
            exists|hw: &mut TWI|
                *hw == old(self).hardware() && #[trigger] call_ensures(TWI::disable, (hw,), ())
                    && *final(hw) == final(self).hardware(),
    {
        self.peripheral.as_mut().disable()
    }

    /// The part of the interrupt handler that belongs to the bus.
    ///
    /// The hardware is asked whether it has finished a step. Where it has,
    /// and a command is in progress, the report on that step is fetched and
    /// taken note of, and the hardware is given its next step. When the
    /// command has finished, the flag goes down, the hardware stops raising
    /// interrupts and the runtime is woken. Where no command is in progress
    /// or the hardware has nothing to report, nothing else happens. The
    /// answer says whether the command has finished.
    pub fn run<R: Runtime>(&mut self, cs: &CriticalSection, runtime: &mut R) -> (done: bool)
        requires
            old(self).wf(),
        ensures
            final(self).wf(),
            done ==> !final(self).set() && final(runtime).ready(),
            !done ==> final(self).set() == old(self).set() && *final(runtime) == *old(runtime),
            exists|asked: &mut TWI, ready: bool|
                {
                    &&& *asked == old(self).hardware()
                    &&& #[trigger] call_ensures(TWI::is_ready, (asked,), ready)
                    &&& !(ready && old(self).set()) ==> {
                        &&& !done
                        &&& final(self).command() == old(self).command()
                        &&& final(self).hardware() == *final(asked)
                    }
                    &&& ready && old(self).set() ==> match old(self).command() {
                        Some(Command::Start(_)) => exists|heard: &mut TWI, r: Result<(), Error>|
                            {
                                &&& *heard == *final(asked)
                                &&& #[trigger] call_ensures(TWI::recv_start, (heard,), r)
                                &&& final(self).command() == Some(Command::Start(Some(r)))
                                &&& done
                                &&& exists|told: &mut TWI|
                                    *told == *final(heard) && #[trigger] call_ensures(
                                        TWI::disable,
                                        (told,),
                                        (),
                                    ) && *final(told) == final(self).hardware()
                            },
                        Some(Command::SlaRw { addr, direction, res }) => exists|
                            heard: &mut TWI,
                            r: Result<(), Error>,
                        |
                            {
                                &&& *heard == *final(asked)
                                &&& #[trigger] call_ensures(TWI::recv_slarw, (heard,), r)
                                &&& final(self).command() == Some(
                                    Command::SlaRw { addr, direction, res: Some(r) },
                                )
                                &&& done
                                &&& exists|told: &mut TWI|
                                    *told == *final(heard) && #[trigger] call_ensures(
                                        TWI::disable,
                                        (told,),
                                        (),
                                    ) && *final(told) == final(self).hardware()
                            },
                        Some(Command::Write { buf, idx, res }) => exists|
                            heard: &mut TWI,
                            r: Result<(), Error>,
                        |
                            {
                                &&& *heard == *final(asked)
                                &&& #[trigger] call_ensures(TWI::recv_write, (heard,), r)
                                &&& final(self).command() == Some(
                                    old(self).command()->Some_0.after(Report::Write(r)).command,
                                )
                                &&& done == old(self).command()->Some_0.after(
                                    Report::Write(r),
                                ).done
                                &&& match old(self).command()->Some_0.after(Report::Write(r)).next {
                                    Next::Write(byte) => exists|told: &mut TWI|
                                        *told == *final(heard) && #[trigger] call_ensures(
                                            TWI::send_write,
                                            (told, byte),
                                            (),
                                        ) && *final(told) == final(self).hardware(),
                                    _ => exists|told: &mut TWI|
                                        *told == *final(heard) && #[trigger] call_ensures(
                                            TWI::disable,
                                            (told,),
                                            (),
                                        ) && *final(told) == final(self).hardware(),
                                }
                            },
                        Some(Command::Read { buf, idx, res }) => exists|
                            heard: &mut TWI,
                            r: Result<u8, Error>,
                        |
                            {
                                &&& *heard == *final(asked)
                                &&& #[trigger] call_ensures(TWI::recv_read, (heard,), r)
                                &&& final(self).command() == Some(
                                    old(self).command()->Some_0.after(Report::Read(r)).command,
                                )
                                &&& done == old(self).command()->Some_0.after(
                                    Report::Read(r),
                                ).done
                                &&& match old(self).command()->Some_0.after(Report::Read(r)).next {
                                    Next::Read(last) => exists|told: &mut TWI|
                                        *told == *final(heard) && #[trigger] call_ensures(
                                            TWI::send_read,
                                            (told, last),
                                            (),
                                        ) && *final(told) == final(self).hardware(),
                                    _ => if done {
                                        exists|told: &mut TWI|
                                            *told == *final(heard) && #[trigger] call_ensures(
                                                TWI::disable,
                                                (told,),
                                                (),
                                            ) && *final(told) == final(self).hardware()
                                    } else {
                                        final(self).hardware() == *final(heard)
                                    },
                                }
                            },
                        Some(Command::Stop(_)) => {
                            &&& final(self).command() == Some(Command::Stop(Some(())))
                            &&& done
                            &&& exists|told: &mut TWI|
                                *told == *final(asked) && #[trigger] call_ensures(
                                    TWI::disable,
                                    (told,),
                                    (),
                                ) && *final(told) == final(self).hardware()
                        },
                        None => false,
                    }
                },
    {
        let ready = self.poll_hardware();
        if ready && self.set {
            let report = self.receive();
            let (done, next) = match &mut self.command {
                Some(state) => state.advance(report),
                None => (false, Next::Nothing),
            };
            self.send(next);
            if done {
                self.set = false;
                self.quiet();
                runtime.wake();
            }
            done
        } else {
            false
        }
    }

    /// Asks for a start condition.
    pub fn start(&mut self) -> (start: Start)
        ensures
            final(self).wf(),
            final(self).command() == Some(Command::Start(None)),
            final(self).set(),
            exists|hw: &mut TWI|
                *hw == old(self).hardware() && #[trigger] call_ensures(TWI::send_start, (hw,), ())
                    && *final(hw) == final(self).hardware(),
    {
        self.command = Some(State::Start(None));
        self.set = true;
        self.peripheral.as_mut().send_start();
        Start { _private: () }
    }

    /// Sends the address `addr` and the direction.
    pub fn sla_rw(&mut self, addr: u8, direction: Direction) -> (sla: SlaRw)
        ensures
            final(self).wf(),
            final(self).command() == Some(Command::SlaRw { addr, direction, res: None }),
            final(self).set(),
            exists|hw: &mut TWI|
                *hw == old(self).hardware() && #[trigger] call_ensures(
                    TWI::send_slarw,
                    (hw, addr, direction),
                    (),
                ) && *final(hw) == final(self).hardware(),
    {
        self.command = Some(State::SlaRw { addr, direction, res: None });
        self.set = true;
        self.peripheral.as_mut().send_slarw(addr, direction);
        SlaRw { _private: () }
    }

    /// Sends the bytes of `buf`. Where `buf` is empty nothing is sent and
    /// the bus stays as it is.
    pub fn write(&mut self, buf: &'b [u8]) -> (write: Write)
        ensures
            final(self).wf() == (old(self).wf() || buf@.len() > 0),
            write.active() == (buf@.len() > 0),
            buf@.len() > 0 ==> final(self).set() && final(self).command() == Some(
                Command::Write { buf: buf@, idx: 0, res: None },
            ),
            buf@.len() == 0 ==> final(self).set() == old(self).set() && final(self).command()
                == old(self).command() && final(self).hardware() == old(self).hardware(),
            buf@.len() > 0 ==> exists|hw: &mut TWI|
                *hw == old(self).hardware() && #[trigger] call_ensures(
                    TWI::send_write,
                    (hw, buf@[0]),
                    (),
                ) && *final(hw) == final(self).hardware(),
    {
        if buf.len() == 0 {
            Write { active: false }
        } else {
            let first = buf[0];
            self.command = Some(State::Write { buf, idx: 0, res: None });
            self.set = true;
            self.peripheral.as_mut().send_write(first);
            Write { active: true }
        }
    }

    /// Receives bytes until `buf` is full. Where `buf` is empty nothing is
    /// asked for, the bus stays as it is, and `buf` comes back at once.
    pub fn read(&mut self, buf: &'b mut [u8]) -> (read: (Read, Option<&'b mut [u8]>))
        ensures
            final(self).wf() == (old(self).wf() || old(buf)@.len() > 0),
            read.0.active() == (old(buf)@.len() > 0),
            old(buf)@.len() > 0 ==> read.1 is None && final(self).set() && final(self).command()
                == Some(Command::Read { buf: old(buf)@, idx: 0, res: None }),
            old(buf)@.len() == 0 ==> {
                &&& read.1 is Some
                &&& read.1->Some_0@ == old(buf)@
                &&& final(self).set() == old(self).set()
                &&& final(self).command() == old(self).command()
                &&& final(self).hardware() == old(self).hardware()
            },
            old(buf)@.len() > 0 ==> exists|hw: &mut TWI, last: bool|
                *hw == old(self).hardware() && last == (old(buf)@.len() == 1)
                    && #[trigger] call_ensures(TWI::send_read, (hw, last), ()) && *final(hw)
                    == final(self).hardware(),
    {
        if buf.len() == 0 {
            (Read { active: false }, Some(buf))
        } else {
            let last = buf.len() == 1;
            self.command = Some(State::Read { buf, idx: 0, res: None });
            self.set = true;
            self.peripheral.as_mut().send_read(last);
            (Read { active: true }, None)
        }
    }

    /// Hands back the buffer of a read, with the bytes received in it, and
    /// forgets the command; the hardware is no longer taken to work on it.
    /// `None` where the last command was not a read.
    pub fn take_buffer(&mut self) -> (buf: Option<&'b mut [u8]>)
        ensures
            old(self).command() matches Some(Command::Read { buf: bytes, .. }) ==> {
                &&& buf is Some
                &&& buf->Some_0@ == bytes
                &&& final(self).command() is None
                &&& !final(self).set()
            },
            !(old(self).command() matches Some(Command::Read { .. })) ==> {
                &&& buf is None
                &&& final(self).command() == old(self).command()
                &&& final(self).set() == old(self).set()
            },
            final(self).hardware() == old(self).hardware(),
    {
        match self.command.take() {
            Some(State::Read { buf, idx, res }) => {
                self.set = false;
                Some(buf)
            },
            other => {
                self.command = other;
                None
            },
        }
    }

    /// Asks for a stop condition.
    pub fn stop(&mut self) -> (stop: Stop)
        ensures
            final(self).wf(),
            final(self).command() == Some(Command::Stop(None)),
            final(self).set(),
            exists|hw: &mut TWI|
                *hw == old(self).hardware() && #[trigger] call_ensures(TWI::send_stop, (hw,), ())
                    && *final(hw) == final(self).hardware(),
    {
        self.stop_unbound();
        Stop { _private: () }
    }

    /// Asks for a stop condition that nobody waits for.
    pub fn stop_unbound(&mut self)
        ensures
            final(self).wf(),
            final(self).command() == Some(Command::Stop(None)),
            final(self).set(),
            exists|hw: &mut TWI|
                *hw == old(self).hardware() && #[trigger] call_ensures(TWI::send_stop, (hw,), ())
                    && *final(hw) == final(self).hardware(),
    {
        self.command = Some(State::Stop(None));
        self.set = true;
        self.peripheral.as_mut().send_stop();
    }
}

impl Start {
    /// The outcome of the start condition, once the hardware has reported it.
    /// The outcome is handed over once.
    pub fn poll<'b, TWI: TwiOps, SDA, SCL>(
        &mut self,
        twi: &mut TwoWireInterface<'b, TWI, SDA, SCL>,
    ) -> (r: Poll<Result<(), Error>>)
        requires
            old(twi).command() matches Some(Command::Start(_)),
        ensures
            final(twi).command() == Some(Command::Start(None)),
            final(twi).set() == old(twi).set(),
            final(twi).hardware() == old(twi).hardware(),
            r == (match old(twi).command() {
                Some(Command::Start(Some(res))) => Poll::Ready(res),
                _ => Poll::Pending,
            }),
    {
        match &mut twi.command {
            Some(State::Start(res)) => match res.take() {
                Some(res) => Poll::Ready(res),
                None => Poll::Pending,
            },
            _ => Poll::Pending,
        }
    }
}

impl SlaRw {
    /// The outcome of sending address and direction, once the hardware has
    /// reported it. The outcome is handed over once.
    pub fn poll<'b, TWI: TwiOps, SDA, SCL>(
        &mut self,
        twi: &mut TwoWireInterface<'b, TWI, SDA, SCL>,
    ) -> (r: Poll<Result<(), Error>>)
        requires
            old(twi).command() matches Some(Command::SlaRw { .. }),
        ensures
            final(twi).set() == old(twi).set(),
            final(twi).hardware() == old(twi).hardware(),
            match old(twi).command() {
                Some(Command::SlaRw { addr, direction, res }) => {
                    &&& final(twi).command() == Some(Command::SlaRw { addr, direction, res: None })
                    &&& r == (match res {
                        Some(res) => Poll::Ready(res),
                        None => Poll::Pending,
                    })
                },
                _ => false,
            },
    {
        match &mut twi.command {
            Some(State::SlaRw { res, .. }) => match res.take() {
                Some(res) => Poll::Ready(res),
                None => Poll::Pending,
            },
            _ => Poll::Pending,
        }
    }
}

impl Write {
    /// Whether bytes are being sent; `false` where there was none to send.
    pub closed spec fn active(&self) -> bool {
        self.active
    }

    /// Whether bytes are being sent.
    pub fn is_active(&self) -> (active: bool)
        ensures
            active == self.active(),
    {
        self.active
    }

    /// The outcome of sending the bytes, once the hardware has reported it;
    /// `Ok` at once where there was no byte to send. The outcome is handed
    /// over once.
    pub fn poll<'b, TWI: TwiOps, SDA, SCL>(
        &mut self,
        twi: &mut TwoWireInterface<'b, TWI, SDA, SCL>,
    ) -> (r: Poll<Result<(), Error>>)
        requires
            old(self).active() ==> old(twi).command() matches Some(Command::Write { .. }),
        ensures
            final(self).active() == old(self).active(),
            final(twi).set() == old(twi).set(),
            final(twi).hardware() == old(twi).hardware(),
            !old(self).active() ==> r == Poll::Ready(Ok::<(), Error>(())) && final(twi).command()
                == old(twi).command(),
            old(self).active() ==> (match old(twi).command() {
                Some(Command::Write { buf, idx, res }) => {
                    &&& final(twi).command() == Some(Command::Write { buf, idx, res: None })
                    &&& r == (match res {
                        Some(res) => Poll::Ready(res),
                        None => Poll::Pending,
                    })
                },
                _ => false,
            }),
    {
        if self.active {
            match &mut twi.command {
                Some(State::Write { res, .. }) => match res.take() {
                    Some(res) => Poll::Ready(res),
                    None => Poll::Pending,
                },
                _ => Poll::Pending,
            }
        } else {
            Poll::Ready(Ok(()))
        }
    }
}

impl Read {
    /// Whether bytes are being received; `false` where there was no room
    /// for any.
    pub closed spec fn active(&self) -> bool {
        self.active
    }

    /// Whether bytes are being received.
    pub fn is_active(&self) -> (active: bool)
        ensures
            active == self.active(),
    {
        self.active
    }

    /// The outcome of receiving the bytes, once the hardware has reported
    /// it; `Ok` at once where there was no room for any. The outcome is
    /// handed over once.
    pub fn poll<'b, TWI: TwiOps, SDA, SCL>(
        &mut self,
        twi: &mut TwoWireInterface<'b, TWI, SDA, SCL>,
    ) -> (r: Poll<Result<(), Error>>)
        requires
            old(self).active() ==> old(twi).command() matches Some(Command::Read { .. }),
        ensures
            final(self).active() == old(self).active(),
            final(twi).set() == old(twi).set(),
            final(twi).hardware() == old(twi).hardware(),
            !old(self).active() ==> r == Poll::Ready(Ok::<(), Error>(())) && final(twi).command()
                == old(twi).command(),
            old(self).active() ==> (match old(twi).command() {
                Some(Command::Read { buf, idx, res }) => {
                    &&& final(twi).command() == Some(Command::Read { buf, idx, res: None })
                    &&& r == (match res {
                        Some(res) => Poll::Ready(res),
                        None => Poll::Pending,
                    })
                },
                _ => false,
            }),
    {
        if self.active {
            match &mut twi.command {
                Some(State::Read { res, .. }) => match res.take() {
                    Some(res) => Poll::Ready(res),
                    None => Poll::Pending,
                },
                _ => Poll::Pending,
            }
        } else {
            Poll::Ready(Ok(()))
        }
    }
}

impl Stop {
    /// `Ready` once the hardware has reported the stop condition. This is
    /// handed over once.
    pub fn poll<'b, TWI: TwiOps, SDA, SCL>(
        &mut self,
        twi: &mut TwoWireInterface<'b, TWI, SDA, SCL>,
    ) -> (r: Poll<()>)
        requires
            old(twi).command() matches Some(Command::Stop(_)),
        ensures
            final(twi).command() == Some(Command::Stop(None)),
            final(twi).set() == old(twi).set(),
            final(twi).hardware() == old(twi).hardware(),
            r == (match old(twi).command() {
                Some(Command::Stop(Some(res))) => Poll::Ready(res),
                _ => Poll::Pending,
            }),
    {
        match &mut twi.command {
            Some(State::Stop(res)) => match res.take() {
                Some(res) => Poll::Ready(res),
                None => Poll::Pending,
            },
            _ => Poll::Pending,
        }
    }
}

} // verus!
