//! What the bus hardware has to offer, and how its status is read.
use vstd::prelude::*;

verus! {

/// Whether the master writes to the device or reads from it.
#[derive(Debug, Clone, Copy, PartialEq, Eq, Structural)]
pub enum Direction {
    /// The master sends bytes to the device.
    Write,
    /// The master receives bytes from the device.
    Read,
}

/// What can go wrong on the bus.
#[derive(Debug, Clone, Copy, PartialEq, Eq, Structural)]
pub enum Error {
    /// Another master took the bus.
    ArbitrationLost,
    /// No device acknowledged the address.
    AddressNack,
    /// The device did not acknowledge a byte.
    DataNack,
    /// A start or stop condition came at a place where none may come.
    BusError,
    /// The hardware reports a status that has no meaning here.
    Unknown,
}

/// Status: a start condition has been sent.
pub const TW_START: u8 = 0x08;

/// Status: a repeated start condition has been sent.
pub const TW_REP_START: u8 = 0x10;

/// Status: address and write bit sent, acknowledged.
pub const TW_MT_SLA_ACK: u8 = 0x18;

/// Status: address and write bit sent, not acknowledged.
pub const TW_MT_SLA_NACK: u8 = 0x20;

/// Status: byte sent, acknowledged.
pub const TW_MT_DATA_ACK: u8 = 0x28;

/// Status: byte sent, not acknowledged.
pub const TW_MT_DATA_NACK: u8 = 0x30;

/// Status: arbitration lost while sending.
pub const TW_MT_ARB_LOST: u8 = 0x38;

/// Status: arbitration lost while receiving.
pub const TW_MR_ARB_LOST: u8 = 0x38;

/// Status: address and read bit sent, acknowledged.
pub const TW_MR_SLA_ACK: u8 = 0x40;

/// Status: address and read bit sent, not acknowledged.
pub const TW_MR_SLA_NACK: u8 = 0x48;

/// Status: byte received, acknowledged.
pub const TW_MR_DATA_ACK: u8 = 0x50;

/// Status: byte received, not acknowledged.
pub const TW_MR_DATA_NACK: u8 = 0x58;

/// Status: bus error.
pub const TW_BUS_ERROR: u8 = 0x00;

/// What a status means after a start condition was asked for.
pub open spec fn start_outcome(status: u8) -> Result<(), Error> {
    if status == TW_START || status == TW_REP_START {
        Ok(())
    } else if status == TW_MT_ARB_LOST || status == TW_MR_ARB_LOST {
        Err(Error::ArbitrationLost)
    } else if status == TW_BUS_ERROR {
        Err(Error::BusError)
    } else {
        Err(Error::Unknown)
    }
}

/// What a status means after address and direction were sent.
pub open spec fn slarw_outcome(status: u8) -> Result<(), Error> {
    if status == TW_MT_SLA_ACK || status == TW_MR_SLA_ACK {
        Ok(())
    } else if status == TW_MT_SLA_NACK || status == TW_MR_SLA_NACK {
        Err(Error::AddressNack)
    } else if status == TW_MT_ARB_LOST || status == TW_MR_ARB_LOST {
        Err(Error::ArbitrationLost)
    } else if status == TW_BUS_ERROR {
        Err(Error::BusError)
    } else {
        Err(Error::Unknown)
    }
}

/// What a status means after a byte was sent.
pub open spec fn write_outcome(status: u8) -> Result<(), Error> {
    if status == TW_MT_DATA_ACK {
        Ok(())
    } else if status == TW_MT_DATA_NACK {
        Err(Error::DataNack)
    } else if status == TW_MT_ARB_LOST {
        Err(Error::ArbitrationLost)
    } else if status == TW_BUS_ERROR {
        Err(Error::BusError)
    } else {
        Err(Error::Unknown)
    }
}

/// What a status means after a byte was asked for, where `data` is the
/// content of the data register.
pub open spec fn read_outcome(status: u8, data: u8) -> Result<u8, Error> {
    if status == TW_MR_DATA_ACK || status == TW_MR_DATA_NACK {
        Ok(data)
    } else if status == TW_MR_ARB_LOST {
        Err(Error::ArbitrationLost)
    } else if status == TW_BUS_ERROR {
        Err(Error::BusError)
    } else {
        Err(Error::Unknown)
    }
}

/// Reads the status after a start condition was asked for. `status` is the
/// status register with the prescaler bits masked off.
pub fn recv_start(status: u8) -> (r: Result<(), Error>)
    ensures
        r == start_outcome(status),
{
    if status == TW_START || status == TW_REP_START {
        Ok(())
    } else if status == TW_MT_ARB_LOST || status == TW_MR_ARB_LOST {
        Err(Error::ArbitrationLost)
    } else if status == TW_BUS_ERROR {
        Err(Error::BusError)
    } else {
        Err(Error::Unknown)
    }
}

/// Reads the status after address and direction were sent.
pub fn recv_slarw(status: u8) -> (r: Result<(), Error>)
    ensures
        r == slarw_outcome(status),
{
    if status == TW_MT_SLA_ACK || status == TW_MR_SLA_ACK {
        Ok(())
    } else if status == TW_MT_SLA_NACK || status == TW_MR_SLA_NACK {
        Err(Error::AddressNack)
    } else if status == TW_MT_ARB_LOST || status == TW_MR_ARB_LOST {
        Err(Error::ArbitrationLost)
    } else if status == TW_BUS_ERROR {
        Err(Error::BusError)
    } else {
        Err(Error::Unknown)
    }
}

/// Reads the status after a byte was sent.
pub fn recv_write(status: u8) -> (r: Result<(), Error>)
    ensures
        r == write_outcome(status),
{
    if status == TW_MT_DATA_ACK {
        Ok(())
    } else if status == TW_MT_DATA_NACK {
        Err(Error::DataNack)
    } else if status == TW_MT_ARB_LOST {
        Err(Error::ArbitrationLost)
    } else if status == TW_BUS_ERROR {
        Err(Error::BusError)
    } else {
        Err(Error::Unknown)
    }
}

/// Reads the status after a byte was asked for; `data` is the content of
/// the data register.
pub fn recv_read(status: u8, data: u8) -> (r: Result<u8, Error>)
    ensures
        r == read_outcome(status, data),
{
    if status == TW_MR_DATA_ACK || status == TW_MR_DATA_NACK {
        Ok(data)
    } else if status == TW_MR_ARB_LOST {
        Err(Error::ArbitrationLost)
    } else if status == TW_BUS_ERROR {
        Err(Error::BusError)
    } else {
        Err(Error::Unknown)
    }
}

/// The first byte of a transfer: the address in the upper seven bits and
/// the direction in the lowest.
pub fn slarw_byte(address: u8, direction: Direction) -> (byte: u8)
    requires
        address <= 0x7f,
    ensures
        byte == 2 * address + (if direction == Direction::Read {
            1int
        } else {
            0int
        }),
{
    let dirbit: u8 = if direction == Direction::Read {
        1
    } else {
        0
    };
    assert(address <= 0x7f && dirbit <= 1 ==> ((address << 1u8) | dirbit) == 2 * address + dirbit)
        by (bit_vector);
    (address << 1u8) | dirbit
}

/// The bit rate setting for a bus clock of `speed` Hz on a processor clock
/// of `frequency` Hz, without prescaler.
pub fn bit_rate(frequency: u32, speed: u32) -> (twbr: u32)
    requires
        speed > 0,
        frequency / speed >= 16,
    ensures
        twbr == (frequency / speed - 16) / 2,
{
    ((frequency / speed) - 16) / 2
}

/// The operations of the bus hardware.
pub trait TwiOps {
    /// Sets the bus clock to `speed` Hz.
    fn setup(&mut self, speed: u32);

    /// Asks for a start condition.
    fn send_start(&mut self);

    /// Sends address and direction.
    fn send_slarw(&mut self, address: u8, direction: Direction);

    /// Sends a byte.
    fn send_write(&mut self, byte: u8);

    /// Asks for a byte; `last` says that no further byte will be asked for.
    fn send_read(&mut self, last: bool);

    /// Asks for a stop condition.
    fn send_stop(&mut self);

    /// Whether the hardware has finished what it was asked for.
    fn is_ready(&mut self) -> bool;

    /// The outcome of a start condition.
    fn recv_start(&mut self) -> Result<(), Error>;

    /// The outcome of sending address and direction.
    fn recv_slarw(&mut self) -> Result<(), Error>;

    /// The outcome of sending a byte.
    fn recv_write(&mut self) -> Result<(), Error>;

    /// The outcome of asking for a byte: the byte received.
    fn recv_read(&mut self) -> Result<u8, Error>;

    /// Stops the hardware from raising interrupts.
    fn disable(&mut self);
}

/// The bus hardware together with the pins it uses.
pub struct TwiPeripheral<TWI: TwiOps, SDA, SCL> {
    p: TWI,
    sda: SDA,
    scl: SCL,
}

impl<TWI: TwiOps, SDA, SCL> TwiPeripheral<TWI, SDA, SCL> {
    /// The hardware.
    pub closed spec fn view(&self) -> TWI {
        self.p
    }

    /// Takes the hardware and its pins, which have their pull-ups switched
    /// on, and sets the bus clock to `speed` Hz.
    pub fn new(p: TWI, sda: SDA, scl: SCL, speed: u32) -> (twi: Self)
        ensures
            exists|hw: &mut TWI|
                *hw == p && #[trigger] call_ensures(TWI::setup, (hw, speed), ()) && *final(hw)
                    == twi@,
    {
        let mut twi = TwiPeripheral { p, sda, scl };
        twi.p.setup(speed);
        twi
    }

    /// Takes the hardware and its pins, which are pulled up outside the
    /// processor, and sets the bus clock to `speed` Hz.
    pub fn with_external_pullup(p: TWI, sda: SDA, scl: SCL, speed: u32) -> (twi: Self)
        ensures
            exists|hw: &mut TWI|
                *hw == p && #[trigger] call_ensures(TWI::setup, (hw, speed), ()) && *final(hw)
                    == twi@,
    {
        let mut twi = TwiPeripheral { p, sda, scl };
        twi.p.setup(speed);
        twi
    }

    /// The hardware, to be changed.
    pub fn as_mut(&mut self) -> (p: &mut TWI)
        ensures
            *p == old(self)@,
            final(self)@ == *final(p),
    {
        &mut self.p
    }

    /// The hardware, to be read.
    pub fn as_ref(&self) -> (p: &TWI)
        ensures
            *p == self@,
    {
        &self.p
    }
}

} // verus!
