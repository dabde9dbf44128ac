//! Seven-bit bus addresses.
use vstd::prelude::*;

verus! {

/// The address of a device on the bus: a number of seven bits.
#[derive(Debug, Clone, Copy, PartialEq, Eq, Structural)]
pub struct Address(u8);

/// The number does not fit into seven bits.
#[derive(Debug, PartialEq, Eq)]
pub struct InvalidAddress;

impl Address {
    /// The number of the address.
    pub closed spec fn view(&self) -> u8 {
        self.0
    }

    /// The invariant of the representation: the number fits into seven bits.
    pub closed spec fn wf(&self) -> bool {
        self.0 <= 0x7f
    }

    /// The address with number `me`, if `me` fits into seven bits.
    pub fn new(me: u8) -> (r: Result<Self, InvalidAddress>)
        ensures
            me <= 0x7f ==> r is Ok && r->Ok_0@ == me && r->Ok_0.wf(),
            me > 0x7f ==> r is Err,
    {
        if me > 0b0111_1111 {
            Err(InvalidAddress)
        } else {
            Ok(Address(me))
        }
    }

    /// The address with number `me`, which has to fit into seven bits.
    pub fn const_new(me: u8) -> (a: Self)
        requires
            me <= 0x7f,
        ensures
            a@ == me,
            a.wf(),
    {
        Address(me)
    }

    /// The first byte of a transfer that writes to the device: the address
    /// in the upper seven bits, and a zero.
    pub fn as_write_byte(&self) -> (byte: u8)
        requires
            self.wf(),
        ensures
            byte == 2 * self@,
    {
        let a: u8 = self.0;
        assert(a <= 0x7f ==> (a << 1u8) == 2 * a) by (bit_vector);
        a << 1u8
    }

    /// The first byte of a transfer that reads from the device: the address
    /// in the upper seven bits, and a one.
    pub fn as_read_byte(&self) -> (byte: u8)
        requires
            self.wf(),
        ensures
            byte == 2 * self@ + 1,
    {
        let a: u8 = self.0;
        assert(a <= 0x7f ==> ((a << 1u8) | 1u8) == 2 * a + 1) by (bit_vector);
        (a << 1u8) | 1u8
    }

    /// The number of the address.
    pub fn into_u8(self) -> (me: u8)
        ensures
            me == self@,
    {
        self.0
    }
}

impl From<Address> for u8 {
    fn from(address: Address) -> (me: u8)
        ensures
            me == address@,
    {
        address.0
    }
}

impl vstd::std_specs::convert::FromSpecImpl<Address> for u8 {
    open spec fn obeys_from_spec() -> bool {
        true
    }

    open spec fn from_spec(address: Address) -> u8 {
        address@
    }
}

impl TryFrom<u8> for Address {
    type Error = InvalidAddress;

    fn try_from(value: u8) -> (r: Result<Self, InvalidAddress>)
        ensures
            value <= 0x7f ==> r is Ok && r->Ok_0@ == value && r->Ok_0.wf(),
            value > 0x7f ==> r is Err,
    {
        if value > 0b0111_1111 {
            Err(InvalidAddress)
        } else {
            Ok(Address(value))
        }
    }
}

impl vstd::std_specs::convert::TryFromSpecImpl<u8> for Address {
    open spec fn obeys_try_from_spec() -> bool {
        true
    }

    closed spec fn try_from_spec(value: u8) -> Result<Self, InvalidAddress> {
        if value > 0x7f {
            Err(InvalidAddress)
        } else {
            Ok(Address(value))
        }
    }
}

} // verus!
