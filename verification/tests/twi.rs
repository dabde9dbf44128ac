use avr_async::twi::buffer::{
    InputBuffer, IntoInputBuffer, IntoOutputBuffer, OutputBuffer, SliceInputBuffer,
    SliceOutputBuffer,
};
use avr_async::twi::transaction::{Action, SingleActionTransaction, Transaction};
use avr_async::twi::{Address, InvalidAddress};

#[test]
fn address_has_seven_bits() {
    assert!(Address::new(0x7f).is_ok());
    assert_eq!(Address::new(0x80), Err(InvalidAddress));
    assert_eq!(Address::new(0xff), Err(InvalidAddress));
    assert_eq!(Address::new(0x3c).unwrap().into_u8(), 0x3c);
    assert_eq!(Address::const_new(0), Address::new(0).unwrap());
}

#[test]
fn address_bytes_carry_the_direction() {
    let a = Address::const_new(0x3c);
    assert_eq!(a.as_write_byte(), 0x78);
    assert_eq!(a.as_read_byte(), 0x79);
    let top = Address::const_new(0x7f);
    assert_eq!(top.as_write_byte(), 0xfe);
    assert_eq!(top.as_read_byte(), 0xff);
}

#[test]
fn output_buffer_sends_first_to_last() {
    let bytes = [1u8, 2, 3];
    let mut out = SliceOutputBuffer::new(&bytes);
    assert_eq!(out.next(), Some(1));
    assert_eq!(out.next(), Some(2));
    assert_eq!(out.next(), Some(3));
    assert_eq!(out.next(), None);
    assert_eq!(out.next(), None);
    let mut other = (&bytes[1..]).into_output_buffer();
    assert_eq!(other.next(), Some(2));
}

#[test]
fn input_buffer_fills_first_to_last() {
    let mut bytes = [0u8; 2];
    {
        let mut input = SliceInputBuffer::new(&mut bytes);
        assert!(!input.is_last());
        input.push(7);
        assert!(input.is_last());
        input.push(8);
        assert!(!input.is_last());
        // no room: dropped
        input.push(9);
    }
    assert_eq!(bytes, [7, 8]);
    let mut one = [0u8; 1];
    {
        let mut input = (&mut one[..]).into_input_buffer();
        assert!(input.is_last());
        input.push(1);
    }
    assert_eq!(one, [1]);
}

#[test]
fn address_turns_into_its_number() {
    let n: u8 = Address::const_new(0x55).into();
    assert_eq!(n, 0x55);
}

#[test]
fn address_is_tried_from_a_number() {
    assert_eq!(Address::try_from(0x10u8), Ok(Address::const_new(0x10)));
    assert_eq!(Address::try_from(0x80u8), Err(InvalidAddress));
}

#[test]
fn single_action_is_handed_out_once() {
    let bytes = [1u8, 2];
    let mut room = [0u8; 1];
    let action: Action<SliceOutputBuffer, SliceInputBuffer> =
        Action::Write(Address::const_new(9), SliceOutputBuffer::new(&bytes));
    let mut transfer = SingleActionTransaction::new(action);
    match transfer.next() {
        Some(Action::Write(address, mut out)) => {
            assert_eq!(address.into_u8(), 9);
            assert_eq!(out.next(), Some(1));
        }
        _ => panic!(),
    }
    assert!(transfer.next().is_none());
    assert!(transfer.next().is_none());
    let read: Action<SliceOutputBuffer, SliceInputBuffer> =
        Action::Read(Address::const_new(3), SliceInputBuffer::new(&mut room));
    let mut transfer = SingleActionTransaction::new(read);
    assert!(matches!(transfer.next(), Some(Action::Read(_, _))));
    assert!(transfer.next().is_none());
}
