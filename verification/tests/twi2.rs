use avr_async::runtime::{CriticalSection, Ready, Runtime};
use avr_async::slab::Slab;
use avr_async::twi2::peripheral::{
    bit_rate, recv_read, recv_slarw, recv_start, recv_write, slarw_byte, Direction, Error, TwiOps,
    TwiPeripheral,
};
use avr_async::twi2::raw::{Kind, Next, Report, State, TwoWireInterface};
use avr_async::twi2::read::Read;
use avr_async::twi2::write::Write;
use avr_async::twi2::Wait;
use avr_async::Poll;

struct Board {
    ready: bool,
}

impl Ready for Board {
    fn ready(&self) -> bool {
        self.ready
    }

    fn is_ready(&self, _cs: &CriticalSection) -> bool {
        self.ready
    }
}

impl Runtime for Board {
    type Memory = Slab<u8>;
    type Arguments = ();

    fn new(_mem: Slab<u8>, _cs: &CriticalSection) -> (Self, ()) {
        (Board { ready: false }, ())
    }

    fn snapshot(&mut self, _cs: &CriticalSection) {
        self.ready = false;
    }

    fn idle(&self) {}

    fn wake(&mut self) {
        self.ready = true;
    }

    fn shutdown(&self) {}
}

#[derive(Debug, PartialEq, Eq, Clone, Copy)]
enum Sent {
    Setup(u32),
    Start,
    SlaRw(u8, Direction),
    Write(u8),
    Read(bool),
    Stop,
    Disable,
}

struct Bus {
    ready: bool,
    sent: Vec<Sent>,
    start: Result<(), Error>,
    slarw: Result<(), Error>,
    write: Result<(), Error>,
    incoming: Vec<Result<u8, Error>>,
}

impl Bus {
    fn new() -> Self {
        Bus {
            ready: false,
            sent: Vec::new(),
            start: Ok(()),
            slarw: Ok(()),
            write: Ok(()),
            incoming: Vec::new(),
        }
    }
}

impl TwiOps for Bus {
    fn setup(&mut self, speed: u32) {
        self.sent.push(Sent::Setup(speed));
    }

    fn send_start(&mut self) {
        self.sent.push(Sent::Start);
    }

    fn send_slarw(&mut self, address: u8, direction: Direction) {
        self.sent.push(Sent::SlaRw(address, direction));
    }

    fn send_write(&mut self, byte: u8) {
        self.sent.push(Sent::Write(byte));
    }

    fn send_read(&mut self, last: bool) {
        self.sent.push(Sent::Read(last));
    }

    fn send_stop(&mut self) {
        self.sent.push(Sent::Stop);
    }

    fn is_ready(&mut self) -> bool {
        self.ready
    }

    fn recv_start(&mut self) -> Result<(), Error> {
        self.start
    }

    fn recv_slarw(&mut self) -> Result<(), Error> {
        self.slarw
    }

    fn recv_write(&mut self) -> Result<(), Error> {
        self.write
    }

    fn recv_read(&mut self) -> Result<u8, Error> {
        self.incoming.remove(0)
    }

    fn disable(&mut self) {
        self.sent.push(Sent::Disable);
    }
}

fn bus_of<'a, 'b>(twi: &'a mut TwoWireInterface<'b, Bus, (), ()>) -> &'a mut Bus {
    twi.peripheral().as_mut()
}

fn interface<'b>(bus: Bus) -> TwoWireInterface<'b, Bus, (), ()> {
    let mut twi = TwoWireInterface::new(TwiPeripheral::new(bus, (), (), 50_000));
    bus_of(&mut twi).ready = true;
    twi
}

#[test]
fn status_is_decoded() {
    assert_eq!(recv_start(0x08), Ok(()));
    assert_eq!(recv_start(0x10), Ok(()));
    assert_eq!(recv_start(0x38), Err(Error::ArbitrationLost));
    assert_eq!(recv_start(0x00), Err(Error::BusError));
    assert_eq!(recv_start(0x18), Err(Error::Unknown));
    assert_eq!(recv_slarw(0x18), Ok(()));
    assert_eq!(recv_slarw(0x40), Ok(()));
    assert_eq!(recv_slarw(0x20), Err(Error::AddressNack));
    assert_eq!(recv_slarw(0x48), Err(Error::AddressNack));
    assert_eq!(recv_slarw(0x38), Err(Error::ArbitrationLost));
    assert_eq!(recv_slarw(0x00), Err(Error::BusError));
    assert_eq!(recv_slarw(0xf8), Err(Error::Unknown));
    assert_eq!(recv_write(0x28), Ok(()));
    assert_eq!(recv_write(0x30), Err(Error::DataNack));
    assert_eq!(recv_write(0x38), Err(Error::ArbitrationLost));
    assert_eq!(recv_write(0x00), Err(Error::BusError));
    assert_eq!(recv_write(0x08), Err(Error::Unknown));
    assert_eq!(recv_read(0x50, 7), Ok(7));
    assert_eq!(recv_read(0x58, 9), Ok(9));
    assert_eq!(recv_read(0x38, 9), Err(Error::ArbitrationLost));
    assert_eq!(recv_read(0x00, 9), Err(Error::BusError));
    assert_eq!(recv_read(0x28, 9), Err(Error::Unknown));
}

#[test]
fn first_byte_and_bit_rate() {
    assert_eq!(slarw_byte(0x3c, Direction::Write), 0x78);
    assert_eq!(slarw_byte(0x3c, Direction::Read), 0x79);
    assert_eq!(slarw_byte(0x7f, Direction::Read), 0xff);
    assert_eq!(bit_rate(16_000_000, 100_000), 72);
    assert_eq!(bit_rate(16_000_000, 50_000), 152);
    assert_eq!(bit_rate(16, 1), 0);
}

#[test]
fn command_advances_with_reports() {
    let bytes = [1u8, 2, 3];
    let mut write = State::Write { buf: &bytes, idx: 0, res: None };
    assert_eq!(write.advance(Report::Write(Ok(()))), (false, Next::Write(2)));
    assert_eq!(write.advance(Report::Write(Ok(()))), (false, Next::Write(3)));
    assert_eq!(write.advance(Report::Write(Ok(()))), (true, Next::Nothing));
    assert!(matches!(write, State::Write { idx: 3, res: Some(Ok(())), .. }));

    let mut nack = State::Write { buf: &bytes, idx: 0, res: None };
    assert_eq!(nack.advance(Report::Write(Err(Error::DataNack))), (true, Next::Nothing));
    assert!(matches!(nack, State::Write { idx: 0, res: Some(Err(Error::DataNack)), .. }));

    let mut room = [0u8; 3];
    {
        let mut read = State::Read { buf: &mut room, idx: 0, res: None };
        assert_eq!(read.advance(Report::Read(Ok(7))), (false, Next::Read(false)));
        assert_eq!(read.advance(Report::Read(Ok(8))), (false, Next::Read(true)));
        // an error is noted, the command goes on
        assert_eq!(read.advance(Report::Read(Err(Error::BusError))), (false, Next::Nothing));
        assert!(matches!(read, State::Read { idx: 2, res: Some(Err(Error::BusError)), .. }));
        assert_eq!(read.advance(Report::Read(Ok(9))), (true, Next::Nothing));
        // a report of another kind changes nothing
        assert_eq!(read.advance(Report::Stop), (false, Next::Nothing));
    }
    assert_eq!(room, [7, 8, 9]);

    let mut start = State::Start(None);
    assert_eq!(start.advance(Report::Start(Err(Error::Unknown))), (true, Next::Nothing));
    assert!(matches!(start, State::Start(Some(Err(Error::Unknown)))));
    let mut stop = State::Stop(None);
    assert_eq!(stop.advance(Report::Write(Ok(()))), (false, Next::Nothing));
    assert_eq!(stop.advance(Report::Stop), (true, Next::Nothing));
}

#[test]
fn run_does_nothing_without_a_command_or_a_report() {
    let cs = CriticalSection::new();
    let mut rt = Board { ready: false };
    let mut twi = interface(Bus::new());
    assert!(!twi.run(&cs, &mut rt));
    assert!(!rt.ready);
    let _start = twi.start();
    bus_of(&mut twi).ready = false;
    assert!(!twi.run(&cs, &mut rt));
    assert!(twi.is_set());
    assert!(!rt.ready);
    bus_of(&mut twi).ready = true;
    assert!(twi.run(&cs, &mut rt));
    assert!(rt.ready);
    assert!(!twi.is_set());
    // the command has finished: a further interrupt changes nothing
    rt.ready = false;
    assert!(!twi.run(&cs, &mut rt));
    assert!(!rt.ready);
}

#[test]
fn write_goes_through_start_address_bytes_stop() {
    let cs = CriticalSection::new();
    let mut rt = Board { ready: false };
    let bytes = [0x40u8, 0xaf];
    let mut twi = interface(Bus::new());
    let mut write = Write::new(&mut twi, 0x3c, &bytes);
    assert_eq!(write.poll(&mut twi), Poll::Pending);
    assert!(twi.run(&cs, &mut rt));
    assert_eq!(write.poll(&mut twi), Poll::Pending);
    assert!(twi.run(&cs, &mut rt));
    assert_eq!(write.poll(&mut twi), Poll::Pending);
    // first byte acknowledged: the second is sent, the command goes on
    rt.ready = false;
    assert!(!twi.run(&cs, &mut rt));
    assert!(!rt.ready);
    assert_eq!(write.poll(&mut twi), Poll::Pending);
    assert!(twi.run(&cs, &mut rt));
    assert!(rt.ready);
    assert_eq!(write.poll(&mut twi), Poll::Pending);
    assert!(twi.run(&cs, &mut rt));
    assert_eq!(write.poll(&mut twi), Poll::Ready(Ok(())));
    assert_eq!(
        bus_of(&mut twi).sent,
        vec![
            Sent::Setup(50_000),
            Sent::Start,
            Sent::Disable,
            Sent::SlaRw(0x3c, Direction::Write),
            Sent::Disable,
            Sent::Write(0x40),
            Sent::Write(0xaf),
            Sent::Disable,
            Sent::Stop,
            Sent::Disable,
        ]
    );
}

#[test]
fn write_without_bytes_goes_straight_to_stop() {
    let cs = CriticalSection::new();
    let mut rt = Board { ready: false };
    let bytes: [u8; 0] = [];
    let mut twi = interface(Bus::new());
    let mut write = Write::new(&mut twi, 1, &bytes);
    assert_eq!(write.poll(&mut twi), Poll::Pending);
    assert!(twi.run(&cs, &mut rt));
    assert_eq!(write.poll(&mut twi), Poll::Pending);
    assert!(twi.run(&cs, &mut rt));
    assert_eq!(write.poll(&mut twi), Poll::Pending);
    assert!(twi.run(&cs, &mut rt));
    assert_eq!(write.poll(&mut twi), Poll::Ready(Ok(())));
    assert_eq!(bus_of(&mut twi).sent.last(), Some(&Sent::Disable));
    assert!(!bus_of(&mut twi).sent.iter().any(|s| matches!(s, Sent::Write(_))));
}

#[test]
fn failed_start_ends_the_write_at_once() {
    let cs = CriticalSection::new();
    let mut rt = Board { ready: false };
    let bytes = [1u8];
    let mut bus = Bus::new();
    bus.start = Err(Error::ArbitrationLost);
    let mut twi = interface(bus);
    let mut write = Write::new(&mut twi, 1, &bytes);
    assert_eq!(write.poll(&mut twi), Poll::Pending);
    assert!(twi.run(&cs, &mut rt));
    assert_eq!(write.poll(&mut twi), Poll::Ready(Err(Error::ArbitrationLost)));
    assert!(!bus_of(&mut twi).sent.contains(&Sent::Stop));
}

#[test]
fn unacknowledged_address_is_reported_after_the_stop() {
    let cs = CriticalSection::new();
    let mut rt = Board { ready: false };
    let bytes = [1u8];
    let mut bus = Bus::new();
    bus.slarw = Err(Error::AddressNack);
    let mut twi = interface(bus);
    let mut write = Write::new(&mut twi, 1, &bytes);
    assert_eq!(write.poll(&mut twi), Poll::Pending);
    assert!(twi.run(&cs, &mut rt));
    assert_eq!(write.poll(&mut twi), Poll::Pending);
    assert!(twi.run(&cs, &mut rt));
    assert_eq!(write.poll(&mut twi), Poll::Pending);
    assert!(bus_of(&mut twi).sent.contains(&Sent::Stop));
    assert!(twi.run(&cs, &mut rt));
    assert_eq!(write.poll(&mut twi), Poll::Ready(Err(Error::AddressNack)));
}

#[test]
fn unacknowledged_byte_is_reported_after_the_stop() {
    let cs = CriticalSection::new();
    let mut rt = Board { ready: false };
    let bytes = [1u8, 2];
    let mut bus = Bus::new();
    bus.write = Err(Error::DataNack);
    let mut twi = interface(bus);
    let mut write = Write::new(&mut twi, 1, &bytes);
    for _ in 0..3 {
        assert_eq!(write.poll(&mut twi), Poll::Pending);
        assert!(twi.run(&cs, &mut rt));
    }
    assert_eq!(write.poll(&mut twi), Poll::Pending);
    assert!(twi.run(&cs, &mut rt));
    assert_eq!(write.poll(&mut twi), Poll::Ready(Err(Error::DataNack)));
    assert!(!bus_of(&mut twi).sent.contains(&Sent::Write(2)));
}

#[test]
fn read_fills_the_buffer_and_hands_it_back() {
    let cs = CriticalSection::new();
    let mut rt = Board { ready: false };
    let mut room = [0u8; 3];
    let mut bus = Bus::new();
    bus.incoming = vec![Ok(5), Ok(6), Ok(7)];
    let mut twi = interface(bus);
    let mut read = Read::new(&mut twi, 0x20, &mut room);
    assert!(matches!(read.poll(&mut twi), Poll::Pending));
    assert!(twi.run(&cs, &mut rt));
    assert!(matches!(read.poll(&mut twi), Poll::Pending));
    assert!(twi.run(&cs, &mut rt));
    assert!(matches!(read.poll(&mut twi), Poll::Pending));
    assert!(!twi.run(&cs, &mut rt));
    assert!(!twi.run(&cs, &mut rt));
    assert!(matches!(read.poll(&mut twi), Poll::Pending));
    assert!(twi.run(&cs, &mut rt));
    assert!(matches!(read.poll(&mut twi), Poll::Pending));
    assert!(twi.run(&cs, &mut rt));
    match read.poll(&mut twi) {
        Poll::Ready((res, buf)) => {
            assert_eq!(res, Ok(()));
            assert_eq!(buf, &[5u8, 6, 7][..]);
        }
        Poll::Pending => panic!(),
    }
    let reads: Vec<Sent> = bus_of(&mut twi)
        .sent
        .iter()
        .copied()
        .filter(|s| matches!(s, Sent::Read(_)))
        .collect();
    assert_eq!(reads, vec![Sent::Read(false), Sent::Read(false), Sent::Read(true)]);
}

#[test]
fn read_of_one_byte_asks_for_the_last_byte_at_once() {
    let mut room = [0u8; 1];
    let mut twi = interface(Bus::new());
    let (read, back) = twi.read(&mut room);
    assert!(back.is_none());
    let _ = read;
    assert_eq!(bus_of(&mut twi).sent.last(), Some(&Sent::Read(true)));
}

#[test]
fn read_error_does_not_finish_the_command() {
    let cs = CriticalSection::new();
    let mut rt = Board { ready: false };
    let mut room = [0u8; 2];
    let mut bus = Bus::new();
    bus.incoming = vec![Err(Error::BusError)];
    let mut twi = interface(bus);
    let (mut read, _) = twi.read(&mut room);
    assert!(!twi.run(&cs, &mut rt));
    assert!(twi.is_set());
    assert!(!rt.ready);
    assert_eq!(read.poll(&mut twi), Poll::Ready(Err(Error::BusError)));
    assert!(twi.take_buffer().is_some());
    assert!(!twi.is_set());
}

#[test]
fn wait_is_ready_while_the_flag_is_up() {
    let mut twi = interface(Bus::new());
    let mut wait = Wait::new(&mut twi);
    assert_eq!(wait.poll(&twi), Poll::Pending);
    let _ = twi.start();
    assert_eq!(wait.poll(&twi), Poll::Ready(()));
}

#[test]
fn transfer_started_on_a_busy_bus_waits_first() {
    let bytes = [1u8];
    let mut twi = interface(Bus::new());
    let _ = twi.stop();
    let sent_before = bus_of(&mut twi).sent.len();
    let mut write = Write::new(&mut twi, 1, &bytes);
    assert_eq!(bus_of(&mut twi).sent.len(), sent_before);
    assert_eq!(write.poll(&mut twi), Poll::Pending);
    assert_eq!(bus_of(&mut twi).sent.last(), Some(&Sent::Start));
}

#[test]
fn transaction_sends_one_stop_at_its_end() {
    let cs = CriticalSection::new();
    let mut rt = Board { ready: false };
    let bytes = [9u8];
    let mut room = [0u8; 1];
    let mut bus = Bus::new();
    bus.incoming = vec![Ok(4)];
    let mut twi = interface(bus);
    let mut get = twi.transaction();
    assert!(matches!(get.poll(&twi), Poll::Pending));
    let _ = twi.stop();
    let mut tx = match get.poll(&twi) {
        Poll::Ready(tx) => tx,
        Poll::Pending => panic!(),
    };

    let mut write = tx.write(&mut twi, 0x10, &bytes);
    for _ in 0..3 {
        assert_eq!(write.poll(&mut tx, &mut twi), Poll::Pending);
        assert!(twi.run(&cs, &mut rt));
    }
    assert_eq!(write.poll(&mut tx, &mut twi), Poll::Ready(Ok(())));

    let mut read = tx.read(&mut twi, 0x10, &mut room);
    for _ in 0..3 {
        assert!(matches!(read.poll(&mut tx, &mut twi), Poll::Pending));
        assert!(twi.run(&cs, &mut rt));
    }
    match read.poll(&mut tx, &mut twi) {
        Poll::Ready((res, buf)) => {
            assert_eq!(res, Ok(()));
            assert_eq!(buf, &[4u8][..]);
        }
        Poll::Pending => panic!(),
    }
    let stops_before = bus_of(&mut twi).sent.iter().filter(|s| **s == Sent::Stop).count();
    tx.finish(&mut twi);
    let sent = &bus_of(&mut twi).sent;
    assert_eq!(sent.iter().filter(|s| **s == Sent::Stop).count(), stops_before + 1);
    assert!(sent.contains(&Sent::SlaRw(0x10, Direction::Write)));
    assert!(sent.contains(&Sent::SlaRw(0x10, Direction::Read)));
}

#[test]
fn transaction_that_never_started_sends_no_stop() {
    let cs = CriticalSection::new();
    let mut rt = Board { ready: false };
    let bytes = [9u8];
    let mut bus = Bus::new();
    bus.start = Err(Error::BusError);
    let mut twi = interface(bus);
    let _ = twi.start();
    let mut get = twi.transaction();
    let mut tx = match get.poll(&twi) {
        Poll::Ready(tx) => tx,
        Poll::Pending => panic!(),
    };
    let mut write = tx.write(&mut twi, 0x10, &bytes);
    assert_eq!(write.poll(&mut tx, &mut twi), Poll::Pending);
    assert!(twi.run(&cs, &mut rt));
    assert_eq!(write.poll(&mut tx, &mut twi), Poll::Ready(Err(Error::BusError)));
    tx.finish(&mut twi);
    assert!(!bus_of(&mut twi).sent.contains(&Sent::Stop));
}

#[test]
fn bus_tells_the_kind_of_its_command() {
    let bytes = [1u8];
    let mut twi = interface(Bus::new());
    assert_eq!(twi.kind(), None);
    let write = Write::new(&mut twi, 1, &bytes);
    assert_eq!(twi.kind(), Some(Kind::Start));
    assert!(write.is_fitting(&twi));
    let _ = twi.stop();
    assert_eq!(twi.kind(), Some(Kind::Stop));
    // another command has taken the place of the one the write waits for
    assert!(!write.is_fitting(&twi));
    let sent = twi.write(&bytes);
    assert!(sent.is_active());
    assert_eq!(twi.kind(), Some(Kind::Write));
    let state = State::Write { buf: &bytes, idx: 1, res: None };
    assert!(!state.is_active());
    assert_eq!(state.kind(), Kind::Write);
}

#[test]
fn requests_of_a_transaction_tell_their_state() {
    let mut twi = interface(Bus::new());
    let mut get = twi.transaction();
    assert!(!get.is_done());
    let _ = twi.start();
    let tx = match get.poll(&twi) {
        Poll::Ready(tx) => tx,
        Poll::Pending => panic!(),
    };
    assert!(get.is_done());
    assert!(!tx.is_started());
}
