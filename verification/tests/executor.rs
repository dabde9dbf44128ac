use avr_async::executor::{Action, Event, Executor, Phase};
use avr_async::runtime::{CriticalSection, Memory, Ready, Runtime};
use avr_async::slab::Slab;
use avr_async::snapshot::{Runtime as FlagRuntime, State};
use avr_async::ticker::Ticker;

struct Board {
    ready: bool,
}

impl Ready for Board {
    fn ready(&self) -> bool {
        self.ready
    }

    fn is_ready(&self, _cs: &CriticalSection) -> bool {
        self.ready
    }
}

impl Runtime for Board {
    type Memory = Slab<u8>;
    type Arguments = ();

    fn new(_mem: Slab<u8>, _cs: &CriticalSection) -> (Self, ()) {
        (Board { ready: false }, ())
    }

    fn snapshot(&mut self, _cs: &CriticalSection) {
        self.ready = false;
    }

    fn idle(&self) {}

    fn wake(&mut self) {
        self.ready = true;
    }

    fn shutdown(&self) {}
}

#[test]
fn idle_runtime_is_put_to_sleep() {
    let cs = CriticalSection::new();
    let mut rt = Board { ready: false };
    let mut ex = Executor::new();
    assert_eq!(ex.phase(), Phase::Idle);
    assert_eq!(ex.tick(&mut rt, &cs), Action::Idle);
    assert_eq!(ex.phase(), Phase::Idle);
    ex.rest(&rt, Action::Idle);
}

#[test]
fn ready_runtime_is_snapshotted_and_polled() {
    let cs = CriticalSection::new();
    let mut rt = Board { ready: false };
    let mut ex = Executor::new();
    rt.wake();
    assert_eq!(ex.tick(&mut rt, &cs), Action::Poll);
    assert!(!rt.ready);
    assert_eq!(ex.phase(), Phase::Polling);
    assert_eq!(ex.polled(false), None);
    assert_eq!(ex.phase(), Phase::Idle);
    assert_eq!(ex.tick(&mut rt, &cs), Action::Idle);
}

#[test]
fn resolved_root_task_shuts_down_for_good() {
    let cs = CriticalSection::new();
    let mut rt = Board { ready: true };
    let mut ex = Executor::new();
    assert_eq!(ex.tick(&mut rt, &cs), Action::Poll);
    assert_eq!(ex.polled(true), Some(Action::Shutdown));
    assert_eq!(ex.phase(), Phase::Shutdown);
    rt.wake();
    for _ in 0..3 {
        assert_eq!(ex.tick(&mut rt, &cs), Action::Shutdown);
        assert_eq!(ex.phase(), Phase::Shutdown);
    }
    // the runtime is left alone once the run is over
    assert!(rt.ready);
    ex.rest(&rt, Action::Shutdown);
}

#[test]
fn phases_follow_the_protocol() {
    assert_eq!(Phase::Idle.next(Event::Wake), Phase::Ready);
    assert_eq!(Phase::Ready.next(Event::Mask), Phase::Snapshotting);
    assert_eq!(Phase::Snapshotting.next(Event::Snapshot), Phase::Polling);
    assert_eq!(Phase::Polling.next(Event::Yield), Phase::Idle);
    assert_eq!(Phase::Polling.next(Event::Resolve), Phase::Shutdown);
    assert_eq!(Phase::Idle.next(Event::Snapshot), Phase::Idle);
    assert_eq!(Phase::Shutdown.next(Event::Wake), Phase::Shutdown);
    assert_eq!(Phase::Shutdown.next(Event::Yield), Phase::Shutdown);
}

struct Counter {
    written: u8,
    seen: u8,
}

impl State for Counter {
    fn snapshot(&mut self, _cs: &CriticalSection) {
        self.seen = self.written;
    }
}

#[test]
fn modify_raises_the_flag_on_progress() {
    let cs = CriticalSection::new();
    let mut rt = FlagRuntime::new(Counter { written: 0, seen: 0 });
    assert!(!rt.is_ready());
    rt.modify(&cs, |s: &mut Counter| {
        s.written += 1;
        false
    });
    assert!(!rt.is_ready());
    rt.modify(&cs, |s: &mut Counter| {
        s.written += 1;
        true
    });
    assert!(rt.is_ready());
    // a raised flag stays raised
    rt.modify(&cs, |_s: &mut Counter| false);
    assert!(rt.is_ready());
    assert_eq!(rt.state().seen, 0);
    rt.snapshot(&cs);
    assert!(!rt.is_ready());
    assert_eq!(rt.state().seen, 2);
    rt.wake();
    assert!(Ready::is_ready(&rt, &cs));
}

#[test]
fn board_without_hooks_ignores_them() {
    let cs = CriticalSection::new();
    let mut rt = Board { ready: false };
    rt.init(&cs);
    rt.interrupt(3, &cs);
    assert!(!rt.ready);
}

#[test]
fn ticker_with_a_flag_is_a_runtime() {
    let cs = CriticalSection::new();
    let mem = <Ticker as Memory>::reserve();
    let ticker = <Ticker as Memory>::from_ptr(mem);
    let (mut rt, ()) = <FlagRuntime<Ticker> as Runtime>::new(ticker, &cs);
    rt.modify(&cs, |_ticker: &mut Ticker| false);
    let mut ex = Executor::new();
    assert_eq!(ex.tick(&mut rt, &cs), Action::Idle);
    ex.rest(&rt, Action::Idle);

    // two ticks make news: the handler raises the flag
    let tick = |ticker: &mut Ticker| ticker.tick(&CriticalSection::new());
    rt.modify(&cs, tick);
    assert!(!Ready::is_ready(&rt, &cs));
    rt.modify(&cs, tick);
    assert!(Ready::is_ready(&rt, &cs));

    assert_eq!(ex.tick(&mut rt, &cs), Action::Poll);
    assert!(!Ready::is_ready(&rt, &cs));
    assert_eq!(ex.polled(false), None);
    assert_eq!(ex.tick(&mut rt, &cs), Action::Idle);

    Runtime::wake(&mut rt);
    assert_eq!(ex.tick(&mut rt, &cs), Action::Poll);
}
