use avr_async::runtime::CriticalSection;
use avr_async::snapshot::State;
use avr_async::time::{elapsed, TickCounter, TickDelay, TickInterval, UInt};
use avr_async::Poll;

#[test]
fn elapsed_counts_ticks() {
    assert_eq!(elapsed(3u8, 10u8), Some(7));
    assert_eq!(elapsed(10u32, 10u32), Some(0));
    // the counter has started again at zero
    assert_eq!(elapsed(250u8, 4u8), Some(9));
    assert_eq!(elapsed(u16::MAX, 0u16), Some(0));
    assert_eq!(elapsed(1u64, 0u64), Some(u64::MAX - 1));
}

#[test]
fn unsigned_types_count() {
    assert_eq!(<u8 as UInt>::zero(), 0);
    assert_eq!(<u16 as UInt>::max_value(), u16::MAX);
    assert_eq!(UInt::checked_add(200u8, 55u8), Some(255));
    assert_eq!(UInt::checked_add(200u8, 56u8), None);
    assert_eq!(UInt::checked_add(usize::MAX, 1usize), None);
    assert_eq!(7u32.minus(2), 5);
    assert_eq!(u8::MAX.successor(), 0);
    assert_eq!(41u64.successor(), 42);
    assert!(3u16.exceeds(2));
    assert!(!3u16.exceeds(3));
}

#[test]
fn tasks_see_the_count_of_the_last_snapshot() {
    let cs = CriticalSection::new();
    let mut ticks = TickCounter::<u8>::new();
    assert_eq!(ticks.get(), 0);
    ticks.inc(&cs);
    ticks.inc(&cs);
    assert_eq!(ticks.get(), 0);
    assert_eq!(ticks.get_real(&cs), 2);
    ticks.snapshot(&cs);
    assert_eq!(ticks.get(), 2);
}

#[test]
fn counter_starts_again_after_the_largest_count() {
    let cs = CriticalSection::new();
    let mut ticks = TickCounter::<u8>::default();
    for _ in 0..256 {
        ticks.inc(&cs);
    }
    assert_eq!(ticks.get_real(&cs), 0);
}

#[test]
fn delay_is_ready_after_its_ticks() {
    let cs = CriticalSection::new();
    let mut ticks = TickCounter::<u16>::new();
    let delay = ticks.delay(3);
    assert_eq!(delay.poll(&ticks), Poll::Pending);
    for _ in 0..2 {
        ticks.inc(&cs);
    }
    ticks.snapshot(&cs);
    assert_eq!(delay.poll(&ticks), Poll::Pending);
    ticks.inc(&cs);
    // not seen before the snapshot
    assert_eq!(delay.poll(&ticks), Poll::Pending);
    ticks.snapshot(&cs);
    assert_eq!(delay.poll(&ticks), Poll::Ready(()));
    assert_eq!(TickDelay::new(&ticks, 0).poll(&ticks), Poll::Ready(()));
}

#[test]
fn interval_gives_one_delay_after_another() {
    let cs = CriticalSection::new();
    let mut ticks = TickCounter::<u8>::new();
    let interval = ticks.interval(2);
    let first = interval.next(&ticks);
    ticks.inc(&cs);
    ticks.inc(&cs);
    ticks.snapshot(&cs);
    assert_eq!(first.poll(&ticks), Poll::Ready(()));
    let second = TickInterval::new(&ticks, 2).next(&ticks);
    assert_eq!(second.poll(&ticks), Poll::Pending);
}
