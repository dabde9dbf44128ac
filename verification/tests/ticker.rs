use avr_async::runtime::CriticalSection;
use avr_async::slab::Slab;
use avr_async::ticker::{Ticker, TickerSlab, LISTENERS};
use avr_async::Poll;

#[test]
fn ticker_has_room_for_its_listeners() {
    let mut ticker = Ticker::new(Slab::<TickerSlab>::new());
    let mut listeners = Vec::new();
    for _ in 0..LISTENERS {
        let listener = ticker.subscribe();
        assert!(listener.is_some());
        listeners.push(listener.unwrap());
    }
    assert!(ticker.subscribe().is_none());
    assert!(ticker.subscribe().is_none());
    assert_eq!(listeners.len(), 4);
}

#[test]
fn count_goes_on_with_every_second_tick() {
    let cs = CriticalSection::new();
    let mut ticker = Ticker::new(Slab::new());
    let mut listener = ticker.subscribe().unwrap();
    let mut seen = Vec::new();
    for _ in 0..10 {
        ticker.tick(&cs);
        ticker.snapshot(&cs);
        if let Poll::Ready(count) = listener.next().poll(&mut ticker) {
            seen.push(count);
        }
    }
    assert_eq!(seen, vec![1, 2, 3, 0, 1]);
}

#[test]
fn tick_says_whether_there_is_news() {
    let cs = CriticalSection::new();
    let mut ticker = Ticker::new(Slab::new());
    assert!(!ticker.tick(&cs));
    assert!(ticker.tick(&cs));
    // the news stays until the snapshot
    assert!(ticker.tick(&cs));
    ticker.snapshot(&cs);
    assert!(ticker.tick(&cs));
    ticker.snapshot(&cs);
    assert!(!ticker.tick(&cs));
}

#[test]
fn every_listener_gets_the_news_once() {
    let cs = CriticalSection::new();
    let mut ticker = Ticker::new(Slab::new());
    let mut first = ticker.subscribe().unwrap();
    let mut second = ticker.subscribe().unwrap();
    assert_eq!(first.next().poll(&mut ticker), Poll::Pending);
    ticker.tick(&cs);
    ticker.tick(&cs);
    // not seen before the snapshot
    assert_eq!(first.next().poll(&mut ticker), Poll::Pending);
    ticker.snapshot(&cs);
    assert_eq!(first.next().poll(&mut ticker), Poll::Ready(1));
    assert_eq!(first.next().poll(&mut ticker), Poll::Pending);
    assert_eq!(second.next().poll(&mut ticker), Poll::Ready(1));
    // a snapshot without news empties the slots
    ticker.tick(&cs);
    ticker.tick(&cs);
    ticker.snapshot(&cs);
    ticker.snapshot(&cs);
    assert_eq!(first.next().poll(&mut ticker), Poll::Pending);
    assert_eq!(second.next().poll(&mut ticker), Poll::Pending);
}

#[test]
fn listener_without_a_slot_hears_nothing() {
    let cs = CriticalSection::new();
    let mut crowded = Ticker::new(Slab::new());
    let mut last = None;
    for _ in 0..LISTENERS {
        last = crowded.subscribe();
    }
    let mut last = last.unwrap();
    assert_eq!(crowded.listeners(), 4);
    // a ticker without listeners has no slot for that listener
    let mut ticker = Ticker::new(Slab::new());
    assert_eq!(ticker.listeners(), 0);
    ticker.tick(&cs);
    ticker.tick(&cs);
    ticker.snapshot(&cs);
    assert_eq!(last.next().poll(&mut ticker), Poll::Pending);
    assert_eq!(ticker.listeners(), 0);
}
