use avr_async::runtime::{CriticalSection, Ready, Runtime};
use avr_async::slab::Slab;
use avr_async::sync::queue::{Dequeue, Enqueue};
use avr_async::sync::Queue;
use avr_async::{ayield, Poll, Yield};

struct Board {
    ready: bool,
}

impl Ready for Board {
    fn ready(&self) -> bool {
        self.ready
    }

    fn is_ready(&self, _cs: &CriticalSection) -> bool {
        self.ready
    }
}

impl Runtime for Board {
    type Memory = Slab<u8>;
    type Arguments = ();

    fn new(_mem: Slab<u8>, _cs: &CriticalSection) -> (Self, ()) {
        (Board { ready: false }, ())
    }

    fn snapshot(&mut self, _cs: &CriticalSection) {
        self.ready = false;
    }

    fn idle(&self) {}

    fn wake(&mut self) {
        self.ready = true;
    }

    fn shutdown(&self) {}
}

#[test]
fn try_enqueue_wakes_when_the_queue_stops_being_empty() {
    let mut rt = Board { ready: false };
    let mut q = Queue::<u8, 2>::new();
    assert_eq!(q.try_enqueue(1, &mut rt), Ok(()));
    assert!(rt.ready);
    rt.ready = false;
    assert_eq!(q.try_enqueue(2, &mut rt), Ok(()));
    assert!(!rt.ready);
    assert_eq!(q.try_enqueue(3, &mut rt), Err(3));
    assert!(!rt.ready);
}

#[test]
fn try_dequeue_wakes_when_the_queue_stops_being_full() {
    let mut rt = Board { ready: false };
    let mut q = Queue::<u8, 2>::new();
    q.try_enqueue(1, &mut rt).unwrap();
    q.try_enqueue(2, &mut rt).unwrap();
    rt.ready = false;
    assert_eq!(q.try_dequeue(&mut rt), Some(1));
    assert!(rt.ready);
    rt.ready = false;
    assert_eq!(q.try_dequeue(&mut rt), Some(2));
    assert!(!rt.ready);
    assert_eq!(q.try_dequeue(&mut rt), None);
    assert!(!rt.ready);
}

#[test]
fn enqueue_is_pending_until_there_is_room() {
    let mut rt = Board { ready: false };
    let mut q = Queue::<u8, 1>::new();
    let mut a = q.enqueue(1);
    assert_eq!(a.poll(&mut q, &mut rt), Poll::Ready(()));
    let mut b = Enqueue::new(2);
    assert_eq!(b.poll(&mut q, &mut rt), Poll::Pending);
    assert_eq!(b.poll(&mut q, &mut rt), Poll::Pending);
    assert_eq!(q.try_dequeue(&mut rt), Some(1));
    assert_eq!(b.poll(&mut q, &mut rt), Poll::Ready(()));
    assert_eq!(q.try_dequeue(&mut rt), Some(2));
}

#[test]
fn dequeue_is_pending_until_there_is_a_value() {
    let mut rt = Board { ready: false };
    let mut q = Queue::<u8, 1>::new();
    let mut d = q.dequeue();
    assert_eq!(d.poll(&mut q, &mut rt), Poll::Pending);
    q.try_enqueue(4, &mut rt).unwrap();
    rt.ready = false;
    assert_eq!(d.poll(&mut q, &mut rt), Poll::Ready(4));
    assert!(rt.ready);
    let mut e = Dequeue::new();
    assert_eq!(e.poll(&mut q, &mut rt), Poll::Pending);
}

#[test]
fn yield_is_pending_once() {
    let mut rt = Board { ready: false };
    let mut y = Yield::new();
    assert_eq!(y.poll(&mut rt), Poll::Pending);
    assert!(rt.ready);
    rt.ready = false;
    assert_eq!(y.poll(&mut rt), Poll::Ready(()));
    assert!(!rt.ready);
    assert_eq!(y.poll(&mut rt), Poll::Ready(()));
    let mut z = ayield();
    assert!(z.poll(&mut rt).is_pending());
    assert!(z.poll(&mut rt).is_ready());
}

#[test]
fn requests_tell_when_they_are_done() {
    let mut rt = Board { ready: false };
    let mut q = Queue::<u8, 1>::new();
    let mut put = q.enqueue(1);
    assert!(!put.is_done());
    assert_eq!(put.poll(&mut q, &mut rt), Poll::Ready(()));
    assert!(put.is_done());
    let mut take = q.dequeue();
    assert!(!take.is_done());
    assert_eq!(take.poll(&mut q, &mut rt), Poll::Ready(1));
    assert!(take.is_done());
}
