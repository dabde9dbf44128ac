use avr_async::runtime::{CriticalSection, Ready, Runtime};
use avr_async::slab::Slab;
use avr_async::sync::semaphore::imp::InnerSemaphore;
use avr_async::sync::semaphore::Semaphore;
use avr_async::Poll;

struct Board {
    ready: bool,
}

impl Ready for Board {
    fn ready(&self) -> bool {
        self.ready
    }

    fn is_ready(&self, _cs: &CriticalSection) -> bool {
        self.ready
    }
}

impl Runtime for Board {
    type Memory = Slab<u8>;
    type Arguments = ();

    fn new(_mem: Slab<u8>, _cs: &CriticalSection) -> (Self, ()) {
        (Board { ready: false }, ())
    }

    fn snapshot(&mut self, _cs: &CriticalSection) {
        self.ready = false;
    }

    fn idle(&self) {}

    fn wake(&mut self) {
        self.ready = true;
    }

    fn shutdown(&self) {}
}

#[test]
fn permits_pass_from_holder_to_waiters() {
    let mut rt = Board { ready: false };
    let mut s = Semaphore::<2>::new(2);

    let mut fut1 = s.acquire_many(2);
    match fut1.poll(&mut s) {
        Poll::Ready(permit) => s.release(permit, &mut rt),
        Poll::Pending => panic!(),
    }

    let mut held = s.acquire_many(2);
    let permit = match held.poll(&mut s) {
        Poll::Ready(permit) => permit,
        Poll::Pending => panic!(),
    };
    let mut fut1 = s.acquire();
    assert!(matches!(fut1.poll(&mut s), Poll::Pending));
    s.release(permit, &mut rt);
    assert!(rt.ready);

    let permit1 = fut1.poll(&mut s);
    assert!(matches!(permit1, Poll::Ready(_)));

    let mut fut2 = s.acquire();
    let permit2 = fut2.poll(&mut s);
    assert!(matches!(permit2, Poll::Ready(_)));

    let mut fut3 = s.acquire_many(2);
    assert!(matches!(fut3.poll(&mut s), Poll::Pending));

    s.add_permits(1, &mut rt);
    assert!(matches!(fut3.poll(&mut s), Poll::Pending));

    s.add_permits(1, &mut rt);
    assert!(matches!(fut3.poll(&mut s), Poll::Ready(_)));
}

#[test]
fn waiter_for_two_permits_needs_both() {
    let mut rt = Board { ready: false };
    let mut s = Semaphore::<2>::new(2);
    let mut first = s.acquire_many(2);
    assert!(matches!(first.poll(&mut s), Poll::Ready(_)));
    assert!(first.is_done());

    let mut second = s.acquire_many(2);
    assert!(matches!(second.poll(&mut s), Poll::Pending));
    s.add_permits(1, &mut rt);
    assert!(!rt.ready);
    assert!(matches!(second.poll(&mut s), Poll::Pending));
    s.add_permits(1, &mut rt);
    assert!(rt.ready);
    match second.poll(&mut s) {
        Poll::Ready(permit) => assert_eq!(permit.permits(), 2),
        Poll::Pending => panic!(),
    }
}

#[test]
fn waiter_for_one_permit_is_served_by_one_added_permit() {
    let mut rt = Board { ready: false };
    let mut s = Semaphore::<2>::new(2);
    let mut first = s.acquire_many(2);
    assert!(matches!(first.poll(&mut s), Poll::Ready(_)));
    let mut second = s.acquire();
    assert!(matches!(second.poll(&mut s), Poll::Pending));
    s.add_permits(1, &mut rt);
    assert!(rt.ready);
    assert!(matches!(second.poll(&mut s), Poll::Ready(_)));
}

#[test]
fn try_acquire_succeeds_while_permits_are_free() {
    let mut s = Semaphore::<1>::new(3);
    let a = s.try_acquire_many(2);
    assert!(a.is_ok());
    assert_eq!(a.unwrap().permits(), 2);
    assert!(s.try_acquire_many(2).is_err());
    assert!(s.try_acquire().is_ok());
    assert!(s.try_acquire().is_err());
}

#[test]
fn locking_never_exceeds_permits() {
    let mut s = InnerSemaphore::<4>::new(3);
    let mut held = Vec::new();
    let mut waiting = Vec::new();
    for step in 0..60usize {
        match step % 5 {
            0 | 1 => {
                if let Some(req) = s.try_acquire_enqueue(1 + step % 3) {
                    waiting.push(req);
                }
            }
            2 => {
                let mut still = Vec::new();
                for req in waiting.drain(..) {
                    match req.try_lock(&mut s) {
                        Ok(p) => held.push(p),
                        Err(req) => still.push(req),
                    }
                }
                waiting = still;
            }
            3 => {
                if let Some(p) = held.pop() {
                    p.release(&mut s);
                }
            }
            _ => {
                if step % 10 == 4 {
                    if let Some(req) = waiting.pop() {
                        req.cancel(&mut s);
                    }
                }
            }
        }
        assert!(s.available() <= s.permits());
        assert!(s.len() <= 4);
    }
}

#[test]
fn waiters_are_served_in_the_order_they_came() {
    let mut s = InnerSemaphore::<4>::new(4);
    let all = s.try_acquire(4).ok().unwrap();
    let first = s.try_acquire_enqueue(3).unwrap();
    let second = s.try_acquire_enqueue(1).unwrap();
    assert_eq!(s.len(), 2);
    // two permits come back: both go to the first waiter, though the second
    // asks for less
    assert!(!s.add_permits(2));
    let second = second.try_lock(&mut s).err().unwrap();
    let first = first.try_lock(&mut s).err().unwrap();
    // two more: one completes the first waiter, one serves the second
    assert!(s.add_permits(2));
    assert!(first.try_lock(&mut s).is_ok());
    assert!(second.try_lock(&mut s).is_ok());
    assert_eq!(s.len(), 0);
    assert_eq!(s.available(), 0);
    all.release(&mut s);
    assert_eq!(s.available(), 4);
}

#[test]
fn cancelled_waiter_hands_back_what_it_was_given() {
    let mut rt = Board { ready: false };
    let mut s = Semaphore::<2>::new(3);
    let held = s.try_acquire_many(3).ok().unwrap();
    let mut waiter = s.acquire_many(3);
    assert!(matches!(waiter.poll(&mut s), Poll::Pending));
    // the holder gives back its three permits; the waiter gets all of them
    s.release(held, &mut rt);
    assert!(s.try_acquire().is_err());
    // the waiter gives up without taking them
    waiter.cancel(&mut s, &mut rt);
    assert!(s.try_acquire_many(3).is_ok());
}

#[test]
fn partially_served_waiter_hands_back_its_share() {
    let mut s = InnerSemaphore::<2>::new(2);
    let held = s.try_acquire(2).ok().unwrap();
    let waiter = s.try_acquire_enqueue(2).unwrap();
    assert!(!s.add_permits(1));
    assert_eq!(s.available(), 0);
    waiter.cancel(&mut s);
    assert_eq!(s.len(), 0);
    assert_eq!(s.available(), 1);
    assert!(s.try_acquire(1).is_ok());
    held.release(&mut s);
    assert_eq!(s.available(), 2);
}

#[test]
fn full_waiter_queue_keeps_the_request_pending() {
    let mut s = Semaphore::<1>::new(1);
    let _held = s.try_acquire().ok().unwrap();
    let mut a = s.acquire();
    let mut b = s.acquire();
    assert!(matches!(a.poll(&mut s), Poll::Pending));
    assert!(matches!(b.poll(&mut s), Poll::Pending));
    assert_eq!(s.inner().len(), 1);
    assert!(matches!(b.poll(&mut s), Poll::Pending));
}

#[test]
fn forgotten_permit_stays_handed_out() {
    let mut s = Semaphore::<1>::new(1);
    s.try_acquire().ok().unwrap().forget();
    assert!(s.try_acquire().is_err());
}

#[test]
fn slot_of_departed_waiter_is_reclaimed_from_the_front() {
    let mut s = InnerSemaphore::<3>::new(1);
    let _held = s.try_acquire(1).ok().unwrap();
    let a = s.try_acquire_enqueue(1).unwrap();
    let b = s.try_acquire_enqueue(1).unwrap();
    let c = s.try_acquire_enqueue(1).unwrap();
    assert_eq!(s.len(), 3);
    // the middle waiter leaves: its slot stays until the front has gone
    b.cancel(&mut s);
    assert_eq!(s.len(), 3);
    a.cancel(&mut s);
    assert_eq!(s.len(), 1);
    c.cancel(&mut s);
    assert_eq!(s.len(), 0);
}

#[test]
fn request_knows_whether_it_can_be_polled() {
    let mut s = Semaphore::<1>::new(1);
    assert_eq!(s.permits(), 1);
    assert_eq!(s.locking(), 0);
    let mut too_many = s.acquire_many(2);
    assert!(too_many.is_valid(&s));
    assert!(matches!(too_many.poll(&mut s), Poll::Pending));
    assert!(too_many.is_valid(&s));
    let mut rt = Board { ready: false };
    too_many.cancel(&mut s, &mut rt);
    let mut one = s.acquire();
    assert!(one.is_valid(&s));
    assert!(matches!(one.poll(&mut s), Poll::Ready(_)));
    assert_eq!(s.locking(), 1);
    assert!(!one.is_valid(&s));
    let mut waiter = s.acquire();
    assert!(matches!(waiter.poll(&mut s), Poll::Pending));
    assert!(waiter.is_valid(&s));
}

#[test]
fn request_tells_what_it_was_granted() {
    let mut s = InnerSemaphore::<1>::new(2);
    let granted = s.try_acquire_enqueue(2).unwrap();
    assert_eq!(granted.granted(), Some(2));
    assert!(granted.is_valid(&s));
    let queued = s.try_acquire_enqueue(1).unwrap();
    assert_eq!(queued.granted(), None);
    assert!(queued.is_valid(&s));
    assert!(s.try_acquire_enqueue(1).is_none());
    assert_eq!(s.locking(), 2);
    let other = InnerSemaphore::<1>::new(1);
    assert!(!queued.is_valid(&other));
}

#[test]
fn semaphore_without_permits_answers_busy() {
    let mut s = Semaphore::<1>::new(0);
    assert!(s.try_acquire().is_err());
    assert!(s.try_acquire_many(3).is_err());
    assert_eq!(s.locking(), 0);
    assert_eq!(s.permits(), 0);
    assert_eq!(s.inner().len(), 0);
    let mut waiter = s.acquire();
    assert!(matches!(waiter.poll(&mut s), Poll::Pending));
    assert!(matches!(waiter.poll(&mut s), Poll::Pending));
    let mut rt = Board { ready: false };
    s.add_permits(1, &mut rt);
    assert!(rt.ready);
    assert!(matches!(waiter.poll(&mut s), Poll::Ready(_)));
}

#[test]
fn request_for_more_than_there_is_waits_for_more() {
    let mut rt = Board { ready: false };
    let mut s = InnerSemaphore::<2>::new(1);
    assert!(s.try_acquire(2).is_err());
    assert_eq!(s.available(), 1);
    let waiter = s.try_acquire_enqueue(2).unwrap();
    assert_eq!(waiter.granted(), None);
    // the free permit goes to the waiter with the next pass
    assert!(!s.add_permits(0));
    assert_eq!(s.available(), 0);
    let waiter = waiter.try_lock(&mut s).err().unwrap();
    assert!(s.add_permits(1));
    assert!(waiter.try_lock(&mut s).is_ok());
    let _ = &mut rt;
}
