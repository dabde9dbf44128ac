use avr_async::runtime::{CriticalSection, Ready, Runtime};
use avr_async::slab::Slab;
use avr_async::sync::mutex::{Mutex, MutexGuard, TaskMutex};
use avr_async::Poll;

struct Board {
    ready: bool,
}

impl Ready for Board {
    fn ready(&self) -> bool {
        self.ready
    }

    fn is_ready(&self, _cs: &CriticalSection) -> bool {
        self.ready
    }
}

impl Runtime for Board {
    type Memory = Slab<u8>;
    type Arguments = ();

    fn new(_mem: Slab<u8>, _cs: &CriticalSection) -> (Self, ()) {
        (Board { ready: false }, ())
    }

    fn snapshot(&mut self, _cs: &CriticalSection) {
        self.ready = false;
    }

    fn idle(&self) {}

    fn wake(&mut self) {
        self.ready = true;
    }

    fn shutdown(&self) {}
}

#[test]
fn try_lock_fails_while_held_and_enqueues_nobody() {
    let mut rt = Board { ready: false };
    let mut m = Mutex::<u32, 2>::new(5);
    let guard = m.try_lock().ok().unwrap();
    assert!(m.try_lock().is_err());
    assert_eq!(*m.get(&guard), 5);
    m.unlock(guard, &mut rt);
    assert!(!rt.ready);
    assert!(m.try_lock().is_ok());
}

#[test]
fn guard_gives_access_to_the_value() {
    let mut rt = Board { ready: false };
    let mut m = Mutex::<u32, 1>::new(1);
    let mut guard = m.try_lock().ok().unwrap();
    *m.get_mut(&mut guard) += 41;
    assert_eq!(*m.get(&guard), 42);
    m.unlock(guard, &mut rt);
    let guard = m.try_lock().ok().unwrap();
    assert_eq!(*m.get(&guard), 42);
}

#[test]
fn unlock_hands_the_mutex_to_one_waiter() {
    let mut rt = Board { ready: false };
    let mut m = Mutex::<u8, 2>::new(0);
    let guard = match m.lock().poll(&mut m) {
        Poll::Ready(guard) => guard,
        Poll::Pending => panic!(),
    };
    let mut first = m.lock();
    let mut second = m.lock();
    assert!(matches!(first.poll(&mut m), Poll::Pending));
    assert!(matches!(second.poll(&mut m), Poll::Pending));

    m.unlock(guard, &mut rt);
    assert!(rt.ready);
    // the mutex went to the first waiter and to nobody else
    assert!(m.try_lock().is_err());
    assert!(matches!(second.poll(&mut m), Poll::Pending));
    let guard = match first.poll(&mut m) {
        Poll::Ready(guard) => guard,
        Poll::Pending => panic!(),
    };
    assert!(matches!(second.poll(&mut m), Poll::Pending));

    rt.ready = false;
    m.unlock(guard, &mut rt);
    assert!(rt.ready);
    let guard = match second.poll(&mut m) {
        Poll::Ready(guard) => guard,
        Poll::Pending => panic!(),
    };

    rt.ready = false;
    m.unlock(guard, &mut rt);
    assert!(!rt.ready);
    assert!(m.try_lock().is_ok());
}

#[test]
fn cancelled_lock_passes_the_mutex_on() {
    let mut rt = Board { ready: false };
    let mut m = Mutex::<u8, 2>::new(0);
    let guard = m.try_lock().ok().unwrap();
    let mut first = m.lock();
    let mut second = m.lock();
    assert!(matches!(first.poll(&mut m), Poll::Pending));
    assert!(matches!(second.poll(&mut m), Poll::Pending));
    m.unlock(guard, &mut rt);
    // the first waiter was served but gives up without taking the guard
    first.cancel(&mut m, &mut rt);
    assert!(matches!(second.poll(&mut m), Poll::Ready(_)));
}

#[test]
fn task_mutex_promotes_the_longest_waiter() {
    let mut rt = Board { ready: false };
    let mut m = TaskMutex::<u32, 2>::new(7);
    let guard = m.try_lock(1).ok().unwrap();
    assert!(m.try_lock(2).is_err());
    let mut two = m.lock(2);
    let mut three = m.lock(3);
    assert!(matches!(two.poll(&mut m), Poll::Pending));
    assert!(matches!(three.poll(&mut m), Poll::Pending));
    assert!(matches!(three.poll(&mut m), Poll::Pending));

    m.unlock(guard, &mut rt);
    assert!(rt.ready);
    assert!(matches!(three.poll(&mut m), Poll::Pending));
    let mut guard = match two.poll(&mut m) {
        Poll::Ready(guard) => guard,
        Poll::Pending => panic!(),
    };
    *m.get_mut(&mut guard) = 8;
    m.unlock(guard, &mut rt);
    let guard = match three.poll(&mut m) {
        Poll::Ready(guard) => guard,
        Poll::Pending => panic!(),
    };
    assert_eq!(*m.get(&guard), 8);
    rt.ready = false;
    m.unlock(guard, &mut rt);
    // nobody waited: nobody owns the mutex
    assert!(!rt.ready);
    assert!(m.try_lock(9).is_ok());
}

#[test]
fn task_mutex_waiter_that_gives_up_leaves_the_queue() {
    let mut rt = Board { ready: false };
    let mut m = TaskMutex::<u32, 3>::new(0);
    let guard = m.try_lock(1).ok().unwrap();
    let mut two = m.lock(2);
    let mut three = m.lock(3);
    let mut four = m.lock(4);
    assert!(matches!(two.poll(&mut m), Poll::Pending));
    assert!(matches!(three.poll(&mut m), Poll::Pending));
    assert!(matches!(four.poll(&mut m), Poll::Pending));
    three.cancel(&mut m, &mut rt);
    m.unlock(guard, &mut rt);
    let guard = match two.poll(&mut m) {
        Poll::Ready(guard) => guard,
        Poll::Pending => panic!(),
    };
    m.unlock(guard, &mut rt);
    assert!(matches!(four.poll(&mut m), Poll::Ready(_)));
}

#[test]
fn task_mutex_full_queue_keeps_the_task_out() {
    let mut m = TaskMutex::<u32, 1>::new(0);
    let _guard = m.try_lock(1).ok().unwrap();
    let mut two = m.lock(2);
    let mut three = m.lock(3);
    assert!(matches!(two.poll(&mut m), Poll::Pending));
    assert!(matches!(three.poll(&mut m), Poll::Pending));
    let mut rt = Board { ready: false };
    // task 3 never joined the queue: giving up changes nothing
    three.cancel(&mut m, &mut rt);
    assert!(matches!(two.poll(&mut m), Poll::Pending));
}

#[test]
fn mutex_is_made_from_its_value() {
    let mut rt = Board { ready: false };
    let mut m: Mutex<u16, 1> = Mutex::from(3);
    assert!(!m.is_locked());
    let guard = m.try_lock().ok().unwrap();
    assert!(m.is_locked());
    assert_eq!(*m.get(&guard), 3);
    m.unlock(guard, &mut rt);
    let mut d: Mutex<u16, 1> = Default::default();
    let guard = d.try_lock().ok().unwrap();
    assert_eq!(*d.get(&guard), 0);
}

#[test]
fn lock_knows_whether_it_can_be_polled() {
    let mut m = Mutex::<u8, 1>::new(0);
    let mut a = m.lock();
    assert!(a.is_valid(&m));
    assert!(matches!(a.poll(&mut m), Poll::Ready(_)));
    // the mutex has been handed over: nothing is left to poll for
    assert!(!a.is_valid(&m));
    let mut b = m.lock();
    assert!(matches!(b.poll(&mut m), Poll::Pending));
    assert!(b.is_valid(&m));
}

#[test]
fn task_mutex_tells_its_holder() {
    let mut rt = Board { ready: false };
    let mut m = TaskMutex::<u8, 1>::new(0);
    assert_eq!(m.holder(), None);
    let guard = m.try_lock(4).ok().unwrap();
    assert_eq!(guard.id(), 4);
    assert_eq!(m.holder(), Some(4));
    m.unlock(guard, &mut rt);
    assert_eq!(m.holder(), None);
}

fn second(pair: &mut (u8, u8)) -> &mut u8 {
    &mut pair.1
}

#[test]
fn narrowed_guard_reaches_its_part() {
    let mut rt = Board { ready: false };
    let mut m = Mutex::<(u8, u8), 1>::new((1, 2));
    let guard = m.try_lock().ok().unwrap();
    let narrowed = MutexGuard::map(guard, second);
    *narrowed.get_mut(&mut m) = 9;
    assert!(m.try_lock().is_err());
    m.unlock_mapped(narrowed, &mut rt);
    let guard = m.try_lock().ok().unwrap();
    assert_eq!(*m.get(&guard), (1, 9));
}
