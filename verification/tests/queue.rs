use avr_async::queue::{Iter, IterMut, Queue};

#[test]
fn new_queue_reports_its_capacity() {
    let q: Queue<u32, 2> = Queue::new();
    assert_eq!(q.capacity(), 2);
    assert_eq!(q.len(), 0);
    assert!(q.is_empty());
    assert!(!q.is_full());
}

#[test]
fn queue_fills_and_drains() {
    let mut q = Queue::<u32, 2>::new();

    // half full
    assert_eq!(q.enqueue(1), Ok(()));
    assert_eq!(q.len(), 1);
    assert!(!q.is_empty());
    assert!(!q.is_full());

    // dequeue existing value
    assert_eq!(q.dequeue(), Some(1));
    assert_eq!(q.len(), 0);
    assert!(q.is_empty());
    assert!(!q.is_full());

    // enqueue
    assert_eq!(q.enqueue(1), Ok(()));
    assert_eq!(q.len(), 1);
    assert!(!q.is_empty());
    assert!(!q.is_full());

    // enqueue
    assert_eq!(q.enqueue(2), Ok(()));
    assert_eq!(q.len(), 2);
    assert!(!q.is_empty());
    assert!(q.is_full());

    // enqueue fail
    assert_eq!(q.enqueue(3), Err(3));
    assert_eq!(q.len(), 2);
    assert!(!q.is_empty());
    assert!(q.is_full());

    // dequeue all value (2)
    assert_eq!(q.dequeue(), Some(1));
    assert_eq!(q.dequeue(), Some(2));
    assert!(q.is_empty());
    assert!(!q.is_full());

    // dequeue on empty
    assert_eq!(q.dequeue(), None);
}

#[test]
fn third_value_does_not_fit_into_two_slots() {
    let mut q = Queue::<u32, 2>::new();
    assert_eq!(q.enqueue(1), Ok(()));
    assert_eq!(q.enqueue(2), Ok(()));
    assert_eq!(q.enqueue(3), Err(3));
    assert_eq!(q.dequeue(), Some(1));
    assert_eq!(q.dequeue(), Some(2));
    assert_eq!(q.dequeue(), None);
}

#[test]
fn full_queue_hands_value_back_and_keeps_length() {
    let mut q = Queue::<u8, 3>::new();
    for v in 0..3 {
        assert_eq!(q.enqueue(v), Ok(()));
    }
    assert!(q.is_full());
    assert_eq!(q.enqueue(9), Err(9));
    assert_eq!(q.len(), 3);
    assert_eq!(q.dequeue(), Some(0));
}

#[test]
fn order_is_kept_across_wrap_around() {
    let mut q = Queue::<u32, 3>::new();
    let mut next_in = 0u32;
    let mut next_out = 0u32;
    for round in 0..20 {
        let puts = 1 + round % 3;
        for _ in 0..puts {
            if q.enqueue(next_in).is_ok() {
                next_in += 1;
            }
            assert!(q.len() <= q.capacity());
        }
        let takes = 1 + (round + 1) % 2;
        for _ in 0..takes {
            if let Some(v) = q.dequeue() {
                assert_eq!(v, next_out);
                next_out += 1;
            }
        }
    }
    while let Some(v) = q.dequeue() {
        assert_eq!(v, next_out);
        next_out += 1;
    }
    assert_eq!(next_in, next_out);
}

#[test]
fn zero_capacity_queue_is_empty_and_full() {
    let mut q = Queue::<u8, 0>::new();
    assert!(q.is_empty());
    assert!(q.is_full());
    assert_eq!(q.enqueue(1), Err(1));
    assert_eq!(q.dequeue(), None);
    assert_eq!(q.len(), 0);
}

#[test]
fn get_reads_by_age() {
    let mut q = Queue::<u32, 3>::new();
    q.enqueue(7).unwrap();
    q.enqueue(8).unwrap();
    q.enqueue(9).unwrap();
    assert_eq!(q.dequeue(), Some(7));
    q.enqueue(10).unwrap();
    assert_eq!(q.get(0), Some(&8));
    assert_eq!(q.get(1), Some(&9));
    assert_eq!(q.get(2), Some(&10));
    assert_eq!(q.get(3), None);
}

#[test]
fn iter_walks_oldest_first() {
    let mut q = Queue::<u32, 3>::new();
    q.enqueue(1).unwrap();
    q.enqueue(2).unwrap();
    q.enqueue(3).unwrap();
    assert_eq!(q.dequeue(), Some(1));
    q.enqueue(4).unwrap();
    let mut it = q.iter();
    assert_eq!(it.next(), Some(&2));
    assert_eq!(it.next(), Some(&3));
    assert_eq!(it.next(), Some(&4));
    assert_eq!(it.next(), None);
    assert_eq!(it.next(), None);
    let mut again = Iter::new(&q);
    assert_eq!(again.next(), Some(&2));
}

#[test]
fn iter_mut_changes_in_place() {
    let mut q = Queue::<u32, 3>::new();
    q.enqueue(1).unwrap();
    q.enqueue(2).unwrap();
    {
        let mut it = q.iter_mut();
        while let Some(v) = it.next() {
            *v *= 10;
        }
    }
    {
        let mut it = IterMut::new(&mut q);
        if let Some(v) = it.next() {
            *v += 1;
        }
    }
    assert_eq!(q.dequeue(), Some(11));
    assert_eq!(q.dequeue(), Some(20));
    assert_eq!(q.dequeue(), None);
}

#[test]
fn get_mut_changes_one_element() {
    let mut q = Queue::<u32, 2>::new();
    q.enqueue(1).unwrap();
    q.enqueue(2).unwrap();
    *q.get_mut(1).unwrap() = 5;
    assert!(q.get_mut(2).is_none());
    assert_eq!(q.dequeue(), Some(1));
    assert_eq!(q.dequeue(), Some(5));
}

#[test]
fn default_queue_is_empty() {
    let mut q: Queue<u8, 1> = Default::default();
    assert!(q.is_empty());
    assert_eq!(q.enqueue(1), Ok(()));
}
