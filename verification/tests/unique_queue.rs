use avr_async::unique_queue::UniqueQueue;

#[test]
fn duplicate_is_handed_back_without_changing_length() {
    let mut q = UniqueQueue::<u32, 3>::new();
    assert_eq!(q.enqueue(5), Ok(None));
    assert_eq!(q.len(), 1);
    assert_eq!(q.enqueue(5), Ok(Some(5)));
    assert_eq!(q.len(), 1);
}

#[test]
fn full_unique_queue_rejects_for_capacity() {
    let mut q = UniqueQueue::<u32, 2>::new();
    assert_eq!(q.capacity(), 2);
    assert!(q.is_empty());
    assert_eq!(q.enqueue(1), Ok(None));
    assert_eq!(q.enqueue(2), Ok(None));
    assert!(q.is_full());
    assert_eq!(q.enqueue(3), Err(3));
    // a value that is held is reported as held even when there is no room
    assert_eq!(q.enqueue(2), Ok(Some(2)));
    assert_eq!(q.len(), 2);
}

#[test]
fn value_can_come_back_after_it_has_left() {
    let mut q = UniqueQueue::<u32, 2>::new();
    assert_eq!(q.enqueue(1), Ok(None));
    assert_eq!(q.enqueue(2), Ok(None));
    assert!(q.contains(&1));
    assert_eq!(q.dequeue(), Some(1));
    assert!(!q.contains(&1));
    assert_eq!(q.enqueue(1), Ok(None));
    assert_eq!(q.dequeue(), Some(2));
    assert_eq!(q.dequeue(), Some(1));
    assert_eq!(q.dequeue(), None);
}

#[test]
fn default_unique_queue_is_empty() {
    let q: UniqueQueue<u8, 1> = Default::default();
    assert!(q.is_empty());
    assert!(!q.is_full());
}
