use avr_async::sync::arc::ArcSlab;

#[test]
fn value_lives_as_long_as_it_has_an_owner() {
    let mut shared = ArcSlab::new(7u32);
    assert_eq!(shared.strong_count(), 1);
    shared.inc();
    shared.inc();
    assert_eq!(shared.strong_count(), 3);
    assert_eq!(*shared.value(), 7);
    assert_eq!(shared.dec(), None);
    assert_eq!(shared.dec(), None);
    assert_eq!(*shared.value(), 7);
    assert_eq!(shared.strong_count(), 1);
    // the last owner goes: the value is handed out to be dropped
    assert_eq!(shared.dec(), Some(7));
    assert_eq!(shared.strong_count(), 0);
}
