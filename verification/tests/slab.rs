use avr_async::runtime::{CriticalSection, Memory};
use avr_async::slab::{SingletonSlab, Slab, SlabBox};
use avr_async::SyncUnsafeCell;

#[test]
fn singleton_is_taken_once() {
    let cs = CriticalSection::new();
    let mut singleton = SingletonSlab::<Slab<u32>>::new();
    let first = singleton.take(&cs);
    assert!(first.is_some());
    for _ in 0..5 {
        assert!(singleton.take(&cs).is_none());
    }
    let owner = first.unwrap().get(3);
    assert_eq!(*owner.as_ref(), 3);
}

#[test]
fn slab_box_owns_the_value() {
    let slab = Slab::<u32>::new();
    let mut owner = slab.get(10);
    assert_eq!(*owner.as_ptr(), 10);
    *owner.as_ptr_mut() = 11;
    *owner.as_mut() += 1;
    assert_eq!(*owner.as_ref(), 12);
    assert_eq!(SlabBox::leak(owner), 12);
    assert_eq!(*SlabBox::from_ptr(4u8).as_ref(), 4);
}

#[test]
fn slab_comes_from_reserved_storage() {
    let mem = <Slab<u8> as Memory>::reserve();
    assert!(mem.is_none());
    let slab = <Slab<u8> as Memory>::from_ptr(mem);
    assert_eq!(*slab.get(9).as_ref(), 9);
}

#[test]
fn cell_hands_its_value_out() {
    let mut cell = SyncUnsafeCell::new(1u16);
    assert_eq!(*cell.get(), 1);
    *cell.get_mut() = 2;
    assert_eq!(*cell.get(), 2);
    assert_eq!(cell.into_inner(), 2);
}

#[test]
fn cell_is_made_from_its_value() {
    let cell = SyncUnsafeCell::from(5u8);
    assert_eq!(*cell.get(), 5);
    let zero: SyncUnsafeCell<u32> = Default::default();
    assert_eq!(zero.into_inner(), 0);
}
