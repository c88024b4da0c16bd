use schtest::arena::BumpAllocator;
use schtest::context::Context;
use schtest::error::Error;
use schtest::semaphore::Semaphore;
use schtest::shared::{SharedBox, SharedVec};

#[test]
fn allocate_aligns_and_bumps() {
    let mut a = BumpAllocator::new("t", 64);
    assert_eq!(a.name(), "t");
    assert_eq!(a.capacity(), 64);
    assert_eq!(a.allocate(3, 1), Ok(0));
    assert_eq!(a.used(), 3);
    assert_eq!(a.allocate(8, 8), Ok(8));
    assert_eq!(a.used(), 16);
    assert_eq!(a.allocate(4, 0), Ok(16));
    assert_eq!(a.used(), 20);
}

#[test]
fn allocate_fails_without_room_and_changes_nothing() {
    let mut a = BumpAllocator::new("t", 16);
    assert_eq!(a.allocate(10, 1), Ok(0));
    assert_eq!(a.allocate(4, 8), Err(Error::OutOfMemory));
    assert_eq!(a.used(), 10);
    assert_eq!(a.allocate(6, 1), Ok(10));
    assert_eq!(a.used(), 16);
    assert_eq!(a.allocate(1, 1), Err(Error::OutOfMemory));
    assert_eq!(a.allocate(0, 1), Ok(16));
}

#[test]
fn allocation_fails_exactly_when_total_passes_capacity() {
    let mut a = BumpAllocator::new("t", 100);
    let sizes = [30usize, 30, 30, 20, 5];
    let mut results = Vec::new();
    for s in sizes {
        results.push(a.allocate(s, 1).is_ok());
    }
    assert_eq!(results, vec![true, true, true, false, true]);
    assert_eq!(a.used(), 95);
}

#[test]
fn shared_box_places_value() {
    let mut a = BumpAllocator::new("t", 64);
    a.allocate(1, 1).unwrap();
    let mut b = SharedBox::new(&mut a, 7u64).unwrap();
    assert_eq!(*b.get(), 7);
    assert_eq!(b.offset(), 8);
    assert_eq!(a.used(), 16);
    b.set(9);
    assert_eq!(*b.get(), 9);
    assert_eq!(b.offset(), 8);
}

#[test]
fn shared_box_out_of_memory() {
    let mut a = BumpAllocator::new("t", 4);
    assert!(matches!(SharedBox::new(&mut a, 1u64), Err(Error::OutOfMemory)));
    assert_eq!(a.used(), 0);
}

#[test]
fn shared_vec_push_beyond_capacity_fails_on_eleventh() {
    let mut a = BumpAllocator::new("t", 1024);
    let mut v: SharedVec<u32> = SharedVec::with_capacity(&mut a, 10).unwrap();
    assert_eq!(a.used(), 40);
    for i in 0..10u32 {
        assert_eq!(v.push(i * 3), Ok(()));
    }
    assert_eq!(v.push(99), Err(Error::CapacityExceeded));
    assert_eq!(v.len(), 10);
    assert_eq!(v.capacity(), 10);
    for i in 0..10usize {
        assert_eq!(*v.get(i), (i as u32) * 3);
    }
}

#[test]
fn shared_vec_too_large_for_arena() {
    let mut a = BumpAllocator::new("t", 100);
    assert!(matches!(SharedVec::<u64>::with_capacity(&mut a, 13), Err(Error::OutOfMemory)));
    assert!(matches!(SharedVec::<u64>::with_capacity(&mut a, usize::MAX), Err(Error::OutOfMemory)));
    assert_eq!(a.used(), 0);
    assert!(SharedVec::<u64>::with_capacity(&mut a, 12).is_ok());
    assert_eq!(a.used(), 96);
}

#[test]
fn context_allocate_vec_fills_from_function() {
    let mut ctx = Context::create().unwrap();
    let mut v = ctx.allocate_vec(5, |i| i * i).unwrap();
    assert_eq!(v.len(), 5);
    assert_eq!(v.capacity(), 5);
    for i in 0..5 {
        assert_eq!(*v.get(i), i * i);
    }
    assert_eq!(v.push(1), Err(Error::CapacityExceeded));
}

#[test]
fn context_allocate_value() {
    let mut ctx = Context::create().unwrap();
    let b = ctx.allocate(42u32).unwrap();
    assert_eq!(*b.get(), 42);
    let c = ctx.allocate(43u32).unwrap();
    assert!(c.offset() > b.offset());
}

#[test]
fn context_allocate_vec_out_of_memory() {
    let mut ctx = Context::create().unwrap();
    let r = ctx.allocate_vec(usize::MAX / 2, |_| 0u64);
    assert!(matches!(r, Err(Error::OutOfMemory)));
}

#[test]
fn semaphore_in_arena_is_used_in_place() {
    let mut ctx = Context::create().unwrap();
    let mut h = ctx.allocate(Semaphore::new(1, 4, 2)).unwrap();
    h.get_mut().produce(2, 1, 0);
    assert_eq!(h.get_mut().consume(1, 3), Ok(true));
    assert_eq!(h.get().count(), 0);
}

#[test]
fn context_allocations_do_not_overlap() {
    let mut ctx = Context::create().unwrap();
    let a = ctx.allocate(1u8).unwrap();
    let b = ctx.allocate(2u64).unwrap();
    let c = ctx.allocate(3u16).unwrap();
    assert_eq!(a.offset(), 1);
    assert_eq!(b.offset(), 8);
    assert_eq!(c.offset(), 16);
}
