use gc_handle::{Error, Gc, GcHeap, GC_ALLOC_FLAG_HAS_FINALISER, GC_ALLOC_FLAG_NONE};

#[test]
fn new_then_read_gives_value_back() {
    let mut heap = GcHeap::<u64>::new(64);
    let g = Gc::new(&mut heap, 0xdead_beef_u64).unwrap();
    assert_eq!(*Gc::as_ref(&g, &heap), 0xdead_beef);
    assert_eq!(heap.used(), 8);
    assert_eq!(heap.object_count(), 1);
}

#[test]
fn values_keep_their_own_storage() {
    let mut heap = GcHeap::<i32>::new(64);
    let a = Gc::new(&mut heap, -1).unwrap();
    let b = Gc::new(&mut heap, 2).unwrap();
    assert_eq!(Gc::into_raw(a), 1);
    assert_eq!(Gc::into_raw(b), 2);
    assert_eq!(*Gc::as_ref(&a, &heap), -1);
    assert_eq!(*Gc::as_ref(&b, &heap), 2);
}

#[test]
fn raw_round_trip_reaches_same_value() {
    let mut heap = GcHeap::<u16>::new(64);
    let _ = Gc::new(&mut heap, 1u16).unwrap();
    let g = Gc::new(&mut heap, 4242u16).unwrap();
    let raw = Gc::into_raw(g);
    assert_ne!(raw, 0);
    let back = Gc::<u16>::from_raw(raw);
    assert_eq!(Gc::into_raw(back), raw);
    assert_eq!(*Gc::as_ref(&back, &heap), 4242);
}

#[test]
fn slice_of_defaults_has_requested_length() {
    let mut heap = GcHeap::<u64>::new(1024);
    let g = Gc::<[u64]>::new_slice(&mut heap, 17).unwrap();
    let s = Gc::as_slice(&g, &heap);
    assert_eq!(s.len(), 17);
    assert!(s.iter().all(|x| *x == 0));
    assert_eq!(heap.used(), 17 * 8);
}

#[test]
fn empty_slice_needs_no_room() {
    let mut heap = GcHeap::<u8>::new(0);
    let g = Gc::<[u8]>::new_slice(&mut heap, 0).unwrap();
    assert_eq!(Gc::as_slice(&g, &heap).len(), 0);
    assert_eq!(heap.used(), 0);
    assert_eq!(heap.object_count(), 1);
}

#[test]
fn slice_of_bools_defaults_to_false() {
    let mut heap = GcHeap::<bool>::new(8);
    let g = Gc::<[bool]>::new_slice(&mut heap, 8).unwrap();
    assert_eq!(Gc::as_slice(&g, &heap), &[false; 8]);
}

#[test]
fn exhausted_heap_refuses_value() {
    let mut heap = GcHeap::<u64>::new(12);
    let _ = Gc::new(&mut heap, 1u64).unwrap();
    let r = Gc::new(&mut heap, 2u64);
    assert!(matches!(r, Err(Error::AllocationFailed)));
    assert_eq!(heap.used(), 8);
    assert_eq!(heap.object_count(), 1);
}

#[test]
fn exhausted_heap_refuses_slice() {
    let mut heap = GcHeap::<u32>::new(11);
    let r = Gc::<[u32]>::new_slice(&mut heap, 3);
    assert!(matches!(r, Err(Error::AllocationFailed)));
    assert_eq!(heap.used(), 0);
    assert_eq!(heap.object_count(), 0);
}

#[test]
fn request_that_fills_heap_exactly_succeeds() {
    let mut heap = GcHeap::<u32>::new(12);
    let g = Gc::<[u32]>::new_slice(&mut heap, 3).unwrap();
    assert_eq!(Gc::as_slice(&g, &heap), &[0, 0, 0]);
    assert_eq!(heap.used(), heap.capacity());
    assert!(Gc::new(&mut heap, 0u32).is_err());
}

#[test]
fn write_through_one_copy_is_seen_by_another() {
    let mut heap = GcHeap::<u64>::new(64);
    let g = Gc::new(&mut heap, 10u64).unwrap();
    let mut copy = g;
    *Gc::as_mut(&mut copy, &mut heap) = 99;
    assert_eq!(*Gc::as_ref(&g, &heap), 99);
    let cloned = g.clone();
    assert_eq!(*Gc::as_ref(&cloned, &heap), 99);
}

#[test]
fn slice_overwrite_seen_through_second_copy() {
    let mut heap = GcHeap::<u32>::new(64);
    let g = Gc::<[u32]>::new_slice(&mut heap, 3).unwrap();
    assert_eq!(Gc::as_slice(&g, &heap), &[0, 0, 0]);
    let second = g;
    let mut first = g;
    Gc::as_mut_slice(&mut first, &mut heap)[1] = 5;
    assert_eq!(Gc::as_slice(&second, &heap), &[0, 5, 0]);
}

#[test]
fn slice_size_overflow_fails_before_heap_is_asked() {
    let mut heap = GcHeap::<u32>::new(usize::MAX);
    let r = Gc::<[u32]>::new_slice(&mut heap, usize::MAX);
    assert!(matches!(r, Err(Error::AllocationFailed)));
    assert_eq!(heap.used(), 0);
    assert_eq!(heap.object_count(), 0);
}

#[test]
fn finaliser_flag_is_recorded() {
    let mut heap = GcHeap::<u64>::new(64);
    let plain = Gc::new(&mut heap, 1u64).unwrap();
    let fin = Gc::new_with_custom_finaliser(&mut heap, 2u64).unwrap();
    assert_eq!(heap.flags_at(Gc::into_raw(plain)), GC_ALLOC_FLAG_NONE);
    assert_eq!(heap.flags_at(Gc::into_raw(fin)), GC_ALLOC_FLAG_HAS_FINALISER);
    assert_eq!(*Gc::as_ref(&fin, &heap), 2);
}

#[test]
fn finaliser_allocation_fails_on_exhausted_heap() {
    let mut heap = GcHeap::<u64>::new(7);
    let r = Gc::new_with_custom_finaliser(&mut heap, 2u64);
    assert_eq!(r.err(), Some(Error::AllocationFailed));
    assert_eq!(heap.object_count(), 0);
}

#[test]
fn slice_above_isize_max_fails_before_heap_is_asked() {
    let mut heap = GcHeap::<u8>::new(usize::MAX);
    let r = Gc::<[u8]>::new_slice(&mut heap, usize::MAX);
    assert!(matches!(r, Err(Error::AllocationFailed)));
    assert_eq!(heap.used(), 0);
    assert_eq!(heap.object_count(), 0);
}

#[test]
fn slice_just_above_isize_max_bytes_fails() {
    let mut heap = GcHeap::<u16>::new(usize::MAX);
    let r = Gc::<[u16]>::new_slice(&mut heap, (isize::MAX as usize) / 2 + 1);
    assert!(matches!(r, Err(Error::AllocationFailed)));
    assert_eq!(heap.used(), 0);
    assert_eq!(heap.object_count(), 0);
}
