use roc_ray::address::AddressRange;
use roc_ray::heap::{Handle, OutOfMemory, Released, ResourceHeap};

#[test]
fn a_texture_heap_of_two_slots() {
    let mut heap: ResourceHeap<&str> = ResourceHeap::new(0x1000, 64, 2).unwrap();

    let first = heap.allocate("first").unwrap();
    let second = heap.allocate("second").unwrap();
    assert_eq!(first, Handle(0x1000));
    assert_eq!(second, Handle(0x1040));
    assert_eq!(heap.allocate("third"), Err(OutOfMemory));
    assert_eq!(heap.live(), 2);

    assert!(matches!(heap.release(first.0), Released::Freed("first")));
    assert_eq!(heap.live(), 1);
    let fourth = heap.allocate("fourth").unwrap();
    assert_eq!(fourth, first);
    assert_eq!(heap.get(fourth), Some(&"fourth"));
    assert_eq!(heap.get(second), Some(&"second"));
}

#[test]
fn a_heap_of_n_slots_takes_n_resources_and_no_more() {
    for capacity in [0usize, 1, 3, 10] {
        let mut heap: ResourceHeap<usize> = ResourceHeap::new(4096, 8, capacity).unwrap();
        assert_eq!(heap.capacity(), capacity);
        for i in 0..capacity {
            assert_eq!(heap.allocate(i), Ok(Handle(4096 + 8 * i)));
        }
        assert_eq!(heap.allocate(capacity), Err(OutOfMemory));
        assert_eq!(heap.allocate(capacity + 1), Err(OutOfMemory));
        assert_eq!(heap.live(), capacity);
    }
}

#[test]
fn release_gives_the_slot_back_and_the_next_allocation_takes_it() {
    let mut heap: ResourceHeap<u32> = ResourceHeap::new(100, 10, 4).unwrap();
    let a = heap.allocate(1).unwrap();
    let b = heap.allocate(2).unwrap();
    let c = heap.allocate(3).unwrap();
    assert!(matches!(heap.release(b.0), Released::Freed(2)));
    assert!(matches!(heap.release(a.0), Released::Freed(1)));
    // The slot released last is handed out first.
    assert_eq!(heap.allocate(4), Ok(a));
    assert_eq!(heap.allocate(5), Ok(b));
    assert_eq!(heap.allocate(6), Ok(Handle(130)));
    assert_eq!(heap.allocate(7), Err(OutOfMemory));
    assert_eq!(heap.get(c), Some(&3));
}

#[test]
fn the_count_goes_up_and_down_and_the_last_release_frees() {
    let mut heap: ResourceHeap<String> = ResourceHeap::new(0, 1, 1).unwrap();
    let h = heap.allocate("camera".to_string()).unwrap();
    assert_eq!(heap.ref_count(h.0), Some(1));
    assert!(heap.retain(h.0));
    assert!(heap.retain(h.0));
    assert_eq!(heap.ref_count(h.0), Some(3));
    assert!(matches!(heap.release(h.0), Released::Shared(2)));
    assert!(matches!(heap.release(h.0), Released::Shared(1)));
    assert_eq!(heap.live(), 1);
    match heap.release(h.0) {
        Released::Freed(resource) => assert_eq!(resource, "camera"),
        other => panic!("{other:?}"),
    }
    assert_eq!(heap.live(), 0);
    assert_eq!(heap.ref_count(h.0), None);
    assert!(matches!(heap.release(h.0), Released::Unknown));
    assert!(!heap.retain(h.0));
}

#[test]
fn an_address_that_is_no_handle_changes_nothing() {
    let mut heap: ResourceHeap<u8> = ResourceHeap::new(1000, 16, 2).unwrap();
    let h = heap.allocate(9).unwrap();
    // Outside the range, inside a slot, and a free slot.
    for addr in [0usize, 999, 1032, 1001, 1015, 1016] {
        assert!(matches!(heap.release(addr), Released::Unknown));
        assert!(!heap.retain(addr));
        assert_eq!(heap.get(Handle(addr)), None);
        assert!(heap.project(Handle(addr)).is_none());
    }
    assert_eq!(heap.live(), 1);
    assert_eq!(heap.get(h), Some(&9));
}

#[test]
fn owns_address_is_the_range_and_nothing_else() {
    let mut textures: ResourceHeap<u8> = ResourceHeap::new(1000, 16, 2).unwrap();
    let mut sounds: ResourceHeap<u8> = ResourceHeap::new(1032, 16, 2).unwrap();
    let t = textures.allocate(1).unwrap();
    let s = sounds.allocate(2).unwrap();
    assert!(textures.owns_address(t.0));
    assert!(sounds.owns_address(s.0));
    assert!(!textures.owns_address(s.0));
    assert!(!sounds.owns_address(t.0));
    assert!(!textures.owns_address(999));
    assert!(textures.owns_address(1000));
    assert!(textures.owns_address(1031));
    assert!(!textures.owns_address(1032));
    assert!(!textures.owns_address(0));
    assert!(!textures.owns_address(usize::MAX));
    assert_eq!(
        textures.range(),
        AddressRange {
            base: 1000,
            stride: 16,
            slots: 2
        }
    );
}

#[test]
fn project_updates_a_resource_in_place() {
    let mut cameras: ResourceHeap<(i32, i32)> = ResourceHeap::new(64, 32, 3).unwrap();
    let a = cameras.allocate((1, 2)).unwrap();
    let b = cameras.allocate((3, 4)).unwrap();
    assert!(cameras.retain(b.0));
    *cameras.project(b).unwrap() = (30, 40);
    cameras.project(a).unwrap().0 = 10;
    assert_eq!(cameras.get(a), Some(&(10, 2)));
    assert_eq!(cameras.get(b), Some(&(30, 40)));
    assert_eq!(cameras.ref_count(b.0), Some(2));
    assert_eq!(cameras.live(), 2);
}

#[test]
fn a_heap_needs_slots_of_some_size_inside_the_address_space() {
    assert!(ResourceHeap::<u8>::new(0, 0, 10).is_none());
    assert!(ResourceHeap::<u8>::new(usize::MAX, 1, 1).is_none());
    assert!(ResourceHeap::<u8>::new(usize::MAX - 1, 1, 1).is_some());
    assert!(ResourceHeap::<u8>::new(1, usize::MAX, 1).is_none());
    assert!(ResourceHeap::<u8>::new(0, usize::MAX, 1).is_some());
    assert!(ResourceHeap::<u8>::new(0, 2, usize::MAX).is_none());
    assert!(ResourceHeap::<u8>::new(usize::MAX, 8, 0).is_some());
}

#[test]
fn slots_and_addresses_of_a_range() {
    let range = AddressRange::new(100, 8, 3).unwrap();
    assert_eq!(range.limit(), 124);
    assert_eq!(range.address_of(0), 100);
    assert_eq!(range.address_of(2), 116);
    assert_eq!(range.index_of(116), Some(2));
    assert_eq!(range.index_of(117), None);
    assert_eq!(range.index_of(99), None);
    assert_eq!(range.index_of(124), None);
    assert!(range.contains(123));
    assert!(!range.contains(124));
    assert_eq!(AddressRange::new(0, 0, 1), None);
}
