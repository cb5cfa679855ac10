use rusted_ring::{AllocationError, EventAllocator, PoolId, PooledEventPtr};

#[test]
fn test_pooled_event_ptr_xs_creation_and_access() {
    let mut allocator = EventAllocator::new();
    let test_data = b"small data";

    let allocated_event = allocator.allocate_event(test_data, 42).unwrap();
    let pooled_ptr = allocated_event.into_pooled_event_ptr();

    match &pooled_ptr {
        PooledEventPtr::Xs(_) => {}
        _ => panic!("Expected XS variant for small data"),
    }

    assert_eq!(pooled_ptr.data(&allocator), test_data);
    assert_eq!(pooled_ptr.event_type(&allocator), 42);
    assert_eq!(pooled_ptr.len(&allocator), test_data.len() as u32);
    assert_eq!(pooled_ptr.pool_id(), PoolId::XS);
}

#[test]
fn test_pooled_event_ptr_s_variant() {
    let mut allocator = EventAllocator::new();
    let test_data = vec![1u8; 128];

    let allocated_event = allocator.allocate_event(&test_data, 50).unwrap();
    let pooled_ptr = allocated_event.into_pooled_event_ptr();

    match &pooled_ptr {
        PooledEventPtr::S(_) => {}
        _ => panic!("Expected S variant for 128 byte data"),
    }

    assert_eq!(pooled_ptr.data(&allocator), &test_data[..]);
    assert_eq!(pooled_ptr.event_type(&allocator), 50);
    assert_eq!(pooled_ptr.len(&allocator), 128);
    assert_eq!(pooled_ptr.pool_id(), PoolId::S);
}

#[test]
fn test_pooled_event_ptr_m_variant() {
    let mut allocator = EventAllocator::new();
    let test_data = vec![2u8; 512];

    let allocated_event = allocator.allocate_event(&test_data, 75).unwrap();
    let pooled_ptr = allocated_event.into_pooled_event_ptr();

    match &pooled_ptr {
        PooledEventPtr::M(_) => {}
        _ => panic!("Expected M variant for 512 byte data"),
    }

    assert_eq!(pooled_ptr.data(&allocator), &test_data[..]);
    assert_eq!(pooled_ptr.event_type(&allocator), 75);
    assert_eq!(pooled_ptr.len(&allocator), 512);
    assert_eq!(pooled_ptr.pool_id(), PoolId::M);
}

#[test]
fn test_pooled_event_ptr_l_variant() {
    let mut allocator = EventAllocator::new();
    let test_data = vec![3u8; 2048];

    let allocated_event = allocator.allocate_event(&test_data, 100).unwrap();
    let pooled_ptr = allocated_event.into_pooled_event_ptr();

    match &pooled_ptr {
        PooledEventPtr::L(_) => {}
        _ => panic!("Expected L variant for 2KB data"),
    }

    assert_eq!(pooled_ptr.data(&allocator), &test_data[..]);
    assert_eq!(pooled_ptr.event_type(&allocator), 100);
    assert_eq!(pooled_ptr.len(&allocator), 2048);
    assert_eq!(pooled_ptr.pool_id(), PoolId::L);
}

#[test]
fn test_pooled_event_ptr_xl_variant() {
    let mut allocator = EventAllocator::new();
    let test_data = vec![4u8; 8192];

    let allocated_event = allocator.allocate_event(&test_data, 125).unwrap();
    let pooled_ptr = allocated_event.into_pooled_event_ptr();

    match &pooled_ptr {
        PooledEventPtr::Xl(_) => {}
        _ => panic!("Expected XL variant for 8KB data"),
    }

    assert_eq!(pooled_ptr.data(&allocator), &test_data[..]);
    assert_eq!(pooled_ptr.event_type(&allocator), 125);
    assert_eq!(pooled_ptr.len(&allocator), 8192);
    assert_eq!(pooled_ptr.pool_id(), PoolId::XL);
}

#[test]
fn test_pooled_event_ptr_cloning() {
    let mut allocator = EventAllocator::new();
    let test_data = b"clone test data";

    let allocated_event = allocator.allocate_event(test_data, 42).unwrap();
    let original = allocated_event.into_pooled_event_ptr();
    let cloned = original.retain(&mut allocator);

    assert_eq!(original.data(&allocator), cloned.data(&allocator));
    assert_eq!(original.event_type(&allocator), cloned.event_type(&allocator));
    assert_eq!(original.len(&allocator), cloned.len(&allocator));
    assert_eq!(original.pool_id(), cloned.pool_id());

    assert_eq!(original.slot_index(), cloned.slot_index());

    assert_eq!(original.data(&allocator), test_data);
    assert_eq!(cloned.data(&allocator), test_data);
}

#[test]
fn test_pooled_event_ptr_zero_length_data() {
    let mut allocator = EventAllocator::new();

    let allocated_event = allocator.allocate_event(&[], 255).unwrap();
    let pooled_ptr = allocated_event.into_pooled_event_ptr();

    assert_eq!(pooled_ptr.data(&allocator), &[]);
    assert_eq!(pooled_ptr.event_type(&allocator), 255);
    assert_eq!(pooled_ptr.len(&allocator), 0);

    assert_eq!(pooled_ptr.pool_id(), PoolId::XS);
}

#[test]
fn test_pooled_event_ptr_size_boundaries() {
    let mut allocator = EventAllocator::new();

    let boundary_tests = vec![
        (64, PoolId::XS),
        (65, PoolId::S),
        (256, PoolId::S),
        (257, PoolId::M),
        (1024, PoolId::M),
        (1025, PoolId::L),
        (4096, PoolId::L),
        (4097, PoolId::XL),
        (16384, PoolId::XL),
    ];

    for (size, expected_pool) in boundary_tests {
        let test_data = vec![0u8; size];
        let allocated_event = allocator.allocate_event(&test_data, 1).unwrap();
        let pooled_ptr = allocated_event.into_pooled_event_ptr();

        assert_eq!(
            pooled_ptr.pool_id(),
            expected_pool,
            "Size {} should use pool {:?}",
            size,
            expected_pool
        );
        assert_eq!(pooled_ptr.len(&allocator), size as u32);
        assert_eq!(pooled_ptr.data(&allocator).len(), size);
    }
}

#[test]
fn test_pooled_event_ptr_too_large_data() {
    let mut allocator = EventAllocator::new();
    let huge_data = vec![0u8; 32000];

    let result = allocator.allocate_event(&huge_data, 1);
    assert!(result.is_err());

    match result.unwrap_err() {
        AllocationError::TooLarge { data_len, max_size } => {
            assert_eq!(data_len, 32000);
            assert_eq!(max_size, 16384);
        }
        _ => panic!("Expected TooLarge error"),
    }
}

#[test]
fn test_pooled_event_ptr_uniform_interface() {
    let mut allocator = EventAllocator::new();

    let allocated_events = vec![
        allocator.allocate_event(b"xs", 1).unwrap(),
        allocator.allocate_event(&[0u8; 100], 2).unwrap(),
        allocator.allocate_event(&vec![0u8; 500], 3).unwrap(),
        allocator.allocate_event(&vec![0u8; 2000], 4).unwrap(),
        allocator.allocate_event(&vec![0u8; 8000], 5).unwrap(),
    ];

    let events: Vec<_> = allocated_events
        .into_iter()
        .map(|ae| ae.into_pooled_event_ptr())
        .collect();

    for (i, event) in events.iter().enumerate() {
        assert_eq!(event.event_type(&allocator), (i + 1) as u8);
        assert!(event.len(&allocator) > 0);
        assert!(!event.data(&allocator).is_empty());

        let _slot = event.slot_index();
    }

    let pool_ids: Vec<_> = events.iter().map(|e| e.pool_id()).collect();
    let expected = vec![PoolId::XS, PoolId::S, PoolId::M, PoolId::L, PoolId::XL];
    assert_eq!(pool_ids, expected);
}

#[test]
fn test_pooled_event_ptr_debug_display() {
    let mut allocator = EventAllocator::new();
    let allocated_event = allocator.allocate_event(b"debug test", 42).unwrap();
    let pooled_ptr = allocated_event.into_pooled_event_ptr();

    let debug_str = format!("{:?}", pooled_ptr);
    println!("Debug output: {}", debug_str);

    match &pooled_ptr {
        PooledEventPtr::Xs(_) => assert!(debug_str.contains("Xs")),
        PooledEventPtr::S(_) => assert!(debug_str.contains("S")),
        PooledEventPtr::M(_) => assert!(debug_str.contains("M")),
        PooledEventPtr::L(_) => assert!(debug_str.contains("L")),
        PooledEventPtr::Xl(_) => assert!(debug_str.contains("Xl")),
    }

    assert!(
        debug_str.contains("RingPtr")
            || debug_str.contains("Xs")
            || debug_str.contains("S")
            || debug_str.contains("M")
            || debug_str.contains("L")
            || debug_str.contains("Xl")
    );
}

#[test]
fn test_pooled_event_ptr_drop_behavior() {
    let mut allocator = EventAllocator::new();
    let test_data = b"drop test";

    {
        let allocated_event = allocator.allocate_event(test_data, 42).unwrap();
        let pooled_ptr = allocated_event.into_pooled_event_ptr();

        assert_eq!(pooled_ptr.data(&allocator), test_data);
        pooled_ptr.release(&mut allocator);
    }

    let new_data = b"new data after drop";
    let new_allocated = allocator.allocate_event(new_data, 100).unwrap();
    let new_ptr = new_allocated.into_pooled_event_ptr();

    assert_eq!(new_ptr.data(&allocator), new_data);
    assert_eq!(new_ptr.event_type(&allocator), 100);
}

#[test]
fn test_pooled_event_ptr_reference_counting() {
    let mut allocator = EventAllocator::new();
    let test_data = b"ref count test";

    let allocated_event = allocator.allocate_event(test_data, 42).unwrap();
    let original = allocated_event.into_pooled_event_ptr();
    let slot_index = original.slot_index();

    let clone1 = original.retain(&mut allocator);
    let clone2 = original.retain(&mut allocator);
    let clone3 = clone1.retain(&mut allocator);

    assert_eq!(original.data(&allocator), test_data);
    assert_eq!(clone1.data(&allocator), test_data);
    assert_eq!(clone2.data(&allocator), test_data);
    assert_eq!(clone3.data(&allocator), test_data);

    assert_eq!(original.slot_index(), slot_index);
    assert_eq!(clone1.slot_index(), slot_index);
    assert_eq!(clone2.slot_index(), slot_index);
    assert_eq!(clone3.slot_index(), slot_index);

    clone1.release(&mut allocator);
    clone2.release(&mut allocator);

    assert_eq!(original.data(&allocator), test_data);
    assert_eq!(clone3.data(&allocator), test_data);

    original.release(&mut allocator);
    clone3.release(&mut allocator);

    let new_allocated = allocator.allocate_event(b"after drop", 200).unwrap();
    let new_ptr = new_allocated.into_pooled_event_ptr();
    assert_eq!(new_ptr.data(&allocator), b"after drop");
}
