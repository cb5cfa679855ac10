use rusted_ring::{AllocatedEvent, AllocationError, EventAllocator, PoolId};

#[test]
fn test_simple_creation() {
    let allocator = EventAllocator::new();
    let stats = allocator.pools.get_pool_stats(PoolId::XS);
    println!("XS Pool stats: {:?}", stats);
    assert_eq!(stats.total_slots, 2000);
}

#[test]
fn test_basic_allocation() {
    let mut allocator = EventAllocator::new();

    let xs_event = allocator.allocate_xs_event(b"small", 42).unwrap();
    let xs = allocator.pools.xs_event(xs_event.slot_index);
    assert_eq!(&xs.data[..5], b"small");
    assert_eq!(xs.len, 5);
    assert_eq!(xs.event_type, 42);

    let medium_data = vec![1u8; 128];
    let s_event = allocator.allocate_s_event(&medium_data, 100).unwrap();
    let s = allocator.pools.s_event(s_event.slot_index);
    assert_eq!(s.len, 128);
    assert_eq!(s.event_type, 100);
    assert_eq!(&s.data[..128], &medium_data[..]);
}

#[test]
fn test_auto_size_detection() {
    let mut allocator = EventAllocator::new();

    let small_event = allocator.allocate_event(b"tiny", 1).unwrap();
    assert!(matches!(small_event, AllocatedEvent::Xs(_)));

    let medium_data = vec![0u8; 128];
    let medium_event = allocator.allocate_event(&medium_data, 2).unwrap();
    assert!(matches!(medium_event, AllocatedEvent::S(_)));

    let large_data = vec![0u8; 512];
    let large_event = allocator.allocate_event(&large_data, 3).unwrap();
    assert!(matches!(large_event, AllocatedEvent::M(_)));

    let xl_data = vec![0u8; 2048];
    let xl_event = allocator.allocate_event(&xl_data, 4).unwrap();
    assert!(matches!(xl_event, AllocatedEvent::L(_)));

    let xxl_data = vec![0u8; 8192];
    let xxl_event = allocator.allocate_event(&xxl_data, 5).unwrap();
    assert!(matches!(xxl_event, AllocatedEvent::Xl(_)));
}

#[test]
fn test_data_too_large() {
    let mut allocator = EventAllocator::new();

    let huge_data = vec![0u8; 32000];
    let result = allocator.allocate_event(&huge_data, 1);
    assert!(matches!(result, Err(AllocationError::TooLarge { .. })));

    let max_xl_data = vec![0u8; 16384];
    let result = allocator.allocate_event(&max_xl_data, 1);
    assert!(result.is_ok());

    let over_xl_data = vec![0u8; 16385];
    let result = allocator.allocate_event(&over_xl_data, 1);
    assert!(matches!(result, Err(AllocationError::TooLarge { .. })));
}

#[test]
fn test_ring_ptr_cloning_and_reference_counting() {
    let mut allocator = EventAllocator::new();

    let event = allocator.allocate_xs_event(b"test", 42).unwrap();
    let pool_id = PoolId::XS;
    let slot_index = event.slot_index;

    let initial_ref_count = allocator.pools.get_ref_count(pool_id, slot_index);
    assert_eq!(initial_ref_count, 1);

    let cloned_event = allocator.retain(&event);
    let ref_count_after_clone = allocator.pools.get_ref_count(pool_id, slot_index);
    assert_eq!(ref_count_after_clone, 2);

    let original = *allocator.pools.xs_event(event.slot_index);
    let cloned = *allocator.pools.xs_event(cloned_event.slot_index);
    assert_eq!(&original.data[..4], b"test");
    assert_eq!(&cloned.data[..4], b"test");
    assert_eq!(original.len, cloned.len);
    assert_eq!(original.event_type, cloned.event_type);

    allocator.release(event);
    let ref_count_after_drop = allocator.pools.get_ref_count(pool_id, slot_index);
    assert_eq!(ref_count_after_drop, 1);

    let cloned = allocator.pools.xs_event(cloned_event.slot_index);
    assert_eq!(cloned.len, 4);
    assert_eq!(cloned.event_type, 42);
}

#[test]
fn test_slot_reuse_after_all_references_dropped() {
    let mut allocator = EventAllocator::new();

    let event = allocator.allocate_xs_event(b"test", 42).unwrap();
    let pool_id = PoolId::XS;
    let slot_index = event.slot_index;
    let initial_generation = event.generation;

    assert!(!allocator.pools.is_slot_available(pool_id, slot_index));

    allocator.release(event);

    assert!(allocator.pools.is_slot_available(pool_id, slot_index));
    let new_generation = allocator.pools.get_generation(pool_id, slot_index);
    assert_eq!(new_generation, initial_generation + 1);

    let new_event = allocator.allocate_xs_event(b"new", 100).unwrap();
    let stored = allocator.pools.xs_event(new_event.slot_index);
    assert_eq!(stored.len, 3);
    assert_eq!(stored.event_type, 100);
}

#[test]
fn test_multiple_pool_allocation() {
    let mut allocator = EventAllocator::new();

    let xs_event = allocator.allocate_xs_event(b"xs", 1).unwrap();
    let s_event = allocator.allocate_s_event(&vec![0u8; 100], 2).unwrap();
    let m_event = allocator.allocate_m_event(&vec![0u8; 500], 3).unwrap();
    let l_event = allocator.allocate_l_event(&vec![0u8; 2000], 4).unwrap();
    let xl_event = allocator.allocate_xl_event(&vec![0u8; 8000], 5).unwrap();

    assert_eq!(xs_event.pool_id, PoolId::XS);
    assert_eq!(s_event.pool_id, PoolId::S);
    assert_eq!(m_event.pool_id, PoolId::M);
    assert_eq!(l_event.pool_id, PoolId::L);
    assert_eq!(xl_event.pool_id, PoolId::XL);

    assert_eq!(allocator.pools.xs_event(xs_event.slot_index).len, 2);
    assert_eq!(allocator.pools.s_event(s_event.slot_index).len, 100);
    assert_eq!(allocator.pools.m_event(m_event.slot_index).len, 500);
    assert_eq!(allocator.pools.l_event(l_event.slot_index).len, 2000);
    assert_eq!(allocator.pools.xl_event(xl_event.slot_index).len, 8000);
}

#[test]
fn test_pool_exhaustion() {
    let mut allocator = EventAllocator::new();
    let mut events = vec![];

    for i in 0..2001 {
        match allocator.allocate_xs_event(b"test", i as u32) {
            Ok(event) => {
                events.push(event);
            }
            Err(AllocationError::PoolFull(PoolId::XS)) => {
                println!("Pool exhausted after {} allocations", events.len());
                break;
            }
            Err(e) => panic!("Unexpected error: {:?}", e),
        }
    }

    assert!(events.len() >= 1000);

    let half = events.len() / 2;
    for event in events.split_off(half) {
        allocator.release(event);
    }

    let new_event = allocator.allocate_xs_event(b"after_drop", 9999).unwrap();
    let stored = allocator.pools.xs_event(new_event.slot_index);
    assert_eq!(stored.len, 10);
    assert_eq!(stored.event_type, 9999);
}

#[test]
fn test_zero_length_events() {
    let mut allocator = EventAllocator::new();

    let empty_event = allocator.allocate_event(&[], 42).unwrap();
    assert_eq!(empty_event.len(&allocator), 0);
    assert_eq!(empty_event.event_type(&allocator), 42);
    assert_eq!(empty_event.data(&allocator), &[]);
}

#[test]
fn test_allocated_event_enum_methods() {
    let mut allocator = EventAllocator::new();

    let xs_event = allocator.allocate_event(b"xs", 1).unwrap();
    let s_event = allocator.allocate_event(&vec![0u8; 100], 2).unwrap();
    let m_event = allocator.allocate_event(&vec![0u8; 500], 3).unwrap();
    let l_event = allocator.allocate_event(&vec![0u8; 2000], 4).unwrap();
    let xl_event = allocator.allocate_event(&vec![0u8; 8000], 5).unwrap();

    assert_eq!(xs_event.data(&allocator), b"xs");
    assert_eq!(s_event.data(&allocator).len(), 100);
    assert_eq!(m_event.data(&allocator).len(), 500);
    assert_eq!(l_event.data(&allocator).len(), 2000);
    assert_eq!(xl_event.data(&allocator).len(), 8000);

    assert_eq!(xs_event.event_type(&allocator), 1);
    assert_eq!(s_event.event_type(&allocator), 2);
    assert_eq!(m_event.event_type(&allocator), 3);
    assert_eq!(l_event.event_type(&allocator), 4);
    assert_eq!(xl_event.event_type(&allocator), 5);

    assert_eq!(xs_event.len(&allocator), 2);
    assert_eq!(s_event.len(&allocator), 100);
    assert_eq!(m_event.len(&allocator), 500);
    assert_eq!(l_event.len(&allocator), 2000);
    assert_eq!(xl_event.len(&allocator), 8000);

    assert_eq!(xs_event.pool_id(), PoolId::XS);
    assert_eq!(s_event.pool_id(), PoolId::S);
    assert_eq!(m_event.pool_id(), PoolId::M);
    assert_eq!(l_event.pool_id(), PoolId::L);
    assert_eq!(xl_event.pool_id(), PoolId::XL);
}

#[test]
fn test_clone_semantics() {
    let mut allocator = EventAllocator::new();

    let original = allocator.allocate_event(b"clone test", 123).unwrap();
    let cloned = original.retain(&mut allocator);

    assert_eq!(original.data(&allocator), cloned.data(&allocator));
    assert_eq!(original.event_type(&allocator), cloned.event_type(&allocator));
    assert_eq!(original.len(&allocator), cloned.len(&allocator));

    original.release(&mut allocator);

    assert_eq!(cloned.data(&allocator), b"clone test");
    assert_eq!(cloned.event_type(&allocator), 123);
}

#[test]
fn test_size_boundaries() {
    let mut allocator = EventAllocator::new();

    let boundary_tests = vec![
        (64, "XS -> S boundary"),
        (256, "S -> M boundary"),
        (1024, "M -> L boundary"),
        (4096, "L -> XL boundary"),
        (16384, "XL -> XXL boundary"),
    ];

    for (size, description) in boundary_tests {
        let data = vec![0u8; size];
        let result = allocator.allocate_event(&data, 1);

        if size <= 16384 {
            assert!(result.is_ok(), "Failed at {}: {}", size, description);
            let event = result.unwrap();
            assert_eq!(event.len(&allocator), size as u32);
        } else {
            assert!(result.is_err(), "Should fail at {}: {}", size, description);
        }
    }
}

#[test]
fn test_generation_increment() {
    let mut allocator = EventAllocator::new();

    for _expected_gen in 1..=5 {
        let event = allocator.allocate_xs_event(b"gen_test", 42).unwrap();
        let slot_index = event.slot_index;
        let generation = event.generation;

        allocator.release(event);

        let new_generation = allocator.pools.get_generation(PoolId::XS, slot_index);
        assert_eq!(new_generation, generation + 1);
    }
}

#[test]
fn test_aba_protection() {
    let mut allocator = EventAllocator::new();

    let event1 = allocator.allocate_xs_event(b"aba1", 1).unwrap();
    let slot_index = event1.slot_index;
    let generation1 = event1.generation;

    allocator.release(event1);

    let event2 = allocator.allocate_xs_event(b"aba2", 2).unwrap();

    if event2.slot_index == slot_index {
        assert_ne!(event2.generation, generation1);
        assert_eq!(event2.generation, generation1 + 1);
    }

    let stored = allocator.pools.xs_event(event2.slot_index);
    assert_eq!(stored.data[..4], *b"aba2");
    assert_eq!(stored.event_type, 2);
}
