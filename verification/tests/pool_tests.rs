use std::time::Instant;

use rusted_ring::{EventPoolFactory, EventRings, EventUtils, PoolId, RingBuffer, RingFactory};

#[test]
fn test_generic_factory() {
    let test_id: u32 = 5_000_000;
    let mut rings = EventRings::new();

    let mut xs_writer = RingFactory::get_writer(&mut rings.xs);
    let mut xs_reader = RingFactory::get_reader(&mut rings.xs);

    let mut m_writer = RingFactory::get_writer(&mut rings.m);
    let mut m_reader = RingFactory::get_reader(&mut rings.m);

    let xs_event = EventUtils::create_pooled_event::<64>(b"xs_generic_test", test_id).unwrap();
    xs_writer.add(rings.xs.as_mut().unwrap(), xs_event);

    let m_event = EventUtils::create_pooled_event::<1024>(b"m_generic_test", test_id + 1).unwrap();
    m_writer.add(rings.m.as_mut().unwrap(), m_event);

    if let Some(event) = xs_reader.next(rings.xs.as_ref().unwrap()) {
        if event.event_type == test_id {
            assert_eq!(&event.data[..event.len as usize], b"xs_generic_test");
            println!("XS generic factory working");
        }
    }

    if let Some(event) = m_reader.next(rings.m.as_ref().unwrap()) {
        if event.event_type == test_id + 1 {
            assert_eq!(&event.data[..event.len as usize], b"m_generic_test");
            println!("M generic factory working");
        }
    }
}

#[test]
fn test_api_equivalence() {
    let test_id: u32 = 5_010_000;
    let mut rings = EventRings::new();

    let mut generic_writer = RingFactory::get_writer(&mut rings.s);
    let mut typed_writer = EventPoolFactory::get_s_writer(&mut rings);

    let event1 = EventUtils::create_pooled_event::<256>(b"generic_api", test_id).unwrap();
    let event2 = EventUtils::create_pooled_event::<256>(b"typed_api", test_id + 1).unwrap();

    generic_writer.add(rings.s.as_mut().unwrap(), event1);
    typed_writer.add(rings.s.as_mut().unwrap(), event2);

    let mut generic_reader = RingFactory::get_reader(&mut rings.s);

    let mut found_generic = false;
    let mut found_typed = false;

    for _ in 0..10 {
        if let Some(event) = generic_reader.next(rings.s.as_ref().unwrap()) {
            if event.event_type == test_id {
                found_generic = true;
            }
            if event.event_type == test_id + 1 {
                found_typed = true;
            }
        }
    }

    assert!(found_generic || found_typed, "Should find at least one event");
}

#[test]
fn test_performance_comparison() {
    let test_id: u32 = 5_020_000;
    let events_count = 1000;
    let mut rings = EventRings::new();

    let generic_start = Instant::now();
    {
        let mut writer = RingFactory::get_writer(&mut rings.l);
        for i in 0..events_count {
            let data = format!("generic_perf_{}", i);
            let event = EventUtils::create_pooled_event::<4096>(data.as_bytes(), test_id + i).unwrap();
            writer.add(rings.l.as_mut().unwrap(), event);
        }
    }
    let generic_duration = generic_start.elapsed();

    let typed_start = Instant::now();
    {
        let mut writer = EventPoolFactory::get_l_writer(&mut rings);
        for i in 0..events_count {
            let data = format!("typed_perf_{}", i);
            let event =
                EventUtils::create_pooled_event::<4096>(data.as_bytes(), test_id + events_count + i).unwrap();
            writer.add(rings.l.as_mut().unwrap(), event);
        }
    }
    let typed_duration = typed_start.elapsed();

    println!("Generic API: {:?} for {} events", generic_duration, events_count);
    println!("Typed API: {:?} for {} events", typed_duration, events_count);

    assert!(generic_duration.as_millis() < 100, "Generic API too slow");
    assert!(typed_duration.as_millis() < 100, "Typed API too slow");
}

#[test]
fn test_custom_ring_usage() {
    let mut custom_ring: Option<RingBuffer<512, 50>> = None;
    let test_id: u32 = 5_030_000;

    let mut writer = RingFactory::get_writer(&mut custom_ring);
    let mut reader = RingFactory::get_reader(&mut custom_ring);

    let event = EventUtils::create_pooled_event::<512>(b"custom_ring_test", test_id).unwrap();
    writer.add(custom_ring.as_mut().unwrap(), event);

    if let Some(event) = reader.next(custom_ring.as_ref().unwrap()) {
        if event.event_type == test_id {
            assert_eq!(&event.data[..event.len as usize], b"custom_ring_test");
        }
    }
}

#[test]
fn test_auto_sized_events() {
    let test_id: u32 = 5_040_000;
    let mut rings = EventRings::new();

    let small_data = b"small";
    let medium_data = vec![b'M'; 500];
    let large_data = vec![b'L'; 2000];

    let small_event = EventUtils::create_auto_sized_event(small_data, test_id).unwrap();
    let medium_event = EventUtils::create_auto_sized_event(&medium_data, test_id + 1).unwrap();
    let large_event = EventUtils::create_auto_sized_event(&large_data, test_id + 2).unwrap();

    assert_eq!(small_event.pool_id(), PoolId::XS);
    assert_eq!(medium_event.pool_id(), PoolId::M);
    assert_eq!(large_event.pool_id(), PoolId::L);

    small_event.emit_to_ring(&mut rings).unwrap();
    medium_event.emit_to_ring(&mut rings).unwrap();
    large_event.emit_to_ring(&mut rings).unwrap();

    let mut xs_reader = RingFactory::get_reader(&mut rings.xs);
    let mut m_reader = RingFactory::get_reader(&mut rings.m);
    let mut l_reader = RingFactory::get_reader(&mut rings.l);

    if let Some(event) = xs_reader.next(rings.xs.as_ref().unwrap()) {
        if event.event_type == test_id {
            assert_eq!(&event.data[..event.len as usize], small_data);
        }
    }

    if let Some(event) = m_reader.next(rings.m.as_ref().unwrap()) {
        if event.event_type == test_id + 1 {
            assert_eq!(&event.data[..event.len as usize], &medium_data);
        }
    }

    if let Some(event) = l_reader.next(rings.l.as_ref().unwrap()) {
        if event.event_type == test_id + 2 {
            assert_eq!(&event.data[..event.len as usize], &large_data);
        }
    }
}
