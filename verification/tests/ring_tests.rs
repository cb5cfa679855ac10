use rusted_ring::{PooledEvent, Reader, RingBuffer, RingPipe, RingSink, RingSource, SlotMetadata, Writer};

fn event(tag: u8, event_type: u32) -> PooledEvent<8> {
    PooledEvent::<8>::fill(&[tag, tag, tag], event_type)
}

#[test]
fn ring_reads_back_events_in_publish_order() {
    let mut ring: RingBuffer<8, 4> = RingBuffer::new();
    let mut writer: Writer<8, 4> = Writer::new();
    let mut reader: Reader<8, 4> = Reader::new();

    for k in 0..4u8 {
        assert!(writer.add(&mut ring, event(k, k as u32)));
    }
    assert_eq!(ring.published_sequence, 4);
    for k in 0..4u8 {
        let got = reader.next(&ring).unwrap();
        assert_eq!(got.event_type, k as u32);
        assert_eq!(&got.data[..got.len as usize], &[k, k, k]);
    }
    assert!(reader.next(&ring).is_none());
    assert_eq!(reader.cursor, 4);
}

#[test]
fn ring_reader_is_none_when_caught_up() {
    let ring: RingBuffer<8, 4> = RingBuffer::new();
    let mut reader: Reader<8, 4> = Reader::new();
    assert!(reader.next(&ring).is_none());
    assert_eq!(reader.cursor, 0);
}

#[test]
fn ring_overwrites_oldest_slot_after_capacity() {
    let mut ring: RingBuffer<8, 4> = RingBuffer::new();
    let mut writer: Writer<8, 4> = Writer::new();
    let mut reader: Reader<8, 4> = Reader::new();
    for k in 0..5u8 {
        writer.add(&mut ring, event(k, k as u32));
    }
    // the fifth event landed in slot 0, so a reader that was lapped sees it there
    let got = reader.next(&ring).unwrap();
    assert_eq!(got.event_type, 4);
}

#[test]
fn ring_independent_readers_each_see_every_event() {
    let mut ring: RingBuffer<8, 4> = RingBuffer::new();
    let mut writer: Writer<8, 4> = Writer::new();
    let mut a: Reader<8, 4> = Reader::new();
    let mut b: Reader<8, 4> = Reader::new();
    writer.add(&mut ring, event(1, 10));
    writer.add(&mut ring, event(2, 20));
    assert_eq!(a.next(&ring).unwrap().event_type, 10);
    assert_eq!(a.next(&ring).unwrap().event_type, 20);
    assert_eq!(b.next(&ring).unwrap().event_type, 10);
    assert!(a.next(&ring).is_none());
    assert_eq!(b.next(&ring).unwrap().event_type, 20);
}

#[test]
fn ring_backpressure_thresholds() {
    let mut ring: RingBuffer<8, 10> = RingBuffer::new();
    let mut writer: Writer<8, 10> = Writer::new();
    let reader: Reader<8, 10> = Reader::new();
    for k in 0..8u8 {
        writer.add(&mut ring, event(k, 0));
    }
    assert_eq!(reader.lag(&ring), 8);
    assert!(!reader.is_under_pressure(&ring));
    assert!(!reader.should_throttle(&ring));
    writer.add(&mut ring, event(8, 0));
    assert_eq!(reader.lag(&ring), 9);
    assert!(reader.is_under_pressure(&ring));
    assert!(reader.should_throttle(&ring));
}

#[test]
fn ring_new_is_zeroed_and_free() {
    let ring: RingBuffer<8, 3> = RingBuffer::new();
    assert_eq!(ring.published_sequence, 0);
    assert_eq!(ring.data.len(), 3);
    for e in &ring.data {
        assert_eq!(e.len, 0);
        assert_eq!(e.event_type, 0);
        assert_eq!(e.data, [0u8; 8]);
    }
    for m in &ring.metadata {
        assert_eq!((m.ref_count, m.is_allocated, m.generation), (0, 0, 0));
    }
}

#[test]
fn pooled_event_zeroed_and_fill() {
    let z = PooledEvent::<16>::zeroed();
    assert_eq!(z.data, [0u8; 16]);
    assert_eq!(z.len, 0);
    let e = PooledEvent::<16>::fill(b"abc", 7);
    assert_eq!(e.len, 3);
    assert_eq!(e.event_type, 7);
    assert_eq!(&e.data[..3], b"abc");
    assert!(e.data[3..].iter().all(|b| *b == 0));
}

#[test]
fn slot_metadata_default_is_free() {
    let m = SlotMetadata::default();
    assert_eq!((m.ref_count, m.is_allocated, m.generation), (0, 0, 0));
}

#[test]
fn slot_generation_wraps_at_u16_max() {
    let mut ring: RingBuffer<8, 2> = RingBuffer::new();
    ring.metadata[1].generation = u16::MAX;
    ring.mark_slot_reusable(1);
    assert_eq!(ring.slot_generation(1), 0);
    ring.mark_slot_reusable(1);
    assert_eq!(ring.slot_generation(1), 1);
}

#[test]
fn ring_pipe_parts_start_at_zero() {
    let mut ring: RingBuffer<8, 4> = RingBuffer::new();
    let mut pipe: RingPipe<8, 4> = RingPipe::new();
    let mut source: RingSource<8, 4> = RingSource::new();
    let sink: RingSink<8, 4> = RingSink::new();
    assert_eq!(sink.reader.cursor, 0);
    assert_eq!(pipe.sink.reader.cursor, 0);
    source.writer.add(&mut ring, event(5, 55));
    assert_eq!(pipe.sink.reader.next(&ring).unwrap().event_type, 55);
}

#[test]
fn ring_copied_reader_keeps_its_own_cursor() {
    let mut ring: RingBuffer<8, 4> = RingBuffer::new();
    let mut writer: Writer<8, 4> = Writer::new();
    let mut a: Reader<8, 4> = Reader::new();
    writer.add(&mut ring, event(1, 10));
    writer.add(&mut ring, event(2, 20));
    assert_eq!(a.next(&ring).unwrap().event_type, 10);
    let mut b = a;
    assert_eq!(b.next(&ring).unwrap().event_type, 20);
    assert_eq!(a.cursor, 1);
    assert_eq!(a.next(&ring).unwrap().event_type, 20);
}

#[test]
fn ring_of_capacity_zero_hands_caught_up_reader_nothing() {
    let ring: RingBuffer<8, 0> = RingBuffer::new();
    let mut reader: Reader<8, 0> = Reader::new();
    assert!(reader.next(&ring).is_none());
    assert_eq!(reader.cursor, 0);
}
