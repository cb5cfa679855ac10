# rusted_ring

Fixed-size event rings in the LMAX Disruptor style, with T-shirt sized event pools
(XS 64 B, S 256 B, M 1 KB, L 4 KB, XL 16 KB), verified with Verus.

- `src/ring.rs`: events, slot bookkeeping, the ring buffer with its single writer and
  independent readers, and the laws of publishing and reading.
- `src/pool.rs`: size classes and pool ids, event creation, lazily created size-class rings,
  and `EventPools`, the five rings used as pools of reference-counted slots.
- `src/allocator.rs`, `src/ring_ptr.rs`, `src/pooled_event_ptr.rs`: first-fit slot allocation,
  counted references with generations, and uniform access to allocated events.
- `src/lib.rs`: sources, sinks and pipes built on writers and readers.
- `app/`: process-wide rings behind a lock, backpressure ratios and pool statistics in
  floating point, and error types implementing `std::error::Error`.

Rings are plain values: a writer publishes through `&mut RingBuffer`, readers read through
`&RingBuffer`, so the single-writer, many-reader discipline is enforced by the borrow checker.
References to allocated slots are retained and released explicitly through the allocator.
