pub mod allocator;
pub mod pool;
pub mod pooled_event_ptr;
pub mod ring;
pub mod ring_ptr;

pub use allocator::{AllocatedEvent, AllocationError, EventAllocator};
pub use pool::{
    AutoSizedEvent, EmitError, EventCreationError, EventPoolFactory, EventPools, EventRings, EventUtils, PoolId,
    RingFactory, SlotStats, L_CAPACITY, MAX_POOLED_SIZE, M_CAPACITY, S_CAPACITY, XL_CAPACITY, XS_CAPACITY,
};
pub use pooled_event_ptr::PooledEventPtr;
pub use ring::{EventSize, PooledEvent, Reader, RingBuffer, SlotMetadata, Writer, MAX_STACK_BYTES};
pub use ring_ptr::RingPtr;

use vstd::prelude::*;

verus! {

pub const XS_TSHIRT_SIZE: usize = 64;
pub const S_TSHIRT_SIZE: usize = 256;
pub const M_TSHIRT_SIZE: usize = 1024;
pub const L_TSHIRT_SIZE: usize = 4096;
pub const XL_TSHIRT_SIZE: usize = 16384;

/// The emitting end of an actor: the single writer of the ring it publishes into.
#[derive(Debug)]
pub struct RingSource<const TSHIRT_SIZE: usize, const RING_CAPACITY: usize> {
    pub writer: Writer<TSHIRT_SIZE, RING_CAPACITY>,
}

impl<const TSHIRT_SIZE: usize, const RING_CAPACITY: usize> RingSource<TSHIRT_SIZE, RING_CAPACITY> {
    pub fn new() -> (source: Self) {
        RingSource { writer: Writer::new() }
    }
}

/// The receiving end of an actor: a reader of the ring that others publish into.
#[derive(Debug, Clone)]
pub struct RingSink<const TSHIRT_SIZE: usize, const RING_CAPACITY: usize> {
    pub reader: Reader<TSHIRT_SIZE, RING_CAPACITY>,
}

impl<const TSHIRT_SIZE: usize, const RING_CAPACITY: usize> RingSink<TSHIRT_SIZE, RING_CAPACITY> {
    /// A sink that reads its ring from the first event on.
    pub fn new() -> (sink: Self)
        ensures
            sink.reader.cursor == 0,
    {
        RingSink { reader: Reader::new() }
    }
}

/// A two-way conduit between actors: a source for the ring it writes and a sink for the ring it reads.
#[derive(Debug)]
pub struct RingPipe<const TSHIRT_SIZE: usize, const RING_CAPACITY: usize> {
    pub source: RingSource<TSHIRT_SIZE, RING_CAPACITY>,
    pub sink: RingSink<TSHIRT_SIZE, RING_CAPACITY>,
}

impl<const TSHIRT_SIZE: usize, const RING_CAPACITY: usize> RingPipe<TSHIRT_SIZE, RING_CAPACITY> {
    /// A pipe whose sink reads its ring from the first event on.
    pub fn new() -> (pipe: Self)
        ensures
            pipe.sink.reader.cursor == 0,
    {
        RingPipe { source: RingSource::new(), sink: RingSink::new() }
    }
}

} // verus!
