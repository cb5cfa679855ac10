use vstd::prelude::*;

use crate::pool::{
    capacity_of, lemma_meta_set_twice, pool_for_len, size_for_len, EventPools, PoolId, L_CAPACITY, M_CAPACITY, MAX_POOLED_SIZE,
    S_CAPACITY, XL_CAPACITY, XS_CAPACITY,
};
use crate::ring::{EventSize, PooledEvent, Reader, SlotMetadata, Writer};
use crate::pooled_event_ptr::PooledEventPtr;
use crate::ring_ptr::RingPtr;

verus! {

/// Hands out reference-counted slots of the five size-class pools.
pub struct EventAllocator {
    pub pools: EventPools,
}

/// Failure to allocate an event.
#[derive(Debug, Clone, Copy, PartialEq, Eq)]
pub enum AllocationError {
    EventCreation(&'static str),
    PoolFull(PoolId),
    TooLarge { data_len: usize, max_size: usize },
}

impl EventAllocator {
    pub open spec fn well_formed(&self) -> bool {
        self.pools.well_formed()
    }

    /// An allocator whose pools are all fresh.
    pub fn new() -> (a: Self)
        ensures
            a.well_formed(),
            a.pools.xs_pool.is_fresh(),
            a.pools.s_pool.is_fresh(),
            a.pools.m_pool.is_fresh(),
            a.pools.l_pool.is_fresh(),
            a.pools.xl_pool.is_fresh(),
    {
        EventAllocator { pools: EventPools::new() }
    }

    pub fn get_xs_writer(&self) -> Writer<64, XS_CAPACITY> {
        Writer::new()
    }

    pub fn get_s_writer(&self) -> Writer<256, S_CAPACITY> {
        Writer::new()
    }

    pub fn get_m_writer(&self) -> Writer<1024, M_CAPACITY> {
        Writer::new()
    }

    pub fn get_l_writer(&self) -> Writer<4096, L_CAPACITY> {
        Writer::new()
    }

    pub fn get_xl_writer(&self) -> Writer<16384, XL_CAPACITY> {
        Writer::new()
    }

    pub fn get_xs_reader(&self) -> (r: Reader<64, XS_CAPACITY>)
        ensures
            r.cursor == 0,
    {
        Reader::new()
    }

    pub fn get_s_reader(&self) -> (r: Reader<256, S_CAPACITY>)
        ensures
            r.cursor == 0,
    {
        Reader::new()
    }

    pub fn get_m_reader(&self) -> (r: Reader<1024, M_CAPACITY>)
        ensures
            r.cursor == 0,
    {
        Reader::new()
    }

    pub fn get_l_reader(&self) -> (r: Reader<4096, L_CAPACITY>)
        ensures
            r.cursor == 0,
    {
        Reader::new()
    }

    pub fn get_xl_reader(&self) -> (r: Reader<16384, XL_CAPACITY>)
        ensures
            r.cursor == 0,
    {
        Reader::new()
    }

    /// The size class of a payload of `data_len` bytes.
    pub fn estimate_size(data_len: usize) -> (size: EventSize)
        ensures
            size == size_for_len(data_len as int),
    {
        if data_len <= 64 {
            EventSize::XS
        } else if data_len <= 256 {
            EventSize::S
        } else if data_len <= 1024 {
            EventSize::M
        } else if data_len <= 4096 {
            EventSize::L
        } else if data_len <= 16384 {
            EventSize::XL
        } else {
            EventSize::XXL
        }
    }

    /// An event of capacity `SIZE` carrying `data`, or a message when `data` does not fit.
    pub fn create_pooled_event<const SIZE: usize>(data: &[u8], event_type: u32) -> (r: Result<
        PooledEvent<SIZE>,
        &'static str,
    >)
        ensures
            r is Err <==> data@.len() > SIZE,
            r matches Ok(e) ==> e.holds(data@, event_type) && e.well_formed(),
            r matches Err(msg) ==> msg@ == "Data too large for this pool size"@,
    {
        if data.len() > SIZE {
            return Err("Data too large for this pool size");
        }
        Ok(PooledEvent::fill(data, event_type))
    }

    /// Claims the lowest free slot of `pool_id` for a first holder; `None` when the pool is full.
    pub fn find_available_slot(&mut self, pool_id: PoolId) -> (r: Option<u32>)
        requires
            old(self).well_formed(),
        ensures
            match r {
                Some(i) => {
                    &&& old(self).pools.is_first_free(pool_id, i as int)
                    &&& final(self).pools.meta_set(
                        &old(self).pools,
                        pool_id,
                        i as int,
                        old(self).pools.meta(pool_id)[i as int].taken(),
                    )
                },
                None => old(self).pools.is_full(pool_id) && *final(self) == *old(self),
            },
    {
        let capacity: u32 = match pool_id {
            PoolId::XS => 2000,
            PoolId::S => 1000,
            PoolId::M => 300,
            PoolId::L => 60,
            PoolId::XL => 15,
        };
        let mut slot_index: u32 = 0;
        while slot_index < capacity
            invariant
                capacity == capacity_of(pool_id),
                slot_index <= capacity,
                *self == *old(self),
                self.well_formed(),
                forall|j: int| 0 <= j < slot_index ==> !(#[trigger] old(self).pools.meta(pool_id)[j]).is_free(),
            decreases capacity - slot_index,
        {
            if self.pools.try_allocate_slot(pool_id, slot_index) {
                return Some(slot_index);
            }
            slot_index = slot_index + 1;
        }
        None
    }

    /// Allocates the lowest free slot of the XS pool and fills it with `data` as type `event_type`.
    pub fn allocate_xs_event(&mut self, data: &[u8], event_type: u32) -> (r: Result<
        RingPtr<PooledEvent<64>>,
        AllocationError,
    >)
        requires
            old(self).well_formed(),
        ensures
            final(self).well_formed(),
            match r {
                Ok(ptr) => {
                    &&& data@.len() <= 64
                    &&& ptr.pool_id == PoolId::XS
                    &&& ptr.generation == old(self).pools.meta(PoolId::XS)[ptr.slot_index as int].generation
                    &&& final(self).pools.took_slot(
                        &old(self).pools,
                        PoolId::XS,
                        ptr.slot_index as int,
                        data@,
                        event_type,
                    )
                },
                Err(AllocationError::EventCreation(msg)) => {
                    &&& data@.len() > 64
                    &&& msg@ == "Data too large for this pool size"@
                    &&& *final(self) == *old(self)
                },
                Err(AllocationError::PoolFull(pool)) => {
                    &&& pool == PoolId::XS
                    &&& data@.len() <= 64
                    &&& old(self).pools.is_full(PoolId::XS)
                    &&& *final(self) == *old(self)
                },
                Err(AllocationError::TooLarge { .. }) => false,
            },
    {
        let pooled_event = match Self::create_pooled_event::<64>(data, event_type) {
            Ok(e) => e,
            Err(e) => return Err(AllocationError::EventCreation(e)),
        };
        let slot_index = match self.find_available_slot(PoolId::XS) {
            Some(i) => i,
            None => return Err(AllocationError::PoolFull(PoolId::XS)),
        };
        let ghost claimed = self.pools;
        self.pools.place_xs_event(pooled_event, slot_index);
        proof {
            crate::pool::lemma_claim_then_fill(
                old(self).pools,
                claimed,
                self.pools,
                PoolId::XS,
                slot_index as int,
                old(self).pools.meta(PoolId::XS)[slot_index as int].taken(),
            );
        }
        let generation = self.pools.get_generation(PoolId::XS, slot_index);
        Ok(RingPtr::new(PoolId::XS, slot_index, generation))
    }

    /// Allocates the lowest free slot of the S pool and fills it with `data` as type `event_type`.
    pub fn allocate_s_event(&mut self, data: &[u8], event_type: u32) -> (r: Result<
        RingPtr<PooledEvent<256>>,
        AllocationError,
    >)
        requires
            old(self).well_formed(),
        ensures
            final(self).well_formed(),
            match r {
                Ok(ptr) => {
                    &&& data@.len() <= 256
                    &&& ptr.pool_id == PoolId::S
                    &&& ptr.generation == old(self).pools.meta(PoolId::S)[ptr.slot_index as int].generation
                    &&& final(self).pools.took_slot(
                        &old(self).pools,
                        PoolId::S,
                        ptr.slot_index as int,
                        data@,
                        event_type,
                    )
                },
                Err(AllocationError::EventCreation(msg)) => {
                    &&& data@.len() > 256
                    &&& msg@ == "Data too large for this pool size"@
                    &&& *final(self) == *old(self)
                },
                Err(AllocationError::PoolFull(pool)) => {
                    &&& pool == PoolId::S
                    &&& data@.len() <= 256
                    &&& old(self).pools.is_full(PoolId::S)
                    &&& *final(self) == *old(self)
                },
                Err(AllocationError::TooLarge { .. }) => false,
            },
    {
        let pooled_event = match Self::create_pooled_event::<256>(data, event_type) {
            Ok(e) => e,
            Err(e) => return Err(AllocationError::EventCreation(e)),
        };
        let slot_index = match self.find_available_slot(PoolId::S) {
            Some(i) => i,
            None => return Err(AllocationError::PoolFull(PoolId::S)),
        };
        let ghost claimed = self.pools;
        self.pools.place_s_event(pooled_event, slot_index);
        proof {
            crate::pool::lemma_claim_then_fill(
                old(self).pools,
                claimed,
                self.pools,
                PoolId::S,
                slot_index as int,
                old(self).pools.meta(PoolId::S)[slot_index as int].taken(),
            );
        }
        let generation = self.pools.get_generation(PoolId::S, slot_index);
        Ok(RingPtr::new(PoolId::S, slot_index, generation))
    }

    /// Allocates the lowest free slot of the M pool and fills it with `data` as type `event_type`.
    pub fn allocate_m_event(&mut self, data: &[u8], event_type: u32) -> (r: Result<
        RingPtr<PooledEvent<1024>>,
        AllocationError,
    >)
        requires
            old(self).well_formed(),
        ensures
            final(self).well_formed(),
            match r {
                Ok(ptr) => {
                    &&& data@.len() <= 1024
                    &&& ptr.pool_id == PoolId::M
                    &&& ptr.generation == old(self).pools.meta(PoolId::M)[ptr.slot_index as int].generation
                    &&& final(self).pools.took_slot(
                        &old(self).pools,
                        PoolId::M,
                        ptr.slot_index as int,
                        data@,
                        event_type,
                    )
                },
                Err(AllocationError::EventCreation(msg)) => {
                    &&& data@.len() > 1024
                    &&& msg@ == "Data too large for this pool size"@
                    &&& *final(self) == *old(self)
                },
                Err(AllocationError::PoolFull(pool)) => {
                    &&& pool == PoolId::M
                    &&& data@.len() <= 1024
                    &&& old(self).pools.is_full(PoolId::M)
                    &&& *final(self) == *old(self)
                },
                Err(AllocationError::TooLarge { .. }) => false,
            },
    {
        let pooled_event = match Self::create_pooled_event::<1024>(data, event_type) {
            Ok(e) => e,
            Err(e) => return Err(AllocationError::EventCreation(e)),
        };
        let slot_index = match self.find_available_slot(PoolId::M) {
            Some(i) => i,
            None => return Err(AllocationError::PoolFull(PoolId::M)),
        };
        let ghost claimed = self.pools;
        self.pools.place_m_event(pooled_event, slot_index);
        proof {
            crate::pool::lemma_claim_then_fill(
                old(self).pools,
                claimed,
                self.pools,
                PoolId::M,
                slot_index as int,
                old(self).pools.meta(PoolId::M)[slot_index as int].taken(),
            );
        }
        let generation = self.pools.get_generation(PoolId::M, slot_index);
        Ok(RingPtr::new(PoolId::M, slot_index, generation))
    }

    /// Allocates the lowest free slot of the L pool and fills it with `data` as type `event_type`.
    pub fn allocate_l_event(&mut self, data: &[u8], event_type: u32) -> (r: Result<
        RingPtr<PooledEvent<4096>>,
        AllocationError,
    >)
        requires
            old(self).well_formed(),
        ensures
            final(self).well_formed(),
            match r {
                Ok(ptr) => {
                    &&& data@.len() <= 4096
                    &&& ptr.pool_id == PoolId::L
                    &&& ptr.generation == old(self).pools.meta(PoolId::L)[ptr.slot_index as int].generation
                    &&& final(self).pools.took_slot(
                        &old(self).pools,
                        PoolId::L,
                        ptr.slot_index as int,
                        data@,
                        event_type,
                    )
                },
                Err(AllocationError::EventCreation(msg)) => {
                    &&& data@.len() > 4096
                    &&& msg@ == "Data too large for this pool size"@
                    &&& *final(self) == *old(self)
                },
                Err(AllocationError::PoolFull(pool)) => {
                    &&& pool == PoolId::L
                    &&& data@.len() <= 4096
                    &&& old(self).pools.is_full(PoolId::L)
                    &&& *final(self) == *old(self)
                },
                Err(AllocationError::TooLarge { .. }) => false,
            },
    {
        let pooled_event = match Self::create_pooled_event::<4096>(data, event_type) {
            Ok(e) => e,
            Err(e) => return Err(AllocationError::EventCreation(e)),
        };
        let slot_index = match self.find_available_slot(PoolId::L) {
            Some(i) => i,
            None => return Err(AllocationError::PoolFull(PoolId::L)),
        };
        let ghost claimed = self.pools;
        self.pools.place_l_event(pooled_event, slot_index);
        proof {
            crate::pool::lemma_claim_then_fill(
                old(self).pools,
                claimed,
                self.pools,
                PoolId::L,
                slot_index as int,
                old(self).pools.meta(PoolId::L)[slot_index as int].taken(),
            );
        }
        let generation = self.pools.get_generation(PoolId::L, slot_index);
        Ok(RingPtr::new(PoolId::L, slot_index, generation))
    }

    /// Allocates the lowest free slot of the XL pool and fills it with `data` as type `event_type`.
    pub fn allocate_xl_event(&mut self, data: &[u8], event_type: u32) -> (r: Result<
        RingPtr<PooledEvent<16384>>,
        AllocationError,
    >)
        requires
            old(self).well_formed(),
        ensures
            final(self).well_formed(),
            match r {
                Ok(ptr) => {
                    &&& data@.len() <= 16384
                    &&& ptr.pool_id == PoolId::XL
                    &&& ptr.generation == old(self).pools.meta(PoolId::XL)[ptr.slot_index as int].generation
                    &&& final(self).pools.took_slot(
                        &old(self).pools,
                        PoolId::XL,
                        ptr.slot_index as int,
                        data@,
                        event_type,
                    )
                },
                Err(AllocationError::EventCreation(msg)) => {
                    &&& data@.len() > 16384
                    &&& msg@ == "Data too large for this pool size"@
                    &&& *final(self) == *old(self)
                },
                Err(AllocationError::PoolFull(pool)) => {
                    &&& pool == PoolId::XL
                    &&& data@.len() <= 16384
                    &&& old(self).pools.is_full(PoolId::XL)
                    &&& *final(self) == *old(self)
                },
                Err(AllocationError::TooLarge { .. }) => false,
            },
    {
        let pooled_event = match Self::create_pooled_event::<16384>(data, event_type) {
            Ok(e) => e,
            Err(e) => return Err(AllocationError::EventCreation(e)),
        };
        let slot_index = match self.find_available_slot(PoolId::XL) {
            Some(i) => i,
            None => return Err(AllocationError::PoolFull(PoolId::XL)),
        };
        let ghost claimed = self.pools;
        self.pools.place_xl_event(pooled_event, slot_index);
        proof {
            crate::pool::lemma_claim_then_fill(
                old(self).pools,
                claimed,
                self.pools,
                PoolId::XL,
                slot_index as int,
                old(self).pools.meta(PoolId::XL)[slot_index as int].taken(),
            );
        }
        let generation = self.pools.get_generation(PoolId::XL, slot_index);
        Ok(RingPtr::new(PoolId::XL, slot_index, generation))
    }

    /// Allocates an event in the pool of the tightest size class for `data`.
    pub fn allocate_event(&mut self, data: &[u8], event_type: u32) -> (r: Result<AllocatedEvent, AllocationError>)
        requires
            old(self).well_formed(),
        ensures
            final(self).well_formed(),
            match r {
                Ok(ev) => {
                    &&& pool_for_len(data@.len() as int) == Some(ev.pool())
                    &&& ev.well_formed()
                    &&& ev.generation() == old(self).pools.meta(ev.pool())[ev.slot() as int].generation
                    &&& final(self).pools.took_slot(&old(self).pools, ev.pool(), ev.slot() as int, data@, event_type)
                },
                Err(AllocationError::TooLarge { data_len, max_size }) => {
                    &&& data@.len() > MAX_POOLED_SIZE
                    &&& data_len == data@.len()
                    &&& max_size == MAX_POOLED_SIZE
                    &&& *final(self) == *old(self)
                },
                Err(AllocationError::PoolFull(pool)) => {
                    &&& pool_for_len(data@.len() as int) == Some(pool)
                    &&& old(self).pools.is_full(pool)
                    &&& *final(self) == *old(self)
                },
                Err(AllocationError::EventCreation(_)) => false,
            },
    {
        let size = Self::estimate_size(data.len());
        match size {
            EventSize::XS => {
                let ring_ptr = self.allocate_xs_event(data, event_type)?;
                Ok(AllocatedEvent::Xs(ring_ptr))
            },
            EventSize::S => {
                let ring_ptr = self.allocate_s_event(data, event_type)?;
                Ok(AllocatedEvent::S(ring_ptr))
            },
            EventSize::M => {
                let ring_ptr = self.allocate_m_event(data, event_type)?;
                Ok(AllocatedEvent::M(ring_ptr))
            },
            EventSize::L => {
                let ring_ptr = self.allocate_l_event(data, event_type)?;
                Ok(AllocatedEvent::L(ring_ptr))
            },
            EventSize::XL => {
                let ring_ptr = self.allocate_xl_event(data, event_type)?;
                Ok(AllocatedEvent::Xl(ring_ptr))
            },
            EventSize::XXL => Err(AllocationError::TooLarge { data_len: data.len(), max_size: 16384 }),
        }
    }

    /// A further counted reference to the slot of `ptr`.
    pub fn retain<T>(&mut self, ptr: &RingPtr<T>) -> (copy: RingPtr<T>)
        requires
            old(self).well_formed(),
            ptr.slot_index < capacity_of(ptr.pool_id),
            old(self).pools.meta(ptr.pool_id)[ptr.slot_index as int].ref_count < u8::MAX,
        ensures
            copy.pool_id == ptr.pool_id,
            copy.slot_index == ptr.slot_index,
            copy.generation == ptr.generation,
            final(self).pools.meta_set(
                &old(self).pools,
                ptr.pool_id,
                ptr.slot_index as int,
                old(self).pools.meta(ptr.pool_id)[ptr.slot_index as int].retained(),
            ),
    {
        self.pools.inc_ref_count(ptr.pool_id, ptr.slot_index);
        RingPtr::new(ptr.pool_id, ptr.slot_index, ptr.generation)
    }

    /// Gives up the reference `ptr`; the last reference to a slot frees it for reuse.
    pub fn release<T>(&mut self, ptr: RingPtr<T>)
        requires
            old(self).well_formed(),
            ptr.slot_index < capacity_of(ptr.pool_id),
            old(self).pools.meta(ptr.pool_id)[ptr.slot_index as int].ref_count > 0,
        ensures
            final(self).pools.meta_set(
                &old(self).pools,
                ptr.pool_id,
                ptr.slot_index as int,
                old(self).pools.meta(ptr.pool_id)[ptr.slot_index as int].released(),
            ),
    {
        let remaining = self.pools.dec_ref_count(ptr.pool_id, ptr.slot_index);
        if remaining == 1 {
            let ghost dropped = self.pools;
            self.pools.mark_slot_reusable(ptr.pool_id, ptr.slot_index);
            proof {
                let m = old(self).pools.meta(ptr.pool_id)[ptr.slot_index as int];
                lemma_meta_set_twice(
                    old(self).pools,
                    dropped,
                    self.pools,
                    ptr.pool_id,
                    ptr.slot_index as int,
                    m.dropped_ref(),
                    m.dropped_ref().reusable(),
                );
            }
        }
    }
}


/// An allocated event, in the pool of its size class.
#[derive(Debug)]
pub enum AllocatedEvent {
    Xs(RingPtr<PooledEvent<64>>),
    S(RingPtr<PooledEvent<256>>),
    M(RingPtr<PooledEvent<1024>>),
    L(RingPtr<PooledEvent<4096>>),
    Xl(RingPtr<PooledEvent<16384>>),
}

impl AllocatedEvent {
    /// The pool of the variant.
    pub open spec fn pool(&self) -> PoolId {
        match self {
            AllocatedEvent::Xs(_) => PoolId::XS,
            AllocatedEvent::S(_) => PoolId::S,
            AllocatedEvent::M(_) => PoolId::M,
            AllocatedEvent::L(_) => PoolId::L,
            AllocatedEvent::Xl(_) => PoolId::XL,
        }
    }

    /// The pool recorded in the reference.
    pub open spec fn ptr_pool(&self) -> PoolId {
        match self {
            AllocatedEvent::Xs(p) => p.pool_id,
            AllocatedEvent::S(p) => p.pool_id,
            AllocatedEvent::M(p) => p.pool_id,
            AllocatedEvent::L(p) => p.pool_id,
            AllocatedEvent::Xl(p) => p.pool_id,
        }
    }

    pub open spec fn slot(&self) -> u32 {
        match self {
            AllocatedEvent::Xs(p) => p.slot_index,
            AllocatedEvent::S(p) => p.slot_index,
            AllocatedEvent::M(p) => p.slot_index,
            AllocatedEvent::L(p) => p.slot_index,
            AllocatedEvent::Xl(p) => p.slot_index,
        }
    }

    pub open spec fn generation(&self) -> u32 {
        match self {
            AllocatedEvent::Xs(p) => p.generation,
            AllocatedEvent::S(p) => p.generation,
            AllocatedEvent::M(p) => p.generation,
            AllocatedEvent::L(p) => p.generation,
            AllocatedEvent::Xl(p) => p.generation,
        }
    }

    /// The reference names the variant's pool and one of its slots.
    pub open spec fn well_formed(&self) -> bool {
        &&& self.ptr_pool() == self.pool()
        &&& self.slot() < capacity_of(self.pool())
    }

    /// The payload bytes in the event's slot.
    pub fn data<'a>(&self, allocator: &'a EventAllocator) -> (bytes: &'a [u8])
        requires
            allocator.well_formed(),
            self.slot() < capacity_of(self.pool()),
        ensures
            bytes@ == allocator.pools.payload(self.pool(), self.slot() as int),
    {
        match self {
            AllocatedEvent::Xs(ring_ptr) => {
                let e = allocator.pools.xs_event(ring_ptr.slot_index);
                &e.data[0..e.len as usize]
            },
            AllocatedEvent::S(ring_ptr) => {
                let e = allocator.pools.s_event(ring_ptr.slot_index);
                &e.data[0..e.len as usize]
            },
            AllocatedEvent::M(ring_ptr) => {
                let e = allocator.pools.m_event(ring_ptr.slot_index);
                &e.data[0..e.len as usize]
            },
            AllocatedEvent::L(ring_ptr) => {
                let e = allocator.pools.l_event(ring_ptr.slot_index);
                &e.data[0..e.len as usize]
            },
            AllocatedEvent::Xl(ring_ptr) => {
                let e = allocator.pools.xl_event(ring_ptr.slot_index);
                &e.data[0..e.len as usize]
            },
        }
    }

    /// The event type in the event's slot.
    pub fn event_type(&self, allocator: &EventAllocator) -> (t: u32)
        requires
            allocator.well_formed(),
            self.slot() < capacity_of(self.pool()),
        ensures
            t == allocator.pools.kind(self.pool(), self.slot() as int),
    {
        match self {
            AllocatedEvent::Xs(ring_ptr) => allocator.pools.xs_event(ring_ptr.slot_index).event_type,
            AllocatedEvent::S(ring_ptr) => allocator.pools.s_event(ring_ptr.slot_index).event_type,
            AllocatedEvent::M(ring_ptr) => allocator.pools.m_event(ring_ptr.slot_index).event_type,
            AllocatedEvent::L(ring_ptr) => allocator.pools.l_event(ring_ptr.slot_index).event_type,
            AllocatedEvent::Xl(ring_ptr) => allocator.pools.xl_event(ring_ptr.slot_index).event_type,
        }
    }

    /// The payload length in the event's slot.
    pub fn len(&self, allocator: &EventAllocator) -> (n: u32)
        requires
            allocator.well_formed(),
            self.slot() < capacity_of(self.pool()),
        ensures
            n == allocator.pools.length(self.pool(), self.slot() as int),
    {
        match self {
            AllocatedEvent::Xs(ring_ptr) => allocator.pools.xs_event(ring_ptr.slot_index).len,
            AllocatedEvent::S(ring_ptr) => allocator.pools.s_event(ring_ptr.slot_index).len,
            AllocatedEvent::M(ring_ptr) => allocator.pools.m_event(ring_ptr.slot_index).len,
            AllocatedEvent::L(ring_ptr) => allocator.pools.l_event(ring_ptr.slot_index).len,
            AllocatedEvent::Xl(ring_ptr) => allocator.pools.xl_event(ring_ptr.slot_index).len,
        }
    }

    pub fn pool_id(&self) -> (p: PoolId)
        ensures
            p == self.pool(),
    {
        match self {
            AllocatedEvent::Xs(_) => PoolId::XS,
            AllocatedEvent::S(_) => PoolId::S,
            AllocatedEvent::M(_) => PoolId::M,
            AllocatedEvent::L(_) => PoolId::L,
            AllocatedEvent::Xl(_) => PoolId::XL,
        }
    }

    /// The same reference, seen through the uniform pointer type.
    pub fn into_pooled_event_ptr(self) -> (p: PooledEventPtr)
        ensures
            p.pool() == self.pool(),
            p.ptr_pool() == self.ptr_pool(),
            p.slot() == self.slot(),
            p.generation() == self.generation(),
    {
        match self {
            AllocatedEvent::Xs(ring_ptr) => PooledEventPtr::Xs(ring_ptr),
            AllocatedEvent::S(ring_ptr) => PooledEventPtr::S(ring_ptr),
            AllocatedEvent::M(ring_ptr) => PooledEventPtr::M(ring_ptr),
            AllocatedEvent::L(ring_ptr) => PooledEventPtr::L(ring_ptr),
            AllocatedEvent::Xl(ring_ptr) => PooledEventPtr::Xl(ring_ptr),
        }
    }

    /// A further counted reference to the same slot.
    pub fn retain(&self, allocator: &mut EventAllocator) -> (copy: AllocatedEvent)
        requires
            old(allocator).well_formed(),
            self.well_formed(),
            old(allocator).pools.meta(self.pool())[self.slot() as int].ref_count < u8::MAX,
        ensures
            copy.pool() == self.pool(),
            copy.ptr_pool() == self.ptr_pool(),
            copy.slot() == self.slot(),
            copy.generation() == self.generation(),
            final(allocator).pools.meta_set(
                &old(allocator).pools,
                self.pool(),
                self.slot() as int,
                old(allocator).pools.meta(self.pool())[self.slot() as int].retained(),
            ),
    {
        match self {
            AllocatedEvent::Xs(ring_ptr) => AllocatedEvent::Xs(allocator.retain(ring_ptr)),
            AllocatedEvent::S(ring_ptr) => AllocatedEvent::S(allocator.retain(ring_ptr)),
            AllocatedEvent::M(ring_ptr) => AllocatedEvent::M(allocator.retain(ring_ptr)),
            AllocatedEvent::L(ring_ptr) => AllocatedEvent::L(allocator.retain(ring_ptr)),
            AllocatedEvent::Xl(ring_ptr) => AllocatedEvent::Xl(allocator.retain(ring_ptr)),
        }
    }

    /// Gives up this reference; the last reference to a slot frees it for reuse.
    pub fn release(self, allocator: &mut EventAllocator)
        requires
            old(allocator).well_formed(),
            self.well_formed(),
            old(allocator).pools.meta(self.pool())[self.slot() as int].ref_count > 0,
        ensures
            final(allocator).pools.meta_set(
                &old(allocator).pools,
                self.pool(),
                self.slot() as int,
                old(allocator).pools.meta(self.pool())[self.slot() as int].released(),
            ),
    {
        match self {
            AllocatedEvent::Xs(ring_ptr) => allocator.release(ring_ptr),
            AllocatedEvent::S(ring_ptr) => allocator.release(ring_ptr),
            AllocatedEvent::M(ring_ptr) => allocator.release(ring_ptr),
            AllocatedEvent::L(ring_ptr) => allocator.release(ring_ptr),
            AllocatedEvent::Xl(ring_ptr) => allocator.release(ring_ptr),
        }
    }
}

} // verus!
