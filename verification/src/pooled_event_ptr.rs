use vstd::prelude::*;

use crate::allocator::EventAllocator;
use crate::pool::{capacity_of, PoolId};
use crate::ring::PooledEvent;
use crate::ring_ptr::RingPtr;

verus! {

/// A counted reference to a pooled event of any size class.
#[derive(Debug)]
pub enum PooledEventPtr {
    Xs(RingPtr<PooledEvent<64>>),
    S(RingPtr<PooledEvent<256>>),
    M(RingPtr<PooledEvent<1024>>),
    L(RingPtr<PooledEvent<4096>>),
    Xl(RingPtr<PooledEvent<16384>>),
}

impl PooledEventPtr {
    /// The pool of the variant.
    pub open spec fn pool(&self) -> PoolId {
        match self {
            PooledEventPtr::Xs(_) => PoolId::XS,
            PooledEventPtr::S(_) => PoolId::S,
            PooledEventPtr::M(_) => PoolId::M,
            PooledEventPtr::L(_) => PoolId::L,
            PooledEventPtr::Xl(_) => PoolId::XL,
        }
    }

    /// The pool recorded in the reference.
    pub open spec fn ptr_pool(&self) -> PoolId {
        match self {
            PooledEventPtr::Xs(p) => p.pool_id,
            PooledEventPtr::S(p) => p.pool_id,
            PooledEventPtr::M(p) => p.pool_id,
            PooledEventPtr::L(p) => p.pool_id,
            PooledEventPtr::Xl(p) => p.pool_id,
        }
    }

    pub open spec fn slot(&self) -> u32 {
        match self {
            PooledEventPtr::Xs(p) => p.slot_index,
            PooledEventPtr::S(p) => p.slot_index,
            PooledEventPtr::M(p) => p.slot_index,
            PooledEventPtr::L(p) => p.slot_index,
            PooledEventPtr::Xl(p) => p.slot_index,
        }
    }

    pub open spec fn generation(&self) -> u32 {
        match self {
            PooledEventPtr::Xs(p) => p.generation,
            PooledEventPtr::S(p) => p.generation,
            PooledEventPtr::M(p) => p.generation,
            PooledEventPtr::L(p) => p.generation,
            PooledEventPtr::Xl(p) => p.generation,
        }
    }

    /// The reference names the variant's pool and one of its slots.
    pub open spec fn well_formed(&self) -> bool {
        &&& self.ptr_pool() == self.pool()
        &&& self.slot() < capacity_of(self.pool())
    }

    /// The payload bytes in the event's slot.
    pub fn data<'a>(&self, allocator: &'a EventAllocator) -> (bytes: &'a [u8])
        requires
            allocator.well_formed(),
            self.slot() < capacity_of(self.pool()),
        ensures
            bytes@ == allocator.pools.payload(self.pool(), self.slot() as int),
    {
        match self {
            PooledEventPtr::Xs(ptr) => {
                let e = allocator.pools.xs_event(ptr.slot_index);
                &e.data[0..e.len as usize]
            },
            PooledEventPtr::S(ptr) => {
                let e = allocator.pools.s_event(ptr.slot_index);
                &e.data[0..e.len as usize]
            },
            PooledEventPtr::M(ptr) => {
                let e = allocator.pools.m_event(ptr.slot_index);
                &e.data[0..e.len as usize]
            },
            PooledEventPtr::L(ptr) => {
                let e = allocator.pools.l_event(ptr.slot_index);
                &e.data[0..e.len as usize]
            },
            PooledEventPtr::Xl(ptr) => {
                let e = allocator.pools.xl_event(ptr.slot_index);
                &e.data[0..e.len as usize]
            },
        }
    }

    /// The event type in the event's slot, cut to its low byte.
    pub fn event_type(&self, allocator: &EventAllocator) -> (t: u8)
        requires
            allocator.well_formed(),
            self.slot() < capacity_of(self.pool()),
        ensures
            t == allocator.pools.kind(self.pool(), self.slot() as int) as u8,
    {
        match self {
            PooledEventPtr::Xs(ptr) => allocator.pools.xs_event(ptr.slot_index).event_type as u8,
            PooledEventPtr::S(ptr) => allocator.pools.s_event(ptr.slot_index).event_type as u8,
            PooledEventPtr::M(ptr) => allocator.pools.m_event(ptr.slot_index).event_type as u8,
            PooledEventPtr::L(ptr) => allocator.pools.l_event(ptr.slot_index).event_type as u8,
            PooledEventPtr::Xl(ptr) => allocator.pools.xl_event(ptr.slot_index).event_type as u8,
        }
    }

    /// The payload length in the event's slot.
    pub fn len(&self, allocator: &EventAllocator) -> (n: u32)
        requires
            allocator.well_formed(),
            self.slot() < capacity_of(self.pool()),
        ensures
            n == allocator.pools.length(self.pool(), self.slot() as int),
    {
        match self {
            PooledEventPtr::Xs(ptr) => allocator.pools.xs_event(ptr.slot_index).len,
            PooledEventPtr::S(ptr) => allocator.pools.s_event(ptr.slot_index).len,
            PooledEventPtr::M(ptr) => allocator.pools.m_event(ptr.slot_index).len,
            PooledEventPtr::L(ptr) => allocator.pools.l_event(ptr.slot_index).len,
            PooledEventPtr::Xl(ptr) => allocator.pools.xl_event(ptr.slot_index).len,
        }
    }

    pub fn slot_index(&self) -> (i: u32)
        ensures
            i == self.slot(),
    {
        match self {
            PooledEventPtr::Xs(ptr) => ptr.slot_index,
            PooledEventPtr::S(ptr) => ptr.slot_index,
            PooledEventPtr::M(ptr) => ptr.slot_index,
            PooledEventPtr::L(ptr) => ptr.slot_index,
            PooledEventPtr::Xl(ptr) => ptr.slot_index,
        }
    }

    /// The pool recorded in the reference.
    pub fn pool_id(&self) -> (p: PoolId)
        ensures
            p == self.ptr_pool(),
    {
        match self {
            PooledEventPtr::Xs(ptr) => ptr.pool_id,
            PooledEventPtr::S(ptr) => ptr.pool_id,
            PooledEventPtr::M(ptr) => ptr.pool_id,
            PooledEventPtr::L(ptr) => ptr.pool_id,
            PooledEventPtr::Xl(ptr) => ptr.pool_id,
        }
    }

    /// A further counted reference to the same slot.
    pub fn retain(&self, allocator: &mut EventAllocator) -> (copy: PooledEventPtr)
        requires
            old(allocator).well_formed(),
            self.well_formed(),
            old(allocator).pools.meta(self.pool())[self.slot() as int].ref_count < u8::MAX,
        ensures
            copy.pool() == self.pool(),
            copy.ptr_pool() == self.ptr_pool(),
            copy.slot() == self.slot(),
            copy.generation() == self.generation(),
            final(allocator).pools.meta_set(
                &old(allocator).pools,
                self.pool(),
                self.slot() as int,
                old(allocator).pools.meta(self.pool())[self.slot() as int].retained(),
            ),
    {
        match self {
            PooledEventPtr::Xs(ptr) => PooledEventPtr::Xs(allocator.retain(ptr)),
            PooledEventPtr::S(ptr) => PooledEventPtr::S(allocator.retain(ptr)),
            PooledEventPtr::M(ptr) => PooledEventPtr::M(allocator.retain(ptr)),
            PooledEventPtr::L(ptr) => PooledEventPtr::L(allocator.retain(ptr)),
            PooledEventPtr::Xl(ptr) => PooledEventPtr::Xl(allocator.retain(ptr)),
        }
    }

    /// Gives up this reference; the last reference to a slot frees it for reuse.
    pub fn release(self, allocator: &mut EventAllocator)
        requires
            old(allocator).well_formed(),
            self.well_formed(),
            old(allocator).pools.meta(self.pool())[self.slot() as int].ref_count > 0,
        ensures
            final(allocator).pools.meta_set(
                &old(allocator).pools,
                self.pool(),
                self.slot() as int,
                old(allocator).pools.meta(self.pool())[self.slot() as int].released(),
            ),
    {
        match self {
            PooledEventPtr::Xs(ptr) => allocator.release(ptr),
            PooledEventPtr::S(ptr) => allocator.release(ptr),
            PooledEventPtr::M(ptr) => allocator.release(ptr),
            PooledEventPtr::L(ptr) => allocator.release(ptr),
            PooledEventPtr::Xl(ptr) => allocator.release(ptr),
        }
    }
}

} // verus!
