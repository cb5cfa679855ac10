use core::marker::PhantomData;
use vstd::prelude::*;

use crate::pool::PoolId;

verus! {

/// A counted reference to slot `slot_index` of pool `pool_id`, taken at `generation`.
/// Holders are counted in the slot's bookkeeping; copies are made and dropped through
/// `EventAllocator::retain` and `EventAllocator::release`.
#[derive(Debug)]
pub struct RingPtr<T> {
    pub pool_id: PoolId,
    pub slot_index: u32,
    /// The slot's generation when the reference was taken.
    pub generation: u32,
    pub _phantom: PhantomData<T>,
}

impl<T> RingPtr<T> {
    pub fn new(pool_id: PoolId, slot_index: u32, generation: u32) -> (p: Self)
        ensures
            p.pool_id == pool_id,
            p.slot_index == slot_index,
            p.generation == generation,
    {
        RingPtr { pool_id, slot_index, generation, _phantom: PhantomData }
    }
}

} // verus!
