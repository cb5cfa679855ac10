use vstd::prelude::*;

use crate::ring::{count_allocated, lemma_count_allocated_update, slot_taken_pred, lemma_held_bytes_read_back, next_generation, EventSize, PooledEvent, Reader, RingBuffer, SlotMetadata, Writer, MAX_STACK_BYTES};

verus! {

pub const XS_CAPACITY: usize = 2000;
pub const S_CAPACITY: usize = 1000;
pub const M_CAPACITY: usize = 300;
pub const L_CAPACITY: usize = 60;
pub const XL_CAPACITY: usize = 15;

/// Largest payload any pool takes.
pub const MAX_POOLED_SIZE: usize = 16384;

/// The pools, one per bounded event size.
#[derive(Debug, Clone, Copy, PartialEq, Eq, Structural)]
pub enum PoolId {
    XS,
    S,
    M,
    L,
    XL,
}

/// The size class of a payload of `len` bytes.
pub open spec fn size_for_len(len: int) -> EventSize {
    if len <= 64 {
        EventSize::XS
    } else if len <= 256 {
        EventSize::S
    } else if len <= 1024 {
        EventSize::M
    } else if len <= 4096 {
        EventSize::L
    } else if len <= 16384 {
        EventSize::XL
    } else {
        EventSize::XXL
    }
}

/// The pool serving a bounded size class.
pub open spec fn pool_of_size(size: EventSize) -> PoolId
    recommends
        size != EventSize::XXL,
{
    match size {
        EventSize::XS => PoolId::XS,
        EventSize::S => PoolId::S,
        EventSize::M => PoolId::M,
        EventSize::L => PoolId::L,
        _ => PoolId::XL,
    }
}

/// The pool that takes a payload of `len` bytes, if any does.
pub open spec fn pool_for_len(len: int) -> Option<PoolId> {
    if size_for_len(len) == EventSize::XXL {
        None
    } else {
        Some(pool_of_size(size_for_len(len)))
    }
}

/// Largest payload of each pool.
pub open spec fn max_size_of(pool: PoolId) -> int {
    match pool {
        PoolId::XS => 64,
        PoolId::S => 256,
        PoolId::M => 1024,
        PoolId::L => 4096,
        PoolId::XL => 16384,
    }
}

/// Number of slots of each pool.
pub open spec fn capacity_of(pool: PoolId) -> int {
    match pool {
        PoolId::XS => XS_CAPACITY as int,
        PoolId::S => S_CAPACITY as int,
        PoolId::M => M_CAPACITY as int,
        PoolId::L => L_CAPACITY as int,
        PoolId::XL => XL_CAPACITY as int,
    }
}

/// The number each pool is known by.
pub open spec fn pool_number(pool: PoolId) -> u8 {
    match pool {
        PoolId::XS => 0,
        PoolId::S => 1,
        PoolId::M => 2,
        PoolId::L => 3,
        PoolId::XL => 4,
    }
}

impl PoolId {
    /// The pool for a bounded size class.
    pub fn from_size(size: EventSize) -> (p: PoolId)
        requires
            size != EventSize::XXL,
        ensures
            p == pool_of_size(size),
    {
        match size {
            EventSize::XS => PoolId::XS,
            EventSize::S => PoolId::S,
            EventSize::M => PoolId::M,
            EventSize::L => PoolId::L,
            _ => PoolId::XL,
        }
    }

    pub fn max_size(&self) -> (n: usize)
        ensures
            n == max_size_of(*self),
    {
        match self {
            PoolId::XS => 64,
            PoolId::S => 256,
            PoolId::M => 1024,
            PoolId::L => 4096,
            PoolId::XL => 16384,
        }
    }

    pub fn capacity(&self) -> (n: usize)
        ensures
            n == capacity_of(*self),
    {
        match self {
            PoolId::XS => XS_CAPACITY,
            PoolId::S => S_CAPACITY,
            PoolId::M => M_CAPACITY,
            PoolId::L => L_CAPACITY,
            PoolId::XL => XL_CAPACITY,
        }
    }

    /// The pool known by `value`; only 0 to 4 name a pool.
    pub fn from_u8(value: u8) -> (p: PoolId)
        requires
            value <= 4,
        ensures
            p == pool_named(value),
            pool_number(p) == value,
    {
        match value {
            0 => PoolId::XS,
            1 => PoolId::S,
            2 => PoolId::M,
            3 => PoolId::L,
            _ => PoolId::XL,
        }
    }
}

impl From<PoolId> for u8 {
    fn from(value: PoolId) -> (n: u8) {
        match value {
            PoolId::XS => 0,
            PoolId::S => 1,
            PoolId::M => 2,
            PoolId::L => 3,
            PoolId::XL => 4,
        }
    }
}

impl vstd::std_specs::convert::FromSpecImpl<PoolId> for u8 {
    open spec fn obeys_from_spec() -> bool {
        true
    }

    open spec fn from_spec(v: PoolId) -> u8 {
        pool_number(v)
    }
}

/// The pool that number `value` (0 to 4) names.
pub open spec fn pool_named(value: u8) -> PoolId
    recommends
        value <= 4,
{
    match value {
        0 => PoolId::XS,
        1 => PoolId::S,
        2 => PoolId::M,
        3 => PoolId::L,
        _ => PoolId::XL,
    }
}

/// Pool numbers and pools convert back and forth: `from_u8(u8::from(p)) == p` for every pool,
/// and `u8::from(from_u8(v)) == v` for every `v` from 0 to 4 (larger numbers name no pool).
pub proof fn lemma_pool_number_round_trip(pool: PoolId, value: u8)
    ensures
        pool_number(pool) <= 4,
        <u8 as vstd::std_specs::convert::FromSpec<PoolId>>::from_spec(pool) == pool_number(pool),
        pool_named(pool_number(pool)) == pool,
        value <= 4 ==> pool_number(pool_named(value)) == value,
        forall|q: PoolId| pool_number(q) == pool_number(pool) ==> q == pool,
{
}

/// The pool chosen for a payload of `len` bytes has room for it, and no smaller pool has;
/// payloads above the largest pool get no pool.
pub proof fn lemma_pool_choice_is_tightest(len: int)
    requires
        0 <= len,
    ensures
        pool_for_len(len) is None <==> len > MAX_POOLED_SIZE,
        pool_for_len(len) matches Some(p) ==> len <= max_size_of(p)
            && forall|q: PoolId| max_size_of(q) < max_size_of(p) ==> max_size_of(q) < len,
{
}

/// Size classes are ordered like payload lengths: a longer payload never gets a smaller pool.
pub proof fn lemma_pool_choice_is_monotone(a: int, b: int)
    requires
        0 <= a <= b <= MAX_POOLED_SIZE,
    ensures
        max_size_of(pool_for_len(a)->0) <= max_size_of(pool_for_len(b)->0),
{
}

/// Pools are numbered in the order of their sizes, from 0 for the smallest to 4 for the largest.
pub proof fn lemma_pool_numbers_follow_size_order(p: PoolId, q: PoolId)
    ensures
        pool_number(p) <= 4,
        max_size_of(p) < max_size_of(q) <==> pool_number(p) < pool_number(q),
        pool_number(p) == 0 <==> max_size_of(p) == 64,
        pool_number(p) == 4 <==> max_size_of(p) == MAX_POOLED_SIZE,
{
}

/// An auto-sized event built from `bytes` and `event_type`, in the size class `bytes` needs,
/// reads back exactly `bytes` as payload, `bytes.len()` as length (empty exactly when `bytes` is)
/// and `event_type` as type, whatever its size class.
pub proof fn lemma_auto_sized_event_reads_back(e: AutoSizedEvent, bytes: Seq<u8>, event_type: u32)
    requires
        Some(e.pool()) == pool_for_len(bytes.len() as int),
        e.holds(bytes, event_type),
    ensures
        e.payload() == bytes,
        e.length() == bytes.len(),
        (e.length() == 0) == (bytes.len() == 0),
        e.kind() == event_type,
        e.well_formed(),
{
    match e {
        AutoSizedEvent::Xs(x) => lemma_held_bytes_read_back(x, bytes, event_type),
        AutoSizedEvent::S(x) => lemma_held_bytes_read_back(x, bytes, event_type),
        AutoSizedEvent::M(x) => lemma_held_bytes_read_back(x, bytes, event_type),
        AutoSizedEvent::L(x) => lemma_held_bytes_read_back(x, bytes, event_type),
        AutoSizedEvent::Xl(x) => lemma_held_bytes_read_back(x, bytes, event_type),
    }
}

/// Handing out a free slot raises its pool's allocated count by one.
pub proof fn lemma_allocation_raises_count(
    before: EventPools,
    after: EventPools,
    pool: PoolId,
    i: int,
    bytes: Seq<u8>,
    event_type: u32,
)
    requires
        before.well_formed(),
        after.took_slot(&before, pool, i, bytes, event_type),
    ensures
        count_allocated(after.meta(pool)) == count_allocated(before.meta(pool)) + 1,
{
    lemma_count_allocated_update(before.meta(pool), i, before.meta(pool)[i].taken());
}

/// Taking or giving back a reference to a slot that stays taken leaves the allocated count alone.
pub proof fn lemma_holder_change_keeps_count(before: EventPools, after: EventPools, pool: PoolId, i: int, m: SlotMetadata)
    requires
        before.well_formed(),
        0 <= i < capacity_of(pool),
        after.meta_set(&before, pool, i, m),
        !before.meta(pool)[i].is_free(),
        !m.is_free(),
    ensures
        count_allocated(after.meta(pool)) == count_allocated(before.meta(pool)),
{
    lemma_count_allocated_update(before.meta(pool), i, m);
}

/// Failure to build an event from a payload.
#[derive(Debug, Clone, Copy, PartialEq, Eq, Structural)]
pub enum EventCreationError {
    DataTooLarge { data_len: usize, max_size: usize },
}

/// Failure to publish an event to its ring.
#[derive(Debug, Clone, Copy, PartialEq, Eq, Structural)]
pub enum EmitError {
    RingFull(PoolId),
}

/// A ring that is created on first use.
pub open spec fn lazy_ring_ready<const T: usize, const C: usize>(
    before: Option<RingBuffer<T, C>>,
    after: Option<RingBuffer<T, C>>,
) -> bool {
    match before {
        Some(_) => after == before,
        None => after matches Some(r) && r.is_fresh(),
    }
}

/// A lazily created ring, present or not, is well formed.
pub open spec fn lazy_ring_ok<const T: usize, const C: usize>(ring: Option<RingBuffer<T, C>>) -> bool {
    ring matches Some(r) ==> r.well_formed()
}

/// The next event can be published into a lazily created ring.
pub open spec fn lazy_ring_open<const T: usize, const C: usize>(ring: Option<RingBuffer<T, C>>) -> bool {
    ring matches Some(r) ==> r.published_sequence < usize::MAX
}

/// `after` is `before` (created if absent) with `e` published.
pub open spec fn lazy_ring_published<const T: usize, const C: usize>(
    before: Option<RingBuffer<T, C>>,
    after: Option<RingBuffer<T, C>>,
    e: PooledEvent<T>,
) -> bool {
    match before {
        Some(b) => after matches Some(a) && a.publishes(&b, e),
        None => after matches Some(a) && a.fresh_with_one(e),
    }
}

/// The five size-class rings, each created on first use.
pub struct EventRings {
    pub xs: Option<RingBuffer<64, XS_CAPACITY>>,
    pub s: Option<RingBuffer<256, S_CAPACITY>>,
    pub m: Option<RingBuffer<1024, M_CAPACITY>>,
    pub l: Option<RingBuffer<4096, L_CAPACITY>>,
    pub xl: Option<RingBuffer<16384, XL_CAPACITY>>,
}

impl EventRings {
    /// No ring created yet.
    pub fn new() -> (rings: Self)
        ensures
            rings.xs is None && rings.s is None && rings.m is None && rings.l is None && rings.xl is None,
            rings.well_formed(),
    {
        EventRings { xs: None, s: None, m: None, l: None, xl: None }
    }

    pub open spec fn well_formed(&self) -> bool {
        &&& lazy_ring_ok(self.xs)
        &&& lazy_ring_ok(self.s)
        &&& lazy_ring_ok(self.m)
        &&& lazy_ring_ok(self.l)
        &&& lazy_ring_ok(self.xl)
    }

    /// The ring of `pool` can take one more event.
    pub open spec fn can_publish(&self, pool: PoolId) -> bool {
        match pool {
            PoolId::XS => lazy_ring_open(self.xs),
            PoolId::S => lazy_ring_open(self.s),
            PoolId::M => lazy_ring_open(self.m),
            PoolId::L => lazy_ring_open(self.l),
            PoolId::XL => lazy_ring_open(self.xl),
        }
    }

    /// `self` and `other` agree on the ring of `pool`.
    pub open spec fn same_ring(&self, other: &Self, pool: PoolId) -> bool {
        match pool {
            PoolId::XS => self.xs == other.xs,
            PoolId::S => self.s == other.s,
            PoolId::M => self.m == other.m,
            PoolId::L => self.l == other.l,
            PoolId::XL => self.xl == other.xl,
        }
    }

    /// `self` and `other` agree on every ring but that of `pool`.
    pub open spec fn same_except(&self, other: &Self, pool: PoolId) -> bool {
        forall|q: PoolId| q != pool ==> #[trigger] self.same_ring(other, q)
    }
}

/// Writers and readers of lazily created rings.
pub struct RingFactory;

impl RingFactory {
    /// A writer for `ring`, creating the ring if it does not exist yet.
    pub fn get_writer<const TSHIRT_SIZE: usize, const RING_CAPACITY: usize>(
        ring: &mut Option<RingBuffer<TSHIRT_SIZE, RING_CAPACITY>>,
    ) -> (w: Writer<TSHIRT_SIZE, RING_CAPACITY>)
        requires
            TSHIRT_SIZE * RING_CAPACITY <= MAX_STACK_BYTES,
        ensures
            lazy_ring_ready(*old(ring), *final(ring)),
    {
        if ring.is_none() {
            *ring = Some(RingBuffer::new());
        }
        Writer::new()
    }

    /// A reader at the start of `ring`, creating the ring if it does not exist yet.
    pub fn get_reader<const TSHIRT_SIZE: usize, const RING_CAPACITY: usize>(
        ring: &mut Option<RingBuffer<TSHIRT_SIZE, RING_CAPACITY>>,
    ) -> (r: Reader<TSHIRT_SIZE, RING_CAPACITY>)
        requires
            TSHIRT_SIZE * RING_CAPACITY <= MAX_STACK_BYTES,
        ensures
            lazy_ring_ready(*old(ring), *final(ring)),
            r.cursor == 0,
    {
        if ring.is_none() {
            *ring = Some(RingBuffer::new());
        }
        Reader::new()
    }

    /// Publishes `e` into `ring`, creating the ring first if needed; `false` if the ring refused it.
    fn publish<const TSHIRT_SIZE: usize, const RING_CAPACITY: usize>(
        ring: &mut Option<RingBuffer<TSHIRT_SIZE, RING_CAPACITY>>,
        e: PooledEvent<TSHIRT_SIZE>,
    ) -> (ok: bool)
        requires
            TSHIRT_SIZE * RING_CAPACITY <= MAX_STACK_BYTES,
            0 < RING_CAPACITY,
            lazy_ring_ok(*old(ring)),
            lazy_ring_open(*old(ring)),
        ensures
            ok,
            lazy_ring_published(*old(ring), *final(ring), e),
    {
        let ghost before = *old(ring);
        let mut writer = Self::get_writer(ring);
        let ghost ready = *ring;
        let ok = match ring {
            Some(r) => writer.add(r, e),
            None => false,
        };
        proof {
            // a fresh ring takes its first event in slot 0
            assert(0int % (RING_CAPACITY as int) == 0);
            if before is None {
                assert(forall|i: int|
                    1 <= i < RING_CAPACITY ==> #[trigger] ring->0.data@[i] == ready->0.data@[i]);
            }
        }
        ok
    }
}

/// Typed access to the five size-class rings.
pub struct EventPoolFactory;

impl EventPoolFactory {
    pub fn get_xs_writer(rings: &mut EventRings) -> (w: Writer<64, XS_CAPACITY>)
        ensures
            lazy_ring_ready(old(rings).xs, final(rings).xs),
            final(rings).same_except(&*old(rings), PoolId::XS),
    {
        RingFactory::get_writer(&mut rings.xs)
    }

    pub fn get_s_writer(rings: &mut EventRings) -> (w: Writer<256, S_CAPACITY>)
        ensures
            lazy_ring_ready(old(rings).s, final(rings).s),
            final(rings).same_except(&*old(rings), PoolId::S),
    {
        RingFactory::get_writer(&mut rings.s)
    }

    pub fn get_m_writer(rings: &mut EventRings) -> (w: Writer<1024, M_CAPACITY>)
        ensures
            lazy_ring_ready(old(rings).m, final(rings).m),
            final(rings).same_except(&*old(rings), PoolId::M),
    {
        RingFactory::get_writer(&mut rings.m)
    }

    pub fn get_l_writer(rings: &mut EventRings) -> (w: Writer<4096, L_CAPACITY>)
        ensures
            lazy_ring_ready(old(rings).l, final(rings).l),
            final(rings).same_except(&*old(rings), PoolId::L),
    {
        RingFactory::get_writer(&mut rings.l)
    }

    pub fn get_xl_writer(rings: &mut EventRings) -> (w: Writer<16384, XL_CAPACITY>)
        ensures
            lazy_ring_ready(old(rings).xl, final(rings).xl),
            final(rings).same_except(&*old(rings), PoolId::XL),
    {
        RingFactory::get_writer(&mut rings.xl)
    }

    pub fn get_xs_reader(rings: &mut EventRings) -> (r: Reader<64, XS_CAPACITY>)
        ensures
            lazy_ring_ready(old(rings).xs, final(rings).xs),
            final(rings).same_except(&*old(rings), PoolId::XS),
            r.cursor == 0,
    {
        RingFactory::get_reader(&mut rings.xs)
    }

    pub fn get_s_reader(rings: &mut EventRings) -> (r: Reader<256, S_CAPACITY>)
        ensures
            lazy_ring_ready(old(rings).s, final(rings).s),
            final(rings).same_except(&*old(rings), PoolId::S),
            r.cursor == 0,
    {
        RingFactory::get_reader(&mut rings.s)
    }

    pub fn get_m_reader(rings: &mut EventRings) -> (r: Reader<1024, M_CAPACITY>)
        ensures
            lazy_ring_ready(old(rings).m, final(rings).m),
            final(rings).same_except(&*old(rings), PoolId::M),
            r.cursor == 0,
    {
        RingFactory::get_reader(&mut rings.m)
    }

    pub fn get_l_reader(rings: &mut EventRings) -> (r: Reader<4096, L_CAPACITY>)
        ensures
            lazy_ring_ready(old(rings).l, final(rings).l),
            final(rings).same_except(&*old(rings), PoolId::L),
            r.cursor == 0,
    {
        RingFactory::get_reader(&mut rings.l)
    }

    pub fn get_xl_reader(rings: &mut EventRings) -> (r: Reader<16384, XL_CAPACITY>)
        ensures
            lazy_ring_ready(old(rings).xl, final(rings).xl),
            final(rings).same_except(&*old(rings), PoolId::XL),
            r.cursor == 0,
    {
        RingFactory::get_reader(&mut rings.xl)
    }

    /// The size class of a payload of `data_len` bytes.
    pub fn estimate_size(data_len: usize) -> (size: EventSize)
        ensures
            size == size_for_len(data_len as int),
    {
        if data_len <= 64 {
            EventSize::XS
        } else if data_len <= 256 {
            EventSize::S
        } else if data_len <= 1024 {
            EventSize::M
        } else if data_len <= 4096 {
            EventSize::L
        } else if data_len <= 16384 {
            EventSize::XL
        } else {
            EventSize::XXL
        }
    }

    /// The pool for a payload of `data_len` bytes, or `None` when it fits no pool.
    pub fn estimate_pool_id(data_len: usize) -> (pool: Option<PoolId>)
        ensures
            pool == pool_for_len(data_len as int),
    {
        let size = Self::estimate_size(data_len);
        if size == EventSize::XXL {
            None
        } else {
            Some(PoolId::from_size(size))
        }
    }
}

/// Building events from payloads.
pub struct EventUtils;

impl EventUtils {
    /// An event of capacity `SIZE` carrying `data`, or `DataTooLarge` when `data` does not fit.
    pub fn create_pooled_event<const SIZE: usize>(data: &[u8], event_type: u32) -> (r: Result<
        PooledEvent<SIZE>,
        EventCreationError,
    >)
        ensures
            r is Err <==> data@.len() > SIZE,
            r matches Ok(e) ==> e.holds(data@, event_type) && e.well_formed(),
            r matches Err(EventCreationError::DataTooLarge { data_len, max_size }) ==> data_len == data@.len()
                && max_size == SIZE,
    {
        if data.len() > SIZE {
            return Err(EventCreationError::DataTooLarge { data_len: data.len(), max_size: SIZE });
        }
        Ok(PooledEvent::fill(data, event_type))
    }

    /// An event of the tightest size class for `data`, or `DataTooLarge` above the largest class.
    pub fn create_auto_sized_event(data: &[u8], event_type: u32) -> (r: Result<AutoSizedEvent, EventCreationError>)
        ensures
            r is Err <==> data@.len() > MAX_POOLED_SIZE,
            r matches Ok(e) ==> Some(e.pool()) == pool_for_len(data@.len() as int) && e.holds(data@, event_type)
                && e.well_formed(),
            r matches Ok(e) ==> e.payload() == data@ && e.length() == data@.len() && e.kind() == event_type,
            r matches Err(EventCreationError::DataTooLarge { data_len, max_size }) ==> data_len == data@.len()
                && max_size == MAX_POOLED_SIZE,
    {
        let size = EventPoolFactory::estimate_size(data.len());
        let r = match size {
            EventSize::XS => {
                let event = Self::create_pooled_event::<64>(data, event_type)?;
                Ok(AutoSizedEvent::Xs(event))
            },
            EventSize::S => {
                let event = Self::create_pooled_event::<256>(data, event_type)?;
                Ok(AutoSizedEvent::S(event))
            },
            EventSize::M => {
                let event = Self::create_pooled_event::<1024>(data, event_type)?;
                Ok(AutoSizedEvent::M(event))
            },
            EventSize::L => {
                let event = Self::create_pooled_event::<4096>(data, event_type)?;
                Ok(AutoSizedEvent::L(event))
            },
            EventSize::XL => {
                let event = Self::create_pooled_event::<16384>(data, event_type)?;
                Ok(AutoSizedEvent::Xl(event))
            },
            EventSize::XXL => Err(EventCreationError::DataTooLarge { data_len: data.len(), max_size: 16384 }),
        };
        proof {
            if let Ok(e) = r {
                lemma_auto_sized_event_reads_back(e, data@, event_type);
            }
        }
        r
    }
}

/// An event in the size class that its payload needs.
#[derive(Debug, Clone, Copy)]
pub enum AutoSizedEvent {
    Xs(PooledEvent<64>),
    S(PooledEvent<256>),
    M(PooledEvent<1024>),
    L(PooledEvent<4096>),
    Xl(PooledEvent<16384>),
}

impl AutoSizedEvent {
    /// The pool of the variant.
    pub open spec fn pool(&self) -> PoolId {
        match self {
            AutoSizedEvent::Xs(_) => PoolId::XS,
            AutoSizedEvent::S(_) => PoolId::S,
            AutoSizedEvent::M(_) => PoolId::M,
            AutoSizedEvent::L(_) => PoolId::L,
            AutoSizedEvent::Xl(_) => PoolId::XL,
        }
    }

    /// The wrapped event holds `bytes` as type `event_type`.
    pub open spec fn holds(&self, bytes: Seq<u8>, event_type: u32) -> bool {
        match self {
            AutoSizedEvent::Xs(e) => e.holds(bytes, event_type),
            AutoSizedEvent::S(e) => e.holds(bytes, event_type),
            AutoSizedEvent::M(e) => e.holds(bytes, event_type),
            AutoSizedEvent::L(e) => e.holds(bytes, event_type),
            AutoSizedEvent::Xl(e) => e.holds(bytes, event_type),
        }
    }

    pub open spec fn well_formed(&self) -> bool {
        match self {
            AutoSizedEvent::Xs(e) => e.well_formed(),
            AutoSizedEvent::S(e) => e.well_formed(),
            AutoSizedEvent::M(e) => e.well_formed(),
            AutoSizedEvent::L(e) => e.well_formed(),
            AutoSizedEvent::Xl(e) => e.well_formed(),
        }
    }

    pub open spec fn payload(&self) -> Seq<u8> {
        match self {
            AutoSizedEvent::Xs(e) => e.payload(),
            AutoSizedEvent::S(e) => e.payload(),
            AutoSizedEvent::M(e) => e.payload(),
            AutoSizedEvent::L(e) => e.payload(),
            AutoSizedEvent::Xl(e) => e.payload(),
        }
    }

    pub open spec fn length(&self) -> u32 {
        match self {
            AutoSizedEvent::Xs(e) => e.len,
            AutoSizedEvent::S(e) => e.len,
            AutoSizedEvent::M(e) => e.len,
            AutoSizedEvent::L(e) => e.len,
            AutoSizedEvent::Xl(e) => e.len,
        }
    }

    pub open spec fn kind(&self) -> u32 {
        match self {
            AutoSizedEvent::Xs(e) => e.event_type,
            AutoSizedEvent::S(e) => e.event_type,
            AutoSizedEvent::M(e) => e.event_type,
            AutoSizedEvent::L(e) => e.event_type,
            AutoSizedEvent::Xl(e) => e.event_type,
        }
    }

    /// The payload bytes.
    pub fn data(&self) -> (bytes: &[u8])
        requires
            self.well_formed(),
        ensures
            bytes@ == self.payload(),
    {
        match self {
            AutoSizedEvent::Xs(event) => &event.data[0..event.len as usize],
            AutoSizedEvent::S(event) => &event.data[0..event.len as usize],
            AutoSizedEvent::M(event) => &event.data[0..event.len as usize],
            AutoSizedEvent::L(event) => &event.data[0..event.len as usize],
            AutoSizedEvent::Xl(event) => &event.data[0..event.len as usize],
        }
    }

    pub fn event_type(&self) -> (t: u32)
        ensures
            t == self.kind(),
    {
        match self {
            AutoSizedEvent::Xs(event) => event.event_type,
            AutoSizedEvent::S(event) => event.event_type,
            AutoSizedEvent::M(event) => event.event_type,
            AutoSizedEvent::L(event) => event.event_type,
            AutoSizedEvent::Xl(event) => event.event_type,
        }
    }

    pub fn len(&self) -> (n: u32)
        ensures
            n == self.length(),
    {
        match self {
            AutoSizedEvent::Xs(event) => event.len,
            AutoSizedEvent::S(event) => event.len,
            AutoSizedEvent::M(event) => event.len,
            AutoSizedEvent::L(event) => event.len,
            AutoSizedEvent::Xl(event) => event.len,
        }
    }

    pub fn is_empty(&self) -> (b: bool)
        ensures
            b == (self.length() == 0),
    {
        self.len() == 0
    }

    pub fn pool_id(&self) -> (p: PoolId)
        ensures
            p == self.pool(),
    {
        match self {
            AutoSizedEvent::Xs(_) => PoolId::XS,
            AutoSizedEvent::S(_) => PoolId::S,
            AutoSizedEvent::M(_) => PoolId::M,
            AutoSizedEvent::L(_) => PoolId::L,
            AutoSizedEvent::Xl(_) => PoolId::XL,
        }
    }

    /// Publishes the event into the ring of its size class, creating that ring if needed.
    pub fn emit_to_ring(self, rings: &mut EventRings) -> (r: Result<(), EmitError>)
        requires
            old(rings).well_formed(),
            old(rings).can_publish(self.pool()),
        ensures
            r is Ok,
            final(rings).well_formed(),
            final(rings).same_except(&*old(rings), self.pool()),
            match self {
                AutoSizedEvent::Xs(e) => lazy_ring_published(old(rings).xs, final(rings).xs, e),
                AutoSizedEvent::S(e) => lazy_ring_published(old(rings).s, final(rings).s, e),
                AutoSizedEvent::M(e) => lazy_ring_published(old(rings).m, final(rings).m, e),
                AutoSizedEvent::L(e) => lazy_ring_published(old(rings).l, final(rings).l, e),
                AutoSizedEvent::Xl(e) => lazy_ring_published(old(rings).xl, final(rings).xl, e),
            },
    {
        match self {
            AutoSizedEvent::Xs(event) => {
                if RingFactory::publish(&mut rings.xs, event) {
                    Ok(())
                } else {
                    Err(EmitError::RingFull(PoolId::XS))
                }
            },
            AutoSizedEvent::S(event) => {
                if RingFactory::publish(&mut rings.s, event) {
                    Ok(())
                } else {
                    Err(EmitError::RingFull(PoolId::S))
                }
            },
            AutoSizedEvent::M(event) => {
                if RingFactory::publish(&mut rings.m, event) {
                    Ok(())
                } else {
                    Err(EmitError::RingFull(PoolId::M))
                }
            },
            AutoSizedEvent::L(event) => {
                if RingFactory::publish(&mut rings.l, event) {
                    Ok(())
                } else {
                    Err(EmitError::RingFull(PoolId::L))
                }
            },
            AutoSizedEvent::Xl(event) => {
                if RingFactory::publish(&mut rings.xl, event) {
                    Ok(())
                } else {
                    Err(EmitError::RingFull(PoolId::XL))
                }
            },
        }
    }
}


/// Claiming slot `i` of `pool` and then storing its event changes nothing but that slot.
pub proof fn lemma_claim_then_fill(a: EventPools, b: EventPools, c: EventPools, pool: PoolId, i: int, m: SlotMetadata)
    requires
        b.meta_set(&a, pool, i, m),
        c.event_set(&b, pool, i),
    ensures
        c.slot_rewritten(&a, pool, i, m),
{
    assert forall|q: PoolId| q != pool implies #[trigger] c.same_pool(&a, q) by {
        assert(c.same_pool(&b, q));
        assert(b.same_pool(&a, q));
    }
    match pool {
        PoolId::XS => assert(c.xs_pool.data@ =~= a.xs_pool.data@.update(i, c.xs_pool.data@[i])),
        PoolId::S => assert(c.s_pool.data@ =~= a.s_pool.data@.update(i, c.s_pool.data@[i])),
        PoolId::M => assert(c.m_pool.data@ =~= a.m_pool.data@.update(i, c.m_pool.data@[i])),
        PoolId::L => assert(c.l_pool.data@ =~= a.l_pool.data@.update(i, c.l_pool.data@[i])),
        PoolId::XL => assert(c.xl_pool.data@ =~= a.xl_pool.data@.update(i, c.xl_pool.data@[i])),
    }
}

/// Two bookkeeping changes of the same slot in a row amount to the second one.
pub proof fn lemma_meta_set_twice(
    a: EventPools,
    b: EventPools,
    c: EventPools,
    pool: PoolId,
    i: int,
    m1: SlotMetadata,
    m2: SlotMetadata,
)
    requires
        a.well_formed(),
        0 <= i < capacity_of(pool),
        b.meta_set(&a, pool, i, m1),
        c.meta_set(&b, pool, i, m2),
    ensures
        c.meta_set(&a, pool, i, m2),
{
    assert forall|q: PoolId| q != pool implies #[trigger] c.same_pool(&a, q) by {
        assert(c.same_pool(&b, q));
        assert(b.same_pool(&a, q));
    }
    match pool {
        PoolId::XS => assert(c.xs_pool.metadata@ =~= a.xs_pool.metadata@.update(i, m2)),
        PoolId::S => assert(c.s_pool.metadata@ =~= a.s_pool.metadata@.update(i, m2)),
        PoolId::M => assert(c.m_pool.metadata@ =~= a.m_pool.metadata@.update(i, m2)),
        PoolId::L => assert(c.l_pool.metadata@ =~= a.l_pool.metadata@.update(i, m2)),
        PoolId::XL => assert(c.xl_pool.metadata@ =~= a.xl_pool.metadata@.update(i, m2)),
    }
}

/// An allocated slot hands back exactly what was stored into it: the payload, its length and
/// its type; it has one holder and keeps the generation it had while free.
pub proof fn lemma_allocation_reads_back(
    before: EventPools,
    after: EventPools,
    pool: PoolId,
    i: int,
    bytes: Seq<u8>,
    event_type: u32,
)
    requires
        before.well_formed(),
        after.took_slot(&before, pool, i, bytes, event_type),
        bytes.len() <= max_size_of(pool),
    ensures
        after.payload(pool, i) == bytes,
        after.kind(pool, i) == event_type,
        after.length(pool, i) == bytes.len(),
        !after.meta(pool)[i].is_free(),
        after.meta(pool)[i].ref_count == 1,
        after.meta(pool)[i].generation == before.meta(pool)[i].generation,
{
    match pool {
        PoolId::XS => lemma_held_bytes_read_back(after.xs_pool.data@[i], bytes, event_type),
        PoolId::S => lemma_held_bytes_read_back(after.s_pool.data@[i], bytes, event_type),
        PoolId::M => lemma_held_bytes_read_back(after.m_pool.data@[i], bytes, event_type),
        PoolId::L => lemma_held_bytes_read_back(after.l_pool.data@[i], bytes, event_type),
        PoolId::XL => lemma_held_bytes_read_back(after.xl_pool.data@[i], bytes, event_type),
    }
}

/// Allocation touches one slot: every other slot of every pool keeps its bookkeeping and event.
pub proof fn lemma_allocation_leaves_other_slots(
    before: EventPools,
    after: EventPools,
    pool: PoolId,
    i: int,
    bytes: Seq<u8>,
    event_type: u32,
    q: PoolId,
    j: int,
)
    requires
        before.well_formed(),
        after.took_slot(&before, pool, i, bytes, event_type),
        0 <= j < capacity_of(q),
        q != pool || j != i,
    ensures
        after.meta(q)[j] == before.meta(q)[j],
        after.payload(q, j) == before.payload(q, j),
        after.kind(q, j) == before.kind(q, j),
{
    if q != pool {
        assert(after.same_pool(&before, q));
    }
}

/// After the only reference to a freshly allocated slot is released, the slot is again the
/// lowest free slot of its pool, one generation on: the next allocation there gets it back
/// under a new generation.
pub proof fn lemma_released_slot_is_reused_first(
    start: EventPools,
    taken: EventPools,
    freed: EventPools,
    pool: PoolId,
    i: int,
    bytes: Seq<u8>,
    event_type: u32,
)
    requires
        start.well_formed(),
        taken.took_slot(&start, pool, i, bytes, event_type),
        freed.meta_set(&taken, pool, i, taken.meta(pool)[i].released()),
    ensures
        freed.is_first_free(pool, i),
        freed.meta(pool)[i].generation == next_generation(start.meta(pool)[i].generation),
        freed.meta(pool)[i].generation != start.meta(pool)[i].generation,
{
    assert forall|j: int| 0 <= j < i implies !(#[trigger] freed.meta(pool)[j]).is_free() by {
        assert(freed.meta(pool)[j] == start.meta(pool)[j]);
    }
}

/// Occupancy of one pool.
#[derive(Debug, Clone, Copy, PartialEq, Eq, Structural)]
pub struct SlotStats {
    pub pool_id: PoolId,
    pub total_slots: usize,
    pub allocated_slots: usize,
}

/// The five size-class rings used as pools of reference-counted slots.
pub struct EventPools {
    pub xs_pool: RingBuffer<64, XS_CAPACITY>,
    pub s_pool: RingBuffer<256, S_CAPACITY>,
    pub m_pool: RingBuffer<1024, M_CAPACITY>,
    pub l_pool: RingBuffer<4096, L_CAPACITY>,
    pub xl_pool: RingBuffer<16384, XL_CAPACITY>,
}

impl EventPools {
    pub open spec fn well_formed(&self) -> bool {
        &&& self.xs_pool.well_formed() && self.xs_pool.events_well_formed()
        &&& self.s_pool.well_formed() && self.s_pool.events_well_formed()
        &&& self.m_pool.well_formed() && self.m_pool.events_well_formed()
        &&& self.l_pool.well_formed() && self.l_pool.events_well_formed()
        &&& self.xl_pool.well_formed() && self.xl_pool.events_well_formed()
    }

    /// Slot bookkeeping of `pool`.
    pub open spec fn meta(&self, pool: PoolId) -> Seq<SlotMetadata> {
        match pool {
            PoolId::XS => self.xs_pool.metadata@,
            PoolId::S => self.s_pool.metadata@,
            PoolId::M => self.m_pool.metadata@,
            PoolId::L => self.l_pool.metadata@,
            PoolId::XL => self.xl_pool.metadata@,
        }
    }

    /// Payload of the event in slot `i` of `pool`.
    pub open spec fn payload(&self, pool: PoolId, i: int) -> Seq<u8> {
        match pool {
            PoolId::XS => self.xs_pool.data@[i].payload(),
            PoolId::S => self.s_pool.data@[i].payload(),
            PoolId::M => self.m_pool.data@[i].payload(),
            PoolId::L => self.l_pool.data@[i].payload(),
            PoolId::XL => self.xl_pool.data@[i].payload(),
        }
    }

    /// Event type of the event in slot `i` of `pool`.
    pub open spec fn kind(&self, pool: PoolId, i: int) -> u32 {
        match pool {
            PoolId::XS => self.xs_pool.data@[i].event_type,
            PoolId::S => self.s_pool.data@[i].event_type,
            PoolId::M => self.m_pool.data@[i].event_type,
            PoolId::L => self.l_pool.data@[i].event_type,
            PoolId::XL => self.xl_pool.data@[i].event_type,
        }
    }

    /// Length of the event in slot `i` of `pool`.
    pub open spec fn length(&self, pool: PoolId, i: int) -> u32 {
        match pool {
            PoolId::XS => self.xs_pool.data@[i].len,
            PoolId::S => self.s_pool.data@[i].len,
            PoolId::M => self.m_pool.data@[i].len,
            PoolId::L => self.l_pool.data@[i].len,
            PoolId::XL => self.xl_pool.data@[i].len,
        }
    }

    /// The event in slot `i` of `pool` holds `bytes` as type `event_type`.
    pub open spec fn slot_holds(&self, pool: PoolId, i: int, bytes: Seq<u8>, event_type: u32) -> bool {
        match pool {
            PoolId::XS => self.xs_pool.data@[i].holds(bytes, event_type),
            PoolId::S => self.s_pool.data@[i].holds(bytes, event_type),
            PoolId::M => self.m_pool.data@[i].holds(bytes, event_type),
            PoolId::L => self.l_pool.data@[i].holds(bytes, event_type),
            PoolId::XL => self.xl_pool.data@[i].holds(bytes, event_type),
        }
    }

    /// `self` and `other` agree on `pool`.
    pub open spec fn same_pool(&self, other: &Self, pool: PoolId) -> bool {
        match pool {
            PoolId::XS => self.xs_pool == other.xs_pool,
            PoolId::S => self.s_pool == other.s_pool,
            PoolId::M => self.m_pool == other.m_pool,
            PoolId::L => self.l_pool == other.l_pool,
            PoolId::XL => self.xl_pool == other.xl_pool,
        }
    }

    /// `self` and `other` agree on every pool but `pool`.
    pub open spec fn same_except(&self, other: &Self, pool: PoolId) -> bool {
        forall|q: PoolId| q != pool ==> #[trigger] self.same_pool(other, q)
    }

    /// Only the event in slot `i` of `pool` changed.
    pub open spec fn event_set(&self, before: &Self, pool: PoolId, i: int) -> bool {
        &&& self.well_formed()
        &&& self.same_except(before, pool)
        &&& match pool {
            PoolId::XS => self.xs_pool.event_set(&before.xs_pool, i),
            PoolId::S => self.s_pool.event_set(&before.s_pool, i),
            PoolId::M => self.m_pool.event_set(&before.m_pool, i),
            PoolId::L => self.l_pool.event_set(&before.l_pool, i),
            PoolId::XL => self.xl_pool.event_set(&before.xl_pool, i),
        }
    }

    /// Only the bookkeeping of slot `i` of `pool` changed, to `m`.
    pub open spec fn meta_set(&self, before: &Self, pool: PoolId, i: int, m: SlotMetadata) -> bool {
        &&& self.well_formed()
        &&& self.same_except(before, pool)
        &&& match pool {
            PoolId::XS => self.xs_pool.meta_set(&before.xs_pool, i, m),
            PoolId::S => self.s_pool.meta_set(&before.s_pool, i, m),
            PoolId::M => self.m_pool.meta_set(&before.m_pool, i, m),
            PoolId::L => self.l_pool.meta_set(&before.l_pool, i, m),
            PoolId::XL => self.xl_pool.meta_set(&before.xl_pool, i, m),
        }
    }

    /// Slot `i` is the lowest free slot of `pool`.
    pub open spec fn is_first_free(&self, pool: PoolId, i: int) -> bool {
        &&& 0 <= i < capacity_of(pool)
        &&& self.meta(pool)[i].is_free()
        &&& forall|j: int| 0 <= j < i ==> !(#[trigger] self.meta(pool)[j]).is_free()
    }

    /// Every slot of `pool` is taken.
    pub open spec fn is_full(&self, pool: PoolId) -> bool {
        forall|j: int| 0 <= j < capacity_of(pool) ==> !(#[trigger] self.meta(pool)[j]).is_free()
    }

    /// Only slot `i` of `pool` changed: its bookkeeping became `m`, its event may differ.
    pub open spec fn slot_rewritten(&self, before: &Self, pool: PoolId, i: int, m: SlotMetadata) -> bool {
        &&& self.well_formed()
        &&& self.same_except(before, pool)
        &&& match pool {
            PoolId::XS => self.xs_pool.slot_rewritten(&before.xs_pool, i, m),
            PoolId::S => self.s_pool.slot_rewritten(&before.s_pool, i, m),
            PoolId::M => self.m_pool.slot_rewritten(&before.m_pool, i, m),
            PoolId::L => self.l_pool.slot_rewritten(&before.l_pool, i, m),
            PoolId::XL => self.xl_pool.slot_rewritten(&before.xl_pool, i, m),
        }
    }

    /// `self` is `before` after the lowest free slot `i` of `pool` was handed to a first holder
    /// and filled with an event holding `bytes` as type `event_type`.
    pub open spec fn took_slot(&self, before: &Self, pool: PoolId, i: int, bytes: Seq<u8>, event_type: u32) -> bool {
        &&& before.is_first_free(pool, i)
        &&& self.slot_rewritten(before, pool, i, before.meta(pool)[i].taken())
        &&& self.slot_holds(pool, i, bytes, event_type)
    }

    /// Five fresh pools: every slot free at generation 0.
    pub fn new() -> (pools: Self)
        ensures
            pools.well_formed(),
            pools.xs_pool.is_fresh(),
            pools.s_pool.is_fresh(),
            pools.m_pool.is_fresh(),
            pools.l_pool.is_fresh(),
            pools.xl_pool.is_fresh(),
    {
        EventPools {
            xs_pool: RingBuffer::new(),
            s_pool: RingBuffer::new(),
            m_pool: RingBuffer::new(),
            l_pool: RingBuffer::new(),
            xl_pool: RingBuffer::new(),
        }
    }

    /// Claims slot `slot_index` of `pool_id` for a first holder if it is free.
    pub fn try_allocate_slot(&mut self, pool_id: PoolId, slot_index: u32) -> (ok: bool)
        requires
            old(self).well_formed(),
            slot_index < capacity_of(pool_id),
        ensures
            ok == old(self).meta(pool_id)[slot_index as int].is_free(),
            ok ==> final(self).meta_set(
                &*old(self),
                pool_id,
                slot_index as int,
                old(self).meta(pool_id)[slot_index as int].taken(),
            ),
            !ok ==> *final(self) == *old(self),
    {
        let slot = slot_index as usize;
        match pool_id {
            PoolId::XS => self.xs_pool.try_allocate_slot(slot),
            PoolId::S => self.s_pool.try_allocate_slot(slot),
            PoolId::M => self.m_pool.try_allocate_slot(slot),
            PoolId::L => self.l_pool.try_allocate_slot(slot),
            PoolId::XL => self.xl_pool.try_allocate_slot(slot),
        }
    }

    /// Stores `event` in slot `slot_index` of the XS pool.
    pub fn place_xs_event(&mut self, event: PooledEvent<64>, slot_index: u32)
        requires
            old(self).well_formed(),
            slot_index < XS_CAPACITY,
            event.well_formed(),
        ensures
            final(self).event_set(&*old(self), PoolId::XS, slot_index as int),
            final(self).xs_pool.data@[slot_index as int] == event,
    {
        self.xs_pool.place_event(event, slot_index as usize);
    }

    /// Stores `event` in slot `slot_index` of the S pool.
    pub fn place_s_event(&mut self, event: PooledEvent<256>, slot_index: u32)
        requires
            old(self).well_formed(),
            slot_index < S_CAPACITY,
            event.well_formed(),
        ensures
            final(self).event_set(&*old(self), PoolId::S, slot_index as int),
            final(self).s_pool.data@[slot_index as int] == event,
    {
        self.s_pool.place_event(event, slot_index as usize);
    }

    /// Stores `event` in slot `slot_index` of the M pool.
    pub fn place_m_event(&mut self, event: PooledEvent<1024>, slot_index: u32)
        requires
            old(self).well_formed(),
            slot_index < M_CAPACITY,
            event.well_formed(),
        ensures
            final(self).event_set(&*old(self), PoolId::M, slot_index as int),
            final(self).m_pool.data@[slot_index as int] == event,
    {
        self.m_pool.place_event(event, slot_index as usize);
    }

    /// Stores `event` in slot `slot_index` of the L pool.
    pub fn place_l_event(&mut self, event: PooledEvent<4096>, slot_index: u32)
        requires
            old(self).well_formed(),
            slot_index < L_CAPACITY,
            event.well_formed(),
        ensures
            final(self).event_set(&*old(self), PoolId::L, slot_index as int),
            final(self).l_pool.data@[slot_index as int] == event,
    {
        self.l_pool.place_event(event, slot_index as usize);
    }

    /// Stores `event` in slot `slot_index` of the XL pool.
    pub fn place_xl_event(&mut self, event: PooledEvent<16384>, slot_index: u32)
        requires
            old(self).well_formed(),
            slot_index < XL_CAPACITY,
            event.well_formed(),
        ensures
            final(self).event_set(&*old(self), PoolId::XL, slot_index as int),
            final(self).xl_pool.data@[slot_index as int] == event,
    {
        self.xl_pool.place_event(event, slot_index as usize);
    }

    /// The event in slot `slot_index` of the XS pool.
    pub fn xs_event(&self, slot_index: u32) -> (e: &PooledEvent<64>)
        requires
            self.well_formed(),
            slot_index < XS_CAPACITY,
        ensures
            *e == self.xs_pool.data@[slot_index as int],
    {
        &self.xs_pool.data[slot_index as usize]
    }

    /// The event in slot `slot_index` of the S pool.
    pub fn s_event(&self, slot_index: u32) -> (e: &PooledEvent<256>)
        requires
            self.well_formed(),
            slot_index < S_CAPACITY,
        ensures
            *e == self.s_pool.data@[slot_index as int],
    {
        &self.s_pool.data[slot_index as usize]
    }

    /// The event in slot `slot_index` of the M pool.
    pub fn m_event(&self, slot_index: u32) -> (e: &PooledEvent<1024>)
        requires
            self.well_formed(),
            slot_index < M_CAPACITY,
        ensures
            *e == self.m_pool.data@[slot_index as int],
    {
        &self.m_pool.data[slot_index as usize]
    }

    /// The event in slot `slot_index` of the L pool.
    pub fn l_event(&self, slot_index: u32) -> (e: &PooledEvent<4096>)
        requires
            self.well_formed(),
            slot_index < L_CAPACITY,
        ensures
            *e == self.l_pool.data@[slot_index as int],
    {
        &self.l_pool.data[slot_index as usize]
    }

    /// The event in slot `slot_index` of the XL pool.
    pub fn xl_event(&self, slot_index: u32) -> (e: &PooledEvent<16384>)
        requires
            self.well_formed(),
            slot_index < XL_CAPACITY,
        ensures
            *e == self.xl_pool.data@[slot_index as int],
    {
        &self.xl_pool.data[slot_index as usize]
    }

    pub fn get_generation(&self, pool_id: PoolId, slot_index: u32) -> (g: u32)
        requires
            self.well_formed(),
            slot_index < capacity_of(pool_id),
        ensures
            g == self.meta(pool_id)[slot_index as int].generation,
    {
        let slot = slot_index as usize;
        let g = match pool_id {
            PoolId::XS => self.xs_pool.slot_generation(slot),
            PoolId::S => self.s_pool.slot_generation(slot),
            PoolId::M => self.m_pool.slot_generation(slot),
            PoolId::L => self.l_pool.slot_generation(slot),
            PoolId::XL => self.xl_pool.slot_generation(slot),
        };
        g as u32
    }

    pub fn get_ref_count(&self, pool_id: PoolId, slot_index: u32) -> (n: u8)
        requires
            self.well_formed(),
            slot_index < capacity_of(pool_id),
        ensures
            n == self.meta(pool_id)[slot_index as int].ref_count,
    {
        let slot = slot_index as usize;
        match pool_id {
            PoolId::XS => self.xs_pool.slot_ref_count(slot),
            PoolId::S => self.s_pool.slot_ref_count(slot),
            PoolId::M => self.m_pool.slot_ref_count(slot),
            PoolId::L => self.l_pool.slot_ref_count(slot),
            PoolId::XL => self.xl_pool.slot_ref_count(slot),
        }
    }

    /// The slot is free to be claimed.
    pub fn is_slot_available(&self, pool_id: PoolId, slot_index: u32) -> (b: bool)
        requires
            self.well_formed(),
            slot_index < capacity_of(pool_id),
        ensures
            b == self.meta(pool_id)[slot_index as int].is_free(),
    {
        let slot = slot_index as usize;
        match pool_id {
            PoolId::XS => self.xs_pool.is_slot_available(slot),
            PoolId::S => self.s_pool.is_slot_available(slot),
            PoolId::M => self.m_pool.is_slot_available(slot),
            PoolId::L => self.l_pool.is_slot_available(slot),
            PoolId::XL => self.xl_pool.is_slot_available(slot),
        }
    }

    /// Counts one more holder of the slot.
    pub fn inc_ref_count(&mut self, pool_id: PoolId, slot_index: u32)
        requires
            old(self).well_formed(),
            slot_index < capacity_of(pool_id),
            old(self).meta(pool_id)[slot_index as int].ref_count < u8::MAX,
        ensures
            final(self).meta_set(
                &*old(self),
                pool_id,
                slot_index as int,
                old(self).meta(pool_id)[slot_index as int].retained(),
            ),
    {
        let slot = slot_index as usize;
        match pool_id {
            PoolId::XS => self.xs_pool.inc_ref_count(slot),
            PoolId::S => self.s_pool.inc_ref_count(slot),
            PoolId::M => self.m_pool.inc_ref_count(slot),
            PoolId::L => self.l_pool.inc_ref_count(slot),
            PoolId::XL => self.xl_pool.inc_ref_count(slot),
        }
    }

    /// Counts one holder fewer of the slot; returns the count before.
    pub fn dec_ref_count(&mut self, pool_id: PoolId, slot_index: u32) -> (before: u8)
        requires
            old(self).well_formed(),
            slot_index < capacity_of(pool_id),
            old(self).meta(pool_id)[slot_index as int].ref_count > 0,
        ensures
            before == old(self).meta(pool_id)[slot_index as int].ref_count,
            final(self).meta_set(
                &*old(self),
                pool_id,
                slot_index as int,
                old(self).meta(pool_id)[slot_index as int].dropped_ref(),
            ),
    {
        let slot = slot_index as usize;
        match pool_id {
            PoolId::XS => self.xs_pool.dec_ref_count(slot),
            PoolId::S => self.s_pool.dec_ref_count(slot),
            PoolId::M => self.m_pool.dec_ref_count(slot),
            PoolId::L => self.l_pool.dec_ref_count(slot),
            PoolId::XL => self.xl_pool.dec_ref_count(slot),
        }
    }

    /// Frees the slot and moves it to its next generation.
    pub fn mark_slot_reusable(&mut self, pool_id: PoolId, slot_index: u32)
        requires
            old(self).well_formed(),
            slot_index < capacity_of(pool_id),
        ensures
            final(self).meta_set(
                &*old(self),
                pool_id,
                slot_index as int,
                old(self).meta(pool_id)[slot_index as int].reusable(),
            ),
    {
        let slot = slot_index as usize;
        match pool_id {
            PoolId::XS => self.xs_pool.mark_slot_reusable(slot),
            PoolId::S => self.s_pool.mark_slot_reusable(slot),
            PoolId::M => self.m_pool.mark_slot_reusable(slot),
            PoolId::L => self.l_pool.mark_slot_reusable(slot),
            PoolId::XL => self.xl_pool.mark_slot_reusable(slot),
        }
    }

    /// Capacity and occupancy of a pool.
    pub fn get_pool_stats(&self, pool_id: PoolId) -> (stats: SlotStats)
        requires
            self.well_formed(),
        ensures
            stats.pool_id == pool_id,
            stats.total_slots == capacity_of(pool_id),
            stats.allocated_slots == count_allocated(self.meta(pool_id)),
            stats.allocated_slots == self.meta(pool_id).filter(slot_taken_pred()).len(),
    {
        let allocated_slots = match pool_id {
            PoolId::XS => self.xs_pool.allocated_slots(),
            PoolId::S => self.s_pool.allocated_slots(),
            PoolId::M => self.m_pool.allocated_slots(),
            PoolId::L => self.l_pool.allocated_slots(),
            PoolId::XL => self.xl_pool.allocated_slots(),
        };
        SlotStats { pool_id, total_slots: pool_id.capacity(), allocated_slots }
    }
}

} // verus!
