use vstd::prelude::*;

verus! {

/// A fixed-capacity event: `len` meaningful bytes at the front of `data`.
#[derive(Debug, Clone, Copy)]
pub struct PooledEvent<const TSHIRT_SIZE: usize> {
    pub len: u32,
    pub event_type: u32,
    pub data: [u8; TSHIRT_SIZE],
}

/// An all-zero byte array, produced by bytemuck's `Zeroable::zeroed` for `[u8; N]`.
/// Claimed: every one of the `N` bytes is zero (the all-zero bit pattern of a byte array).
#[verifier::external_body]
fn zeroed_bytes<const N: usize>() -> (bytes: [u8; N])
    ensures
        bytes@ == Seq::new(N as nat, |i: int| 0u8),
{
    bytemuck::Zeroable::zeroed()
}

impl<const TSHIRT_SIZE: usize> PooledEvent<TSHIRT_SIZE> {
    /// The bytes the event carries: the first `len` bytes of `data`.
    pub open spec fn payload(self) -> Seq<u8> {
        self.data@.subrange(0, self.len as int)
    }

    /// `e` carries exactly `bytes` as event type `event_type`, the rest of `data` zeroed.
    pub open spec fn holds(self, bytes: Seq<u8>, event_type: u32) -> bool {
        &&& self.len == bytes.len() as u32
        &&& self.event_type == event_type
        &&& self.data@ == bytes + Seq::new((TSHIRT_SIZE - bytes.len()) as nat, |i: int| 0u8)
    }

    /// The all-zero event.
    pub open spec fn is_zero(self) -> bool {
        &&& self.len == 0
        &&& self.event_type == 0
        &&& self.data@ == Seq::new(TSHIRT_SIZE as nat, |i: int| 0u8)
    }

    /// `len` stays within the fixed capacity.
    pub open spec fn well_formed(self) -> bool {
        self.len <= TSHIRT_SIZE
    }

    /// The all-zero event.
    pub fn zeroed() -> (e: Self)
        ensures
            e.is_zero(),
    {
        PooledEvent { len: 0, event_type: 0, data: zeroed_bytes() }
    }

    /// An event carrying `bytes` (no more than the capacity) as type `event_type`.
    pub fn fill(bytes: &[u8], event_type: u32) -> (e: Self)
        requires
            bytes@.len() <= TSHIRT_SIZE,
        ensures
            e.holds(bytes@, event_type),
            e.well_formed(),
    {
        let mut e = Self::zeroed();
        let n = bytes.len();
        let mut i: usize = 0;
        while i < n
            invariant
                n == bytes@.len(),
                n <= TSHIRT_SIZE,
                i <= n,
                e.data@.len() == TSHIRT_SIZE,
                forall|j: int| 0 <= j < i ==> e.data@[j] == bytes@[j],
                forall|j: int| i <= j < TSHIRT_SIZE ==> e.data@[j] == 0u8,
                e.event_type == 0,
            decreases n - i,
        {
            e.data[i] = bytes[i];
            i = i + 1;
        }
        e.len = n as u32;
        e.event_type = event_type;
        assert(e.data@ =~= bytes@ + Seq::new((TSHIRT_SIZE - bytes@.len()) as nat, |i: int| 0u8));
        assert(n as u32 <= n) by (bit_vector);
        e
    }
}

/// T-shirt sizing of events.
#[derive(Debug, Clone, Copy, PartialEq, Eq, Structural)]
pub enum EventSize {
    XS,
    S,
    M,
    L,
    XL,
    XXL,
}

/// Bookkeeping of one slot when a ring is used as a pool of slots.
#[derive(Debug, Clone, Copy)]
pub struct SlotMetadata {
    pub ref_count: u8,
    /// 0 = free, 1 = allocated
    pub is_allocated: u8,
    pub generation: u16,
}

impl SlotMetadata {
    /// A free slot that has gone through `generation` reuses.
    pub open spec fn free_slot(generation: u16) -> SlotMetadata {
        SlotMetadata { ref_count: 0, is_allocated: 0, generation }
    }

    /// Nobody holds the slot.
    pub open spec fn is_free(self) -> bool {
        self.is_allocated == 0
    }

    /// The slot just handed to its first holder.
    pub open spec fn taken(self) -> SlotMetadata {
        SlotMetadata { ref_count: 1, is_allocated: 1, generation: self.generation }
    }

    /// One more holder.
    pub open spec fn retained(self) -> SlotMetadata {
        SlotMetadata { ref_count: (self.ref_count + 1) as u8, ..self }
    }

    /// One holder fewer.
    pub open spec fn dropped_ref(self) -> SlotMetadata {
        SlotMetadata { ref_count: (self.ref_count - 1) as u8, ..self }
    }

    /// The slot returned to the free list, one generation on (wrapping at 2^16).
    pub open spec fn reusable(self) -> SlotMetadata {
        SlotMetadata { is_allocated: 0, generation: next_generation(self.generation), ..self }
    }

    /// A holder let go: the last one frees the slot for reuse.
    pub open spec fn released(self) -> SlotMetadata {
        if self.ref_count == 1 {
            self.dropped_ref().reusable()
        } else {
            self.dropped_ref()
        }
    }
}

/// The generation after `g`, wrapping at 2^16.
pub open spec fn next_generation(g: u16) -> u16 {
    if g == u16::MAX {
        0
    } else {
        (g + 1) as u16
    }
}

/// Taking a reference and giving it back leaves the slot's bookkeeping as it was.
pub proof fn lemma_retain_then_release_restores(m: SlotMetadata)
    requires
        1 <= m.ref_count < u8::MAX,
    ensures
        m.retained().released() == m,
{
}

/// A free slot handed out has exactly one holder and keeps its generation.
pub proof fn lemma_taken_slot_has_one_holder(m: SlotMetadata)
    requires
        m.is_free(),
    ensures
        !m.taken().is_free(),
        m.taken().ref_count == 1,
        m.taken().generation == m.generation,
{
}

/// When the last holder lets go, the slot is free again, one generation on, so that the next
/// holder of the slot sees a generation different from the previous one.
pub proof fn lemma_last_release_frees_slot(m: SlotMetadata)
    requires
        m.ref_count == 1,
    ensures
        m.released().is_free(),
        m.released().ref_count == 0,
        m.released().generation == next_generation(m.generation),
        m.released().taken().generation != m.generation,
{
}

/// A holder that is not the last one leaves the slot taken.
pub proof fn lemma_other_holders_keep_slot(m: SlotMetadata)
    requires
        m.ref_count > 1,
        !m.is_free(),
    ensures
        !m.released().is_free(),
        m.released().ref_count == m.ref_count - 1,
        m.released().generation == m.generation,
{
}

/// Number of allocated slots in `meta`.
pub open spec fn count_allocated(meta: Seq<SlotMetadata>) -> nat
    decreases meta.len(),
{
    if meta.len() == 0 {
        0
    } else {
        count_allocated(meta.drop_last()) + if meta.last().is_free() {
            0nat
        } else {
            1nat
        }
    }
}

/// Holds of a slot that somebody holds.
pub open spec fn slot_taken_pred() -> spec_fn(SlotMetadata) -> bool {
    |m: SlotMetadata| !m.is_free()
}

/// The allocated count is the number of slots that are not free, whatever their holder counts.
pub proof fn lemma_count_allocated_counts_taken_slots(meta: Seq<SlotMetadata>)
    ensures
        count_allocated(meta) == meta.filter(slot_taken_pred()).len(),
    decreases meta.len(),
{
    reveal(Seq::filter);
    if meta.len() > 0 {
        lemma_count_allocated_counts_taken_slots(meta.drop_last());
    }
}

/// Changing one slot's bookkeeping changes the allocated count only as far as that slot went
/// from free to taken or back: more or fewer holders of a taken slot leave it unchanged, and
/// handing out a free slot raises it by one.
pub proof fn lemma_count_allocated_update(meta: Seq<SlotMetadata>, i: int, m: SlotMetadata)
    requires
        0 <= i < meta.len(),
    ensures
        count_allocated(meta.update(i, m)) + (if meta[i].is_free() { 0int } else { 1int })
            == count_allocated(meta) + (if m.is_free() { 0int } else { 1int }),
    decreases meta.len(),
{
    let u = meta.update(i, m);
    if i == meta.len() - 1 {
        assert(u.drop_last() =~= meta.drop_last());
    } else {
        assert(u.drop_last() =~= meta.drop_last().update(i, m));
        lemma_count_allocated_update(meta.drop_last(), i, m);
    }
}

/// No more slots are counted as allocated than there are slots.
pub proof fn lemma_count_allocated_bound(meta: Seq<SlotMetadata>)
    ensures
        count_allocated(meta) <= meta.len(),
    decreases meta.len(),
{
    if meta.len() > 0 {
        lemma_count_allocated_bound(meta.drop_last());
    }
}

impl Default for SlotMetadata {
    fn default() -> (m: Self)
        ensures
            m == SlotMetadata::free_slot(0),
    {
        SlotMetadata { ref_count: 0u8, is_allocated: 0u8, generation: 0u16 }
    }
}

/// Largest ring that the library accepts, in payload bytes (`TSHIRT_SIZE * RING_CAPACITY`).
pub const MAX_STACK_BYTES: usize = 1_048_576;

/// The slot that sequence number `seq` occupies in a ring of `capacity` slots.
pub open spec fn slot_of(seq: int, capacity: int) -> int {
    seq % capacity
}

/// Slot contents after publishing `events` in order, the first at sequence `start`.
pub open spec fn publish_all<E>(slots: Seq<E>, start: int, events: Seq<E>) -> Seq<E>
    decreases events.len(),
{
    if events.len() == 0 {
        slots
    } else {
        publish_all(slots, start, events.drop_last()).update(
            slot_of(start + events.len() - 1, slots.len() as int),
            events.last(),
        )
    }
}

/// A single-writer, many-reader ring: the writer publishes event number `s` into slot
/// `s % RING_CAPACITY`; `published_sequence` counts the events published so far.
pub struct RingBuffer<const TSHIRT_SIZE: usize, const RING_CAPACITY: usize> {
    pub published_sequence: usize,
    pub metadata: Vec<SlotMetadata>,
    pub data: Vec<PooledEvent<TSHIRT_SIZE>>,
}

impl<const TSHIRT_SIZE: usize, const RING_CAPACITY: usize> RingBuffer<TSHIRT_SIZE, RING_CAPACITY> {
    /// One metadata entry and one event per slot.
    pub open spec fn well_formed(&self) -> bool {
        &&& self.metadata@.len() == RING_CAPACITY
        &&& self.data@.len() == RING_CAPACITY
    }

    /// Nothing published yet, every slot free at generation 0 and holding the zero event.
    pub open spec fn is_fresh(&self) -> bool {
        &&& self.well_formed()
        &&& self.published_sequence == 0
        &&& forall|i: int| 0 <= i < RING_CAPACITY ==> #[trigger] self.metadata@[i] == SlotMetadata::free_slot(0)
        &&& forall|i: int| 0 <= i < RING_CAPACITY ==> (#[trigger] self.data@[i]).is_zero()
    }

    /// One event published into a ring that was fresh: `e` in slot 0, the rest untouched.
    pub open spec fn fresh_with_one(&self, e: PooledEvent<TSHIRT_SIZE>) -> bool {
        &&& self.well_formed()
        &&& self.published_sequence == 1
        &&& self.data@[0] == e
        &&& forall|i: int| 0 <= i < RING_CAPACITY ==> #[trigger] self.metadata@[i] == SlotMetadata::free_slot(0)
        &&& forall|i: int| 1 <= i < RING_CAPACITY ==> (#[trigger] self.data@[i]).is_zero()
    }

    /// `self` is `before` with `e` published as its next event.
    pub open spec fn publishes(&self, before: &Self, e: PooledEvent<TSHIRT_SIZE>) -> bool {
        &&& self.well_formed()
        &&& self.published_sequence == before.published_sequence + 1
        &&& self.data@ == before.data@.update(slot_of(before.published_sequence as int, RING_CAPACITY as int), e)
        &&& self.metadata@ == before.metadata@
    }

    /// The event that a reader at sequence `seq` is handed.
    pub open spec fn event_at(&self, seq: int) -> PooledEvent<TSHIRT_SIZE> {
        self.data@[slot_of(seq, RING_CAPACITY as int)]
    }

    /// An empty ring: nothing published, every slot zeroed and free.
    pub fn new() -> (ring: Self)
        requires
            TSHIRT_SIZE * RING_CAPACITY <= MAX_STACK_BYTES,
        ensures
            ring.is_fresh(),
    {
        let mut metadata: Vec<SlotMetadata> = Vec::new();
        let mut data: Vec<PooledEvent<TSHIRT_SIZE>> = Vec::new();
        let mut i: usize = 0;
        while i < RING_CAPACITY
            invariant
                i <= RING_CAPACITY,
                metadata@.len() == i,
                data@.len() == i,
                forall|j: int| 0 <= j < i ==> #[trigger] metadata@[j] == SlotMetadata::free_slot(0),
                forall|j: int| 0 <= j < i ==> (#[trigger] data@[j]).is_zero(),
            decreases RING_CAPACITY - i,
        {
            metadata.push(SlotMetadata::default());
            data.push(PooledEvent::zeroed());
            i = i + 1;
        }
        RingBuffer { published_sequence: 0, metadata, data }
    }
}

impl<const TSHIRT_SIZE: usize, const RING_CAPACITY: usize> RingBuffer<TSHIRT_SIZE, RING_CAPACITY> {
    /// Every stored event keeps its length within capacity.
    pub open spec fn events_well_formed(&self) -> bool {
        forall|i: int| 0 <= i < self.data@.len() ==> (#[trigger] self.data@[i]).well_formed()
    }

    /// Only the metadata of `slot` changed, to `m`.
    pub open spec fn meta_set(&self, before: &Self, slot: int, m: SlotMetadata) -> bool {
        &&& self.well_formed()
        &&& self.published_sequence == before.published_sequence
        &&& self.data@ == before.data@
        &&& self.metadata@ == before.metadata@.update(slot, m)
    }

    /// Only the event stored in `slot` changed.
    pub open spec fn event_set(&self, before: &Self, slot: int) -> bool {
        &&& self.well_formed()
        &&& self.published_sequence == before.published_sequence
        &&& self.metadata@ == before.metadata@
        &&& self.data@ == before.data@.update(slot, self.data@[slot])
    }

    /// Only `slot` changed: its bookkeeping became `m`, its event may differ.
    pub open spec fn slot_rewritten(&self, before: &Self, slot: int, m: SlotMetadata) -> bool {
        &&& self.well_formed()
        &&& self.published_sequence == before.published_sequence
        &&& self.metadata@ == before.metadata@.update(slot, m)
        &&& self.data@ == before.data@.update(slot, self.data@[slot])
    }

    /// Claims `slot` for a first holder if it is free.
    pub fn try_allocate_slot(&mut self, slot: usize) -> (ok: bool)
        requires
            old(self).well_formed(),
            slot < RING_CAPACITY,
        ensures
            ok == old(self).metadata@[slot as int].is_free(),
            ok ==> final(self).meta_set(&*old(self), slot as int, old(self).metadata@[slot as int].taken()),
            !ok ==> *final(self) == *old(self),
    {
        let m = self.metadata[slot];
        if m.is_allocated == 0 {
            self.metadata[slot] = SlotMetadata { ref_count: 1, is_allocated: 1, generation: m.generation };
            true
        } else {
            false
        }
    }

    /// Stores `e` in `slot`.
    pub fn place_event(&mut self, e: PooledEvent<TSHIRT_SIZE>, slot: usize)
        requires
            old(self).well_formed(),
            slot < RING_CAPACITY,
        ensures
            final(self).event_set(&*old(self), slot as int),
            final(self).data@[slot as int] == e,
    {
        self.data[slot] = e;
    }

    pub fn slot_generation(&self, slot: usize) -> (g: u16)
        requires
            self.well_formed(),
            slot < RING_CAPACITY,
        ensures
            g == self.metadata@[slot as int].generation,
    {
        self.metadata[slot].generation
    }

    pub fn slot_ref_count(&self, slot: usize) -> (n: u8)
        requires
            self.well_formed(),
            slot < RING_CAPACITY,
        ensures
            n == self.metadata@[slot as int].ref_count,
    {
        self.metadata[slot].ref_count
    }

    pub fn is_slot_available(&self, slot: usize) -> (b: bool)
        requires
            self.well_formed(),
            slot < RING_CAPACITY,
        ensures
            b == self.metadata@[slot as int].is_free(),
    {
        self.metadata[slot].is_allocated == 0
    }

    /// Counts one more holder of `slot`.
    pub fn inc_ref_count(&mut self, slot: usize)
        requires
            old(self).well_formed(),
            slot < RING_CAPACITY,
            old(self).metadata@[slot as int].ref_count < u8::MAX,
        ensures
            final(self).meta_set(&*old(self), slot as int, old(self).metadata@[slot as int].retained()),
    {
        let m = self.metadata[slot];
        self.metadata[slot] = SlotMetadata { ref_count: m.ref_count + 1, ..m };
    }

    /// Counts one holder fewer of `slot`; returns the count before.
    pub fn dec_ref_count(&mut self, slot: usize) -> (before: u8)
        requires
            old(self).well_formed(),
            slot < RING_CAPACITY,
            old(self).metadata@[slot as int].ref_count > 0,
        ensures
            before == old(self).metadata@[slot as int].ref_count,
            final(self).meta_set(&*old(self), slot as int, old(self).metadata@[slot as int].dropped_ref()),
    {
        let m = self.metadata[slot];
        self.metadata[slot] = SlotMetadata { ref_count: m.ref_count - 1, ..m };
        m.ref_count
    }

    /// Frees `slot` and moves it to its next generation.
    pub fn mark_slot_reusable(&mut self, slot: usize)
        requires
            old(self).well_formed(),
            slot < RING_CAPACITY,
        ensures
            final(self).meta_set(&*old(self), slot as int, old(self).metadata@[slot as int].reusable()),
    {
        let m = self.metadata[slot];
        let generation = if m.generation == u16::MAX {
            0
        } else {
            m.generation + 1
        };
        self.metadata[slot] = SlotMetadata { is_allocated: 0, generation, ..m };
    }

    /// How many slots are taken.
    pub fn allocated_slots(&self) -> (n: usize)
        requires
            self.well_formed(),
        ensures
            n == count_allocated(self.metadata@),
            n == self.metadata@.filter(slot_taken_pred()).len(),
    {
        proof {
            lemma_count_allocated_counts_taken_slots(self.metadata@);
        }
        let mut n: usize = 0;
        let mut i: usize = 0;
        while i < RING_CAPACITY
            invariant
                self.well_formed(),
                i <= RING_CAPACITY,
                n == count_allocated(self.metadata@.take(i as int)),
            decreases RING_CAPACITY - i,
        {
            proof {
                assert(self.metadata@.take(i as int + 1).drop_last() =~= self.metadata@.take(i as int));
                lemma_count_allocated_bound(self.metadata@.take(i as int));
            }
            if self.metadata[i].is_allocated != 0 {
                n = n + 1;
            }
            i = i + 1;
        }
        assert(self.metadata@.take(RING_CAPACITY as int) =~= self.metadata@);
        n
    }
}

/// The writing side of a ring; there is one writer per ring.
#[derive(Debug)]
pub struct Writer<const TSHIRT_SIZE: usize, const RING_CAPACITY: usize> {}

impl<const TSHIRT_SIZE: usize, const RING_CAPACITY: usize> Writer<TSHIRT_SIZE, RING_CAPACITY> {
    pub fn new() -> (w: Self) {
        Writer {}
    }

    /// Publishes `e` as the next event of `ring`, overwriting the oldest slot.
    pub fn add(&mut self, ring: &mut RingBuffer<TSHIRT_SIZE, RING_CAPACITY>, e: PooledEvent<TSHIRT_SIZE>) -> (ok: bool)
        requires
            old(ring).well_formed(),
            RING_CAPACITY > 0,
            old(ring).published_sequence < usize::MAX,
        ensures
            ok,
            final(ring).publishes(&*old(ring), e),
    {
        let current_sequence = ring.published_sequence;
        let slot = current_sequence % RING_CAPACITY;
        ring.data[slot] = e;
        ring.published_sequence = current_sequence + 1;
        true
    }
}

/// A reading side of a ring, with its own cursor: the sequence of the next event it reads.
#[derive(Debug, Clone, Copy)]
pub struct Reader<const TSHIRT_SIZE: usize, const RING_CAPACITY: usize> {
    pub cursor: usize,
}

impl<const TSHIRT_SIZE: usize, const RING_CAPACITY: usize> Reader<TSHIRT_SIZE, RING_CAPACITY> {
    /// A reader that starts at the first event ever published.
    pub fn new() -> (r: Self)
        ensures
            r.cursor == 0,
    {
        Reader { cursor: 0 }
    }

    /// Hands out the event at the cursor and advances it, or `None` when caught up with the writer
    /// (then the cursor stays where it is). The ring is only read.
    pub fn next(&mut self, ring: &RingBuffer<TSHIRT_SIZE, RING_CAPACITY>) -> (out: Option<PooledEvent<TSHIRT_SIZE>>)
        requires
            ring.well_formed(),
            RING_CAPACITY > 0 || old(self).cursor == ring.published_sequence,
            old(self).cursor <= ring.published_sequence,
        ensures
            final(self).cursor <= ring.published_sequence,
            old(self).cursor == ring.published_sequence ==> out is None && final(self).cursor == old(self).cursor,
            old(self).cursor < ring.published_sequence ==> out == Some(ring.event_at(old(self).cursor as int))
                && final(self).cursor == old(self).cursor + 1,
    {
        let published_sequence = ring.published_sequence;
        if self.cursor == published_sequence {
            return None;
        }
        let slot = self.cursor % RING_CAPACITY;
        let event_read = ring.data[slot];
        self.cursor = self.cursor + 1;
        Some(event_read)
    }

    /// How many published events this reader has not read yet.
    pub fn lag(&self, ring: &RingBuffer<TSHIRT_SIZE, RING_CAPACITY>) -> (lag: usize)
        requires
            self.cursor <= ring.published_sequence,
        ensures
            lag == ring.published_sequence - self.cursor,
    {
        ring.published_sequence - self.cursor
    }

    /// More than 80% of a ring's capacity is waiting for this reader.
    pub fn is_under_pressure(&self, ring: &RingBuffer<TSHIRT_SIZE, RING_CAPACITY>) -> (b: bool)
        requires
            self.cursor <= ring.published_sequence,
        ensures
            b == ((ring.published_sequence - self.cursor) * 10 > RING_CAPACITY * 8),
    {
        let lag = self.lag(ring) as u128;
        lag * 10 > (RING_CAPACITY as u128) * 8
    }

    /// At least 90% of a ring's capacity is waiting for this reader.
    pub fn should_throttle(&self, ring: &RingBuffer<TSHIRT_SIZE, RING_CAPACITY>) -> (b: bool)
        requires
            self.cursor <= ring.published_sequence,
        ensures
            b == ((ring.published_sequence - self.cursor) * 10 >= RING_CAPACITY * 9),
    {
        let lag = self.lag(ring) as u128;
        lag * 10 >= (RING_CAPACITY as u128) * 9
    }
}

/// Publishing `events` (no more than the ring holds) in order, starting at sequence `start`,
/// leaves event `start + i` readable as `events[i]`: no published event is overwritten
/// before `RING_CAPACITY` later events have been published.
pub proof fn lemma_published_events_read_back<E>(slots: Seq<E>, start: int, events: Seq<E>, i: int)
    requires
        0 <= start,
        events.len() <= slots.len(),
        0 <= i < events.len(),
    ensures
        publish_all(slots, start, events)[slot_of(start + i, slots.len() as int)] == events[i],
    decreases events.len(),
{
    let n = slots.len() as int;
    let k = events.len() as int;
    let last = slot_of(start + k - 1, n);
    lemma_publish_all_len(slots, start, events.drop_last());
    vstd::arithmetic::div_mod::lemma_mod_bound(start + k - 1, n);
    if i < k - 1 {
        lemma_published_events_read_back(slots, start, events.drop_last(), i);
        vstd::arithmetic::div_mod::lemma_small_mod((k - 1 - i) as nat, n as nat);
        vstd::arithmetic::div_mod::lemma_mod_equivalence(start + k - 1, start + i, n);
        assert(slot_of(start + i, n) != last);
    }
}

/// One `Writer::add` extends the run of published events by one: if the slots are those left by
/// publishing `events` from sequence `start`, after adding `e` they are those left by publishing
/// `events` followed by `e`.
pub proof fn lemma_add_extends_published_run<const T: usize, const C: usize>(
    before: RingBuffer<T, C>,
    after: RingBuffer<T, C>,
    e: PooledEvent<T>,
    slots: Seq<PooledEvent<T>>,
    start: int,
    events: Seq<PooledEvent<T>>,
)
    requires
        after.publishes(&before, e),
        slots.len() == C,
        before.data@ == publish_all(slots, start, events),
        before.published_sequence == start + events.len(),
    ensures
        after.data@ == publish_all(slots, start, events.push(e)),
        after.published_sequence == start + events.push(e).len(),
{
    assert(events.push(e).drop_last() =~= events);
}

/// What a reader is handed is what the writer published at that sequence, as long as no more
/// than `RING_CAPACITY` events have been published since: reading `start + i` after publishing
/// `events` from `start` yields `events[i]`.
pub proof fn lemma_ring_reads_back_writes<const T: usize, const C: usize>(
    ring: RingBuffer<T, C>,
    slots: Seq<PooledEvent<T>>,
    start: int,
    events: Seq<PooledEvent<T>>,
    i: int,
)
    requires
        slots.len() == C,
        0 <= start,
        ring.data@ == publish_all(slots, start, events),
        events.len() <= C,
        0 <= i < events.len(),
    ensures
        ring.event_at(start + i) == events[i],
{
    lemma_published_events_read_back(slots, start, events, i);
}

/// An event that holds `bytes` hands back exactly `bytes` as its payload.
pub proof fn lemma_held_bytes_read_back<const N: usize>(e: PooledEvent<N>, bytes: Seq<u8>, event_type: u32)
    requires
        e.holds(bytes, event_type),
        bytes.len() <= N,
        bytes.len() <= u32::MAX,
    ensures
        e.payload() == bytes,
        e.event_type == event_type,
        e.well_formed(),
{
    assert(e.payload() =~= bytes);
}

/// Publishing never changes how many slots a ring has.
pub proof fn lemma_publish_all_len<E>(slots: Seq<E>, start: int, events: Seq<E>)
    requires
        slots.len() > 0,
    ensures
        publish_all(slots, start, events).len() == slots.len(),
    decreases events.len(),
{
    if events.len() > 0 {
        lemma_publish_all_len(slots, start, events.drop_last());
        vstd::arithmetic::div_mod::lemma_mod_bound(start + events.len() - 1, slots.len() as int);
    }
}

} // verus!
