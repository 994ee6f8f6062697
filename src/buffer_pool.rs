use vstd::prelude::*;
use crossbeam_queue::ArrayQueue;

verus! {

/// Declares crossbeam's bounded lock-free queue, `ArrayQueue`, which holds
/// the idle buffers of each tier.
#[verifier::external_type_specification]
#[verifier::external_body]
#[verifier::reject_recursive_types(T)]
pub struct ExArrayQueue<T>(ArrayQueue<T>);

/// The buffers that a queue holds, oldest first.
pub uninterp spec fn queued_buffers(q: ArrayQueue<Vec<u8>>) -> Seq<Vec<u8>>;

/// The bound that a queue was created with.
pub uninterp spec fn queue_bound(q: ArrayQueue<Vec<u8>>) -> nat;

/// Relies on `ArrayQueue::new`: an empty queue bounded by `cap`. It panics
/// on a zero capacity, and on one whose next power of two above it does not
/// fit in a `usize`.
#[verifier::external_body]
fn new_queue(cap: usize) -> (r: ArrayQueue<Vec<u8>>)
    requires
        0 < cap <= 0x4000_0000,
    ensures
        queued_buffers(r) == Seq::<Vec<u8>>::empty(),
        queue_bound(r) == cap,
{
    ArrayQueue::new(cap)
}

/// Relies on `ArrayQueue::push_mut`: the buffer goes to the back unless the
/// queue holds as many buffers as its bound, in which case it is refused
/// and the queue stays as it was. Tells whether the buffer was taken.
#[verifier::external_body]
fn queue_push(q: &mut ArrayQueue<Vec<u8>>, buffer: Vec<u8>) -> (r: bool)
    ensures
        queue_bound(*final(q)) == queue_bound(*old(q)),
        r == (queued_buffers(*old(q)).len() < queue_bound(*old(q))),
        r ==> queued_buffers(*final(q)) == queued_buffers(*old(q)).push(buffer),
        !r ==> queued_buffers(*final(q)) == queued_buffers(*old(q)),
{
    q.push_mut(buffer).is_ok()
}

/// Relies on `ArrayQueue::pop_mut`: the oldest buffer leaves the queue;
/// `None` when the queue is empty.
#[verifier::external_body]
fn queue_pop(q: &mut ArrayQueue<Vec<u8>>) -> (r: Option<Vec<u8>>)
    ensures
        queue_bound(*final(q)) == queue_bound(*old(q)),
        queued_buffers(*old(q)).len() == 0 ==> r is None && queued_buffers(*final(q))
            == queued_buffers(*old(q)),
        queued_buffers(*old(q)).len() > 0 ==> r == Some(queued_buffers(*old(q))[0])
            && queued_buffers(*final(q)) == queued_buffers(*old(q)).drop_first(),
{
    q.pop_mut()
}

/// Relies on `ArrayQueue::len`: the number of buffers held.
#[verifier::external_body]
fn queue_len(q: &ArrayQueue<Vec<u8>>) -> (r: usize)
    ensures
        r == queued_buffers(*q).len(),
{
    q.len()
}

/// Relies on `Vec::capacity`: what the allocator gave, at least the length.
#[verifier::external_body]
fn buffer_capacity(b: &Vec<u8>) -> (r: usize)
    ensures
        r >= b@.len(),
{
    b.capacity()
}

/// Capacity of a small buffer: 4 KiB.
pub const SMALL_BUFFER_SIZE: usize = 4096;

/// Capacity of a medium buffer: 64 KiB.
pub const MEDIUM_BUFFER_SIZE: usize = 65536;

/// Capacity of a large buffer: 256 KiB.
pub const LARGE_BUFFER_SIZE: usize = 262144;

/// How many small buffers the pool keeps.
pub const SMALL_POOL_SIZE: usize = 1024;

/// How many medium buffers the pool keeps.
pub const MEDIUM_POOL_SIZE: usize = 128;

/// How many large buffers the pool keeps.
pub const LARGE_POOL_SIZE: usize = 32;

/// A size class of pooled buffers.
#[derive(Debug, Clone, Copy, PartialEq, Eq, Structural)]
pub enum Tier {
    Small,
    Medium,
    Large,
}

/// The buffer capacity of a tier.
pub open spec fn tier_size(t: Tier) -> usize {
    match t {
        Tier::Small => SMALL_BUFFER_SIZE,
        Tier::Medium => MEDIUM_BUFFER_SIZE,
        Tier::Large => LARGE_BUFFER_SIZE,
    }
}

/// How many idle buffers a tier keeps at most.
pub open spec fn tier_count(t: Tier) -> usize {
    match t {
        Tier::Small => SMALL_POOL_SIZE,
        Tier::Medium => MEDIUM_POOL_SIZE,
        Tier::Large => LARGE_POOL_SIZE,
    }
}

/// The smallest tier whose capacity covers `size`; none above the largest.
pub open spec fn tier_for_request(size: usize) -> Option<Tier> {
    if size <= SMALL_BUFFER_SIZE {
        Some(Tier::Small)
    } else if size <= MEDIUM_BUFFER_SIZE {
        Some(Tier::Medium)
    } else if size <= LARGE_BUFFER_SIZE {
        Some(Tier::Large)
    } else {
        None
    }
}

/// The tier whose capacity is exactly `capacity`, if any.
pub open spec fn tier_for_capacity(capacity: usize) -> Option<Tier> {
    if capacity == SMALL_BUFFER_SIZE {
        Some(Tier::Small)
    } else if capacity == MEDIUM_BUFFER_SIZE {
        Some(Tier::Medium)
    } else if capacity == LARGE_BUFFER_SIZE {
        Some(Tier::Large)
    } else {
        None
    }
}

/// One more, saturating.
pub open spec fn bump(n: u64) -> u64 {
    if n < u64::MAX {
        (n + 1) as u64
    } else {
        n
    }
}

/// Size-tiered reusable byte buffers with hit and miss counters.
pub struct BufferPool {
    small: ArrayQueue<Vec<u8>>,
    medium: ArrayQueue<Vec<u8>>,
    large: ArrayQueue<Vec<u8>>,
    small_hits: u64,
    small_misses: u64,
    medium_hits: u64,
    medium_misses: u64,
    large_hits: u64,
    large_misses: u64,
}

/// The statistics of one tier.
#[derive(Debug, Clone, Copy, PartialEq, Eq, Structural)]
pub struct TierStats {
    pub hits: u64,
    pub misses: u64,
    /// Hits and misses together.
    pub total: u128,
    /// Idle buffers held.
    pub available: usize,
    /// The most idle buffers the tier keeps.
    pub capacity: usize,
}

/// The statistics of the whole pool.
#[derive(Debug, Clone, Copy, PartialEq, Eq, Structural)]
pub struct BufferPoolStats {
    pub small: TierStats,
    pub medium: TierStats,
    pub large: TierStats,
}

impl BufferPool {
    /// The queue of a tier.
    pub closed spec fn queue(&self, t: Tier) -> ArrayQueue<Vec<u8>> {
        match t {
            Tier::Small => self.small,
            Tier::Medium => self.medium,
            Tier::Large => self.large,
        }
    }

    /// The idle buffers of a tier, oldest first.
    pub open spec fn idle(&self, t: Tier) -> Seq<Vec<u8>> {
        queued_buffers(self.queue(t))
    }

    /// Requests of a tier served from the pool.
    pub closed spec fn hits(&self, t: Tier) -> u64 {
        match t {
            Tier::Small => self.small_hits,
            Tier::Medium => self.medium_hits,
            Tier::Large => self.large_hits,
        }
    }

    /// Requests of a tier served by a fresh allocation.
    pub closed spec fn misses(&self, t: Tier) -> u64 {
        match t {
            Tier::Small => self.small_misses,
            Tier::Medium => self.medium_misses,
            Tier::Large => self.large_misses,
        }
    }

    /// A tier's queue is bounded by the tier's count and holds no more.
    pub open spec fn tier_wf(&self, t: Tier) -> bool {
        &&& queue_bound(self.queue(t)) == tier_count(t)
        &&& self.idle(t).len() <= tier_count(t)
    }

    pub open spec fn wf(&self) -> bool {
        &&& self.tier_wf(Tier::Small)
        &&& self.tier_wf(Tier::Medium)
        &&& self.tier_wf(Tier::Large)
    }

    /// Tier `u` holds the same buffers and counts as in `other`.
    pub open spec fn unchanged_tier(&self, other: &BufferPool, u: Tier) -> bool {
        &&& self.idle(u) == other.idle(u)
        &&& queue_bound(self.queue(u)) == queue_bound(other.queue(u))
        &&& self.hits(u) == other.hits(u)
        &&& self.misses(u) == other.misses(u)
    }

    /// Every tier but `t` is as in `other`.
    pub open spec fn same_but(&self, other: &BufferPool, t: Tier) -> bool {
        forall|u: Tier| u != t ==> #[trigger] self.unchanged_tier(other, u)
    }

    /// Every tier is as in `other`.
    pub open spec fn unchanged(&self, other: &BufferPool) -> bool {
        forall|u: Tier| #[trigger] self.unchanged_tier(other, u)
    }

    /// An empty pool with all counters at zero.
    pub fn new() -> (r: BufferPool)
        ensures
            r.wf(),
            forall|t: Tier|
                #![auto]
                r.idle(t).len() == 0 && r.hits(t) == 0 && r.misses(t) == 0,
    {
        BufferPool {
            small: new_queue(SMALL_POOL_SIZE),
            medium: new_queue(MEDIUM_POOL_SIZE),
            large: new_queue(LARGE_POOL_SIZE),
            small_hits: 0,
            small_misses: 0,
            medium_hits: 0,
            medium_misses: 0,
            large_hits: 0,
            large_misses: 0,
        }
    }
}

/// `new` is `old` after a buffer of tier `t` was asked for: an idle one
/// left the front of the tier, counting a hit, or the tier had none,
/// counting a miss.
pub open spec fn took_from(new: &BufferPool, old: &BufferPool, t: Tier) -> bool {
    &&& new.same_but(old, t)
    &&& queue_bound(new.queue(t)) == queue_bound(old.queue(t))
    &&& if old.idle(t).len() > 0 {
        &&& new.idle(t) == old.idle(t).drop_first()
        &&& new.hits(t) == bump(old.hits(t))
        &&& new.misses(t) == old.misses(t)
    } else {
        &&& new.idle(t) == old.idle(t)
        &&& new.hits(t) == old.hits(t)
        &&& new.misses(t) == bump(old.misses(t))
    }
}

/// `new` is `old` after a buffer of capacity `capacity` was given back: it
/// joined the tier of exactly that capacity unless the tier was full, and
/// nothing else changed.
pub open spec fn gave_back(new: &BufferPool, old: &BufferPool, buffer: Vec<u8>, capacity: usize) -> bool {
    match tier_for_capacity(capacity) {
        Some(t) => {
            &&& new.same_but(old, t)
            &&& queue_bound(new.queue(t)) == queue_bound(old.queue(t))
            &&& new.hits(t) == old.hits(t)
            &&& new.misses(t) == old.misses(t)
            &&& new.idle(t) == if old.idle(t).len() < tier_count(t) {
                old.idle(t).push(buffer)
            } else {
                old.idle(t)
            }
        },
        None => new.unchanged(old),
    }
}

/// Takes an idle buffer of tier `t`, emptied, counting a hit; or, when the
/// tier has none, allocates a fresh one of the tier's capacity, counting a
/// miss.
fn take_from_tier(pool: &mut BufferPool, t: Tier) -> (r: Vec<u8>)
    requires
        old(pool).wf(),
    ensures
        final(pool).wf(),
        r@.len() == 0,
        took_from(final(pool), old(pool), t),
{
    let popped = match t {
        Tier::Small => queue_pop(&mut pool.small),
        Tier::Medium => queue_pop(&mut pool.medium),
        Tier::Large => queue_pop(&mut pool.large),
    };
    match popped {
        Some(mut buffer) => {
            match t {
                Tier::Small => pool.small_hits = pool.small_hits.saturating_add(1),
                Tier::Medium => pool.medium_hits = pool.medium_hits.saturating_add(1),
                Tier::Large => pool.large_hits = pool.large_hits.saturating_add(1),
            }
            buffer.clear();
            buffer
        },
        None => {
            let size = match t {
                Tier::Small => {
                    pool.small_misses = pool.small_misses.saturating_add(1);
                    SMALL_BUFFER_SIZE
                },
                Tier::Medium => {
                    pool.medium_misses = pool.medium_misses.saturating_add(1);
                    MEDIUM_BUFFER_SIZE
                },
                Tier::Large => {
                    pool.large_misses = pool.large_misses.saturating_add(1);
                    LARGE_BUFFER_SIZE
                },
            };
            Vec::with_capacity(size)
        },
    }
}

/// Fills every tier with fresh, empty buffers of its capacity up to its
/// count; the buffers already idle stay in front.
pub fn initialize_buffer_pools(pool: &mut BufferPool)
    requires
        old(pool).wf(),
    ensures
        final(pool).wf(),
        forall|t: Tier|
            #![auto]
            filled(final(pool), old(pool), t),
{
    let ghost start = *pool;
    fill_tier(pool, Tier::Small);
    let ghost small_done = *pool;
    fill_tier(pool, Tier::Medium);
    let ghost medium_done = *pool;
    fill_tier(pool, Tier::Large);
    assert(medium_done.unchanged_tier(&small_done, Tier::Small));
    assert(pool.unchanged_tier(&medium_done, Tier::Small));
    assert(pool.unchanged_tier(&medium_done, Tier::Medium));
    assert(small_done.unchanged_tier(&start, Tier::Medium));
    assert(small_done.unchanged_tier(&start, Tier::Large));
    assert(medium_done.unchanged_tier(&small_done, Tier::Large));
    assert forall|t: Tier| #![auto] filled(pool, &start, t) by {
        match t {
            Tier::Small => assert(filled(&small_done, &start, Tier::Small)),
            Tier::Medium => assert(filled(&medium_done, &small_done, Tier::Medium)),
            Tier::Large => {},
        }
    }
}

/// `new` is `old` with tier `t` topped up to its count with empty buffers.
pub open spec fn filled(new: &BufferPool, old: &BufferPool, t: Tier) -> bool {
    &&& new.idle(t).len() == tier_count(t)
    &&& new.idle(t).subrange(0, old.idle(t).len() as int) == old.idle(t)
    &&& forall|i: int| old.idle(t).len() <= i < new.idle(t).len() ==> (#[trigger] new.idle(t)[i])@.len() == 0
    &&& new.hits(t) == old.hits(t)
    &&& new.misses(t) == old.misses(t)
}

/// Pushes fresh buffers of tier `t` until the tier is full.
fn fill_tier(pool: &mut BufferPool, t: Tier)
    requires
        old(pool).wf(),
    ensures
        final(pool).wf(),
        final(pool).same_but(old(pool), t),
        filled(final(pool), old(pool), t),
{
    let (size, count) = match t {
        Tier::Small => (SMALL_BUFFER_SIZE, SMALL_POOL_SIZE),
        Tier::Medium => (MEDIUM_BUFFER_SIZE, MEDIUM_POOL_SIZE),
        Tier::Large => (LARGE_BUFFER_SIZE, LARGE_POOL_SIZE),
    };
    let ghost start = pool.idle(t);
    let mut n: usize = match t {
        Tier::Small => queue_len(&pool.small),
        Tier::Medium => queue_len(&pool.medium),
        Tier::Large => queue_len(&pool.large),
    };
    while n < count
        invariant
            pool.wf(),
            count == tier_count(t),
            n == pool.idle(t).len(),
            pool.same_but(old(pool), t),
            start == old(pool).idle(t),
            start.len() <= n,
            pool.idle(t).subrange(0, start.len() as int) == start,
            forall|i: int| start.len() <= i < pool.idle(t).len() ==> (#[trigger] pool.idle(t)[i])@.len() == 0,
            pool.hits(t) == old(pool).hits(t),
            pool.misses(t) == old(pool).misses(t),
        decreases count - n,
    {
        let buffer: Vec<u8> = Vec::with_capacity(size);
        let ghost before = pool.idle(t);
        let ghost previous = *pool;
        let pushed = match t {
            Tier::Small => queue_push(&mut pool.small, buffer),
            Tier::Medium => queue_push(&mut pool.medium, buffer),
            Tier::Large => queue_push(&mut pool.large, buffer),
        };
        assert(pushed);
        assert(pool.idle(t) == before.push(buffer));
        assert forall|u: Tier| u != t implies #[trigger] pool.unchanged_tier(old(pool), u) by {
            assert(previous.unchanged_tier(old(pool), u));
        }
        assert(pool.idle(t).subrange(0, start.len() as int) =~= before.subrange(0, start.len() as int));
        n = n + 1;
    }
}

/// A buffer whose capacity covers `required_size`: an emptied idle buffer
/// of the smallest tier that fits, or a fresh one of that tier's capacity
/// when the tier has none; above the largest tier, a fresh buffer of
/// exactly the size asked, with the pool left alone.
pub fn get_sized_buffer(pool: &mut BufferPool, required_size: usize) -> (r: Vec<u8>)
    requires
        old(pool).wf(),
        required_size <= isize::MAX,
    ensures
        final(pool).wf(),
        r@.len() == 0,
        match tier_for_request(required_size) {
            Some(t) => took_from(final(pool), old(pool), t),
            None => final(pool).unchanged(old(pool)),
        },
{
    if required_size <= SMALL_BUFFER_SIZE {
        take_from_tier(pool, Tier::Small)
    } else if required_size <= MEDIUM_BUFFER_SIZE {
        take_from_tier(pool, Tier::Medium)
    } else if required_size <= LARGE_BUFFER_SIZE {
        take_from_tier(pool, Tier::Large)
    } else {
        Vec::with_capacity(required_size)
    }
}

/// A small (4 KiB) buffer: an emptied idle one, or a fresh one on a miss.
pub fn get_small_buffer(pool: &mut BufferPool) -> (r: Vec<u8>)
    requires
        old(pool).wf(),
    ensures
        final(pool).wf(),
        r@.len() == 0,
        took_from(final(pool), old(pool), Tier::Small),
{
    take_from_tier(pool, Tier::Small)
}

/// A medium (64 KiB) buffer: an emptied idle one, or a fresh one on a miss.
pub fn get_medium_buffer(pool: &mut BufferPool) -> (r: Vec<u8>)
    requires
        old(pool).wf(),
    ensures
        final(pool).wf(),
        r@.len() == 0,
        took_from(final(pool), old(pool), Tier::Medium),
{
    take_from_tier(pool, Tier::Medium)
}

/// A large (256 KiB) buffer: an emptied idle one, or a fresh one on a miss.
pub fn get_large_buffer(pool: &mut BufferPool) -> (r: Vec<u8>)
    requires
        old(pool).wf(),
    ensures
        final(pool).wf(),
        r@.len() == 0,
        took_from(final(pool), old(pool), Tier::Large),
{
    take_from_tier(pool, Tier::Large)
}

/// Gives back a buffer of the stated capacity: it joins the tier of exactly
/// that capacity unless the tier is full; a buffer of any other capacity is
/// dropped.
pub fn return_buffer_with_capacity(pool: &mut BufferPool, buffer: Vec<u8>, capacity: usize)
    requires
        old(pool).wf(),
    ensures
        final(pool).wf(),
        gave_back(final(pool), old(pool), buffer, capacity),
{
    if capacity == SMALL_BUFFER_SIZE {
        let _ = queue_push(&mut pool.small, buffer);
    } else if capacity == MEDIUM_BUFFER_SIZE {
        let _ = queue_push(&mut pool.medium, buffer);
    } else if capacity == LARGE_BUFFER_SIZE {
        let _ = queue_push(&mut pool.large, buffer);
    }
}

/// Gives a buffer back to the tier of exactly its capacity, if there is one
/// and it is not full; any other buffer is dropped. Either the pool is left
/// as it was, or this buffer joined the back of one tier and nothing else
/// changed.
pub fn return_buffer(pool: &mut BufferPool, buffer: Vec<u8>)
    requires
        old(pool).wf(),
    ensures
        final(pool).wf(),
        final(pool).unchanged(old(pool)) || exists|t: Tier|
            #![auto]
            final(pool).same_but(old(pool), t) && final(pool).idle(t) == old(pool).idle(t).push(
                buffer,
            ) && final(pool).hits(t) == old(pool).hits(t) && final(pool).misses(t) == old(
                pool,
            ).misses(t),
{
    let capacity = buffer_capacity(&buffer);
    return_buffer_with_capacity(pool, buffer, capacity);
    proof {
        if let Some(t) = tier_for_capacity(capacity) {
            if old(pool).idle(t).len() >= tier_count(t) {
                assert(final(pool).unchanged_tier(old(pool), t));
                assert(final(pool).unchanged(old(pool)));
            }
        }
    }
}

/// Gathers the figures that the pool's statistics line reports: per tier,
/// the hits, the misses, their total, and the idle buffers against the
/// tier's count.
pub fn log_buffer_pool_stats(pool: &BufferPool) -> (r: BufferPoolStats)
    requires
        pool.wf(),
    ensures
        r.small == tier_stats_of(pool, Tier::Small),
        r.medium == tier_stats_of(pool, Tier::Medium),
        r.large == tier_stats_of(pool, Tier::Large),
{
    BufferPoolStats {
        small: TierStats {
            hits: pool.small_hits,
            misses: pool.small_misses,
            total: pool.small_hits as u128 + pool.small_misses as u128,
            available: queue_len(&pool.small),
            capacity: SMALL_POOL_SIZE,
        },
        medium: TierStats {
            hits: pool.medium_hits,
            misses: pool.medium_misses,
            total: pool.medium_hits as u128 + pool.medium_misses as u128,
            available: queue_len(&pool.medium),
            capacity: MEDIUM_POOL_SIZE,
        },
        large: TierStats {
            hits: pool.large_hits,
            misses: pool.large_misses,
            total: pool.large_hits as u128 + pool.large_misses as u128,
            available: queue_len(&pool.large),
            capacity: LARGE_POOL_SIZE,
        },
    }
}

/// The statistics of tier `t` of a pool.
pub open spec fn tier_stats_of(pool: &BufferPool, t: Tier) -> TierStats {
    TierStats {
        hits: pool.hits(t),
        misses: pool.misses(t),
        total: (pool.hits(t) + pool.misses(t)) as u128,
        available: pool.idle(t).len() as usize,
        capacity: tier_count(t),
    }
}

/// Taking a buffer of a tier and giving a buffer back never leaves more
/// idle buffers in the tier than its count; when the tier had an idle
/// buffer and the buffer given back has the tier's capacity, the tier holds
/// as many as before; and a buffer whose capacity is no tier's joins no
/// tier.
pub proof fn lemma_pool_round_trip(
    before: &BufferPool,
    taken: &BufferPool,
    returned: &BufferPool,
    t: Tier,
    buffer: Vec<u8>,
    capacity: usize,
)
    requires
        before.wf(),
        taken.wf(),
        returned.wf(),
        took_from(taken, before, t),
        gave_back(returned, taken, buffer, capacity),
    ensures
        returned.idle(t).len() <= tier_count(t),
        before.idle(t).len() > 0 && capacity == tier_size(t) ==> returned.idle(t).len() == before.idle(t).len(),
        tier_for_capacity(capacity) is None ==> returned.unchanged(taken),
{
}

} // verus!
