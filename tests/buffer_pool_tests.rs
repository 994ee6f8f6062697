use iggy_tcp::buffer_pool::{
    get_large_buffer, get_medium_buffer, get_sized_buffer, get_small_buffer,
    initialize_buffer_pools, log_buffer_pool_stats, return_buffer, return_buffer_with_capacity,
    BufferPool,
};

#[test]
fn empty_pool_misses_and_allocates() {
    let mut pool = BufferPool::new();
    let b = get_sized_buffer(&mut pool, 100);
    assert!(b.is_empty());
    assert!(b.capacity() >= 4096);
    let stats = log_buffer_pool_stats(&pool);
    assert_eq!((stats.small.hits, stats.small.misses, stats.small.total), (0, 1, 1));
    assert_eq!(stats.small.available, 0);
}

#[test]
fn sized_requests_pick_the_smallest_tier() {
    let mut pool = BufferPool::new();
    get_sized_buffer(&mut pool, 4096);
    get_sized_buffer(&mut pool, 4097);
    get_sized_buffer(&mut pool, 65536);
    get_sized_buffer(&mut pool, 262144);
    let big = get_sized_buffer(&mut pool, 262145);
    assert!(big.capacity() >= 262145);
    let stats = log_buffer_pool_stats(&pool);
    assert_eq!(stats.small.misses, 1);
    assert_eq!(stats.medium.misses, 2);
    assert_eq!(stats.large.misses, 1);
}

#[test]
fn prewarm_fills_every_tier() {
    let mut pool = BufferPool::new();
    initialize_buffer_pools(&mut pool);
    let stats = log_buffer_pool_stats(&pool);
    assert_eq!((stats.small.available, stats.small.capacity), (1024, 1024));
    assert_eq!((stats.medium.available, stats.medium.capacity), (128, 128));
    assert_eq!((stats.large.available, stats.large.capacity), (32, 32));
    initialize_buffer_pools(&mut pool);
    assert_eq!(log_buffer_pool_stats(&pool).small.available, 1024);
}

#[test]
fn hit_takes_an_idle_buffer_emptied() {
    let mut pool = BufferPool::new();
    let mut b = Vec::with_capacity(4096);
    b.extend_from_slice(b"stale");
    return_buffer_with_capacity(&mut pool, b, 4096);
    assert_eq!(log_buffer_pool_stats(&pool).small.available, 1);
    let b = get_small_buffer(&mut pool);
    assert!(b.is_empty());
    let stats = log_buffer_pool_stats(&pool);
    assert_eq!((stats.small.hits, stats.small.misses, stats.small.available), (1, 0, 0));
}

#[test]
fn round_trip_keeps_tier_count() {
    let mut pool = BufferPool::new();
    initialize_buffer_pools(&mut pool);
    let mut taken = Vec::new();
    for _ in 0..10 {
        taken.push(get_medium_buffer(&mut pool));
    }
    assert_eq!(log_buffer_pool_stats(&pool).medium.available, 118);
    for b in taken {
        return_buffer(&mut pool, b);
    }
    let stats = log_buffer_pool_stats(&pool);
    assert_eq!(stats.medium.available, 128);
    assert_eq!(stats.medium.hits, 10);
}

#[test]
fn full_tier_drops_returned_buffer() {
    let mut pool = BufferPool::new();
    initialize_buffer_pools(&mut pool);
    return_buffer_with_capacity(&mut pool, Vec::new(), 262144);
    assert_eq!(log_buffer_pool_stats(&pool).large.available, 32);
}

#[test]
fn odd_sized_buffer_joins_no_tier() {
    let mut pool = BufferPool::new();
    return_buffer(&mut pool, Vec::with_capacity(1000));
    return_buffer_with_capacity(&mut pool, Vec::new(), 1000);
    let stats = log_buffer_pool_stats(&pool);
    assert_eq!((stats.small.available, stats.medium.available, stats.large.available), (0, 0, 0));
}

#[test]
fn large_buffer_round_trip() {
    let mut pool = BufferPool::new();
    let b = get_large_buffer(&mut pool);
    assert!(b.capacity() >= 262144);
    return_buffer_with_capacity(&mut pool, b, 262144);
    let b = get_large_buffer(&mut pool);
    assert!(b.is_empty());
    let stats = log_buffer_pool_stats(&pool);
    assert_eq!((stats.large.hits, stats.large.misses, stats.large.total), (1, 1, 2));
}
