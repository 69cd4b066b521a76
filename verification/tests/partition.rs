use shard_supervisor::partition::{compute_range, ConfigError, FleetTopology, ShardRange};

#[test]
fn three_managers_ten_shards_first() {
    assert_eq!(compute_range(0, 3, 10), Some(ShardRange { low: 0, high: 2 }));
}

#[test]
fn three_managers_ten_shards_second() {
    assert_eq!(compute_range(1, 3, 10), Some(ShardRange { low: 3, high: 5 }));
}

#[test]
fn three_managers_ten_shards_third() {
    assert_eq!(compute_range(2, 3, 10), Some(ShardRange { low: 6, high: 9 }));
}

#[test]
fn more_managers_than_shards_is_empty() {
    // The formula gives high = floor(1 * 2 / 5) - 1 < low: normalized to an
    // explicit empty range, owning no shards.
    assert_eq!(compute_range(0, 5, 2), None);
}

#[test]
fn identical_inputs_identical_output() {
    let a = compute_range(7, 16, 1000);
    let b = compute_range(7, 16, 1000);
    assert_eq!(a, b);
}

#[test]
fn ranges_tile_the_fleet() {
    // Concatenated in ordinal order, the ranges cover [0, 10) exactly once.
    let mut next = 0u64;
    for ordinal in 0..4u64 {
        if let Some(r) = compute_range(ordinal, 4, 10) {
            assert_eq!(r.low, next);
            assert!(r.low <= r.high);
            assert!(r.high < 10);
            next = r.high + 1;
        }
    }
    assert_eq!(next, 10);
}

#[test]
fn ranges_tile_with_empty_buckets() {
    // With more managers than shards some buckets are empty; the rest still
    // tile [0, 2) in order.
    let mut next = 0u64;
    for ordinal in 0..5u64 {
        if let Some(r) = compute_range(ordinal, 5, 2) {
            assert_eq!(r.low, next);
            next = r.high + 1;
        }
    }
    assert_eq!(next, 2);
}

#[test]
fn bucket_sizes_differ_by_at_most_one() {
    let mut sizes = Vec::new();
    for ordinal in 0..7u64 {
        let n = match compute_range(ordinal, 7, 33) {
            Some(r) => r.high - r.low + 1,
            None => 0,
        };
        sizes.push(n);
    }
    let min = *sizes.iter().min().unwrap();
    let max = *sizes.iter().max().unwrap();
    assert!(max - min <= 1);
    assert_eq!(sizes.iter().sum::<u64>(), 33);
}

#[test]
fn single_manager_owns_everything() {
    assert_eq!(compute_range(0, 1, 5), Some(ShardRange { low: 0, high: 4 }));
}

#[test]
fn topology_rejects_zero_shards() {
    assert_eq!(FleetTopology::new(0, 3, 0), Err(ConfigError::NoShards));
}

#[test]
fn topology_rejects_zero_managers() {
    assert_eq!(FleetTopology::new(10, 0, 0), Err(ConfigError::NoManagers));
}

#[test]
fn topology_rejects_ordinal_out_of_range() {
    assert_eq!(FleetTopology::new(10, 3, 3), Err(ConfigError::OrdinalOutOfRange));
}

#[test]
fn topology_accepts_valid_configuration() {
    let t = FleetTopology::new(10, 3, 2).unwrap();
    assert_eq!(t.total_shards, 10);
    assert_eq!(t.manager_count, 3);
    assert_eq!(t.manager_ordinal, 2);
    assert_eq!(t.owned_range(), Some(ShardRange { low: 6, high: 9 }));
}

#[test]
fn range_len_counts_inclusively() {
    let r = ShardRange { low: 3, high: 5 };
    assert_eq!(r.len(), 3);
}
