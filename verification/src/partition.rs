//! Shard-range partitioning.
//!
//! Divides a fixed fleet-wide shard count into `manager_count` contiguous,
//! near-equal buckets by the floor-division formula
//! `low = floor(ordinal * total / count)`,
//! `high = floor((ordinal + 1) * total / count) - 1`,
//! so that the buckets of ordinals `0 .. manager_count` tile
//! `[0, total_shards)` with no gap and no overlap, remainder shards accruing
//! to the lowest ordinals first.
//!
//! When the formula yields `high < low` (possible when
//! `total_shards < manager_count`), the range is normalized to an explicit
//! empty result: the ordinal owns no shards and starts no sessions. This is
//! a deliberate policy, not an accident of the arithmetic.

use vstd::prelude::*;

verus! {

use vstd::arithmetic::div_mod::lemma_div_is_ordered;
use vstd::arithmetic::div_mod::lemma_div_multiples_vanish;
use vstd::arithmetic::div_mod::lemma_div_pos_is_pos;
use vstd::arithmetic::div_mod::lemma_fundamental_div_mod;
use vstd::arithmetic::div_mod::lemma_fundamental_div_mod_converse_div;
use vstd::arithmetic::div_mod::lemma_mod_division_less_than_divisor;
use vstd::arithmetic::mul::lemma_mul_is_commutative;
use vstd::arithmetic::mul::lemma_mul_is_distributive_add;
use vstd::arithmetic::mul::lemma_mul_inequality;
use vstd::arithmetic::mul::lemma_mul_upper_bound;

/// Why a fleet configuration was rejected at startup.
#[derive(Clone, Copy, PartialEq, Eq, Structural, Debug)]
pub enum ConfigError {
    /// `total_shards` was zero.
    NoShards,
    /// `manager_count` was zero.
    NoManagers,
    /// `manager_ordinal` was not below `manager_count`.
    OrdinalOutOfRange,
}

/// Immutable fleet configuration, built once at process start: the total
/// shard count, the number of manager processes dividing it, and this
/// process's zero-based ordinal among them.
#[derive(Clone, Copy, PartialEq, Eq, Structural, Debug)]
pub struct FleetTopology {
    pub total_shards: u64,
    pub manager_count: u64,
    pub manager_ordinal: u64,
}

impl FleetTopology {
    /// At least one shard, at least one manager, and the ordinal is a proper
    /// index among the managers.
    pub open spec fn valid(self) -> bool {
        &&& 1 <= self.total_shards
        &&& 1 <= self.manager_count
        &&& self.manager_ordinal < self.manager_count
    }

    /// Validate externally supplied configuration. Succeeds exactly on valid
    /// topologies; each rejection names the first field at fault.
    pub fn new(total_shards: u64, manager_count: u64, manager_ordinal: u64) -> (r: Result<
        FleetTopology,
        ConfigError,
    >)
        ensures
            match r {
                Ok(t) => {
                    &&& t.total_shards == total_shards
                    &&& t.manager_count == manager_count
                    &&& t.manager_ordinal == manager_ordinal
                    &&& t.valid()
                },
                Err(e) => {
                    &&& !(FleetTopology { total_shards, manager_count, manager_ordinal }).valid()
                    &&& e == (if total_shards == 0 {
                        ConfigError::NoShards
                    } else if manager_count == 0 {
                        ConfigError::NoManagers
                    } else {
                        ConfigError::OrdinalOutOfRange
                    })
                },
            },
    {
        if total_shards == 0 {
            Err(ConfigError::NoShards)
        } else if manager_count == 0 {
            Err(ConfigError::NoManagers)
        } else if manager_ordinal >= manager_count {
            Err(ConfigError::OrdinalOutOfRange)
        } else {
            Ok(FleetTopology { total_shards, manager_count, manager_ordinal })
        }
    }

    /// The range of shards this process owns, `None` when the formula gives
    /// it none.
    pub fn owned_range(&self) -> (r: Option<ShardRange>)
        requires
            self.valid(),
        ensures
            r == spec_compute_range(
                self.manager_ordinal as int,
                self.manager_count as int,
                self.total_shards as int,
            ),
    {
        compute_range(self.manager_ordinal, self.manager_count, self.total_shards)
    }
}

/// The inclusive range `[low, high]` of shard indices one manager owns.
#[derive(Clone, Copy, PartialEq, Eq, Structural, Debug)]
pub struct ShardRange {
    pub low: u64,
    pub high: u64,
}

impl ShardRange {
    /// A range is well formed when it is non-empty and both ends are proper
    /// shard indices of the given total.
    pub open spec fn wf(self, total_shards: int) -> bool {
        self.low <= self.high < total_shards
    }

    /// How many shards the range holds.
    pub fn len(&self) -> (n: u64)
        requires
            self.low <= self.high,
            self.high - self.low + 1 <= u64::MAX,
        ensures
            n == self.high - self.low + 1,
    {
        self.high - self.low + 1
    }
}

/// The boundary below ordinal `o`'s bucket: `floor(o * total_shards /
/// manager_count)`. Bucket `o` is exactly `[cut(o), cut(o + 1))`.
pub open spec fn cut(o: int, manager_count: int, total_shards: int) -> int {
    o * total_shards / manager_count
}

/// Lower end of ordinal `o`'s bucket.
pub open spec fn range_low(o: int, manager_count: int, total_shards: int) -> int {
    cut(o, manager_count, total_shards)
}

/// Inclusive upper end of ordinal `o`'s bucket; below `range_low` when the
/// bucket is empty.
pub open spec fn range_high(o: int, manager_count: int, total_shards: int) -> int {
    cut(o + 1, manager_count, total_shards) - 1
}

/// Whether shard `s` falls in ordinal `o`'s bucket.
pub open spec fn owns(o: int, manager_count: int, total_shards: int, s: int) -> bool {
    range_low(o, manager_count, total_shards) <= s <= range_high(o, manager_count, total_shards)
}

/// What `compute_range` returns: the formula's range, normalized to `None`
/// when it is empty.
pub open spec fn spec_compute_range(o: int, manager_count: int, total_shards: int) -> Option<
    ShardRange,
> {
    let lo = range_low(o, manager_count, total_shards);
    let hi = range_high(o, manager_count, total_shards);
    if hi < lo {
        None
    } else {
        Some(ShardRange { low: lo as u64, high: hi as u64 })
    }
}

/// Boundaries do not decrease with the ordinal.
pub proof fn lemma_cut_monotonic(manager_count: int, total_shards: int, a: int, b: int)
    requires
        1 <= manager_count,
        0 <= total_shards,
        a <= b,
    ensures
        cut(a, manager_count, total_shards) <= cut(b, manager_count, total_shards),
{
    lemma_mul_inequality(a, b, total_shards);
    lemma_div_is_ordered(a * total_shards, b * total_shards, manager_count);
}

/// The first boundary is zero, the last is the total: the buckets together
/// span exactly `[0, total_shards)`.
pub proof fn lemma_cut_ends(manager_count: int, total_shards: int)
    requires
        1 <= manager_count,
        0 <= total_shards,
    ensures
        cut(0, manager_count, total_shards) == 0,
        cut(manager_count, manager_count, total_shards) == total_shards,
{
    assert(0 * total_shards == 0);
    lemma_div_pos_is_pos(0, manager_count);
    assert(0int / manager_count == 0) by {
        lemma_div_multiples_vanish(0, manager_count);
    }
    assert(manager_count * total_shards / manager_count == total_shards) by {
        lemma_div_multiples_vanish(total_shards, manager_count);
    }
}

/// The ordinal whose bucket holds shard `s`, found by walking the boundaries
/// down from `o`.
proof fn lemma_find_owner(manager_count: int, total_shards: int, s: int, o: int) -> (r: int)
    requires
        1 <= manager_count,
        0 <= total_shards,
        0 <= s,
        0 <= o < manager_count,
        s < cut(o + 1, manager_count, total_shards),
    ensures
        0 <= r <= o,
        cut(r, manager_count, total_shards) <= s < cut(r + 1, manager_count, total_shards),
    decreases o,
{
    lemma_cut_ends(manager_count, total_shards);
    if cut(o, manager_count, total_shards) <= s {
        o
    } else {
        lemma_find_owner(manager_count, total_shards, s, o - 1)
    }
}

/// Law: the buckets of ordinals `0 .. manager_count` exactly tile
/// `[0, total_shards)`. Every shard falls in the bucket of exactly one
/// ordinal (an empty bucket owning no shard), so concatenating the ranges in
/// ordinal order covers the whole fleet with no gap and no overlap.
pub proof fn lemma_ranges_partition(manager_count: int, total_shards: int, s: int)
    requires
        1 <= manager_count,
        1 <= total_shards,
        0 <= s < total_shards,
    ensures
        exists|o: int|
            0 <= o < manager_count && #[trigger] owns(o, manager_count, total_shards, s),
        forall|o1: int, o2: int|
            0 <= o1 < manager_count && 0 <= o2 < manager_count && #[trigger] owns(
                o1,
                manager_count,
                total_shards,
                s,
            ) && #[trigger] owns(o2, manager_count, total_shards, s) ==> o1 == o2,
{
    lemma_cut_ends(manager_count, total_shards);
    let r = lemma_find_owner(manager_count, total_shards, s, manager_count - 1);
    assert(owns(r, manager_count, total_shards, s));
    assert forall|o1: int, o2: int|
        0 <= o1 < manager_count && 0 <= o2 < manager_count && #[trigger] owns(
            o1,
            manager_count,
            total_shards,
            s,
        ) && #[trigger] owns(o2, manager_count, total_shards, s) implies o1 == o2 by {
        if o1 < o2 {
            lemma_cut_monotonic(manager_count, total_shards, o1 + 1, o2);
        } else if o2 < o1 {
            lemma_cut_monotonic(manager_count, total_shards, o2 + 1, o1);
        }
    }
}

/// Law: consecutive buckets are adjacent: the shard above one ordinal's high
/// end is the next ordinal's low end.
pub proof fn lemma_ranges_adjacent(manager_count: int, total_shards: int, o: int)
    requires
        1 <= manager_count,
    ensures
        range_high(o, manager_count, total_shards) + 1 == range_low(
            o + 1,
            manager_count,
            total_shards,
        ),
{
}

/// How many shards ordinal `o`'s bucket holds.
pub open spec fn bucket_size(o: int, manager_count: int, total_shards: int) -> int {
    cut(o + 1, manager_count, total_shards) - cut(o, manager_count, total_shards)
}

/// Floor division distributes over a sum up to one unit.
proof fn lemma_div_add_bound(x: int, y: int, m: int)
    requires
        0 <= x,
        0 <= y,
        1 <= m,
    ensures
        x / m + y / m <= (x + y) / m <= x / m + y / m + 1,
{
    lemma_fundamental_div_mod(x, m);
    lemma_fundamental_div_mod(y, m);
    lemma_mod_division_less_than_divisor(x, m);
    lemma_mod_division_less_than_divisor(y, m);
    let s = x % m + y % m;
    lemma_mul_is_distributive_add(m, x / m, y / m);
    if s < m {
        lemma_mul_is_commutative(m, x / m + y / m);
        lemma_fundamental_div_mod_converse_div(x + y, m, x / m + y / m, s);
    } else {
        lemma_mul_is_distributive_add(m, x / m + y / m, 1);
        lemma_mul_is_commutative(m, x / m + y / m + 1);
        lemma_fundamental_div_mod_converse_div(x + y, m, x / m + y / m + 1, s - m);
    }
}

/// Law: the buckets are near-equal: every bucket holds either
/// `floor(total_shards / manager_count)` shards or one more.
pub proof fn lemma_bucket_size_near_equal(manager_count: int, total_shards: int, o: int)
    requires
        1 <= manager_count,
        0 <= total_shards,
        0 <= o,
    ensures
        total_shards / manager_count <= bucket_size(o, manager_count, total_shards)
            <= total_shards / manager_count + 1,
{
    assert((o + 1) * total_shards == o * total_shards + total_shards) by {
        lemma_mul_is_commutative(o + 1, total_shards);
        lemma_mul_is_distributive_add(total_shards, o, 1);
        lemma_mul_is_commutative(o, total_shards);
    }
    assert(0 <= o * total_shards) by {
        lemma_mul_inequality(0, o, total_shards);
    }
    lemma_div_add_bound(o * total_shards, total_shards, manager_count);
}

/// Law: bucket sizes differ by at most one across ordinals.
pub proof fn lemma_bucket_sizes_balanced(manager_count: int, total_shards: int, o1: int, o2: int)
    requires
        1 <= manager_count,
        0 <= total_shards,
        0 <= o1,
        0 <= o2,
    ensures
        -1 <= bucket_size(o1, manager_count, total_shards) - bucket_size(
            o2,
            manager_count,
            total_shards,
        ) <= 1,
{
    lemma_bucket_size_near_equal(manager_count, total_shards, o1);
    lemma_bucket_size_near_equal(manager_count, total_shards, o2);
}

/// The formula's bounds on a valid topology: the bucket lies inside
/// `[0, total_shards)`, and the computed range holds exactly `bucket_size`
/// shards — none when the bucket is empty.
pub proof fn lemma_range_bounds(o: int, manager_count: int, total_shards: int)
    requires
        1 <= manager_count,
        1 <= total_shards <= u64::MAX,
        0 <= o < manager_count,
    ensures
        0 <= range_low(o, manager_count, total_shards),
        range_high(o, manager_count, total_shards) < total_shards,
        range_low(o, manager_count, total_shards) <= range_high(o, manager_count, total_shards)
            + 1,
        match spec_compute_range(o, manager_count, total_shards) {
            Option::Some(rg) => {
                &&& rg.low == range_low(o, manager_count, total_shards)
                &&& rg.high == range_high(o, manager_count, total_shards)
                &&& bucket_size(o, manager_count, total_shards) == rg.high - rg.low + 1
            },
            Option::None => bucket_size(o, manager_count, total_shards) == 0,
        },
{
    lemma_mul_inequality(0, o, total_shards);
    assert(0 * total_shards == 0);
    lemma_div_pos_is_pos(o * total_shards, manager_count);
    lemma_mul_inequality(o + 1, manager_count, total_shards);
    lemma_div_is_ordered((o + 1) * total_shards, manager_count * total_shards, manager_count);
    lemma_div_multiples_vanish(total_shards, manager_count);
    lemma_cut_monotonic(manager_count, total_shards, o, o + 1);
}

/// Law: the range is a function of its inputs alone: two results computed
/// from identical inputs are identical.
pub proof fn lemma_compute_range_deterministic(
    r1: Option<ShardRange>,
    r2: Option<ShardRange>,
    o: int,
    manager_count: int,
    total_shards: int,
)
    requires
        r1 == spec_compute_range(o, manager_count, total_shards),
        r2 == spec_compute_range(o, manager_count, total_shards),
    ensures
        r1 == r2,
{
}

/// Compute the inclusive shard range owned by `ordinal`, one of
/// `manager_count` managers dividing `total_shards` shards.
///
/// Pure and total on valid topologies. A bucket the formula leaves empty
/// comes back as `None`: that ordinal owns no shards and must start no
/// sessions.
pub fn compute_range(ordinal: u64, manager_count: u64, total_shards: u64) -> (r: Option<
    ShardRange,
>)
    requires
        1 <= manager_count,
        1 <= total_shards,
        ordinal < manager_count,
    ensures
        r == spec_compute_range(ordinal as int, manager_count as int, total_shards as int),
        r matches Some(rg) ==> rg.wf(total_shards as int),
{
    let o = ordinal as u128;
    let m = manager_count as u128;
    let t = total_shards as u128;
    proof {
        lemma_mul_upper_bound(o as int, u64::MAX as int, t as int, u64::MAX as int);
        lemma_mul_upper_bound((o + 1) as int, u64::MAX as int + 1, t as int, u64::MAX as int);
        lemma_mul_inequality(o as int, m as int, t as int);
        lemma_mul_inequality((o + 1) as int, m as int, t as int);
        lemma_div_is_ordered(o as int * t as int, m as int * t as int, m as int);
        lemma_div_is_ordered((o + 1) as int * t as int, m as int * t as int, m as int);
        lemma_div_multiples_vanish(t as int, m as int);
        lemma_mul_inequality(o as int, (o + 1) as int, t as int);
        lemma_div_is_ordered(o as int * t as int, (o + 1) as int * t as int, m as int);
        lemma_div_pos_is_pos(o as int * t as int, m as int);
    }
    let lo = o * t / m;
    let lim = (o + 1) * t / m;
    if lim == lo {
        None
    } else {
        Some(ShardRange { low: lo as u64, high: (lim - 1) as u64 })
    }
}

} // verus!
