//! Retention: age-tiered downsampling of the history table. Points younger
//! than three days are untouched; older points fall in widening time
//! buckets, and within each (item, bucket) group only the earliest point
//! survives. The delete set is computed here over a snapshot of the table;
//! the store then deletes exactly those rows.

use vstd::prelude::*;
use vstd::arithmetic::div_mod::{lemma_fundamental_div_mod, lemma_mod_bound};

verus! {

/// Age under which a point is always retained: three days, in seconds.
pub const FRESH_AGE_SECS: i64 = 259200;

/// Age at which the middle tier begins: seven days, in seconds.
pub const MID_TIER_AGE_SECS: i64 = 604800;

/// Age at which the oldest tier begins: fourteen days, in seconds.
pub const OLD_TIER_AGE_SECS: i64 = 1209600;

/// Bucket width of the youngest pruned tier: one hour, in seconds.
pub const HOUR_BUCKET_SECS: i64 = 3600;

/// Bucket width of the middle tier: three hours, in seconds.
pub const THREE_HOUR_BUCKET_SECS: i64 = 10800;

/// Bucket width of the oldest tier: six hours, in seconds.
pub const SIX_HOUR_BUCKET_SECS: i64 = 21600;

/// One stored history point as retention sees it: which item it belongs to
/// and when it was taken, in UTC seconds.
#[derive(PartialEq, Eq, Structural, Clone, Copy, Debug)]
pub struct PrunePoint {
    pub item: u32,
    pub timestamp: i64,
}

/// The bucket width retention applies to a point of age `age` seconds:
/// none under three days, one hour in [3d, 7d), three hours in [7d, 14d),
/// six hours from 14d on. The tiers are disjoint and contiguous; each
/// boundary belongs to the older tier.
pub open spec fn tier_width(age: int) -> Option<int> {
    if age < FRESH_AGE_SECS {
        None
    } else if age < MID_TIER_AGE_SECS {
        Some(HOUR_BUCKET_SECS as int)
    } else if age < OLD_TIER_AGE_SECS {
        Some(THREE_HOUR_BUCKET_SECS as int)
    } else {
        Some(SIX_HOUR_BUCKET_SECS as int)
    }
}

/// The bucket a timestamp floors to at width `width`: its bucket index.
pub open spec fn bucket_of(ts: int, width: int) -> int {
    ts / width
}

/// Whether point `q` witnesses that point `p` may go at width `w`: same
/// item, same bucket, strictly earlier.
pub open spec fn earlier_same_bucket(q: PrunePoint, p: PrunePoint, w: int) -> bool {
    q.item == p.item && q.timestamp < p.timestamp && bucket_of(q.timestamp as int, w)
        == bucket_of(p.timestamp as int, w)
}

/// Whether point `j` of the snapshot witnesses the deletion of point `i`
/// at time `now`: `i`'s age falls in a pruned tier, and `j` names the same
/// item, floors to the same bucket at that tier's width, and is strictly
/// earlier.
pub open spec fn doomed_by(points: Seq<PrunePoint>, now: int, i: int, j: int) -> bool {
    match tier_width(now - points[i].timestamp) {
        None => false,
        Some(w) => earlier_same_bucket(points[j], points[i], w),
    }
}

/// Whether retention deletes point `i` of the snapshot at time `now`: its
/// age falls in a pruned tier, and another point of the same item floors to
/// the same bucket at that tier's width with a strictly earlier timestamp.
pub open spec fn doomed(points: Seq<PrunePoint>, now: int, i: int) -> bool {
    exists|j: int| 0 <= j < points.len() && #[trigger] doomed_by(points, now, i, j)
}

/// The quotient of an `i64` by a positive divisor stays in `i64` range.
proof fn lemma_div_in_i64_range(a: int, w: int)
    requires
        i64::MIN <= a <= i64::MAX,
        2 <= w,
    ensures
        i64::MIN <= a / w <= i64::MAX,
{
    lemma_fundamental_div_mod(a, w);
    lemma_mod_bound(a, w);
    let q = a / w;
    let r = a % w;
    assert(i64::MIN <= q <= i64::MAX) by (nonlinear_arith)
        requires
            a == w * q + r,
            0 <= r < w,
            2 <= w,
            i64::MIN <= a <= i64::MAX,
    ;
}

/// The bucket width that applies to a point taken at `ts`, seen at `now`.
fn tier_bucket_width(now: i64, ts: i64) -> (w: Option<i64>)
    ensures
        w is None <==> tier_width(now - ts) is None,
        w matches Some(width) ==> tier_width(now - ts) == Some(width as int),
{
    let age: i128 = now as i128 - ts as i128;
    if age < FRESH_AGE_SECS as i128 {
        None
    } else if age < MID_TIER_AGE_SECS as i128 {
        Some(HOUR_BUCKET_SECS)
    } else if age < OLD_TIER_AGE_SECS as i128 {
        Some(THREE_HOUR_BUCKET_SECS)
    } else {
        Some(SIX_HOUR_BUCKET_SECS)
    }
}

/// Whether two timestamps floor to the same bucket at width `w`.
fn same_bucket(a: i64, b: i64, w: i64) -> (r: bool)
    requires
        2 <= w,
    ensures
        r == (bucket_of(a as int, w as int) == bucket_of(b as int, w as int)),
{
    proof {
        lemma_div_in_i64_range(a as int, w as int);
        lemma_div_in_i64_range(b as int, w as int);
    }
    let qa = a.checked_div_euclid(w).unwrap();
    let qb = b.checked_div_euclid(w).unwrap();
    qa == qb
}

/// Whether some point of the snapshot witnesses that `p` may go at width
/// `w`: same item, same bucket, strictly earlier.
fn has_earlier_same_bucket(points: &Vec<PrunePoint>, p: PrunePoint, w: i64) -> (r: bool)
    requires
        2 <= w,
    ensures
        r == exists|j: int|
            0 <= j < points@.len() && #[trigger] earlier_same_bucket(points@[j], p, w as int),
{
    let n = points.len();
    for j in 0..n
        invariant
            n == points@.len(),
            2 <= w,
            forall|j2: int| 0 <= j2 < j ==> !earlier_same_bucket(#[trigger] points@[j2], p, w as int),
    {
        let q = points[j];
        if q.item == p.item && q.timestamp < p.timestamp && same_bucket(q.timestamp, p.timestamp, w) {
            assert(earlier_same_bucket(points@[j as int], p, w as int));
            return true;
        }
    }
    false
}

/// Compute the delete set of one retention pass over a snapshot of the
/// history table, taken at time `now`: the indices, in increasing order,
/// of exactly the points the policy deletes. Every point it leaves alone
/// is the earliest of its (item, bucket) group or younger than three days.
pub fn prune_victims(points: &Vec<PrunePoint>, now: i64) -> (victims: Vec<usize>)
    ensures
        forall|k: int|
            0 <= k < victims@.len() ==> victims@[k] < points@.len() && doomed(
                points@,
                now as int,
                #[trigger] victims@[k] as int,
            ),
        forall|i: int|
            0 <= i < points@.len() && doomed(points@, now as int, i) ==> victims@.contains(
                i as usize,
            ),
        forall|k1: int, k2: int|
            0 <= k1 < k2 < victims@.len() ==> #[trigger] victims@[k1] < #[trigger] victims@[k2],
{
    let n = points.len();
    let mut victims: Vec<usize> = Vec::new();
    for i in 0..n
        invariant
            n == points@.len(),
            forall|k: int|
                0 <= k < victims@.len() ==> victims@[k] < i && doomed(
                    points@,
                    now as int,
                    #[trigger] victims@[k] as int,
                ),
            forall|m: int|
                0 <= m < i && doomed(points@, now as int, m) ==> victims@.contains(m as usize),
            forall|k1: int, k2: int|
                0 <= k1 < k2 < victims@.len() ==> #[trigger] victims@[k1] < #[trigger] victims@[k2],
    {
        let p = points[i];
        match tier_bucket_width(now, p.timestamp) {
            None => {
                assert(!doomed(points@, now as int, i as int));
            },
            Some(w) => {
                if has_earlier_same_bucket(points, p, w) {
                    proof {
                        let j = choose|j: int|
                            0 <= j < points@.len() && #[trigger] earlier_same_bucket(
                                points@[j],
                                p,
                                w as int,
                            );
                        assert(earlier_same_bucket(points@[j], points@[i as int], w as int));
                        assert(doomed_by(points@, now as int, i as int, j));
                        assert(doomed(points@, now as int, i as int));
                    }
                    let ghost pre = victims@;
                    victims.push(i);
                    proof {
                        assert(victims@[victims@.len() - 1] == i as usize);
                        assert forall|m: int|
                            0 <= m < i && doomed(points@, now as int, m) implies victims@.contains(
                            m as usize,
                        ) by {
                            assert(pre.contains(m as usize));
                            let k = choose|k: int| 0 <= k < pre.len() && pre[k] == m as usize;
                            assert(victims@[k] == m as usize);
                        }
                    }
                } else {
                    proof {
                        assert forall|j: int| 0 <= j < points@.len() implies !doomed_by(
                            points@,
                            now as int,
                            i as int,
                            j,
                        ) by {
                            assert(!earlier_same_bucket(points@[j], points@[i as int], w as int));
                        }
                        assert(!doomed(points@, now as int, i as int));
                    }
                }
            },
        }
    }
    victims
}

/// Law: a point younger than three days is never deleted, whatever else
/// shares its hour.
pub proof fn lemma_fresh_points_survive(points: Seq<PrunePoint>, now: int, i: int)
    requires
        0 <= i < points.len(),
        now - points[i].timestamp < FRESH_AGE_SECS,
    ensures
        !doomed(points, now, i),
{
}

/// Law: the earliest point of its (item, bucket) group survives a
/// retention pass, so at least one sample per bucket is always kept.
pub proof fn lemma_earliest_sample_survives(points: Seq<PrunePoint>, now: int, i: int, w: int)
    requires
        0 <= i < points.len(),
        tier_width(now - points[i].timestamp) == Some(w),
        forall|j: int|
            0 <= j < points.len() && points[j].item == points[i].item && bucket_of(
                #[trigger] points[j].timestamp as int,
                w,
            ) == bucket_of(points[i].timestamp as int, w) ==> points[i].timestamp
                <= points[j].timestamp,
    ensures
        !doomed(points, now, i),
{
    if doomed(points, now, i) {
        let j = choose|j: int| 0 <= j < points.len() && #[trigger] doomed_by(points, now, i, j);
        assert(earlier_same_bucket(points[j], points[i], w));
        assert(points[i].timestamp <= points[j].timestamp);
    }
}

/// Law: the retention tiers meet exactly at their boundaries, each
/// boundary belonging to the older tier. A point of age exactly seven days
/// is bucketed at three hours, not one; one of age exactly three days is
/// pruned at one hour; one a second younger is untouched.
pub proof fn lemma_tier_boundaries()
    ensures
        tier_width(FRESH_AGE_SECS - 1) is None,
        tier_width(FRESH_AGE_SECS as int) == Some(HOUR_BUCKET_SECS as int),
        tier_width(MID_TIER_AGE_SECS - 1) == Some(HOUR_BUCKET_SECS as int),
        tier_width(MID_TIER_AGE_SECS as int) == Some(THREE_HOUR_BUCKET_SECS as int),
        tier_width(OLD_TIER_AGE_SECS - 1) == Some(THREE_HOUR_BUCKET_SECS as int),
        tier_width(OLD_TIER_AGE_SECS as int) == Some(SIX_HOUR_BUCKET_SECS as int),
{
}

} // verus!
