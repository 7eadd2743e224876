//! Firing intervals with symmetric random jitter.

use rand::Rng;
use vstd::prelude::*;

verus! {

/// Floor below which a jittered interval is never allowed to fall.
pub const MIN_INTERVAL_MS: u64 = 100;

/// The interval obtained from `base` shifted by `offset`, clamped to at least
/// `MIN_INTERVAL_MS` and at most `u64::MAX`.
pub open spec fn jittered(base: u64, offset: int) -> int {
    let t = base + offset;
    if t < MIN_INTERVAL_MS {
        MIN_INTERVAL_MS as int
    } else if t > u64::MAX {
        u64::MAX as int
    } else {
        t
    }
}

/// `r` is an interval that `calculate_interval(base, variance)` may return.
pub open spec fn possible_interval(base: u64, variance: u64, r: u64) -> bool {
    if variance == 0 {
        r == base
    } else {
        exists|d: int| -variance <= d <= variance && r == jittered(base, d)
    }
}

/// Relies on rand::thread_rng and Rng::gen_range: a value drawn from the
/// closed range `lo..=hi` (which panics only on an empty range).
#[verifier::external_body]
fn draw_in_range(lo: i128, hi: i128) -> (r: i128)
    requires
        lo <= hi,
    ensures
        lo <= r <= hi,
{
    rand::thread_rng().gen_range(lo..=hi)
}

/// Applies a drawn offset to a base interval.
pub fn interval_for_offset(base_ms: u64, offset: i128) -> (r: u64)
    requires
        -(u64::MAX as int) <= offset <= u64::MAX,
    ensures
        r == jittered(base_ms, offset as int),
{
    let t: i128 = base_ms as i128 + offset;
    if t < MIN_INTERVAL_MS as i128 {
        MIN_INTERVAL_MS
    } else if t > u64::MAX as i128 {
        u64::MAX
    } else {
        t as u64
    }
}

/// Computes the wait before the next firing: `base_ms` exactly when there is
/// no variance, otherwise `base_ms` shifted by a uniformly drawn offset in
/// `[-variance_ms, variance_ms]` and clamped to at least `MIN_INTERVAL_MS`.
pub fn calculate_interval(base_ms: u64, variance_ms: u64) -> (r: u64)
    ensures
        possible_interval(base_ms, variance_ms, r),
        variance_ms == 0 ==> r == base_ms,
{
    if variance_ms == 0 {
        return base_ms;
    }
    let v: i128 = variance_ms as i128;
    let offset = draw_in_range(-v, v);
    let r = interval_for_offset(base_ms, offset);
    assert(-variance_ms <= offset as int <= variance_ms && r == jittered(base_ms, offset as int));
    r
}

/// Every interval drawn with a positive variance lies within
/// `[max(MIN_INTERVAL_MS, base - variance), base + variance]`, provided that
/// range is not empty, i.e. `base + variance` reaches the floor.
pub proof fn lemma_interval_within_jitter_bounds(base: u64, variance: u64, r: u64)
    requires
        variance > 0,
        base + variance >= MIN_INTERVAL_MS,
        possible_interval(base, variance, r),
    ensures
        r >= MIN_INTERVAL_MS,
        r >= base - variance,
        r <= base + variance,
{
    let d = choose|d: int| -variance <= d <= variance && r == jittered(base, d);
}

} // verus!
