//! The wall clock and the random source, as plain integers.
use rand::Rng;
use vstd::prelude::*;

verus! {

/// Relies on `chrono::Utc::now` and `DateTime::timestamp_millis`: the time
/// now, in milliseconds since the Unix epoch. Nothing is known of the value.
#[verifier::external_body]
pub(crate) fn now_millis() -> (r: i64) {
    chrono::Utc::now().timestamp_millis()
}

/// Relies on `chrono::Utc::now` and `DateTime::timestamp_nanos_opt`: the time
/// now in nanoseconds since the Unix epoch, where that fits in an `i64`.
#[verifier::external_body]
pub(crate) fn now_nanos() -> (r: Option<i64>) {
    chrono::Utc::now().timestamp_nanos_opt()
}

/// Relies on `rand::Rng::gen_range` over the thread-local generator: a value
/// of the closed range `lo..=hi`, which must not be empty.
#[verifier::external_body]
pub(crate) fn random_in(lo: i64, hi: i64) -> (r: i64)
    requires
        lo <= hi,
    ensures
        lo <= r <= hi,
{
    rand::thread_rng().gen_range(lo..=hi)
}

/// Milliseconds from `start` to `now`, held within the range of `i64`.
pub open spec fn clamped_elapsed(start: i64, now: i64) -> int {
    if now - start > i64::MAX {
        i64::MAX as int
    } else if now - start < i64::MIN {
        i64::MIN as int
    } else {
        now - start
    }
}

/// Milliseconds from `start` to `now`, held within the range of `i64`.
pub fn elapsed_between(start: i64, now: i64) -> (r: i64)
    ensures
        r as int == clamped_elapsed(start, now),
{
    let d: i128 = now as i128 - start as i128;
    if d > i64::MAX as i128 {
        i64::MAX
    } else if d < i64::MIN as i128 {
        i64::MIN
    } else {
        d as i64
    }
}

} // verus!
