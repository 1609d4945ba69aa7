use vstd::arithmetic::div_mod::lemma_fundamental_div_mod;
use vstd::arithmetic::div_mod::lemma_mod_bound;
use vstd::pervasive::unreached;
use vstd::prelude::*;

pub mod duration;
pub mod instant;
pub mod signed_duration;
pub mod timestamp;

pub use duration::Duration;
pub use duration::DurationMicros;
pub use duration::DurationMillis;
pub use duration::DurationNanos;
pub use duration::DurationSeconds;
pub use instant::Instant;
pub use signed_duration::SignedDuration;
pub use timestamp::Timestamp;
pub use timestamp::TimestampMicros;
pub use timestamp::TimestampMillis;
pub use timestamp::TimestampNanos;
pub use timestamp::UnixEpoch;

verus! {

/// Tags a column that counts seconds.
#[derive(Copy, Clone, Debug, PartialEq, Eq, PartialOrd, Ord)]
pub struct Seconds {}

/// Tags a column that counts milliseconds.
#[derive(Copy, Clone, Debug, PartialEq, Eq, PartialOrd, Ord)]
pub struct Milliseconds {}

/// Tags a column that counts microseconds.
#[derive(Copy, Clone, Debug, PartialEq, Eq, PartialOrd, Ord)]
pub struct Microseconds {}

/// Tags a column that counts nanoseconds.
#[derive(Copy, Clone, Debug, PartialEq, Eq, PartialOrd, Ord)]
pub struct Nanoseconds {}

/// Nanoseconds in one second.
pub const NANOS_PER_SECOND: i64 = 1_000_000_000;

/// Nanoseconds in one millisecond.
pub const NANOS_PER_MILLI: i64 = 1_000_000;

/// Nanoseconds in one microsecond.
pub const NANOS_PER_MICRO: i64 = 1_000;

/// Milliseconds in one second.
pub const MILLIS_PER_SECOND: i64 = 1_000;

/// Microseconds in one second.
pub const MICROS_PER_SECOND: i64 = 1_000_000;

/// Division that rounds towards zero: the whole number of times that a
/// positive `divisor` goes into the magnitude of `value`, with `value`'s sign.
pub open spec fn trunc_div(value: int, divisor: int) -> int {
    if value >= 0 {
        value / divisor
    } else {
        -((-value) / divisor)
    }
}

/// The magnitude of `value`. That of the least integer is one above the
/// greatest.
pub(crate) fn unsigned_abs(value: i64) -> (magnitude: u64)
    ensures
        magnitude == if value >= 0 {
            value as int
        } else {
            -value
        },
{
    if value >= 0 {
        value as u64
    } else if value == i64::MIN {
        9_223_372_036_854_775_808u64
    } else {
        (-value) as u64
    }
}

/// The quotient of Euclidean division by a positive divisor: the greatest
/// multiple of the divisor that is not above `value`, counted in divisors.
pub(crate) fn div_euclid(value: i64, divisor: i64) -> (quotient: i64)
    requires
        divisor > 0,
    ensures
        quotient == value / divisor,
{
    proof {
        lemma_quotient_bounds(value as int, divisor as int);
    }
    match value.checked_div_euclid(divisor) {
        Some(quotient) => quotient,
        None => unreached(),
    }
}

/// The remainder of Euclidean division by a positive divisor, which is never
/// negative.
pub(crate) fn rem_euclid(value: i64, divisor: i64) -> (remainder: i64)
    requires
        divisor > 0,
    ensures
        remainder == value % divisor,
        0 <= remainder < divisor,
{
    proof {
        lemma_mod_bound(value as int, divisor as int);
    }
    match value.checked_rem_euclid(divisor) {
        Some(remainder) => remainder,
        None => unreached(),
    }
}

/// The quotient by a positive divisor lies between zero and the dividend.
proof fn lemma_quotient_bounds(value: int, divisor: int)
    requires
        divisor > 0,
    ensures
        value >= 0 ==> 0 <= value / divisor <= value,
        value < 0 ==> value <= value / divisor < 0,
{
    lemma_fundamental_div_mod(value, divisor);
    lemma_mod_bound(value, divisor);
    let q = value / divisor;
    let r = value % divisor;
    assert(value >= 0 ==> 0 <= q <= value) by (nonlinear_arith)
        requires
            value == divisor * q + r,
            0 <= r < divisor,
    ;
    assert(value < 0 ==> value <= q < 0) by (nonlinear_arith)
        requires
            value == divisor * q + r,
            0 <= r < divisor,
    ;
}

} // verus!
