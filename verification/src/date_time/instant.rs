use chrono::DateTime;
use chrono::Utc;
use std::cmp::Ordering;
use vstd::prelude::*;
use vstd::std_specs::cmp::PartialEqSpecImpl;
use vstd::std_specs::cmp::PartialOrdSpecImpl;

use super::NANOS_PER_MICRO;
use super::NANOS_PER_MILLI;
use super::NANOS_PER_SECOND;

verus! {

/// Seconds since the epoch of the earliest instant: the first second of the
/// year -262143.
pub const MIN_TIMESTAMP: i64 = -8_334_601_228_800;

/// Seconds since the epoch of the last second that an instant can fall in: the
/// last second of the year 262142.
pub const MAX_TIMESTAMP: i64 = 8_210_266_876_799;

/// Whether an instant lies that many nanoseconds from the epoch.
pub open spec fn instant_in_range(nanos: int) -> bool {
    MIN_TIMESTAMP * NANOS_PER_SECOND <= nanos < (MAX_TIMESTAMP + 1) * NANOS_PER_SECOND
}

/// Whether a pair of seconds since the epoch and nanoseconds into the second
/// names an instant.
pub open spec fn is_timestamp(secs: i64, nsecs: u32) -> bool {
    MIN_TIMESTAMP <= secs <= MAX_TIMESTAMP && nsecs < NANOS_PER_SECOND
}

/// A point on the time line, without leap seconds: whole seconds since
/// 1970-01-01 00:00:00 UTC, and nanoseconds into that second. Instants are
/// equal where they are the same point, and ordered from past to future.
#[derive(Clone, Copy, Debug, Eq, Ord, Hash)]
pub struct Instant {
    secs: i64,
    nanos: u32,
}

impl View for Instant {
    type V = int;

    /// Nanoseconds since the epoch; negative before it.
    closed spec fn view(&self) -> int {
        self.secs * NANOS_PER_SECOND + self.nanos
    }
}

impl PartialEq for Instant {
    fn eq(&self, other: &Self) -> (r: bool) {
        proof {
            use_type_invariant(self);
            use_type_invariant(other);
        }
        self.secs == other.secs && self.nanos == other.nanos
    }
}

impl PartialEqSpecImpl for Instant {
    open spec fn obeys_eq_spec() -> bool {
        true
    }

    open spec fn eq_spec(&self, other: &Self) -> bool {
        self@ == other@
    }
}

impl PartialOrd for Instant {
    fn partial_cmp(&self, other: &Self) -> (r: Option<Ordering>) {
        proof {
            use_type_invariant(self);
            use_type_invariant(other);
        }
        if self.secs < other.secs || (self.secs == other.secs && self.nanos < other.nanos) {
            Some(Ordering::Less)
        } else if self.secs == other.secs && self.nanos == other.nanos {
            Some(Ordering::Equal)
        } else {
            Some(Ordering::Greater)
        }
    }
}

impl PartialOrdSpecImpl for Instant {
    open spec fn obeys_partial_cmp_spec() -> bool {
        true
    }

    open spec fn partial_cmp_spec(&self, other: &Self) -> Option<Ordering> {
        if self@ < other@ {
            Some(Ordering::Less)
        } else if self@ == other@ {
            Some(Ordering::Equal)
        } else {
            Some(Ordering::Greater)
        }
    }
}

impl Instant {
    #[verifier::type_invariant]
    pub closed spec fn wf(&self) -> bool {
        is_timestamp(self.secs, self.nanos)
    }

    /// An instant is a number of nanoseconds within the supported range, and
    /// that number names it.
    pub proof fn lemma_view(self, other: Instant)
        requires
            self.wf(),
            other.wf(),
        ensures
            instant_in_range(self@),
            self@ == other@ ==> self == other,
    {
    }

    /// The instant `secs` seconds and `nsecs` nanoseconds after the epoch.
    /// There is none where `nsecs` reaches a full second or `secs` lies
    /// outside the supported years.
    pub fn from_timestamp(secs: i64, nsecs: u32) -> (r: Option<Instant>)
        ensures
            r is Some <==> is_timestamp(secs, nsecs),
            r matches Some(at) ==> at@ == secs * NANOS_PER_SECOND + nsecs && at.wf(),
    {
        if nsecs < 1_000_000_000 {
            chrono_from_timestamp(secs, nsecs)
        } else {
            None
        }
    }

    /// The current instant, by the system's clock.
    pub fn now() -> (r: Instant)
        ensures
            r.wf(),
    {
        utc_now()
    }

    /// Whole seconds since the epoch, rounded towards the past.
    pub fn timestamp(&self) -> (secs: i64)
        ensures
            secs == self@ / (NANOS_PER_SECOND as int),
    {
        proof {
            use_type_invariant(self);
        }
        self.secs
    }

    /// Nanoseconds since the last whole second.
    pub fn timestamp_subsec_nanos(&self) -> (nanos: u32)
        ensures
            nanos == self@ % (NANOS_PER_SECOND as int),
    {
        proof {
            use_type_invariant(self);
        }
        self.nanos
    }

    /// Whole milliseconds since the epoch, rounded towards the past.
    pub fn timestamp_millis(&self) -> (millis: i64)
        ensures
            millis == self@ / (NANOS_PER_MILLI as int),
    {
        proof {
            use_type_invariant(self);
        }
        chrono_timestamp_millis(self.secs, self.nanos)
    }

    /// Whole microseconds since the epoch, rounded towards the past.
    pub fn timestamp_micros(&self) -> (micros: i64)
        ensures
            micros == self@ / (NANOS_PER_MICRO as int),
    {
        proof {
            use_type_invariant(self);
        }
        chrono_timestamp_micros(self.secs, self.nanos)
    }

    /// Nanoseconds since the epoch, where a signed 64-bit integer holds them.
    pub fn timestamp_nanos_opt(&self) -> (nanos: Option<i64>)
        ensures
            nanos == (if i64::MIN <= self@ <= i64::MAX {
                Some(self@ as i64)
            } else {
                None
            }),
    {
        proof {
            use_type_invariant(self);
        }
        chrono_timestamp_nanos_opt(self.secs, self.nanos)
    }
}

/// Calls `chrono::DateTime::<Utc>::from_timestamp`. A nanosecond count under
/// a second names no leap second, so chrono refuses the pair only where the
/// seconds fall outside the years it supports; what it builds reads back,
/// through `timestamp` and `timestamp_subsec_nanos`, as the same seconds and
/// nanoseconds.
#[verifier::external_body]
fn chrono_from_timestamp(secs: i64, nsecs: u32) -> (r: Option<Instant>)
    requires
        nsecs < NANOS_PER_SECOND,
    ensures
        r == (if MIN_TIMESTAMP <= secs <= MAX_TIMESTAMP {
            Some(Instant { secs, nanos: nsecs })
        } else {
            None
        }),
{
    match DateTime::from_timestamp(secs, nsecs) {
        Some(t) => Some(Instant { secs: t.timestamp(), nanos: t.timestamp_subsec_nanos() }),
        None => None,
    }
}

/// Calls `chrono::Utc::now`, which reads the system's clock and panics where
/// that clock stands before the epoch. The time it returns is one that
/// `DateTime::from_timestamp` accepted, with under a second of nanoseconds.
#[verifier::external_body]
fn utc_now() -> (r: Instant)
    ensures
        r.wf(),
{
    let t = Utc::now();
    Instant { secs: t.timestamp(), nanos: t.timestamp_subsec_nanos() }
}

/// Calls `chrono::DateTime::timestamp_millis` on the instant that the pair
/// names: a thousand times its seconds, plus the whole milliseconds among its
/// nanoseconds.
#[verifier::external_body]
fn chrono_timestamp_millis(secs: i64, nsecs: u32) -> (r: i64)
    requires
        is_timestamp(secs, nsecs),
    ensures
        r == secs * 1_000 + nsecs / 1_000_000,
{
    DateTime::from_timestamp(secs, nsecs).unwrap().timestamp_millis()
}

/// Calls `chrono::DateTime::timestamp_micros` on the instant that the pair
/// names: a million times its seconds, plus the whole microseconds among its
/// nanoseconds.
#[verifier::external_body]
fn chrono_timestamp_micros(secs: i64, nsecs: u32) -> (r: i64)
    requires
        is_timestamp(secs, nsecs),
    ensures
        r == secs * 1_000_000 + nsecs / 1_000,
{
    DateTime::from_timestamp(secs, nsecs).unwrap().timestamp_micros()
}

/// Calls `chrono::DateTime::timestamp_nanos_opt` on the instant that the pair
/// names: its nanoseconds since the epoch where they fit a signed 64-bit
/// integer, nothing where they do not.
#[verifier::external_body]
fn chrono_timestamp_nanos_opt(secs: i64, nsecs: u32) -> (r: Option<i64>)
    requires
        is_timestamp(secs, nsecs),
    ensures
        r == (if i64::MIN <= secs * 1_000_000_000 + nsecs <= i64::MAX {
            Some((secs * 1_000_000_000 + nsecs) as i64)
        } else {
            None
        }),
{
    DateTime::from_timestamp(secs, nsecs).unwrap().timestamp_nanos_opt()
}

} // verus!
