use chrono::TimeDelta;
use std::cmp::Ordering;
use vstd::prelude::*;
use vstd::std_specs::cmp::PartialEqSpecImpl;
use vstd::std_specs::cmp::PartialOrdSpecImpl;

use super::trunc_div;
use super::NANOS_PER_MICRO;
use super::NANOS_PER_MILLI;
use super::NANOS_PER_SECOND;
use crate::error::Error;

verus! {

/// The longest span, either way, in whole seconds.
pub const MAX_DURATION_SECS: i64 = 9_223_372_036_854_775;

/// The nanoseconds that the longest span has beyond its whole seconds.
pub const MAX_DURATION_SUBSEC_NANOS: i32 = 807_000_000;

/// Whether a span of that many nanoseconds can be held: none is longer than
/// `i64::MAX` milliseconds, forwards or backwards.
pub open spec fn duration_in_range(nanos: int) -> bool {
    -(i64::MAX * NANOS_PER_MILLI) <= nanos <= i64::MAX * NANOS_PER_MILLI
}

/// Whether whole seconds and the nanoseconds beyond them name a span: both
/// point the same way, the nanoseconds stay under a second, and the span is
/// not too long.
pub open spec fn is_duration(secs: i64, nanos: i32) -> bool {
    &&& -NANOS_PER_SECOND < nanos < NANOS_PER_SECOND
    &&& secs > 0 ==> nanos >= 0
    &&& secs < 0 ==> nanos <= 0
    &&& duration_in_range(secs * NANOS_PER_SECOND + nanos)
}

/// A span of time with a direction: positive forwards, negative backwards.
/// Held as whole seconds and the nanoseconds beyond them, both with the sign
/// of the span. Spans are equal where they are as long and point the same
/// way, and ordered from the longest backwards to the longest forwards.
#[derive(Clone, Copy, Debug, Eq, Ord, Hash)]
pub struct SignedDuration {
    secs: i64,
    nanos: i32,
}

impl View for SignedDuration {
    type V = int;

    /// The span in nanoseconds.
    closed spec fn view(&self) -> int {
        self.secs * NANOS_PER_SECOND + self.nanos
    }
}

impl PartialEq for SignedDuration {
    fn eq(&self, other: &Self) -> (r: bool) {
        proof {
            use_type_invariant(self);
            use_type_invariant(other);
        }
        self.secs == other.secs && self.nanos == other.nanos
    }
}

impl PartialEqSpecImpl for SignedDuration {
    open spec fn obeys_eq_spec() -> bool {
        true
    }

    open spec fn eq_spec(&self, other: &Self) -> bool {
        self@ == other@
    }
}

impl PartialOrd for SignedDuration {
    fn partial_cmp(&self, other: &Self) -> (r: Option<Ordering>) {
        proof {
            use_type_invariant(self);
            use_type_invariant(other);
        }
        if self.secs < other.secs || (self.secs == other.secs && self.nanos < other.nanos) {
            Some(Ordering::Less)
        } else if self.secs == other.secs && self.nanos == other.nanos {
            Some(Ordering::Equal)
        } else {
            Some(Ordering::Greater)
        }
    }
}

impl PartialOrdSpecImpl for SignedDuration {
    open spec fn obeys_partial_cmp_spec() -> bool {
        true
    }

    open spec fn partial_cmp_spec(&self, other: &Self) -> Option<Ordering> {
        if self@ < other@ {
            Some(Ordering::Less)
        } else if self@ == other@ {
            Some(Ordering::Equal)
        } else {
            Some(Ordering::Greater)
        }
    }
}

impl SignedDuration {
    #[verifier::type_invariant]
    pub closed spec fn wf(&self) -> bool {
        is_duration(self.secs, self.nanos)
    }

    /// A span is a number of nanoseconds within the supported range, and that
    /// number names it.
    pub proof fn lemma_view(self, other: SignedDuration)
        requires
            self.wf(),
            other.wf(),
        ensures
            duration_in_range(self@),
            self@ == other@ ==> self == other,
    {
    }

    /// The forward span of `secs` seconds and `subsec_nanos` nanoseconds, as
    /// the standard library's unsigned duration gives them. Refused where it
    /// is longer than a span can be.
    pub fn from_std(secs: u64, subsec_nanos: u32) -> (r: Result<SignedDuration, Error>)
        ensures
            r is Ok <==> duration_in_range(secs * NANOS_PER_SECOND + subsec_nanos),
            r matches Ok(d) ==> d@ == secs * NANOS_PER_SECOND + subsec_nanos && d.wf(),
            r matches Err(e) ==> e == Error::Overflow,
    {
        let carry: u64 = (subsec_nanos / 1_000_000_000) as u64;
        let nanos: u32 = subsec_nanos % 1_000_000_000;
        match secs.checked_add(carry) {
            Some(whole) => match chrono_from_std(whole, nanos) {
                Some(d) => Ok(d),
                None => Err(Error::Overflow),
            },
            None => Err(Error::Overflow),
        }
    }

    /// The same span in the other direction.
    pub fn neg(self) -> (r: SignedDuration)
        ensures
            r@ == -self@,
            r.wf(),
    {
        proof {
            use_type_invariant(&self);
        }
        chrono_neg(self.secs, self.nanos)
    }

    /// Whole seconds in the span, rounded towards zero.
    pub fn num_seconds(&self) -> (secs: i64)
        ensures
            secs == trunc_div(self@, NANOS_PER_SECOND as int),
    {
        proof {
            use_type_invariant(self);
        }
        self.secs
    }

    /// The nanoseconds of the span beyond its whole seconds, with its sign.
    pub fn subsec_nanos(&self) -> (nanos: i32)
        ensures
            nanos == self@ - trunc_div(self@, NANOS_PER_SECOND as int) * NANOS_PER_SECOND,
    {
        proof {
            use_type_invariant(self);
        }
        self.nanos
    }

    /// Whole milliseconds in the span, rounded towards zero.
    pub fn num_milliseconds(&self) -> (millis: i64)
        ensures
            millis == trunc_div(self@, NANOS_PER_MILLI as int),
    {
        proof {
            use_type_invariant(self);
        }
        chrono_num_milliseconds(self.secs, self.nanos)
    }

    /// Whole microseconds in the span, rounded towards zero, where a signed
    /// 64-bit integer holds them.
    pub fn num_microseconds(&self) -> (micros: Option<i64>)
        ensures
            micros == (if i64::MIN <= trunc_div(self@, NANOS_PER_MICRO as int) <= i64::MAX {
                Some(trunc_div(self@, NANOS_PER_MICRO as int) as i64)
            } else {
                None
            }),
    {
        proof {
            use_type_invariant(self);
        }
        chrono_num_microseconds(self.secs, self.nanos)
    }

    /// The nanoseconds in the span, where a signed 64-bit integer holds them.
    pub fn num_nanoseconds(&self) -> (nanos: Option<i64>)
        ensures
            nanos == (if i64::MIN <= self@ <= i64::MAX {
                Some(self@ as i64)
            } else {
                None
            }),
    {
        proof {
            use_type_invariant(self);
        }
        chrono_num_nanoseconds(self.secs, self.nanos)
    }
}

/// Calls `chrono::TimeDelta::from_std` on the standard duration of `secs`
/// seconds and `nanos` nanoseconds. It refuses what is longer than
/// `TimeDelta::MAX`, which is `i64::MAX` milliseconds; what it builds reads
/// back, through `num_seconds` and `subsec_nanos`, as the same seconds and
/// nanoseconds.
#[verifier::external_body]
fn chrono_from_std(secs: u64, nanos: u32) -> (r: Option<SignedDuration>)
    requires
        nanos < NANOS_PER_SECOND,
    ensures
        r == (if secs < MAX_DURATION_SECS || (secs == MAX_DURATION_SECS && nanos
            <= MAX_DURATION_SUBSEC_NANOS) {
            Some(SignedDuration { secs: secs as i64, nanos: nanos as i32 })
        } else {
            None
        }),
{
    match TimeDelta::from_std(std::time::Duration::new(secs, nanos)) {
        Ok(d) => Some(SignedDuration { secs: d.num_seconds(), nanos: d.subsec_nanos() }),
        Err(_) => None,
    }
}

/// Calls the negation of `chrono::TimeDelta` on the span that the pair
/// names: the span of the same length the other way, so both parts change
/// sign.
#[verifier::external_body]
fn chrono_neg(secs: i64, nanos: i32) -> (r: SignedDuration)
    requires
        is_duration(secs, nanos),
    ensures
        r == (SignedDuration { secs: (-secs) as i64, nanos: (-nanos) as i32 }),
{
    let d = -(TimeDelta::seconds(secs) + TimeDelta::nanoseconds(i64::from(nanos)));
    SignedDuration { secs: d.num_seconds(), nanos: d.subsec_nanos() }
}

/// Calls `chrono::TimeDelta::num_milliseconds` on the span that the pair
/// names: a thousand times its whole seconds, plus the whole milliseconds
/// among its nanoseconds, rounded towards zero.
#[verifier::external_body]
fn chrono_num_milliseconds(secs: i64, nanos: i32) -> (r: i64)
    requires
        is_duration(secs, nanos),
    ensures
        r == secs * 1_000 + trunc_div(nanos as int, 1_000_000),
{
    (TimeDelta::seconds(secs) + TimeDelta::nanoseconds(i64::from(nanos))).num_milliseconds()
}

/// Calls `chrono::TimeDelta::num_microseconds` on the span that the pair
/// names: a million times its whole seconds, plus the whole microseconds
/// among its nanoseconds, rounded towards zero; nothing where that does not
/// fit a signed 64-bit integer.
#[verifier::external_body]
fn chrono_num_microseconds(secs: i64, nanos: i32) -> (r: Option<i64>)
    requires
        is_duration(secs, nanos),
    ensures
        r == (if i64::MIN <= secs * 1_000_000 + trunc_div(nanos as int, 1_000) <= i64::MAX {
            Some((secs * 1_000_000 + trunc_div(nanos as int, 1_000)) as i64)
        } else {
            None
        }),
{
    (TimeDelta::seconds(secs) + TimeDelta::nanoseconds(i64::from(nanos))).num_microseconds()
}

/// Calls `chrono::TimeDelta::num_nanoseconds` on the span that the pair
/// names: a billion times its whole seconds, plus its nanoseconds; nothing
/// where that does not fit a signed 64-bit integer.
#[verifier::external_body]
fn chrono_num_nanoseconds(secs: i64, nanos: i32) -> (r: Option<i64>)
    requires
        is_duration(secs, nanos),
    ensures
        r == (if i64::MIN <= secs * 1_000_000_000 + nanos <= i64::MAX {
            Some((secs * 1_000_000_000 + nanos) as i64)
        } else {
            None
        }),
{
    (TimeDelta::seconds(secs) + TimeDelta::nanoseconds(i64::from(nanos))).num_nanoseconds()
}

} // verus!
