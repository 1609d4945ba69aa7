use std::cmp::Ordering;
use std::marker::PhantomData;
use vstd::arithmetic::div_mod::lemma_div_multiples_vanish;
use vstd::arithmetic::div_mod::lemma_fundamental_div_mod;
use vstd::arithmetic::div_mod::lemma_mod_multiples_basic;
use vstd::arithmetic::mul::lemma_mul_is_commutative;
use vstd::arithmetic::mul::lemma_mul_strictly_positive;
use vstd::arithmetic::mul::lemma_mul_unary_negation;
use vstd::prelude::*;
use vstd::std_specs::cmp::PartialEqSpecImpl;
use vstd::std_specs::cmp::PartialOrdSpecImpl;
use vstd::std_specs::convert::FromSpecImpl;

use super::Microseconds;
use super::Milliseconds;
use super::NANOS_PER_MICRO;
use super::NANOS_PER_MILLI;
use super::NANOS_PER_SECOND;
use super::Nanoseconds;
use super::Seconds;
use super::signed_duration::duration_in_range;
use super::signed_duration::SignedDuration;
use super::trunc_div;
use super::unsigned_abs;
use crate::error::Error;
use crate::value::ColumnValue;

verus! {

pub type DurationSeconds = Duration<Seconds>;

pub type DurationMillis = Duration<Milliseconds>;

pub type DurationMicros = Duration<Microseconds>;

pub type DurationNanos = Duration<Nanoseconds>;

/// A signed span of time kept in an `INTEGER` column. The type parameter
/// fixes the scale of the column: a `Duration<Seconds>` is stored as a number
/// of seconds, a `Duration<Milliseconds>` as a number of milliseconds.
/// Durations of one scale are equal, and ordered, as their spans are.
#[derive(Debug, Eq, Ord)]
pub struct Duration<Scale>(SignedDuration, PhantomData<Scale>);

impl<Scale> Copy for Duration<Scale> {

}

impl<Scale> Clone for Duration<Scale> {
    fn clone(&self) -> (r: Self)
        ensures
            r == *self,
    {
        *self
    }
}

impl<Scale> PartialEq for Duration<Scale> {
    fn eq(&self, other: &Self) -> (r: bool) {
        self.0 == other.0
    }
}

impl<Scale> PartialEqSpecImpl for Duration<Scale> {
    open spec fn obeys_eq_spec() -> bool {
        true
    }

    open spec fn eq_spec(&self, other: &Self) -> bool {
        self@ == other@
    }
}

impl<Scale> PartialOrd for Duration<Scale> {
    fn partial_cmp(&self, other: &Self) -> (r: Option<Ordering>) {
        self.0.partial_cmp(&other.0)
    }
}

impl<Scale> PartialOrdSpecImpl for Duration<Scale> {
    open spec fn obeys_partial_cmp_spec() -> bool {
        true
    }

    open spec fn partial_cmp_spec(&self, other: &Self) -> Option<Ordering> {
        if self@ < other@ {
            Some(Ordering::Less)
        } else if self@ == other@ {
            Some(Ordering::Equal)
        } else {
            Some(Ordering::Greater)
        }
    }
}

impl<Scale> View for Duration<Scale> {
    type V = int;

    /// The span in nanoseconds.
    closed spec fn view(&self) -> int {
        self.0@
    }
}

/// The span, in nanoseconds, that a column holding `value` stands for when it
/// counts units of `nanos_per_unit` nanoseconds; or why it stands for none.
/// The sign of the stored integer is the direction of the span.
pub open spec fn decoded_duration(value: ColumnValue, nanos_per_unit: int) -> Result<int, Error> {
    match value {
        ColumnValue::Integer(raw) => if duration_in_range(raw * nanos_per_unit) {
            Ok(raw * nanos_per_unit)
        } else {
            Err(Error::Overflow)
        },
        _ => Err(Error::NotAnInteger),
    }
}

/// The integer stored for a span of `nanos` nanoseconds in a column that
/// counts units of `nanos_per_unit` nanoseconds: the whole units in the span,
/// with its sign; refused where no signed 64-bit integer holds that count.
pub open spec fn encoded_duration(nanos: int, nanos_per_unit: int) -> Result<i64, Error> {
    let units = trunc_div(nanos, nanos_per_unit);
    if i64::MIN <= units <= i64::MAX {
        Ok(units as i64)
    } else {
        Err(Error::Overflow)
    }
}

/// What a read gave, with the duration taken by its view.
pub open spec fn read_view<Scale>(r: Result<Duration<Scale>, Error>) -> Result<int, Error> {
    match r {
        Ok(d) => Ok(d@),
        Err(e) => Err(e),
    }
}

/// The standard library's unsigned duration of that many milliseconds, as
/// seconds and nanoseconds.
fn std_from_millis(millis: u64) -> (r: (u64, u32))
    ensures
        r.0 * NANOS_PER_SECOND + r.1 == millis * NANOS_PER_MILLI,
        r.1 < NANOS_PER_SECOND,
{
    let secs: u64 = millis / 1_000;
    let subsec_nanos: u32 = ((millis % 1_000) as u32) * 1_000_000;
    (secs, subsec_nanos)
}

/// The standard library's unsigned duration of that many microseconds, as
/// seconds and nanoseconds.
fn std_from_micros(micros: u64) -> (r: (u64, u32))
    ensures
        r.0 * NANOS_PER_SECOND + r.1 == micros * NANOS_PER_MICRO,
        r.1 < NANOS_PER_SECOND,
{
    let secs: u64 = micros / 1_000_000;
    let subsec_nanos: u32 = ((micros % 1_000_000) as u32) * 1_000;
    (secs, subsec_nanos)
}

/// The standard library's unsigned duration of that many nanoseconds, as
/// seconds and nanoseconds.
fn std_from_nanos(nanos: u64) -> (r: (u64, u32))
    ensures
        r.0 * NANOS_PER_SECOND + r.1 == nanos,
        r.1 < NANOS_PER_SECOND,
{
    let secs: u64 = nanos / 1_000_000_000;
    let subsec_nanos: u32 = (nanos % 1_000_000_000) as u32;
    (secs, subsec_nanos)
}

impl<Scale> Duration<Scale> {
    /// What holds of every duration: it wraps a span.
    pub closed spec fn wf(&self) -> bool {
        self.0.wf()
    }

    /// The span, without its scale.
    pub fn unwrap(self) -> (d: SignedDuration)
        ensures
            d@ == self@,
            d.wf(),
    {
        proof {
            use_type_invariant(&self.0);
        }
        self.0
    }

    /// The forward span of `secs` seconds and `subsec_nanos` nanoseconds, as
    /// the standard library's unsigned duration gives them. Refused where it
    /// is longer than a span can be.
    pub fn try_from_std(secs: u64, subsec_nanos: u32) -> (r: Result<Self, Error>)
        ensures
            read_view(r) == (if duration_in_range(secs * NANOS_PER_SECOND + subsec_nanos) {
                Ok::<int, Error>(secs * NANOS_PER_SECOND + subsec_nanos)
            } else {
                Err(Error::Overflow)
            }),
            r matches Ok(d) ==> d.wf(),
    {
        Ok(Duration(SignedDuration::from_std(secs, subsec_nanos)?, PhantomData))
    }

    /// The span that the magnitude of a stored integer gave, with the sign of
    /// that integer.
    fn with_sign_of(magnitude: SignedDuration, raw: i64) -> (r: Self)
        requires
            magnitude.wf(),
            magnitude@ >= 0,
        ensures
            r@ == (if raw >= 0 {
                magnitude@
            } else {
                -magnitude@
            }),
            r.wf(),
    {
        if raw >= 0 {
            Duration(magnitude, PhantomData)
        } else {
            Duration(magnitude.neg(), PhantomData)
        }
    }

    /// A duration's view lies in the supported range and names it.
    pub proof fn lemma_view(self, other: Self)
        requires
            self.wf(),
            other.wf(),
        ensures
            duration_in_range(self@),
            self@ == other@ ==> self == other,
    {
        self.0.lemma_view(other.0);
    }
}

impl<Scale> From<SignedDuration> for Duration<Scale> {
    fn from(v: SignedDuration) -> (r: Self)
        ensures
            r@ == v@,
            r.wf(),
    {
        proof {
            use_type_invariant(&v);
        }
        Duration(v, PhantomData)
    }
}

impl<Scale> FromSpecImpl<SignedDuration> for Duration<Scale> {
    open spec fn obeys_from_spec() -> bool {
        true
    }

    closed spec fn from_spec(v: SignedDuration) -> Self {
        Duration(v, PhantomData)
    }
}

impl Duration<Seconds> {
    /// Reads a column that counts seconds.
    pub fn column_result(value: ColumnValue) -> (r: Result<Self, Error>)
        ensures
            read_view(r) == decoded_duration(value, NANOS_PER_SECOND as int),
            r matches Ok(d) ==> d.wf(),
    {
        let db_seconds: i64 = value.as_i64()?;
        if let Ok(duration) = SignedDuration::from_std(unsigned_abs(db_seconds), 0) {
            Ok(Self::with_sign_of(duration, db_seconds))
        } else {
            Err(Error::Overflow)
        }
    }

    /// The number of whole seconds in the span, for the column.
    pub fn to_sql(&self) -> (r: Result<i64, Error>)
        ensures
            r == encoded_duration(self@, NANOS_PER_SECOND as int),
            r is Ok,
    {
        Ok(self.0.num_seconds())
    }
}

impl Duration<Milliseconds> {
    /// Reads a column that counts milliseconds.
    pub fn column_result(value: ColumnValue) -> (r: Result<Self, Error>)
        ensures
            read_view(r) == decoded_duration(value, NANOS_PER_MILLI as int),
            r matches Ok(d) ==> d.wf(),
    {
        let db_millis: i64 = value.as_i64()?;
        let (secs, subsec_nanos) = std_from_millis(unsigned_abs(db_millis));
        if let Ok(duration) = SignedDuration::from_std(secs, subsec_nanos) {
            Ok(Self::with_sign_of(duration, db_millis))
        } else {
            Err(Error::Overflow)
        }
    }

    /// The number of whole milliseconds in the span, for the column.
    pub fn to_sql(&self) -> (r: Result<i64, Error>)
        ensures
            r == encoded_duration(self@, NANOS_PER_MILLI as int),
            r is Ok,
    {
        Ok(self.0.num_milliseconds())
    }
}

impl Duration<Microseconds> {
    /// Reads a column that counts microseconds. Every 64-bit count names a
    /// span.
    pub fn column_result(value: ColumnValue) -> (r: Result<Self, Error>)
        ensures
            read_view(r) == decoded_duration(value, NANOS_PER_MICRO as int),
            r matches Ok(d) ==> d.wf(),
            value is Integer ==> r is Ok,
    {
        let db_micros: i64 = value.as_i64()?;
        let (secs, subsec_nanos) = std_from_micros(unsigned_abs(db_micros));
        if let Ok(duration) = SignedDuration::from_std(secs, subsec_nanos) {
            Ok(Self::with_sign_of(duration, db_micros))
        } else {
            Err(Error::Overflow)
        }
    }

    /// The number of whole microseconds in the span, for the column; refused
    /// where no signed 64-bit integer holds it.
    pub fn to_sql(&self) -> (r: Result<i64, Error>)
        ensures
            r == encoded_duration(self@, NANOS_PER_MICRO as int),
    {
        if let Some(us) = self.0.num_microseconds() {
            Ok(us)
        } else {
            Err(Error::Overflow)
        }
    }
}

impl Duration<Nanoseconds> {
    /// Reads a column that counts nanoseconds. Every 64-bit count names a
    /// span.
    pub fn column_result(value: ColumnValue) -> (r: Result<Self, Error>)
        ensures
            read_view(r) == decoded_duration(value, 1),
            r matches Ok(d) ==> d.wf(),
            value is Integer ==> r is Ok,
    {
        let db_nanos: i64 = value.as_i64()?;
        let (secs, subsec_nanos) = std_from_nanos(unsigned_abs(db_nanos));
        if let Ok(duration) = SignedDuration::from_std(secs, subsec_nanos) {
            Ok(Self::with_sign_of(duration, db_nanos))
        } else {
            Err(Error::Overflow)
        }
    }

    /// The number of nanoseconds in the span, for the column; refused where
    /// no signed 64-bit integer holds it.
    pub fn to_sql(&self) -> (r: Result<i64, Error>)
        ensures
            r == encoded_duration(self@, 1),
    {
        if let Some(ns) = self.0.num_nanoseconds() {
            Ok(ns)
        } else {
            Err(Error::Overflow)
        }
    }
}

/// Reading an integer and writing the duration again at the same scale gives
/// the integer back, for every integer that can be read.
pub proof fn lemma_duration_round_trip(raw: i64, nanos_per_unit: int)
    requires
        nanos_per_unit > 0,
        decoded_duration(ColumnValue::Integer(raw), nanos_per_unit) is Ok,
    ensures
        encoded_duration(
            decoded_duration(ColumnValue::Integer(raw), nanos_per_unit)->Ok_0,
            nanos_per_unit,
        ) == Ok::<i64, Error>(raw),
{
    lemma_scaled_sign(raw as int, nanos_per_unit);
    lemma_mul_is_commutative(raw as int, nanos_per_unit);
    lemma_div_multiples_vanish(raw as int, nanos_per_unit);
    lemma_mul_unary_negation(raw as int, nanos_per_unit);
    lemma_mul_is_commutative(-raw, nanos_per_unit);
    lemma_div_multiples_vanish(-raw, nanos_per_unit);
}

/// Writing a duration that holds a whole number of units and reading the
/// integer again at the same scale gives the duration back, with its sign.
pub proof fn lemma_duration_write_then_read(nanos: int, nanos_per_unit: int)
    requires
        nanos_per_unit > 0,
        duration_in_range(nanos),
        nanos % nanos_per_unit == 0,
        encoded_duration(nanos, nanos_per_unit) is Ok,
    ensures
        decoded_duration(
            ColumnValue::Integer(encoded_duration(nanos, nanos_per_unit)->Ok_0),
            nanos_per_unit,
        ) == Ok::<int, Error>(nanos),
{
    lemma_fundamental_div_mod(nanos, nanos_per_unit);
    lemma_mul_is_commutative(nanos / nanos_per_unit, nanos_per_unit);
    if nanos < 0 {
        lemma_mod_multiples_basic(-(nanos / nanos_per_unit), nanos_per_unit);
        lemma_div_multiples_vanish(-(nanos / nanos_per_unit), nanos_per_unit);
        lemma_mul_unary_negation(nanos / nanos_per_unit, nanos_per_unit);
        lemma_mul_is_commutative(-(nanos / nanos_per_unit), nanos_per_unit);
    }
}

/// A span read from a column points the way of the stored integer: backwards
/// exactly where the integer is negative, nowhere exactly where it is zero,
/// forwards exactly where it is positive.
pub proof fn lemma_duration_sign(raw: i64, nanos_per_unit: int)
    requires
        nanos_per_unit > 0,
        decoded_duration(ColumnValue::Integer(raw), nanos_per_unit) is Ok,
    ensures
        decoded_duration(ColumnValue::Integer(raw), nanos_per_unit)->Ok_0 < 0 <==> raw < 0,
        decoded_duration(ColumnValue::Integer(raw), nanos_per_unit)->Ok_0 == 0 <==> raw == 0,
        decoded_duration(ColumnValue::Integer(raw), nanos_per_unit)->Ok_0 > 0 <==> raw > 0,
{
    lemma_scaled_sign(raw as int, nanos_per_unit);
}

/// A span that is longer than the nanoseconds a signed 64-bit integer can
/// count is refused at the nanosecond scale, whichever way it points.
pub proof fn lemma_duration_nanos_overflow(nanos: int)
    requires
        nanos > i64::MAX || nanos < i64::MIN,
    ensures
        encoded_duration(nanos, 1) == Err::<i64, Error>(Error::Overflow),
{
}

/// A multiple of a positive unit has the sign of its count.
proof fn lemma_scaled_sign(count: int, unit: int)
    requires
        unit > 0,
    ensures
        count * unit < 0 <==> count < 0,
        count * unit == 0 <==> count == 0,
        count * unit > 0 <==> count > 0,
{
    if count > 0 {
        lemma_mul_strictly_positive(count, unit);
    } else if count < 0 {
        lemma_mul_strictly_positive(-count, unit);
        lemma_mul_unary_negation(count, unit);
    }
}

} // verus!
