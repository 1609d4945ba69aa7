use std::cmp::Ordering;
use std::marker::PhantomData;
use vstd::arithmetic::div_mod::lemma_div_multiples_vanish;
use vstd::arithmetic::div_mod::lemma_fundamental_div_mod;
use vstd::arithmetic::div_mod::lemma_mod_bound;
use vstd::arithmetic::mul::lemma_mul_is_commutative;
use vstd::arithmetic::mul::lemma_mul_is_distributive_add_other_way;
use vstd::prelude::*;
use vstd::std_specs::cmp::PartialEqSpecImpl;
use vstd::std_specs::cmp::PartialOrdSpecImpl;
use vstd::std_specs::convert::FromSpecImpl;

use super::div_euclid;
use super::instant::Instant;
use super::instant::instant_in_range;
use super::MICROS_PER_SECOND;
use super::Microseconds;
use super::MILLIS_PER_SECOND;
use super::Milliseconds;
use super::NANOS_PER_MICRO;
use super::NANOS_PER_MILLI;
use super::NANOS_PER_SECOND;
use super::Nanoseconds;
use super::rem_euclid;
use super::Seconds;
use crate::error::Error;
use crate::value::ColumnValue;

verus! {

pub type UnixEpoch = Timestamp<Seconds>;

pub type TimestampMillis = Timestamp<Milliseconds>;

pub type TimestampMicros = Timestamp<Microseconds>;

pub type TimestampNanos = Timestamp<Nanoseconds>;

/// An instant kept in an `INTEGER` column. The type parameter fixes the scale
/// of the column: a `Timestamp<Seconds>` is stored as a number of seconds
/// since the epoch, a `Timestamp<Milliseconds>` as a number of milliseconds.
/// Timestamps of one scale are equal, and ordered, as their instants are.
#[derive(Debug, Eq, Ord)]
pub struct Timestamp<Scale>(Instant, PhantomData<Scale>);

impl<Scale> Copy for Timestamp<Scale> {

}

impl<Scale> Clone for Timestamp<Scale> {
    fn clone(&self) -> (r: Self)
        ensures
            r == *self,
    {
        *self
    }
}

impl<Scale> PartialEq for Timestamp<Scale> {
    fn eq(&self, other: &Self) -> (r: bool) {
        self.0 == other.0
    }
}

impl<Scale> PartialEqSpecImpl for Timestamp<Scale> {
    open spec fn obeys_eq_spec() -> bool {
        true
    }

    open spec fn eq_spec(&self, other: &Self) -> bool {
        self@ == other@
    }
}

impl<Scale> PartialOrd for Timestamp<Scale> {
    fn partial_cmp(&self, other: &Self) -> (r: Option<Ordering>) {
        self.0.partial_cmp(&other.0)
    }
}

impl<Scale> PartialOrdSpecImpl for Timestamp<Scale> {
    open spec fn obeys_partial_cmp_spec() -> bool {
        true
    }

    open spec fn partial_cmp_spec(&self, other: &Self) -> Option<Ordering> {
        if self@ < other@ {
            Some(Ordering::Less)
        } else if self@ == other@ {
            Some(Ordering::Equal)
        } else {
            Some(Ordering::Greater)
        }
    }
}

impl<Scale> View for Timestamp<Scale> {
    type V = int;

    /// Nanoseconds since the epoch.
    closed spec fn view(&self) -> int {
        self.0@
    }
}

/// The instant, in nanoseconds since the epoch, that a column holding `value`
/// stands for when it counts units of `nanos_per_unit` nanoseconds; or why it
/// stands for none.
pub open spec fn decoded_instant(value: ColumnValue, nanos_per_unit: int) -> Result<int, Error> {
    match value {
        ColumnValue::Integer(raw) => if instant_in_range(raw * nanos_per_unit) {
            Ok(raw * nanos_per_unit)
        } else {
            Err(Error::OutOfRange(raw))
        },
        _ => Err(Error::NotAnInteger),
    }
}

/// The integer stored for the instant `nanos` nanoseconds from the epoch in a
/// column that counts units of `nanos_per_unit` nanoseconds: the whole units
/// that have passed, so that what is finer than the unit is cut off towards
/// the past.
pub open spec fn encoded_instant(nanos: int, nanos_per_unit: int) -> Result<i64, Error> {
    let units = nanos / nanos_per_unit;
    if i64::MIN <= units <= i64::MAX {
        Ok(units as i64)
    } else {
        Err(Error::Overflow)
    }
}

/// What a read gave, with the timestamp taken by its view.
pub open spec fn read_view<Scale>(r: Result<Timestamp<Scale>, Error>) -> Result<int, Error> {
    match r {
        Ok(t) => Ok(t@),
        Err(e) => Err(e),
    }
}

impl<Scale> Timestamp<Scale> {
    /// What holds of every timestamp: it wraps an instant.
    pub closed spec fn wf(&self) -> bool {
        self.0.wf()
    }

    /// The instant, without its scale.
    pub fn unwrap(self) -> (at: Instant)
        ensures
            at@ == self@,
            at.wf(),
    {
        proof {
            use_type_invariant(&self.0);
        }
        self.0
    }

    /// The current instant, by the system's clock.
    pub fn now() -> (r: Self)
        ensures
            r.wf(),
    {
        Timestamp(Instant::now(), PhantomData)
    }

    /// A timestamp's view lies in the supported range and names it.
    pub proof fn lemma_view(self, other: Self)
        requires
            self.wf(),
            other.wf(),
        ensures
            instant_in_range(self@),
            self@ == other@ ==> self == other,
    {
        self.0.lemma_view(other.0);
    }
}

impl<Scale> From<Instant> for Timestamp<Scale> {
    fn from(v: Instant) -> (r: Self)
        ensures
            r@ == v@,
            r.wf(),
    {
        proof {
            use_type_invariant(&v);
        }
        Timestamp(v, PhantomData)
    }
}

impl<Scale> FromSpecImpl<Instant> for Timestamp<Scale> {
    open spec fn obeys_from_spec() -> bool {
        true
    }

    closed spec fn from_spec(v: Instant) -> Self {
        Timestamp(v, PhantomData)
    }
}

impl<Scale> From<Timestamp<Scale>> for Instant {
    fn from(v: Timestamp<Scale>) -> (r: Self)
        ensures
            r@ == v@,
            r.wf(),
    {
        proof {
            use_type_invariant(&v.0);
        }
        v.0
    }
}

impl<Scale> FromSpecImpl<Timestamp<Scale>> for Instant {
    open spec fn obeys_from_spec() -> bool {
        true
    }

    closed spec fn from_spec(v: Timestamp<Scale>) -> Self {
        v.0
    }
}

impl Timestamp<Seconds> {
    /// Reads a column that counts seconds since the epoch.
    pub fn column_result(value: ColumnValue) -> (r: Result<Self, Error>)
        ensures
            read_view(r) == decoded_instant(value, NANOS_PER_SECOND as int),
            r matches Ok(t) ==> t.wf(),
    {
        let db_seconds: i64 = value.as_i64()?;
        if let Some(timestamp) = Instant::from_timestamp(db_seconds, 0) {
            Ok(Timestamp(timestamp, PhantomData))
        } else {
            Err(Error::OutOfRange(db_seconds))
        }
    }

    /// The number of whole seconds since the epoch, for the column.
    pub fn to_sql(&self) -> (r: Result<i64, Error>)
        ensures
            r == encoded_instant(self@, NANOS_PER_SECOND as int),
            r is Ok,
    {
        Ok(self.0.timestamp())
    }
}

impl Timestamp<Milliseconds> {
    /// Reads a column that counts milliseconds since the epoch.
    pub fn column_result(value: ColumnValue) -> (r: Result<Self, Error>)
        ensures
            read_view(r) == decoded_instant(value, NANOS_PER_MILLI as int),
            r matches Ok(t) ==> t.wf(),
    {
        let db_millis: i64 = value.as_i64()?;
        let v_secs: i64 = div_euclid(db_millis, MILLIS_PER_SECOND);
        let v_nanos: u32 = (rem_euclid(db_millis, MILLIS_PER_SECOND) * NANOS_PER_MILLI) as u32;

        if let Some(timestamp) = Instant::from_timestamp(v_secs, v_nanos) {
            Ok(Timestamp(timestamp, PhantomData))
        } else {
            Err(Error::OutOfRange(db_millis))
        }
    }

    /// The number of whole milliseconds since the epoch, for the column.
    pub fn to_sql(&self) -> (r: Result<i64, Error>)
        ensures
            r == encoded_instant(self@, NANOS_PER_MILLI as int),
            r is Ok,
    {
        Ok(self.0.timestamp_millis())
    }
}

impl Timestamp<Microseconds> {
    /// Reads a column that counts microseconds since the epoch.
    pub fn column_result(value: ColumnValue) -> (r: Result<Self, Error>)
        ensures
            read_view(r) == decoded_instant(value, NANOS_PER_MICRO as int),
            r matches Ok(t) ==> t.wf(),
    {
        let db_micros: i64 = value.as_i64()?;
        let v_secs: i64 = div_euclid(db_micros, MICROS_PER_SECOND);
        let v_nanos: u32 = (rem_euclid(db_micros, MICROS_PER_SECOND) * NANOS_PER_MICRO) as u32;

        if let Some(timestamp) = Instant::from_timestamp(v_secs, v_nanos) {
            Ok(Timestamp(timestamp, PhantomData))
        } else {
            Err(Error::OutOfRange(db_micros))
        }
    }

    /// The number of whole microseconds since the epoch, for the column.
    pub fn to_sql(&self) -> (r: Result<i64, Error>)
        ensures
            r == encoded_instant(self@, NANOS_PER_MICRO as int),
            r is Ok,
    {
        Ok(self.0.timestamp_micros())
    }
}

impl Timestamp<Nanoseconds> {
    /// Reads a column that counts nanoseconds since the epoch. Every 64-bit
    /// count names an instant.
    pub fn column_result(value: ColumnValue) -> (r: Result<Self, Error>)
        ensures
            read_view(r) == decoded_instant(value, 1),
            r matches Ok(t) ==> t.wf(),
            value is Integer ==> r is Ok,
    {
        let db_nanos: i64 = value.as_i64()?;
        let v_secs: i64 = div_euclid(db_nanos, NANOS_PER_SECOND);
        let v_nanos: u32 = rem_euclid(db_nanos, NANOS_PER_SECOND) as u32;

        if let Some(timestamp) = Instant::from_timestamp(v_secs, v_nanos) {
            Ok(Timestamp(timestamp, PhantomData))
        } else {
            Err(Error::OutOfRange(db_nanos))
        }
    }

    /// The number of nanoseconds since the epoch, for the column. Instants
    /// more than some 292 years from the epoch have a count that no 64-bit
    /// integer holds, and are refused.
    pub fn to_sql(&self) -> (r: Result<i64, Error>)
        ensures
            r == encoded_instant(self@, 1),
    {
        match self.0.timestamp_nanos_opt() {
            Some(nanos) => Ok(nanos),
            None => Err(Error::Overflow),
        }
    }
}

/// Reading an integer and writing the timestamp again at the same scale gives
/// the integer back, for every integer that can be read.
pub proof fn lemma_timestamp_round_trip(raw: i64, nanos_per_unit: int)
    requires
        nanos_per_unit > 0,
        decoded_instant(ColumnValue::Integer(raw), nanos_per_unit) is Ok,
    ensures
        encoded_instant(
            decoded_instant(ColumnValue::Integer(raw), nanos_per_unit)->Ok_0,
            nanos_per_unit,
        ) == Ok::<i64, Error>(raw),
{
    lemma_mul_is_commutative(raw as int, nanos_per_unit);
    lemma_div_multiples_vanish(raw as int, nanos_per_unit);
}

/// Writing cuts off what is finer than the unit, towards the past: the unit
/// that was stored begins at or before the instant, and the next one after it.
pub proof fn lemma_timestamp_encoding_floors(nanos: int, nanos_per_unit: int)
    requires
        nanos_per_unit > 0,
    ensures
        (nanos / nanos_per_unit) * nanos_per_unit <= nanos < (nanos / nanos_per_unit + 1)
            * nanos_per_unit,
{
    lemma_fundamental_div_mod(nanos, nanos_per_unit);
    lemma_mod_bound(nanos, nanos_per_unit);
    lemma_mul_is_commutative(nanos / nanos_per_unit, nanos_per_unit);
    lemma_mul_is_distributive_add_other_way(nanos_per_unit, nanos / nanos_per_unit, 1);
}

/// Writing a timestamp that holds a whole number of units and reading the
/// integer again at the same scale gives the timestamp back.
pub proof fn lemma_timestamp_write_then_read(nanos: int, nanos_per_unit: int)
    requires
        nanos_per_unit > 0,
        instant_in_range(nanos),
        nanos % nanos_per_unit == 0,
        encoded_instant(nanos, nanos_per_unit) is Ok,
    ensures
        decoded_instant(
            ColumnValue::Integer(encoded_instant(nanos, nanos_per_unit)->Ok_0),
            nanos_per_unit,
        ) == Ok::<int, Error>(nanos),
{
    lemma_fundamental_div_mod(nanos, nanos_per_unit);
    lemma_mul_is_commutative(nanos / nanos_per_unit, nanos_per_unit);
}

/// The scales agree on every instant: the count at a finer scale, divided by
/// the number of its units in the coarser unit and rounded down, is the count
/// at the coarser scale. So a thousandth of the milliseconds is the seconds,
/// and a millionth of the nanoseconds is the milliseconds.
pub proof fn lemma_timestamp_cross_scale(nanos: int)
    requires
        instant_in_range(nanos),
    ensures
        encoded_instant(nanos, NANOS_PER_SECOND as int) is Ok,
        encoded_instant(nanos, NANOS_PER_MILLI as int) is Ok,
        encoded_instant(nanos, NANOS_PER_MICRO as int) is Ok,
        encoded_instant(nanos, NANOS_PER_MILLI as int)->Ok_0 / 1_000 == encoded_instant(
            nanos,
            NANOS_PER_SECOND as int,
        )->Ok_0,
        encoded_instant(nanos, NANOS_PER_MICRO as int)->Ok_0 / 1_000 == encoded_instant(
            nanos,
            NANOS_PER_MILLI as int,
        )->Ok_0,
        encoded_instant(nanos, 1) matches Ok(count) ==> {
            &&& count / 1_000 == encoded_instant(nanos, NANOS_PER_MICRO as int)->Ok_0
            &&& count / 1_000_000 == encoded_instant(nanos, NANOS_PER_MILLI as int)->Ok_0
            &&& count / 1_000_000_000 == encoded_instant(nanos, NANOS_PER_SECOND as int)->Ok_0
        },
{
}

} // verus!
