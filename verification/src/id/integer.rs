use std::cmp::Ordering;
use std::marker::PhantomData;
use vstd::prelude::*;
use vstd::std_specs::cmp::PartialEqSpecImpl;
use vstd::std_specs::cmp::PartialOrdSpecImpl;

use super::Id;
use crate::error::Error;
use crate::value::ColumnValue;

verus! {

/// A column named `id` stored as an `INTEGER`. The type parameter binds the
/// key to one table, so that the key of another table is of another type.
#[derive(Hash, Ord)]
pub struct IntegerId<T>(i64, PhantomData<T>);

impl<T> View for IntegerId<T> {
    type V = i64;

    /// The stored integer.
    closed spec fn view(&self) -> i64 {
        self.0
    }
}

impl<T> Id for IntegerId<T> {

}

impl<T> Copy for IntegerId<T> {

}

impl<T> Clone for IntegerId<T> {
    fn clone(&self) -> (r: Self)
        ensures
            r == *self,
    {
        Self(self.0, PhantomData)
    }
}

impl<T> Eq for IntegerId<T> {

}

impl<T> PartialEq for IntegerId<T> {
    fn eq(&self, other: &Self) -> (r: bool) {
        self.0 == other.0
    }
}

impl<T> PartialEqSpecImpl for IntegerId<T> {
    open spec fn obeys_eq_spec() -> bool {
        true
    }

    open spec fn eq_spec(&self, other: &Self) -> bool {
        self@ == other@
    }
}

impl<T> PartialOrd for IntegerId<T> {
    fn partial_cmp(&self, other: &Self) -> (r: Option<Ordering>) {
        if self.0 < other.0 {
            Some(Ordering::Less)
        } else if self.0 == other.0 {
            Some(Ordering::Equal)
        } else {
            Some(Ordering::Greater)
        }
    }
}

impl<T> PartialOrdSpecImpl for IntegerId<T> {
    open spec fn obeys_partial_cmp_spec() -> bool {
        true
    }

    open spec fn partial_cmp_spec(&self, other: &Self) -> Option<Ordering> {
        if self@ < other@ {
            Some(Ordering::Less)
        } else if self@ == other@ {
            Some(Ordering::Equal)
        } else {
            Some(Ordering::Greater)
        }
    }
}

impl<T> IntegerId<T> {
    /// Two keys with the same integer are the same key.
    pub proof fn lemma_view(self, other: Self)
        ensures
            self@ == other@ ==> self == other,
    {
    }

    /// The integer to store in the column.
    pub fn to_sql(&self) -> (r: Result<i64, Error>)
        ensures
            r == Ok::<i64, Error>(self@),
    {
        Ok(self.0)
    }

    /// Reads the key from a column, which must hold an integer.
    pub fn column_result(value: ColumnValue) -> (r: Result<Self, Error>)
        ensures
            match value.integer() {
                Some(v) => r matches Ok(id) && id@ == v,
                None => r == Err::<Self, Error>(Error::NotAnInteger),
            },
    {
        let v: i64 = value.as_i64()?;
        Ok(Self(v, PhantomData))
    }
}

} // verus!
