use vstd::prelude::*;

use crate::error::Error;

verus! {

/// What a column of a row holds, by SQLite's storage classes. Only an
/// integer's payload is carried: it is the one this crate's types read.
#[derive(Clone, Copy, Debug, PartialEq, Eq, Structural)]
pub enum ColumnValue {
    Null,
    Integer(i64),
    Real,
    Text,
    Blob,
}

impl ColumnValue {
    /// The integer the column holds, where it holds one.
    pub open spec fn integer(self) -> Option<i64> {
        match self {
            ColumnValue::Integer(i) => Some(i),
            _ => None,
        }
    }

    /// Reads the column as a 64-bit integer.
    pub fn as_i64(&self) -> (r: Result<i64, Error>)
        ensures
            r == match self.integer() {
                Some(i) => Ok::<i64, Error>(i),
                None => Err(Error::NotAnInteger),
            },
    {
        match self {
            ColumnValue::Integer(i) => Ok(*i),
            _ => Err(Error::NotAnInteger),
        }
    }
}

} // verus!
