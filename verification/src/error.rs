use vstd::prelude::*;
use vstd::string::StringExecFns;

verus! {

/// Why a column could not be read into, or written from, one of this crate's
/// types.
#[derive(Clone, Copy, Debug, PartialEq, Eq, Structural)]
pub enum Error {
    /// The column does not hold a 64-bit integer.
    NotAnInteger,
    /// The integer read from the column names an instant outside the
    /// supported range. Carries that integer.
    OutOfRange(i64),
    /// The magnitude does not fit: a count of units that needs more than a
    /// signed 64-bit integer, or a span longer than a duration can hold.
    Overflow,
}

impl Error {
    /// The text that names this error.
    pub open spec fn message(self) -> Seq<char> {
        match self {
            Error::NotAnInteger => "NotAnInteger"@,
            Error::OutOfRange(_) => "OutOfRange"@,
            Error::Overflow => "Overflow"@,
        }
    }

    pub fn to_string(&self) -> (text: String)
        ensures
            text@ == self.message(),
    {
        match self {
            Error::NotAnInteger => String::from_str("NotAnInteger"),
            Error::OutOfRange(_) => String::from_str("OutOfRange"),
            Error::Overflow => String::from_str("Overflow"),
        }
    }
}

} // verus!
