use vstd::prelude::*;

pub mod integer;

pub use integer::IntegerId;

verus! {

/// Marks the types that serve as a primary key column.
pub trait Id {

}

} // verus!
