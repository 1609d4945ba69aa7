//! Column types for SQLite rows: timestamps and durations stored as one
//! integer at a scale fixed by the type, typed integer keys, and wrappers for
//! values kept as serialized documents.

pub mod date_time;
pub mod error;
pub mod id;
pub mod macros;
pub mod object;
pub mod util;
pub mod value;

pub use error::Error;
pub use value::ColumnValue;
