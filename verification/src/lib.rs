//! Storage for unique strings.
//!
//! Repeated string contents are mapped to a single canonical entry in an
//! interning table, and a small copyable [`Symbol`] handle stands in for the
//! string thereafter.

pub mod laws;
pub mod serialization;
pub mod shared;
pub mod symbol;
pub mod table;

pub use shared::Table;
pub use symbol::Symbol;
pub use table::State;
