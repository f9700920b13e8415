//! A dialect-aware SQL INSERT statement builder.
//!
//! Given a structured description of an insert operation (table, columns,
//! row values, conflict policy, returning columns) the builder produces the
//! exact statement text and the ordered list of values to bind to it, for
//! one of three SQL dialects: SQLite, MySQL and Postgres.

pub mod aggregation;
pub mod db_specific;
pub mod error;
pub mod insert;
pub mod laws;
pub mod on_conflict;
pub mod outside;
pub mod text;
pub mod value;

pub use aggregation::SelectAggregator;
pub use error::Error;
pub use insert::Dialect;
pub use insert::Insert;
pub use insert::InsertData;
pub use insert::InsertImpl;
pub use on_conflict::OnConflict;
pub use value::NullType;
pub use value::Value;
