//! A record-mapping layer between application entities and a relational store.
//!
//! An entity is described once, as a table name and an ordered set of
//! column/value pairs, and the library prepares the five statements that the
//! store runs for it: insert, upsert, select of one row, select of many rows
//! and delete. A prepared statement is SQL text with positional placeholders
//! together with the values to bind, in placeholder order.

pub mod columns;
pub mod dynamic;
pub mod error;
pub mod model;
pub mod naming;
pub mod placeholders;
pub mod statement;
pub mod text;
pub mod value;

pub use columns::ColumnValueMap;
pub use error::Error;
pub use model::{AxumModel, SqliteModel};
pub use statement::Statement;
pub use value::BasicType;
