//! The SQLite store: statements, row decoding, the mutation pipeline and the
//! operations on issues.

pub mod sql;
pub mod query;
pub mod rows;
pub mod driver;
pub mod context;
pub mod sqlite;
pub mod schema;
pub mod statements;
pub mod effects;
pub mod events;
pub mod lifecycle;
pub mod work;
pub mod update;
pub mod exchange;
pub mod doctor;
