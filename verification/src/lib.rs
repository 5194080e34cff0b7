//! Storage and synchronisation engine of a local issue tracker.
//!
//! Issues, their dependencies, labels, comments and an append-only event
//! journal live in an SQLite database.  Every write goes through one
//! transactional pipeline that journals events, marks the touched issues as
//! pending export and invalidates the cache of blocked issues.

pub mod text;
pub mod cli;
pub mod cycles;
pub mod diagram;
pub mod error;
pub mod export;
pub mod time;
pub mod tree;
pub mod util;
pub mod model;
pub mod format;
pub mod graph;
pub mod hash;
pub mod history;
pub mod ids;
pub mod json;
pub mod jsonl;
pub mod logging;
pub mod readiness;
pub mod record;
pub mod stats;
pub mod storage;
pub mod sync;
