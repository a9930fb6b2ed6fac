//! Structural and row-level comparison of relational databases across
//! several SQL dialects, with generation of the SQL that reconciles a
//! target database with a source.

pub mod error;
pub mod text;
pub mod dialect;
pub mod schema;
pub mod introspect;
pub mod diff;
pub mod sync;
pub mod connection;
pub mod views;
pub mod ui;
pub mod task;
