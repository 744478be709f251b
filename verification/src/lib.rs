//! Catalog queries that reconstruct the DDL of a PostgreSQL schema.
//!
//! A [`PgSchema`] names one schema. For each kind of object that a schema can
//! hold it gives the text of a query which, run against the catalog, returns
//! one row per object: the statement that would create it again.

pub mod laws;
pub mod pg;
pub mod sql;

pub use pg::PgSchema;
