//! Guarded access to an embedded analytical database: opening it, bulk-loading
//! Parquet files, running ad-hoc SQL with results marshaled to text, reading
//! the catalog and creating indexes.
pub mod api;
pub mod cell;
pub mod db;
pub mod engine;
pub mod naming;
pub mod platform;
pub mod text;
