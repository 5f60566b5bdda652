//! Inspects and recombines Parquet files: prints rows in several text forms,
//! reports schemas, row counts and storage sizes, draws random row samples,
//! and merges same-schema files into one output, streaming batch by batch.
//!
//! The counting, bounding, sampling and merge logic is verified; the Parquet
//! and Arrow codecs themselves are reached through the trusted gateway.

pub mod args;
pub mod errors;
pub mod format;
pub mod gateway;
pub mod merge;
pub mod meta;
pub mod sample;
pub mod schema;
pub mod stream;
pub mod text;
