//! Boundary layer that exposes columnar tables to a native caller.
//!
//! A loaded table is held behind an owning handle. Its primitive columns are
//! handed out as address and length pairs without copying, and a deferred
//! query accumulates a projection and a conjunction of filters before any
//! data materializes. Every fallible operation reports a status from a
//! closed set together with a message in an error slot.

pub mod columns;
pub mod engine;
pub mod error;
pub mod ffi;
pub mod frame;
pub mod parquet;
pub mod query;
pub mod reader;
pub mod schema;
pub mod text;
pub mod writer;

pub use crate::error::ParquetError;
pub use crate::parquet::{ParquetReader, ParquetWriter};
