//! Schema derivation for typed records: from one description of a record's
//! fields this crate derives a Firehose table schema, a Parquet message
//! schema, and source text for partition accessors and a Parquet writer.

pub mod declaration;
pub mod firehose;
pub mod model;
pub mod parquet;
pub mod text;
pub mod utils;
