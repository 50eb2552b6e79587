//! Row/columnar transcoding for two-field integer records.
//!
//! The library converts ordered sequences of `Record` values into a
//! struct-of-arrays `ColumnarBatch`, back again, merges two batches of the
//! same schema into one, and projects single rows out of a batch as `Scalar`
//! values.  Every conversion is specified against a mathematical model of the
//! batch and proved to preserve the data exactly.

pub mod batch;
pub mod error;
pub mod merge;
pub mod record;
pub mod scalar;
pub mod transcode;
