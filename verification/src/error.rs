//! The error taxonomy of the transcoding pipeline.

use vstd::prelude::*;

verus! {

/// Everything that can go wrong while transcoding, merging or projecting
/// columnar data.  I/O and file-format failures belong to the callers that
/// perform the I/O and are not represented here.
#[derive(Clone, Copy, PartialEq, Eq, Structural, Debug)]
pub enum Error {
    /// Two batches offered for merging do not share field names, field order,
    /// field types, or nullability.
    SchemaMismatch,
    /// A column or scalar field looked up by name is absent.
    MissingField,
    /// A column or scalar field has a physical type other than the expected
    /// 64-bit integer.
    TypeMismatch,
    /// A row index lies outside `[0, length)`.
    IndexOutOfRange,
    /// Batch components of mismatched length were offered to the batch
    /// constructor.
    SchemaConstruction,
}

} // verus!
