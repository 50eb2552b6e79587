//! The row-oriented value type and its builder.

use vstd::prelude::*;

verus! {

/// An immutable row value with two signed 64-bit fields.  Equality is
/// value-based: two records are equal exactly when both fields agree.
#[derive(Clone, Copy, PartialEq, Eq, Structural, Debug)]
pub struct Record {
    pub a: i64,
    pub b: i64,
}

/// A fluent builder for [`Record`]; both fields must be supplied before
/// [`RecordBuilder::build`] may be called.
#[derive(Clone, Copy, PartialEq, Eq, Structural, Debug)]
pub struct RecordBuilder {
    pub a: Option<i64>,
    pub b: Option<i64>,
}

impl Record {
    /// Constructs a record directly from both field values.
    pub fn new(a: i64, b: i64) -> (r: Record)
        ensures
            r == (Record { a, b }),
    {
        Record { a, b }
    }

    /// Starts a builder with neither field set.
    pub fn builder() -> (r: RecordBuilder)
        ensures
            r.a is None,
            r.b is None,
    {
        RecordBuilder { a: None, b: None }
    }
}

impl RecordBuilder {
    /// Sets field `a`, leaving `b` as it was.
    pub fn a(self, v: i64) -> (r: RecordBuilder)
        ensures
            r.a == Some(v),
            r.b == self.b,
    {
        RecordBuilder { a: Some(v), ..self }
    }

    /// Sets field `b`, leaving `a` as it was.
    pub fn b(self, v: i64) -> (r: RecordBuilder)
        ensures
            r.b == Some(v),
            r.a == self.a,
    {
        RecordBuilder { b: Some(v), ..self }
    }

    /// Finishes the builder.  Both fields must have been supplied.
    pub fn build(self) -> (r: Record)
        requires
            self.a is Some,
            self.b is Some,
        ensures
            r == (Record { a: self.a->0, b: self.b->0 }),
    {
        Record { a: self.a.unwrap(), b: self.b.unwrap() }
    }
}

} // verus!
