//! Single-row projection out of a batch, and its conversion to a record.
//!
//! `row_at` projects one row of a [`ColumnarBatch`] as a [`Scalar`]: the
//! row's cells, each addressable by its column's name.  `scalar_to_record`
//! rebuilds a [`Record`] from such a projection by name lookup.

use vstd::prelude::*;

use crate::batch::{
    is_first_name, has_name, name_at, lemma_first_name_unique, lemma_no_name, BatchModel,
    CellValue, ColumnValues, ColumnarBatch,
};
use crate::error::Error;
use crate::record::Record;
use crate::transcode::spec_columns_to_records;
use vstd::string::StringExecFns;

verus! {

/// One field of a projected row: the column's name and the row's cell.
#[derive(Debug)]
pub struct ScalarField {
    pub name: String,
    pub value: CellValue,
}

/// The model of a projected field.
#[verifier::ext_equal]
pub struct FieldValModel {
    pub name: Seq<char>,
    pub value: CellValue,
}

impl View for ScalarField {
    type V = FieldValModel;

    open spec fn view(&self) -> FieldValModel {
        FieldValModel { name: self.name@, value: self.value }
    }
}

/// A single row's field values, projected out of a batch.
#[derive(Debug)]
pub struct Scalar {
    pub fields: Vec<ScalarField>,
}

/// The model of a projected row.
#[verifier::ext_equal]
pub struct ScalarModel {
    pub fields: Seq<FieldValModel>,
}

impl View for Scalar {
    type V = ScalarModel;

    open spec fn view(&self) -> ScalarModel {
        ScalarModel { fields: self.fields@.map_values(|f: ScalarField| f@) }
    }
}

impl ScalarModel {
    /// The field names in field order.
    pub open spec fn names(self) -> Seq<Seq<char>> {
        self.fields.map_values(|f: FieldValModel| f.name)
    }
}

/// Row `i` of a batch: one field per column, in column order, each carrying
/// the column's name and the cell at row `i`.
pub open spec fn spec_row_at(m: BatchModel, i: int) -> ScalarModel {
    ScalarModel {
        fields: Seq::new(
            m.columns.len(),
            |j: int| FieldValModel { name: m.columns[j].name, value: m.columns[j].cells.cell(i) },
        ),
    }
}

/// The record a projected row holds, read through name lookup: the first
/// fields named `a` and `b`, each of which must hold a 64-bit integer.
/// Absence is a `MissingField` failure; a cell of the wrong physical type is
/// a `TypeMismatch` failure, checked for `a` before `b`.
pub open spec fn spec_scalar_to_record(s: ScalarModel) -> Result<Record, Error> {
    if !has_name(s.names(), "a"@) {
        Err(Error::MissingField)
    } else if !(s.fields[name_at(s.names(), "a"@)].value is Int64) {
        Err(Error::TypeMismatch)
    } else if !has_name(s.names(), "b"@) {
        Err(Error::MissingField)
    } else if !(s.fields[name_at(s.names(), "b"@)].value is Int64) {
        Err(Error::TypeMismatch)
    } else {
        Ok(
            Record {
                a: s.fields[name_at(s.names(), "a"@)].value.as_int64(),
                b: s.fields[name_at(s.names(), "b"@)].value.as_int64(),
            },
        )
    }
}

/// Projects row `index` out of the batch; a negative index or one at or
/// beyond the batch's length is rejected with `IndexOutOfRange`.
pub fn row_at(batch: &ColumnarBatch, index: i64) -> (r: Result<Scalar, Error>)
    requires
        batch@.wf(),
    ensures
        match r {
            Ok(s) => 0 <= index && (index as int) < batch@.length && s@ == spec_row_at(
                batch@,
                index as int,
            ),
            Err(e) => e == Error::IndexOutOfRange && (index < 0 || (index as int)
                >= batch@.length),
        },
{
    if index < 0 {
        return Err(Error::IndexOutOfRange);
    }
    if (index as u64) >= (batch.length as u64) {
        return Err(Error::IndexOutOfRange);
    }
    let i = index as usize;
    let mut fields: Vec<ScalarField> = Vec::new();
    let mut j: usize = 0;
    while j < batch.columns.len()
        invariant
            j <= batch.columns.len(),
            batch@.wf(),
            0 <= (i as int) < batch@.length,
            i < batch.length,
            batch@.length == batch.length as nat,
            fields@.len() == j,
            forall|k: int|
                0 <= k < j ==> (#[trigger] fields@[k])@ == spec_row_at(batch@, i as int).fields[k],
        decreases batch.columns.len() - j,
    {
        let c = &batch.columns[j];
        proof {
            assert(batch@.columns[j as int] == batch.columns@[j as int]@);
            assert(batch@.columns[j as int].cells.len() == batch@.length);
        }
        let value = match &c.values {
            ColumnValues::Int64(v) => CellValue::Int64(v[i]),
            ColumnValues::Bool(v) => CellValue::Bool(v[i]),
        };
        fields.push(ScalarField { name: c.name.clone(), value });
        j += 1;
    }
    let s = Scalar { fields };
    proof {
        assert(s@.fields =~= spec_row_at(batch@, i as int).fields);
        assert(s@ =~= spec_row_at(batch@, i as int));
    }
    Ok(s)
}

/// Rebuilds a record from a projected row by looking the `a` and `b` fields
/// up by name and extracting their 64-bit integer values.
pub fn scalar_to_record(scalar: &Scalar) -> (r: Result<Record, Error>)
    ensures
        match r {
            Ok(rec) => spec_scalar_to_record(scalar@) == Ok::<Record, Error>(rec),
            Err(e) => spec_scalar_to_record(scalar@) == Err::<Record, Error>(e),
        },
{
    let a_name = String::from_str("a");
    let b_name = String::from_str("b");
    let a = match find_field_int64(scalar, &a_name) {
        Ok(v) => v,
        Err(e) => {
            return Err(e);
        },
    };
    let b = match find_field_int64(scalar, &b_name) {
        Ok(v) => v,
        Err(e) => {
            return Err(e);
        },
    };
    Ok(Record { a, b })
}

/// Looks the named field up and extracts its 64-bit integer value,
/// reporting `MissingField` or `TypeMismatch` exactly as the model does.
fn find_field_int64(scalar: &Scalar, name: &String) -> (r: Result<i64, Error>)
    ensures
        match r {
            Ok(v) => has_name(scalar@.names(), name@) && scalar@.fields[name_at(
                scalar@.names(),
                name@,
            )].value == CellValue::Int64(v),
            Err(e) => (e == Error::MissingField && !has_name(scalar@.names(), name@)) || (e
                == Error::TypeMismatch && has_name(scalar@.names(), name@) && !(scalar@.fields[
                name_at(scalar@.names(), name@)
            ].value is Int64)),
        },
{
    let mut j: usize = 0;
    while j < scalar.fields.len()
        invariant
            j <= scalar.fields.len(),
            forall|k: int| 0 <= k < j ==> scalar@.names()[k] != name@,
        decreases scalar.fields.len() - j,
    {
        if scalar.fields[j].name == *name {
            proof {
                assert(is_first_name(scalar@.names(), name@, j as int));
                lemma_first_name_unique(scalar@.names(), name@, j as int);
            }
            match scalar.fields[j].value {
                CellValue::Int64(v) => {
                    return Ok(v);
                },
                CellValue::Bool(_) => {
                    return Err(Error::TypeMismatch);
                },
            }
        }
        j += 1;
    }
    proof {
        lemma_no_name(scalar@.names(), name@);
    }
    Err(Error::MissingField)
}

/// Projection and transcoding agree: wherever reading the whole batch back
/// succeeds, converting the projection of row `i` yields exactly record `i`
/// of the read-back sequence.
pub proof fn lemma_row_record_consistency(m: BatchModel, i: int)
    requires
        m.wf(),
        0 <= i < m.length,
        spec_columns_to_records(m) is Ok,
    ensures
        spec_scalar_to_record(spec_row_at(m, i)) == Ok::<Record, Error>(
            spec_columns_to_records(m)->Ok_0[i],
        ),
{
    let s = spec_row_at(m, i);
    assert(s.names() =~= m.names());
    let ia = name_at(m.names(), "a"@);
    let ib = name_at(m.names(), "b"@);
    assert(has_name(m.names(), "a"@));
    assert(is_first_name(m.names(), "a"@, ia));
    assert(has_name(m.names(), "b"@));
    assert(is_first_name(m.names(), "b"@, ib));
    assert(s.fields[ia].value == m.columns[ia].cells.cell(i));
    assert(s.fields[ib].value == m.columns[ib].cells.cell(i));
    assert(spec_scalar_to_record(s) == Ok::<Record, Error>(
        Record { a: m.columns[ia].cells.ints()[i], b: m.columns[ib].cells.ints()[i] },
    ));
}

} // verus!
