//! Bidirectional conversion between record sequences and columnar batches.
//!
//! `records_to_columns` lays a sequence of records out as two non-nullable
//! 64-bit integer columns named `a` and `b`; `columns_to_records` reads any
//! batch back row-wise through name lookup.  The round-trip is proved exact
//! by [`lemma_round_trip`].

use vstd::prelude::*;

use crate::batch::{
    is_first_name, has_name, name_at, column_names, lemma_first_name_unique, BatchModel,
    CellsModel, Column, ColumnModel, ColumnValues, ColumnarBatch,
};
use crate::error::Error;
use crate::record::Record;
use vstd::string::StringExecFns;

verus! {

/// The batch that lays the records out column-wise: two non-nullable
/// `Int64` columns named `a` and `b`, in that order, one row per record.
pub open spec fn spec_records_to_columns(rs: Seq<Record>) -> BatchModel {
    BatchModel {
        columns: seq![
            ColumnModel {
                name: "a"@,
                nullable: false,
                cells: CellsModel::Int64(rs.map_values(|r: Record| r.a)),
            },
            ColumnModel {
                name: "b"@,
                nullable: false,
                cells: CellsModel::Int64(rs.map_values(|r: Record| r.b)),
            },
        ],
        length: rs.len(),
        nullable: false,
    }
}

/// The records a batch holds, read through name lookup: the first column
/// named `a` and the first named `b` are zipped row-wise.  Absence of either
/// column is a `MissingField` failure; a column of the wrong physical type
/// is a `TypeMismatch` failure, checked for `a` before `b`.
pub open spec fn spec_columns_to_records(m: BatchModel) -> Result<Seq<Record>, Error> {
    if !has_name(m.names(), "a"@) {
        Err(Error::MissingField)
    } else if !(m.columns[name_at(m.names(), "a"@)].cells is Int64) {
        Err(Error::TypeMismatch)
    } else if !has_name(m.names(), "b"@) {
        Err(Error::MissingField)
    } else if !(m.columns[name_at(m.names(), "b"@)].cells is Int64) {
        Err(Error::TypeMismatch)
    } else {
        let av = m.columns[name_at(m.names(), "a"@)].cells.ints();
        let bv = m.columns[name_at(m.names(), "b"@)].cells.ints();
        Ok(Seq::new(m.length, |i: int| Record { a: av[i], b: bv[i] }))
    }
}

/// Lays `records` out as a columnar batch, preserving order.  The defensive
/// length validation of the batch constructor cannot fire here, so the
/// conversion always succeeds.
pub fn records_to_columns(records: &Vec<Record>) -> (r: Result<ColumnarBatch, Error>)
    ensures
        match r {
            Ok(b) => b@ == spec_records_to_columns(records@) && b@.wf(),
            Err(_) => false,
        },
{
    let length = records.len();
    let mut a: Vec<i64> = Vec::new();
    let mut b: Vec<i64> = Vec::new();
    let mut i: usize = 0;
    while i < records.len()
        invariant
            i <= records.len(),
            a@ =~= records@.take(i as int).map_values(|r: Record| r.a),
            b@ =~= records@.take(i as int).map_values(|r: Record| r.b),
        decreases records.len() - i,
    {
        a.push(records[i].a);
        b.push(records[i].b);
        proof {
            assert(records@.take(i + 1).drop_last() =~= records@.take(i as int));
            assert(a@ =~= records@.take(i + 1).map_values(|r: Record| r.a));
            assert(b@ =~= records@.take(i + 1).map_values(|r: Record| r.b));
        }
        i += 1;
    }
    proof {
        assert(records@.take(records@.len() as int) =~= records@);
    }
    let columns = vec![
        Column { name: String::from_str("a"), nullable: false, values: ColumnValues::Int64(a) },
        Column { name: String::from_str("b"), nullable: false, values: ColumnValues::Int64(b) },
    ];
    let ghost model = BatchModel {
        columns: columns@.map_values(|c: Column| c@),
        length: length as nat,
        nullable: false,
    };
    proof {
        assert(model.columns =~= spec_records_to_columns(records@).columns);
        assert(model =~= spec_records_to_columns(records@));
        assert(model.wf());
    }
    match ColumnarBatch::try_new(columns, length, false) {
        Ok(batch) => Ok(batch),
        Err(_) => {
            proof {
                assert(false);
            }
            Err(Error::SchemaConstruction)
        },
    }
}

/// Reads a batch back into records by looking the `a` and `b` columns up by
/// name and zipping them row-wise; the output has one record per batch row.
pub fn columns_to_records(batch: &ColumnarBatch) -> (r: Result<Vec<Record>, Error>)
    requires
        batch@.wf(),
    ensures
        match r {
            Ok(v) => spec_columns_to_records(batch@) == Ok::<Seq<Record>, Error>(v@),
            Err(e) => spec_columns_to_records(batch@) == Err::<Seq<Record>, Error>(e),
        },
{
    proof {
        assert(column_names(batch.columns@) =~= batch@.names());
    }
    let a_name = String::from_str("a");
    let b_name = String::from_str("b");
    let ia = match find_column_checked(batch, &a_name) {
        Ok(i) => i,
        Err(e) => {
            return Err(e);
        },
    };
    let ib = match find_column_checked(batch, &b_name) {
        Ok(i) => i,
        Err(e) => {
            return Err(e);
        },
    };
    let av = match &batch.columns[ia].values {
        ColumnValues::Int64(v) => v,
        ColumnValues::Bool(_) => {
            proof {
                assert(false);
            }
            return Err(Error::TypeMismatch);
        },
    };
    let bv = match &batch.columns[ib].values {
        ColumnValues::Int64(v) => v,
        ColumnValues::Bool(_) => {
            proof {
                assert(false);
            }
            return Err(Error::TypeMismatch);
        },
    };
    let mut records: Vec<Record> = Vec::new();
    let mut i: usize = 0;
    while i < batch.length
        invariant
            i <= batch.length,
            batch@.wf(),
            0 <= ia < batch.columns@.len(),
            0 <= ib < batch.columns@.len(),
            batch@.columns[ia as int].cells == CellsModel::Int64(av@),
            batch@.columns[ib as int].cells == CellsModel::Int64(bv@),
            batch@.length == batch.length as nat,
            records@.len() == i,
            forall|k: int|
                0 <= k < i ==> records@[k] == (Record { a: av@[k], b: bv@[k] }),
        decreases batch.length - i,
    {
        records.push(Record { a: av[i], b: bv[i] });
        i += 1;
    }
    proof {
        let m = batch@;
        assert(records@ =~= Seq::new(
            m.length,
            |k: int| Record { a: m.columns[ia as int].cells.ints()[k], b: m.columns[ib as int].cells.ints()[k] },
        ));
    }
    Ok(records)
}

/// Looks the named column up and insists it is a 64-bit integer column,
/// reporting `MissingField` or `TypeMismatch` exactly as the model does.
fn find_column_checked(batch: &ColumnarBatch, name: &String) -> (r: Result<usize, Error>)
    ensures
        match r {
            Ok(i) => is_first_name(batch@.names(), name@, i as int) && name_at(
                batch@.names(),
                name@,
            ) == i as int && has_name(batch@.names(), name@) && i < batch.columns@.len()
                && batch@.columns[i as int].cells is Int64,
            Err(e) => (e == Error::MissingField && !has_name(batch@.names(), name@)) || (e
                == Error::TypeMismatch && has_name(batch@.names(), name@) && !(batch@.columns[
                name_at(batch@.names(), name@)
            ].cells is Int64)),
        },
{
    proof {
        assert(column_names(batch.columns@) =~= batch@.names());
    }
    match crate::batch::find_column(&batch.columns, name) {
        None => Err(Error::MissingField),
        Some(i) => {
            proof {
                lemma_first_name_unique(batch@.names(), name@, i as int);
            }
            match &batch.columns[i].values {
                ColumnValues::Int64(_) => Ok(i),
                ColumnValues::Bool(_) => Err(Error::TypeMismatch),
            }
        },
    }
}

/// Round-trip identity: reading back the batch that `records_to_columns`
/// lays out yields exactly the original records, in order.
pub proof fn lemma_round_trip(rs: Seq<Record>)
    ensures
        spec_columns_to_records(spec_records_to_columns(rs)) == Ok::<Seq<Record>, Error>(rs),
{
    reveal_strlit("a");
    reveal_strlit("b");
    let m = spec_records_to_columns(rs);
    assert(m.names() =~= seq!["a"@, "b"@]);
    assert("a"@[0] == 'a' && "b"@[0] == 'b');
    assert("a"@ != "b"@);
    assert(is_first_name(m.names(), "a"@, 0));
    lemma_first_name_unique(m.names(), "a"@, 0);
    assert(is_first_name(m.names(), "b"@, 1));
    lemma_first_name_unique(m.names(), "b"@, 1);
    let out = spec_columns_to_records(m);
    assert(out is Ok);
    assert(out->Ok_0 =~= rs);
}

} // verus!
