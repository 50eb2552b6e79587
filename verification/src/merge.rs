//! Sequential concatenation of two same-schema batches.
//!
//! A [`BatchBuilder`] is an incremental, schema-driven batch constructor: it
//! starts empty, grows by whole batches, and finishes into a new
//! [`ColumnarBatch`].  [`merge`] uses it to combine two batches in sequence;
//! batches whose schemas disagree are rejected with `SchemaMismatch`.

use vstd::prelude::*;

use crate::batch::{
    schema_eq, BatchModel, CellsModel, Column, ColumnModel, ColumnValues, ColumnarBatch, DType,
    Field,
};
use crate::error::Error;
use crate::scalar::spec_row_at;

verus! {

/// The batch holding `x`'s rows followed by `y`'s: column names and
/// nullability are `x`'s, every column's cells are the concatenation of the
/// two batches' cells, and the length is the sum; meaningful when the two
/// schemas agree.
pub open spec fn spec_append(x: BatchModel, y: BatchModel) -> BatchModel {
    BatchModel {
        columns: Seq::new(
            x.columns.len(),
            |j: int|
                ColumnModel {
                    name: x.columns[j].name,
                    nullable: x.columns[j].nullable,
                    cells: x.columns[j].cells.concat(y.columns[j].cells),
                },
        ),
        length: x.length + y.length,
        nullable: x.nullable,
    }
}

/// The merge of two batches: their rows in sequence when the schemas agree,
/// and a `SchemaMismatch` failure otherwise.
pub open spec fn spec_merge(x: BatchModel, y: BatchModel) -> Result<BatchModel, Error> {
    if schema_eq(x, y) {
        Ok(spec_append(x, y))
    } else {
        Err(Error::SchemaMismatch)
    }
}

/// Appending to an empty batch of the same schema yields the appended batch.
pub proof fn lemma_append_left_empty(e: BatchModel, x: BatchModel)
    requires
        e.wf(),
        x.wf(),
        schema_eq(e, x),
        e.length == 0,
    ensures
        spec_append(e, x) == x,
{
    assert(e.schema().len() == x.schema().len());
    assert(e.columns.len() == x.columns.len());
    assert forall|j: int| 0 <= j < x.columns.len() implies spec_append(e, x).columns[j]
        == x.columns[j] by {
        assert(e.schema()[j] == e.columns[j].field());
        assert(x.schema()[j] == x.columns[j].field());
        assert(e.columns[j].field() == x.columns[j].field());
        assert(e.columns[j].cells.len() == 0);
        match e.columns[j].cells {
            CellsModel::Int64(s) => {
                match x.columns[j].cells {
                    CellsModel::Int64(t) => {
                        assert(s + t =~= t);
                    },
                    CellsModel::Bool(_) => {
                        assert(false);
                    },
                }
            },
            CellsModel::Bool(s) => {
                match x.columns[j].cells {
                    CellsModel::Bool(t) => {
                        assert(s + t =~= t);
                    },
                    CellsModel::Int64(_) => {
                        assert(false);
                    },
                }
            },
        }
    }
    assert(spec_append(e, x).columns =~= x.columns);
    assert(spec_append(e, x) =~= x);
}

/// Appending an empty batch of the same schema changes nothing.
pub proof fn lemma_append_right_empty(x: BatchModel, e: BatchModel)
    requires
        x.wf(),
        e.wf(),
        schema_eq(x, e),
        e.length == 0,
    ensures
        spec_append(x, e) == x,
{
    assert(x.schema().len() == e.schema().len());
    assert(x.columns.len() == e.columns.len());
    assert forall|j: int| 0 <= j < x.columns.len() implies spec_append(x, e).columns[j]
        == x.columns[j] by {
        assert(x.schema()[j] == x.columns[j].field());
        assert(e.schema()[j] == e.columns[j].field());
        assert(x.columns[j].field() == e.columns[j].field());
        assert(e.columns[j].cells.len() == 0);
        match x.columns[j].cells {
            CellsModel::Int64(s) => {
                match e.columns[j].cells {
                    CellsModel::Int64(t) => {
                        assert(s + t =~= s);
                    },
                    CellsModel::Bool(_) => {
                        assert(false);
                    },
                }
            },
            CellsModel::Bool(s) => {
                match e.columns[j].cells {
                    CellsModel::Bool(t) => {
                        assert(s + t =~= s);
                    },
                    CellsModel::Int64(_) => {
                        assert(false);
                    },
                }
            },
        }
    }
    assert(spec_append(x, e).columns =~= x.columns);
    assert(spec_append(x, e) =~= x);
}

/// An incremental batch constructor: fixed schema, growable columns.
#[derive(Debug)]
pub struct BatchBuilder {
    pub columns: Vec<Column>,
    pub length: usize,
    pub nullable: bool,
}

impl View for BatchBuilder {
    type V = BatchModel;

    open spec fn view(&self) -> BatchModel {
        BatchModel {
            columns: self.columns@.map_values(|c: Column| c@),
            length: self.length as nat,
            nullable: self.nullable,
        }
    }
}

impl BatchBuilder {
    /// Starts an empty builder for the given schema and batch nullability.
    pub fn new(fields: Vec<Field>, nullable: bool) -> (r: BatchBuilder)
        ensures
            r@.wf(),
            r@.length == 0,
            r@.nullable == nullable,
            r@.schema() == fields@.map_values(|f: Field| f@),
    {
        let mut columns: Vec<Column> = Vec::new();
        let mut j: usize = 0;
        while j < fields.len()
            invariant
                j <= fields.len(),
                columns@.len() == j,
                forall|k: int|
                    0 <= k < j ==> (#[trigger] columns@[k])@ == (ColumnModel {
                        name: fields@[k]@.name,
                        nullable: fields@[k]@.nullable,
                        cells: if fields@[k]@.dtype is Int64 {
                            CellsModel::Int64(Seq::empty())
                        } else {
                            CellsModel::Bool(Seq::empty())
                        },
                    }),
            decreases fields.len() - j,
        {
            let f = &fields[j];
            let values = match f.dtype {
                DType::Int64 => ColumnValues::Int64(Vec::new()),
                DType::Bool => ColumnValues::Bool(Vec::new()),
            };
            columns.push(Column { name: f.name.clone(), nullable: f.nullable, values });
            j += 1;
        }
        let r = BatchBuilder { columns, length: 0, nullable };
        proof {
            assert(r@.schema() =~= fields@.map_values(|f: Field| f@));
        }
        r
    }

    /// Appends every row of `other`, in order, to what the builder already
    /// holds.  A batch whose schema differs from the builder's is rejected
    /// with `SchemaMismatch` and leaves the builder unchanged.
    pub fn append_batch(&mut self, other: &ColumnarBatch) -> (r: Result<(), Error>)
        requires
            old(self)@.wf(),
            other@.wf(),
            old(self)@.length + other@.length <= usize::MAX,
        ensures
            match r {
                Ok(_) => schema_eq(old(self)@, other@) && final(self)@ == spec_append(
                    old(self)@,
                    other@,
                ) && final(self)@.wf(),
                Err(e) => e == Error::SchemaMismatch && !schema_eq(old(self)@, other@)
                    && final(self)@ == old(self)@,
            },
    {
        if !self.fields_match(other) {
            return Err(Error::SchemaMismatch);
        }
        proof {
            assert(self@.columns.len() == self@.schema().len());
            assert(other@.columns.len() == other@.schema().len());
            assert forall|j: int|
                0 <= j < self.columns@.len() implies (#[trigger] self.columns@[j])@.cells.dtype()
                == other.columns@[j]@.cells.dtype() by {
                assert(self@.schema()[j] == self@.columns[j].field());
                assert(other@.schema()[j] == other@.columns[j].field());
                assert(self@.columns[j] == self.columns@[j]@);
                assert(other@.columns[j] == other.columns@[j]@);
            }
        }
        let merged = concat_columns(&self.columns, &other.columns);
        self.columns = merged;
        self.length = self.length + other.length;
        proof {
            assert forall|k: int|
                0 <= k < self@.columns.len() implies self@.columns[k] == spec_append(
                old(self)@,
                other@,
            ).columns[k] by {
                assert(self@.columns[k] == self.columns@[k]@);
                assert(old(self)@.columns[k] == old(self).columns@[k]@);
                assert(other@.columns[k] == other.columns@[k]@);
            }
            assert(self@.columns =~= spec_append(old(self)@, other@).columns);
            assert(self@ =~= spec_append(old(self)@, other@));
            assert forall|k: int|
                0 <= k < self@.columns.len() implies (#[trigger] self@.columns[k]).cells.len()
                == self@.length by {
                assert(old(self)@.columns[k].cells.len() == old(self)@.length);
                assert(other@.columns[k].cells.len() == other@.length);
            }
        }
        Ok(())
    }

    /// Whether `other`'s schema and batch nullability agree with the
    /// builder's.
    fn fields_match(&self, other: &ColumnarBatch) -> (r: bool)
        ensures
            r == schema_eq(self@, other@),
    {
        if self.nullable != other.nullable {
            return false;
        }
        if self.columns.len() != other.columns.len() {
            proof {
                assert(self@.schema().len() != other@.schema().len());
            }
            return false;
        }
        let mut j: usize = 0;
        while j < self.columns.len()
            invariant
                j <= self.columns@.len(),
                self.columns@.len() == other.columns@.len(),
                self@.nullable == other@.nullable,
                forall|k: int| 0 <= k < j ==> self@.schema()[k] == other@.schema()[k],
            decreases self.columns@.len() - j,
        {
            let sc = &self.columns[j];
            let oc = &other.columns[j];
            proof {
                assert(self@.schema()[j as int] == self@.columns[j as int].field());
                assert(other@.schema()[j as int] == other@.columns[j as int].field());
                assert(self@.columns[j as int] == self.columns@[j as int]@);
                assert(other@.columns[j as int] == other.columns@[j as int]@);
            }
            if !(sc.name == oc.name) {
                return false;
            }
            if sc.nullable != oc.nullable {
                return false;
            }
            if !(sc.values.dtype() == oc.values.dtype()) {
                return false;
            }
            j += 1;
        }
        proof {
            assert(self@.schema() =~= other@.schema());
        }
        true
    }

    /// Finishes the builder into an immutable batch holding exactly what was
    /// appended.
    pub fn finish(self) -> (b: ColumnarBatch)
        requires
            self@.wf(),
        ensures
            b@ == self@,
            b@.wf(),
    {
        ColumnarBatch { columns: self.columns, length: self.length, nullable: self.nullable }
    }
}

/// Concatenates two column lists of agreeing types position-wise, keeping
/// the first list's names and nullability.
fn concat_columns(xc: &Vec<Column>, yc: &Vec<Column>) -> (r: Vec<Column>)
    requires
        xc@.len() == yc@.len(),
        forall|j: int|
            0 <= j < xc@.len() ==> (#[trigger] xc@[j])@.cells.dtype() == yc@[j]@.cells.dtype(),
    ensures
        r@.len() == xc@.len(),
        forall|k: int|
            0 <= k < r@.len() ==> (#[trigger] r@[k])@ == (ColumnModel {
                name: xc@[k]@.name,
                nullable: xc@[k]@.nullable,
                cells: xc@[k]@.cells.concat(yc@[k]@.cells),
            }),
{
    let mut r: Vec<Column> = Vec::new();
    let mut j: usize = 0;
    while j < xc.len()
        invariant
            j <= xc@.len(),
            xc@.len() == yc@.len(),
            forall|k: int|
                0 <= k < xc@.len() ==> (#[trigger] xc@[k])@.cells.dtype() == yc@[k]@.cells.dtype(),
            r@.len() == j,
            forall|k: int|
                0 <= k < j ==> (#[trigger] r@[k])@ == (ColumnModel {
                    name: xc@[k]@.name,
                    nullable: xc@[k]@.nullable,
                    cells: xc@[k]@.cells.concat(yc@[k]@.cells),
                }),
        decreases xc@.len() - j,
    {
        let x = &xc[j];
        let y = &yc[j];
        let values = match (&x.values, &y.values) {
            (ColumnValues::Int64(xs), ColumnValues::Int64(ys)) => ColumnValues::Int64(
                concat_i64(xs, ys),
            ),
            (ColumnValues::Bool(xs), ColumnValues::Bool(ys)) => ColumnValues::Bool(
                concat_bool(xs, ys),
            ),
            _ => {
                proof {
                    assert(false);
                }
                ColumnValues::Int64(Vec::new())
            },
        };
        r.push(Column { name: x.name.clone(), nullable: x.nullable, values });
        j += 1;
    }
    r
}

/// Concatenates two integer buffers.
fn concat_i64(xs: &Vec<i64>, ys: &Vec<i64>) -> (r: Vec<i64>)
    ensures
        r@ == xs@ + ys@,
{
    let mut r: Vec<i64> = Vec::new();
    let mut i: usize = 0;
    while i < xs.len()
        invariant
            i <= xs@.len(),
            r@ =~= xs@.take(i as int),
        decreases xs@.len() - i,
    {
        r.push(xs[i]);
        i += 1;
    }
    let mut k: usize = 0;
    while k < ys.len()
        invariant
            k <= ys@.len(),
            r@ =~= xs@ + ys@.take(k as int),
        decreases ys@.len() - k,
    {
        r.push(ys[k]);
        k += 1;
    }
    proof {
        assert(r@ =~= xs@ + ys@);
    }
    r
}

/// Concatenates two boolean buffers.
fn concat_bool(xs: &Vec<bool>, ys: &Vec<bool>) -> (r: Vec<bool>)
    ensures
        r@ == xs@ + ys@,
{
    let mut r: Vec<bool> = Vec::new();
    let mut i: usize = 0;
    while i < xs.len()
        invariant
            i <= xs@.len(),
            r@ =~= xs@.take(i as int),
        decreases xs@.len() - i,
    {
        r.push(xs[i]);
        i += 1;
    }
    let mut k: usize = 0;
    while k < ys.len()
        invariant
            k <= ys@.len(),
            r@ =~= xs@ + ys@.take(k as int),
        decreases ys@.len() - k,
    {
        r.push(ys[k]);
        k += 1;
    }
    proof {
        assert(r@ =~= xs@ + ys@);
    }
    r
}

/// Combines two batches of the same schema into one new batch holding
/// `first`'s rows followed by `second`'s; batches of differing schemas are
/// rejected with `SchemaMismatch`.  The combined row count must fit the
/// platform's row counter.
pub fn merge(first: &ColumnarBatch, second: &ColumnarBatch) -> (r: Result<ColumnarBatch, Error>)
    requires
        first@.wf(),
        second@.wf(),
        first@.length + second@.length <= usize::MAX,
    ensures
        match r {
            Ok(m) => m@.wf() && spec_merge(first@, second@) == Ok::<BatchModel, Error>(m@),
            Err(e) => spec_merge(first@, second@) == Err::<BatchModel, Error>(e),
        },
{
    let fields = first.struct_fields();
    let mut builder = BatchBuilder::new(fields, first.is_nullable());
    let ghost init = builder@;
    proof {
        assert(schema_eq(init, first@));
    }
    match builder.append_batch(first) {
        Ok(_) => {},
        Err(_) => {
            proof {
                assert(false);
            }
            return Err(Error::SchemaMismatch);
        },
    }
    proof {
        lemma_append_left_empty(init, first@);
        assert(builder@ == first@);
    }
    match builder.append_batch(second) {
        Ok(_) => {},
        Err(e) => {
            return Err(e);
        },
    }
    Ok(builder.finish())
}

/// Merge length and order law: merging batches of an agreeing schema
/// succeeds; the result's length is the sum of the two lengths, its first
/// rows are `x`'s rows in order, and the remaining rows are `y`'s in order.
pub proof fn lemma_merge_length_order(x: BatchModel, y: BatchModel)
    requires
        x.wf(),
        y.wf(),
        schema_eq(x, y),
    ensures
        spec_merge(x, y) is Ok,
        spec_merge(x, y)->Ok_0.length == x.length + y.length,
        forall|i: int|
            0 <= i < x.length ==> spec_row_at(spec_merge(x, y)->Ok_0, i) == spec_row_at(x, i),
        forall|i: int|
            x.length <= i < x.length + y.length ==> spec_row_at(spec_merge(x, y)->Ok_0, i)
                == spec_row_at(y, i - x.length),
{
    let m = spec_append(x, y);
    assert(x.schema().len() == y.schema().len());
    assert(x.columns.len() == y.columns.len());
    assert forall|i: int| 0 <= i < x.length implies spec_row_at(m, i) == spec_row_at(x, i) by {
        assert forall|j: int|
            0 <= j < m.columns.len() implies spec_row_at(m, i).fields[j] == spec_row_at(
            x,
            i,
        ).fields[j] by {
            lemma_cell_concat(x, y, j, i);
        }
        assert(spec_row_at(m, i).fields =~= spec_row_at(x, i).fields);
        assert(spec_row_at(m, i) =~= spec_row_at(x, i));
    }
    assert forall|i: int|
        x.length <= i < x.length + y.length implies spec_row_at(m, i) == spec_row_at(
        y,
        i - x.length,
    ) by {
        assert forall|j: int|
            0 <= j < m.columns.len() implies spec_row_at(m, i).fields[j] == spec_row_at(
            y,
            i - x.length,
        ).fields[j] by {
            lemma_cell_concat(x, y, j, i);
            assert(x.schema()[j] == x.columns[j].field());
            assert(y.schema()[j] == y.columns[j].field());
            assert(x.columns[j].name == y.columns[j].name);
        }
        assert(spec_row_at(m, i).fields =~= spec_row_at(y, i - x.length).fields);
        assert(spec_row_at(m, i) =~= spec_row_at(y, i - x.length));
    }
}

/// A cell of a concatenated column comes from `x` below `x.length` and from
/// `y` at or above it.
proof fn lemma_cell_concat(x: BatchModel, y: BatchModel, j: int, i: int)
    requires
        x.wf(),
        y.wf(),
        schema_eq(x, y),
        0 <= j < x.columns.len(),
        x.columns.len() == y.columns.len(),
        0 <= i < x.length + y.length,
    ensures
        0 <= i < x.length ==> x.columns[j].cells.concat(y.columns[j].cells).cell(i)
            == x.columns[j].cells.cell(i),
        x.length <= i ==> x.columns[j].cells.concat(y.columns[j].cells).cell(i)
            == y.columns[j].cells.cell(i - x.length),
{
    assert(x.schema()[j] == x.columns[j].field());
    assert(y.schema()[j] == y.columns[j].field());
    assert(x.columns[j].cells.dtype() == y.columns[j].cells.dtype());
    assert(x.columns[j].cells.len() == x.length);
    assert(y.columns[j].cells.len() == y.length);
    match x.columns[j].cells {
        CellsModel::Int64(s) => {
            match y.columns[j].cells {
                CellsModel::Int64(t) => {
                    assert(0 <= i < s.len() ==> (s + t)[i] == s[i]);
                    assert(s.len() <= i < s.len() + t.len() ==> (s + t)[i] == t[i - s.len()]);
                },
                CellsModel::Bool(_) => {
                    assert(false);
                },
            }
        },
        CellsModel::Bool(s) => {
            match y.columns[j].cells {
                CellsModel::Bool(t) => {
                    assert(0 <= i < s.len() ==> (s + t)[i] == s[i]);
                    assert(s.len() <= i < s.len() + t.len() ==> (s + t)[i] == t[i - s.len()]);
                },
                CellsModel::Int64(_) => {
                    assert(false);
                },
            }
        },
    }
}

/// Merge identity with an empty batch: merging with a zero-length batch of
/// the same schema, on either side, yields the other batch unchanged.
pub proof fn lemma_merge_empty(x: BatchModel, e: BatchModel)
    requires
        x.wf(),
        e.wf(),
        schema_eq(x, e),
        e.length == 0,
    ensures
        spec_merge(x, e) == Ok::<BatchModel, Error>(x),
        spec_merge(e, x) == Ok::<BatchModel, Error>(x),
{
    lemma_append_right_empty(x, e);
    assert(schema_eq(e, x));
    lemma_append_left_empty(e, x);
}

} // verus!
