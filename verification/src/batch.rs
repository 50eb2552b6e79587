//! The column-oriented batch type and its mathematical model.
//!
//! A [`ColumnarBatch`] is a struct-of-arrays container: a list of named,
//! typed columns of equal length plus a batch-level nullability marker.  Its
//! model, [`BatchModel`], describes the same data over `Seq` so that every
//! operation of the library can be specified exactly.

use vstd::prelude::*;

verus! {

/// The physical type of a column or of a single cell.
#[derive(Clone, Copy, PartialEq, Eq, Structural, Debug)]
pub enum DType {
    Int64,
    Bool,
}

/// One cell's value, as projected out of a column.
#[derive(Clone, Copy, PartialEq, Eq, Structural, Debug)]
pub enum CellValue {
    Int64(i64),
    Bool(bool),
}

impl CellValue {
    /// The 64-bit integer held by the cell; meaningful only when the cell
    /// holds one.
    pub open spec fn as_int64(self) -> i64 {
        match self {
            CellValue::Int64(v) => v,
            CellValue::Bool(_) => 0,
        }
    }
}

/// The values of one column, stored contiguously.
#[derive(Debug)]
pub enum ColumnValues {
    Int64(Vec<i64>),
    Bool(Vec<bool>),
}

/// The model of one column's values: the same cells as a sequence.
#[verifier::ext_equal]
pub enum CellsModel {
    Int64(Seq<i64>),
    Bool(Seq<bool>),
}

impl View for ColumnValues {
    type V = CellsModel;

    open spec fn view(&self) -> CellsModel {
        match self {
            ColumnValues::Int64(v) => CellsModel::Int64(v@),
            ColumnValues::Bool(v) => CellsModel::Bool(v@),
        }
    }
}

impl CellsModel {
    /// The physical type of the cells.
    pub open spec fn dtype(self) -> DType {
        match self {
            CellsModel::Int64(_) => DType::Int64,
            CellsModel::Bool(_) => DType::Bool,
        }
    }

    /// How many cells the column holds.
    pub open spec fn len(self) -> nat {
        match self {
            CellsModel::Int64(s) => s.len(),
            CellsModel::Bool(s) => s.len(),
        }
    }

    /// The cell at row `i`.
    pub open spec fn cell(self, i: int) -> CellValue {
        match self {
            CellsModel::Int64(s) => CellValue::Int64(s[i]),
            CellsModel::Bool(s) => CellValue::Bool(s[i]),
        }
    }

    /// The integer cells; meaningful only for an `Int64` column.
    pub open spec fn ints(self) -> Seq<i64> {
        match self {
            CellsModel::Int64(s) => s,
            CellsModel::Bool(_) => Seq::empty(),
        }
    }

    /// Both columns' cells in sequence; meaningful when the types agree.
    pub open spec fn concat(self, other: CellsModel) -> CellsModel {
        match (self, other) {
            (CellsModel::Int64(s), CellsModel::Int64(t)) => CellsModel::Int64(s + t),
            (CellsModel::Bool(s), CellsModel::Bool(t)) => CellsModel::Bool(s + t),
            _ => self,
        }
    }
}

impl ColumnValues {
    /// How many cells the column holds.
    pub fn len(&self) -> (n: usize)
        ensures
            n == self@.len(),
    {
        match self {
            ColumnValues::Int64(v) => v.len(),
            ColumnValues::Bool(v) => v.len(),
        }
    }

    /// The physical type of the column.
    pub fn dtype(&self) -> (d: DType)
        ensures
            d == self@.dtype(),
    {
        match self {
            ColumnValues::Int64(_) => DType::Int64,
            ColumnValues::Bool(_) => DType::Bool,
        }
    }
}

/// A named column: its name, its nullability, and its values.
#[derive(Debug)]
pub struct Column {
    pub name: String,
    pub nullable: bool,
    pub values: ColumnValues,
}

/// The model of a named column.
#[verifier::ext_equal]
pub struct ColumnModel {
    pub name: Seq<char>,
    pub nullable: bool,
    pub cells: CellsModel,
}

impl View for Column {
    type V = ColumnModel;

    open spec fn view(&self) -> ColumnModel {
        ColumnModel { name: self.name@, nullable: self.nullable, cells: self.values@ }
    }
}

/// One schema entry: a field's name, nullability and physical type.
#[derive(Debug)]
pub struct Field {
    pub name: String,
    pub nullable: bool,
    pub dtype: DType,
}

/// The model of a schema entry.
#[verifier::ext_equal]
pub struct FieldModel {
    pub name: Seq<char>,
    pub nullable: bool,
    pub dtype: DType,
}

impl View for Field {
    type V = FieldModel;

    open spec fn view(&self) -> FieldModel {
        FieldModel { name: self.name@, nullable: self.nullable, dtype: self.dtype }
    }
}

impl ColumnModel {
    /// The schema entry this column answers to.
    pub open spec fn field(self) -> FieldModel {
        FieldModel { name: self.name, nullable: self.nullable, dtype: self.cells.dtype() }
    }
}

/// The model of a whole batch.
#[verifier::ext_equal]
pub struct BatchModel {
    pub columns: Seq<ColumnModel>,
    pub length: nat,
    pub nullable: bool,
}

impl BatchModel {
    /// Every column holds exactly `length` cells.
    pub open spec fn wf(self) -> bool {
        forall|j: int|
            0 <= j < self.columns.len() ==> (#[trigger] self.columns[j]).cells.len()
                == self.length
    }

    /// The batch's schema: its fields in column order.
    pub open spec fn schema(self) -> Seq<FieldModel> {
        self.columns.map_values(|c: ColumnModel| c.field())
    }

    /// The column names in column order.
    pub open spec fn names(self) -> Seq<Seq<char>> {
        self.columns.map_values(|c: ColumnModel| c.name)
    }
}

/// Two batches agree on field names, field order, per-field nullability and
/// physical types, and on the batch-level nullability marker.
pub open spec fn schema_eq(x: BatchModel, y: BatchModel) -> bool {
    x.schema() == y.schema() && x.nullable == y.nullable
}

/// `j` is the position of the first occurrence of `name` in `names`.
pub open spec fn is_first_name(names: Seq<Seq<char>>, name: Seq<char>, j: int) -> bool {
    0 <= j < names.len() && names[j] == name && (forall|k: int|
        0 <= k < j ==> names[k] != name)
}

/// `name` occurs somewhere in `names`.
pub open spec fn has_name(names: Seq<Seq<char>>, name: Seq<char>) -> bool {
    exists|j: int| is_first_name(names, name, j)
}

/// The position of the first occurrence of `name` in `names`; meaningful
/// only when `has_name` holds.
pub open spec fn name_at(names: Seq<Seq<char>>, name: Seq<char>) -> int {
    choose|j: int| is_first_name(names, name, j)
}

/// The first occurrence of a name is unique, so `name_at` returns exactly
/// the position that witnesses `is_first_name`.
pub proof fn lemma_first_name_unique(names: Seq<Seq<char>>, name: Seq<char>, j: int)
    requires
        is_first_name(names, name, j),
    ensures
        has_name(names, name),
        name_at(names, name) == j,
{
    assert(has_name(names, name));
    let j2 = name_at(names, name);
    assert(is_first_name(names, name, j2));
    if j2 < j {
        assert(names[j2] != name);
        assert(false);
    } else if j < j2 {
        assert(names[j] != name);
        assert(false);
    }
}

/// A name that occurs nowhere in `names` has no first occurrence.
pub proof fn lemma_no_name(names: Seq<Seq<char>>, name: Seq<char>)
    requires
        forall|k: int| 0 <= k < names.len() ==> names[k] != name,
    ensures
        !has_name(names, name),
{
    assert forall|j: int| !is_first_name(names, name, j) by {
        if 0 <= j < names.len() {
            assert(names[j] != name);
        }
    }
}

/// The names of a sequence of columns, in order.
pub open spec fn column_names(cols: Seq<Column>) -> Seq<Seq<char>> {
    cols.map_values(|c: Column| c.name@)
}

/// A struct-of-arrays batch: named columns of equal length plus a
/// batch-level nullability marker.
#[derive(Debug)]
pub struct ColumnarBatch {
    pub columns: Vec<Column>,
    pub length: usize,
    pub nullable: bool,
}

impl View for ColumnarBatch {
    type V = BatchModel;

    open spec fn view(&self) -> BatchModel {
        BatchModel {
            columns: self.columns@.map_values(|c: Column| c@),
            length: self.length as nat,
            nullable: self.nullable,
        }
    }
}

impl ColumnarBatch {
    /// Builds a batch from its components, validating that every column
    /// holds exactly `length` cells; mismatched components are rejected
    /// with [`Error::SchemaConstruction`].
    pub fn try_new(columns: Vec<Column>, length: usize, nullable: bool) -> (r: Result<
        ColumnarBatch,
        crate::error::Error,
    >)
        ensures
            match r {
                Ok(b) => b@ == (BatchModel {
                    columns: columns@.map_values(|c: Column| c@),
                    length: length as nat,
                    nullable,
                }) && b@.wf(),
                Err(e) => e == crate::error::Error::SchemaConstruction && !(BatchModel {
                    columns: columns@.map_values(|c: Column| c@),
                    length: length as nat,
                    nullable,
                }).wf(),
            },
    {
        let ghost model = BatchModel {
            columns: columns@.map_values(|c: Column| c@),
            length: length as nat,
            nullable,
        };
        let mut j: usize = 0;
        while j < columns.len()
            invariant
                j <= columns.len(),
                model == (BatchModel {
                    columns: columns@.map_values(|c: Column| c@),
                    length: length as nat,
                    nullable,
                }),
                forall|k: int| 0 <= k < j ==> (#[trigger] model.columns[k]).cells.len() == length,
            decreases columns.len() - j,
        {
            if columns[j].values.len() != length {
                assert(model.columns[j as int].cells.len() != length);
                return Err(crate::error::Error::SchemaConstruction);
            }
            j += 1;
        }
        Ok(ColumnarBatch { columns, length, nullable })
    }

    /// The number of rows in the batch.
    pub fn len(&self) -> (n: usize)
        ensures
            n == self@.length,
    {
        self.length
    }

    /// The batch-level nullability marker.
    pub fn is_nullable(&self) -> (r: bool)
        ensures
            r == self@.nullable,
    {
        self.nullable
    }

    /// The batch's schema as an owned list of fields, in column order.
    pub fn struct_fields(&self) -> (r: Vec<Field>)
        ensures
            r@.map_values(|f: Field| f@) == self@.schema(),
    {
        let mut fields: Vec<Field> = Vec::new();
        let mut j: usize = 0;
        while j < self.columns.len()
            invariant
                j <= self.columns.len(),
                fields@.len() == j,
                forall|k: int| 0 <= k < j ==> (#[trigger] fields@[k])@ == self@.schema()[k],
            decreases self.columns.len() - j,
        {
            let c = &self.columns[j];
            fields.push(Field { name: c.name.clone(), nullable: c.nullable, dtype: c.values.dtype() });
            j += 1;
        }
        proof {
            assert(fields@.map_values(|f: Field| f@) =~= self@.schema());
        }
        fields
    }
}

/// Finds the first column with the given name, scanning front to back.
pub fn find_column(columns: &Vec<Column>, name: &String) -> (r: Option<usize>)
    ensures
        match r {
            Some(i) => is_first_name(column_names(columns@), name@, i as int),
            None => !has_name(column_names(columns@), name@),
        },
{
    let mut j: usize = 0;
    while j < columns.len()
        invariant
            j <= columns.len(),
            forall|k: int| 0 <= k < j ==> column_names(columns@)[k] != name@,
        decreases columns.len() - j,
    {
        if columns[j].name == *name {
            return Some(j);
        }
        j += 1;
    }
    proof {
        lemma_no_name(column_names(columns@), name@);
    }
    None
}

} // verus!
