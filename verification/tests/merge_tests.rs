use columnar::batch::{Column, ColumnValues, ColumnarBatch, DType, Field};
use columnar::error::Error;
use columnar::merge::{merge, BatchBuilder};
use columnar::record::Record;
use columnar::scalar::{row_at, scalar_to_record};
use columnar::transcode::{columns_to_records, records_to_columns};

fn batch_of(records: &[Record]) -> ColumnarBatch {
    records_to_columns(&records.to_vec()).unwrap()
}

fn first_ten() -> Vec<Record> {
    (0..10i64).map(|i| Record::builder().a(i).b(-i).build()).collect()
}

fn second_ten() -> Vec<Record> {
    (0..10i64).map(|i| Record::builder().a(100 + i).b(7 * i).build()).collect()
}

#[test]
fn merge_concatenates_in_order() {
    let x = batch_of(&first_ten());
    let y = batch_of(&second_ten());
    let merged = merge(&x, &y).unwrap();
    assert_eq!(merged.len(), 20);
    let rows = columns_to_records(&merged).unwrap();
    let mut expected = first_ten();
    expected.extend(second_ten());
    assert_eq!(rows, expected);
    // Row 0 is the first batch's row 0; row 10 is the second batch's row 0.
    let row0 = scalar_to_record(&row_at(&merged, 0).unwrap()).unwrap();
    assert_eq!(row0, Record::new(0, 0));
    let row10 = scalar_to_record(&row_at(&merged, 10).unwrap()).unwrap();
    assert_eq!(row10, Record::new(100, 0));
}

#[test]
fn merge_with_empty_is_identity() {
    let x = batch_of(&first_ten());
    let empty = batch_of(&[]);
    let left = merge(&x, &empty).unwrap();
    assert_eq!(left.len(), 10);
    assert_eq!(columns_to_records(&left).unwrap(), first_ten());
    let right = merge(&empty, &x).unwrap();
    assert_eq!(right.len(), 10);
    assert_eq!(columns_to_records(&right).unwrap(), first_ten());
}

#[test]
fn merge_rejects_extra_field() {
    let x = batch_of(&first_ten());
    let columns = vec![
        Column {
            name: "a".to_string(),
            nullable: false,
            values: ColumnValues::Int64(vec![1]),
        },
        Column {
            name: "b".to_string(),
            nullable: false,
            values: ColumnValues::Int64(vec![2]),
        },
        Column {
            name: "c".to_string(),
            nullable: false,
            values: ColumnValues::Int64(vec![3]),
        },
    ];
    let wide = ColumnarBatch::try_new(columns, 1, false).unwrap();
    assert!(matches!(merge(&x, &wide), Err(Error::SchemaMismatch)));
    assert!(matches!(merge(&wide, &x), Err(Error::SchemaMismatch)));
}

#[test]
fn merge_rejects_differently_typed_field() {
    let x = batch_of(&first_ten());
    let columns = vec![
        Column {
            name: "a".to_string(),
            nullable: false,
            values: ColumnValues::Int64(vec![1, 2]),
        },
        Column {
            name: "b".to_string(),
            nullable: false,
            values: ColumnValues::Bool(vec![true, false]),
        },
    ];
    let odd = ColumnarBatch::try_new(columns, 2, false).unwrap();
    assert!(matches!(merge(&x, &odd), Err(Error::SchemaMismatch)));
}

#[test]
fn merge_rejects_differing_nullability() {
    let x = batch_of(&first_ten());
    let columns = vec![
        Column {
            name: "a".to_string(),
            nullable: true,
            values: ColumnValues::Int64(vec![1]),
        },
        Column {
            name: "b".to_string(),
            nullable: false,
            values: ColumnValues::Int64(vec![2]),
        },
    ];
    let nullable_a = ColumnarBatch::try_new(columns, 1, false).unwrap();
    assert!(matches!(merge(&x, &nullable_a), Err(Error::SchemaMismatch)));
}

#[test]
fn merge_rejects_renamed_field() {
    let x = batch_of(&first_ten());
    let columns = vec![
        Column {
            name: "a".to_string(),
            nullable: false,
            values: ColumnValues::Int64(vec![1]),
        },
        Column {
            name: "z".to_string(),
            nullable: false,
            values: ColumnValues::Int64(vec![2]),
        },
    ];
    let renamed = ColumnarBatch::try_new(columns, 1, false).unwrap();
    assert!(matches!(merge(&x, &renamed), Err(Error::SchemaMismatch)));
}

#[test]
fn builder_grows_batch_by_batch() {
    let x = batch_of(&first_ten());
    let fields = vec![
        Field { name: "a".to_string(), nullable: false, dtype: DType::Int64 },
        Field { name: "b".to_string(), nullable: false, dtype: DType::Int64 },
    ];
    let mut builder = BatchBuilder::new(fields, false);
    builder.append_batch(&x).unwrap();
    builder.append_batch(&x).unwrap();
    let combined = builder.finish();
    assert_eq!(combined.len(), 20);
    let rows = columns_to_records(&combined).unwrap();
    assert_eq!(&rows[..10], &first_ten()[..]);
    assert_eq!(&rows[10..], &first_ten()[..]);
}

#[test]
fn builder_rejects_schema_drift() {
    let fields = vec![
        Field { name: "a".to_string(), nullable: false, dtype: DType::Int64 },
        Field { name: "b".to_string(), nullable: false, dtype: DType::Bool },
    ];
    let mut builder = BatchBuilder::new(fields, false);
    let x = batch_of(&first_ten());
    assert_eq!(builder.append_batch(&x), Err(Error::SchemaMismatch));
    let combined = builder.finish();
    assert_eq!(combined.len(), 0);
}
