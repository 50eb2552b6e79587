use columnar::batch::{Column, ColumnValues, ColumnarBatch, DType};
use columnar::error::Error;
use columnar::record::Record;
use columnar::transcode::{columns_to_records, records_to_columns};

fn sample_records() -> Vec<Record> {
    (0..10i64).map(|i| Record::builder().a(i).b(-i).build()).collect()
}

#[test]
fn round_trip_ten_records() {
    let records = sample_records();
    let batch = records_to_columns(&records).unwrap();
    assert_eq!(batch.len(), 10);
    assert!(!batch.is_nullable());
    let back = columns_to_records(&batch).unwrap();
    assert_eq!(back, records);
    for (i, r) in back.iter().enumerate() {
        assert_eq!(r.a, i as i64);
        assert_eq!(r.b, -(i as i64));
    }
}

#[test]
fn round_trip_empty() {
    let records: Vec<Record> = Vec::new();
    let batch = records_to_columns(&records).unwrap();
    assert_eq!(batch.len(), 0);
    let back = columns_to_records(&batch).unwrap();
    assert!(back.is_empty());
}

#[test]
fn transcode_schema_is_two_int64_fields() {
    let batch = records_to_columns(&sample_records()).unwrap();
    let fields = batch.struct_fields();
    assert_eq!(fields.len(), 2);
    assert_eq!(fields[0].name, "a");
    assert_eq!(fields[1].name, "b");
    assert!(!fields[0].nullable);
    assert!(!fields[1].nullable);
    assert_eq!(fields[0].dtype, DType::Int64);
    assert_eq!(fields[1].dtype, DType::Int64);
}

#[test]
fn lookup_is_by_name_not_position() {
    // Columns stored in the order [b, a] are still read back as (a, b).
    let columns = vec![
        Column {
            name: "b".to_string(),
            nullable: false,
            values: ColumnValues::Int64(vec![10, 20]),
        },
        Column {
            name: "a".to_string(),
            nullable: false,
            values: ColumnValues::Int64(vec![1, 2]),
        },
    ];
    let batch = ColumnarBatch::try_new(columns, 2, false).unwrap();
    let back = columns_to_records(&batch).unwrap();
    assert_eq!(back, vec![Record::new(1, 10), Record::new(2, 20)]);
}

#[test]
fn missing_field_is_reported() {
    let columns = vec![Column {
        name: "a".to_string(),
        nullable: false,
        values: ColumnValues::Int64(vec![1, 2, 3]),
    }];
    let batch = ColumnarBatch::try_new(columns, 3, false).unwrap();
    assert_eq!(columns_to_records(&batch), Err(Error::MissingField));

    let empty = ColumnarBatch::try_new(Vec::new(), 0, false).unwrap();
    assert_eq!(columns_to_records(&empty), Err(Error::MissingField));
}

#[test]
fn type_mismatch_is_reported() {
    let columns = vec![
        Column {
            name: "a".to_string(),
            nullable: false,
            values: ColumnValues::Bool(vec![true, false]),
        },
        Column {
            name: "b".to_string(),
            nullable: false,
            values: ColumnValues::Int64(vec![1, 2]),
        },
    ];
    let batch = ColumnarBatch::try_new(columns, 2, false).unwrap();
    assert_eq!(columns_to_records(&batch), Err(Error::TypeMismatch));
}

#[test]
fn mismatched_column_lengths_are_rejected() {
    let columns = vec![
        Column {
            name: "a".to_string(),
            nullable: false,
            values: ColumnValues::Int64(vec![1, 2, 3]),
        },
        Column {
            name: "b".to_string(),
            nullable: false,
            values: ColumnValues::Int64(vec![4, 5]),
        },
    ];
    match ColumnarBatch::try_new(columns, 3, false) {
        Err(Error::SchemaConstruction) => {},
        other => panic!("expected SchemaConstruction, got {:?}", other),
    }
}

#[test]
fn record_builder_requires_both_fields() {
    let r = Record::builder().a(5).b(7).build();
    assert_eq!(r, Record::new(5, 7));
    let s = Record::builder().b(7).a(5).build();
    assert_eq!(s, r);
    assert_eq!(r.a, 5);
    assert_eq!(r.b, 7);
}
