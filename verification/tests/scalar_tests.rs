use columnar::batch::CellValue;
use columnar::error::Error;
use columnar::record::Record;
use columnar::scalar::{row_at, scalar_to_record, Scalar, ScalarField};
use columnar::transcode::{columns_to_records, records_to_columns};

fn sample_batch() -> columnar::batch::ColumnarBatch {
    let records: Vec<Record> = (0..10i64).map(|i| Record::new(i, -i)).collect();
    records_to_columns(&records).unwrap()
}

#[test]
fn row_at_rejects_out_of_range_indices() {
    let batch = sample_batch();
    assert!(matches!(row_at(&batch, -1), Err(Error::IndexOutOfRange)));
    assert!(matches!(row_at(&batch, 10), Err(Error::IndexOutOfRange)));
    assert!(matches!(row_at(&batch, i64::MIN), Err(Error::IndexOutOfRange)));
    assert!(matches!(row_at(&batch, i64::MAX), Err(Error::IndexOutOfRange)));
}

#[test]
fn row_at_agrees_with_transcoding() {
    let batch = sample_batch();
    let rows = columns_to_records(&batch).unwrap();
    for i in 0..10i64 {
        let scalar = row_at(&batch, i).unwrap();
        let record = scalar_to_record(&scalar).unwrap();
        assert_eq!(record, rows[i as usize]);
    }
}

#[test]
fn row_projection_carries_field_names() {
    let batch = sample_batch();
    let scalar = row_at(&batch, 3).unwrap();
    assert_eq!(scalar.fields.len(), 2);
    assert_eq!(scalar.fields[0].name, "a");
    assert_eq!(scalar.fields[0].value, CellValue::Int64(3));
    assert_eq!(scalar.fields[1].name, "b");
    assert_eq!(scalar.fields[1].value, CellValue::Int64(-3));
}

#[test]
fn scalar_missing_field_is_reported() {
    let scalar = Scalar {
        fields: vec![ScalarField { name: "a".to_string(), value: CellValue::Int64(1) }],
    };
    assert_eq!(scalar_to_record(&scalar), Err(Error::MissingField));
    let empty = Scalar { fields: Vec::new() };
    assert_eq!(scalar_to_record(&empty), Err(Error::MissingField));
}

#[test]
fn scalar_type_mismatch_is_reported() {
    let scalar = Scalar {
        fields: vec![
            ScalarField { name: "a".to_string(), value: CellValue::Bool(true) },
            ScalarField { name: "b".to_string(), value: CellValue::Int64(2) },
        ],
    };
    assert_eq!(scalar_to_record(&scalar), Err(Error::TypeMismatch));
    let scalar_b = Scalar {
        fields: vec![
            ScalarField { name: "a".to_string(), value: CellValue::Int64(1) },
            ScalarField { name: "b".to_string(), value: CellValue::Bool(false) },
        ],
    };
    assert_eq!(scalar_to_record(&scalar_b), Err(Error::TypeMismatch));
}

#[test]
fn scalar_lookup_is_by_name() {
    let scalar = Scalar {
        fields: vec![
            ScalarField { name: "b".to_string(), value: CellValue::Int64(20) },
            ScalarField { name: "a".to_string(), value: CellValue::Int64(10) },
        ],
    };
    assert_eq!(scalar_to_record(&scalar), Ok(Record::new(10, 20)));
}
