use notesponge::marshal::{
    marshal_cell, marshal_row, marshal_rows, ColumnDescriptor, DeclaredType, DecodeError,
    DecodeFailure, RawCell, RawField, RawRow,
};
use notesponge::record::Record;
use notesponge::value::Value;

fn field(name: &str, declared_type: DeclaredType, cell: RawCell) -> RawField {
    RawField {
        column: ColumnDescriptor {
            name: name.to_string(),
            declared_type,
        },
        cell,
    }
}

fn entries(record: &Record) -> Vec<(String, Value)> {
    let mut all = Vec::new();
    let mut index = 0;
    while let Some((name, value)) = record.get_index(index) {
        all.push((name.clone(), value.clone()));
        index += 1;
    }
    all
}

#[test]
fn declared_type_from_driver_names() {
    assert_eq!(DeclaredType::from_name("INTEGER"), DeclaredType::Integer);
    assert_eq!(DeclaredType::from_name("REAL"), DeclaredType::Real);
    assert_eq!(DeclaredType::from_name("TEXT"), DeclaredType::Text);
    assert_eq!(DeclaredType::from_name("BLOB"), DeclaredType::Blob);
    assert_eq!(DeclaredType::from_name("NULL"), DeclaredType::Null);
    assert_eq!(DeclaredType::from_name("DATETIME"), DeclaredType::Unknown);
    assert_eq!(DeclaredType::from_name("BOOLEAN"), DeclaredType::Unknown);
    assert_eq!(DeclaredType::from_name("integer"), DeclaredType::Unknown);
    assert_eq!(DeclaredType::from_name(""), DeclaredType::Unknown);
}

#[test]
fn only_typed_columns_are_read() {
    assert!(DeclaredType::Integer.is_read());
    assert!(DeclaredType::Real.is_read());
    assert!(DeclaredType::Text.is_read());
    assert!(DeclaredType::Blob.is_read());
    assert!(!DeclaredType::Null.is_read());
    assert!(!DeclaredType::Unknown.is_read());
}

#[test]
fn cells_become_values_of_their_declared_type() {
    assert_eq!(
        marshal_cell(DeclaredType::Integer, &RawCell::Integer(i64::MIN)),
        Ok(Value::Integer(i64::MIN))
    );
    assert_eq!(
        marshal_cell(DeclaredType::Real, &RawCell::Real(0.5f64.to_bits())),
        Ok(Value::Real(0.5f64.to_bits()))
    );
    assert_eq!(
        marshal_cell(DeclaredType::Text, &RawCell::Text("héllo".to_string())),
        Ok(Value::Text("héllo".to_string()))
    );
    assert_eq!(
        marshal_cell(DeclaredType::Blob, &RawCell::Blob(vec![0, 255, 7])),
        Ok(Value::Blob(vec![0, 255, 7]))
    );
}

#[test]
fn real_that_is_not_finite_becomes_null() {
    for bits in [
        f64::NAN.to_bits(),
        (-f64::NAN).to_bits(),
        f64::INFINITY.to_bits(),
        f64::NEG_INFINITY.to_bits(),
        0x7ff0_0000_0000_0001,
    ] {
        assert_eq!(
            marshal_cell(DeclaredType::Real, &RawCell::Real(bits)),
            Ok(Value::Null)
        );
    }
}

#[test]
fn null_and_unknown_columns_are_null_whatever_they_hold() {
    for declared in [DeclaredType::Null, DeclaredType::Unknown] {
        assert_eq!(marshal_cell(declared, &RawCell::Null), Ok(Value::Null));
        assert_eq!(marshal_cell(declared, &RawCell::Integer(3)), Ok(Value::Null));
        assert_eq!(
            marshal_cell(declared, &RawCell::Text("x".to_string())),
            Ok(Value::Null)
        );
        assert_eq!(
            marshal_cell(declared, &RawCell::Failed("boom".to_string())),
            Ok(Value::Null)
        );
    }
}

#[test]
fn tag_follows_the_declared_type_not_the_content() {
    assert_eq!(
        marshal_cell(DeclaredType::Text, &RawCell::Text("42".to_string())),
        Ok(Value::Text("42".to_string()))
    );
    assert_eq!(
        marshal_cell(DeclaredType::Text, &RawCell::Integer(42)),
        Err(DecodeFailure::TypeMismatch)
    );
    assert_eq!(
        marshal_cell(DeclaredType::Integer, &RawCell::Text("42".to_string())),
        Err(DecodeFailure::TypeMismatch)
    );
    assert_eq!(
        marshal_cell(DeclaredType::Integer, &RawCell::Real(1.0f64.to_bits())),
        Err(DecodeFailure::TypeMismatch)
    );
    assert_eq!(
        marshal_cell(DeclaredType::Real, &RawCell::Integer(1)),
        Err(DecodeFailure::TypeMismatch)
    );
    assert_eq!(
        marshal_cell(DeclaredType::Blob, &RawCell::Text("t".to_string())),
        Err(DecodeFailure::TypeMismatch)
    );
    assert_eq!(
        marshal_cell(DeclaredType::Integer, &RawCell::Null),
        Err(DecodeFailure::TypeMismatch)
    );
}

#[test]
fn driver_failure_is_carried_with_its_message() {
    assert_eq!(
        marshal_cell(
            DeclaredType::Integer,
            &RawCell::Failed("mismatched types".to_string())
        ),
        Err(DecodeFailure::Driver("mismatched types".to_string()))
    );
}

#[test]
fn row_becomes_record_in_column_order() {
    let row = RawRow {
        fields: vec![
            field("id", DeclaredType::Integer, RawCell::Integer(1)),
            field("title", DeclaredType::Text, RawCell::Text("T".to_string())),
            field("score", DeclaredType::Real, RawCell::Real(f64::NAN.to_bits())),
            field("created", DeclaredType::Unknown, RawCell::Null),
        ],
    };
    let record = marshal_row(0, &row).unwrap();
    assert_eq!(
        entries(&record),
        vec![
            ("id".to_string(), Value::Integer(1)),
            ("title".to_string(), Value::Text("T".to_string())),
            ("score".to_string(), Value::Null),
            ("created".to_string(), Value::Null),
        ]
    );
}

#[test]
fn duplicate_column_names_keep_the_later_value() {
    let row = RawRow {
        fields: vec![
            field("id", DeclaredType::Integer, RawCell::Integer(1)),
            field("name", DeclaredType::Text, RawCell::Text("a".to_string())),
            field("id", DeclaredType::Integer, RawCell::Integer(2)),
        ],
    };
    let record = marshal_row(0, &row).unwrap();
    assert_eq!(
        entries(&record),
        vec![
            ("id".to_string(), Value::Integer(2)),
            ("name".to_string(), Value::Text("a".to_string())),
        ]
    );
}

#[test]
fn empty_result_set_gives_no_records() {
    let records = marshal_rows(&vec![]).unwrap();
    assert!(records.is_empty());
    let record = marshal_row(5, &RawRow { fields: vec![] }).unwrap();
    assert_eq!(record.len(), 0);
}

#[test]
fn rows_become_records_in_row_order() {
    let rows = vec![
        RawRow {
            fields: vec![field("id", DeclaredType::Integer, RawCell::Integer(10))],
        },
        RawRow {
            fields: vec![field("id", DeclaredType::Integer, RawCell::Integer(20))],
        },
        RawRow {
            fields: vec![field("id", DeclaredType::Integer, RawCell::Integer(30))],
        },
    ];
    let records = marshal_rows(&rows).unwrap();
    let ids: Vec<Option<i64>> = records.iter().map(|record| record.integer("id")).collect();
    assert_eq!(ids, vec![Some(10), Some(20), Some(30)]);
}

#[test]
fn first_failing_cell_aborts_the_whole_result_set() {
    let rows = vec![
        RawRow {
            fields: vec![field("id", DeclaredType::Integer, RawCell::Integer(1))],
        },
        RawRow {
            fields: vec![
                field("id", DeclaredType::Integer, RawCell::Integer(2)),
                field(
                    "title",
                    DeclaredType::Text,
                    RawCell::Failed("not utf-8".to_string()),
                ),
                field("body", DeclaredType::Text, RawCell::Integer(0)),
            ],
        },
        RawRow {
            fields: vec![field("id", DeclaredType::Text, RawCell::Integer(3))],
        },
    ];
    assert_eq!(
        marshal_rows(&rows).unwrap_err(),
        DecodeError {
            row: 1,
            column: "title".to_string(),
            cause: DecodeFailure::Driver("not utf-8".to_string()),
        }
    );
}

#[test]
fn type_mismatch_names_row_and_column() {
    let rows = vec![
        RawRow {
            fields: vec![field("a", DeclaredType::Integer, RawCell::Integer(1))],
        },
        RawRow {
            fields: vec![field("a", DeclaredType::Integer, RawCell::Integer(1))],
        },
        RawRow {
            fields: vec![
                field("a", DeclaredType::Integer, RawCell::Integer(1)),
                field("b", DeclaredType::Blob, RawCell::Real(0)),
            ],
        },
    ];
    let error = marshal_rows(&rows).unwrap_err();
    assert_eq!(
        error,
        DecodeError {
            row: 2,
            column: "b".to_string(),
            cause: DecodeFailure::TypeMismatch,
        }
    );
    assert_eq!(
        error.message(),
        "Failed to decode column 'b' of row 2: type mismatch"
    );
}

#[test]
fn row_error_carries_the_given_row_index() {
    let row = RawRow {
        fields: vec![field("x", DeclaredType::Real, RawCell::Failed("bad".to_string()))],
    };
    let error = marshal_row(41, &row).unwrap_err();
    assert_eq!(error.row, 41);
    assert_eq!(error.column, "x");
    assert_eq!(
        error.message(),
        "Failed to decode column 'x' of row 41: bad"
    );
}
