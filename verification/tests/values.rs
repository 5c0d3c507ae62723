use lakehouse_scan::batch::{Batch, BatchColumn, Column};
use lakehouse_scan::error::ScanError;
use lakehouse_scan::text::{option_is_named, option_name, starts_with, str_equal};
use lakehouse_scan::value::{
    convert_datum, Cell, ConversionFault, Datum, BOOL_OID, INT2_OID, INT4_OID, INT8_OID, TEXT_OID,
    VARCHAR_OID,
};

#[test]
fn null_converts_to_no_cell_under_every_supported_type() {
    for oid in [BOOL_OID, INT2_OID, INT4_OID, INT8_OID, TEXT_OID, VARCHAR_OID] {
        assert_eq!(convert_datum(&Datum::Null, oid), Ok(None));
    }
}

#[test]
fn integers_convert_to_the_width_of_the_column() {
    assert_eq!(convert_datum(&Datum::Int(-7), INT2_OID), Ok(Some(Cell::I16(-7))));
    assert_eq!(convert_datum(&Datum::Int(-7), INT4_OID), Ok(Some(Cell::I32(-7))));
    assert_eq!(convert_datum(&Datum::Int(-7), INT8_OID), Ok(Some(Cell::I64(-7))));
    assert_eq!(convert_datum(&Datum::Int(32767), INT2_OID), Ok(Some(Cell::I16(32767))));
    assert_eq!(convert_datum(&Datum::Int(-32768), INT2_OID), Ok(Some(Cell::I16(-32768))));
    assert_eq!(
        convert_datum(&Datum::Int(2147483647), INT4_OID),
        Ok(Some(Cell::I32(2147483647)))
    );
    assert_eq!(
        convert_datum(&Datum::Int(-2147483648), INT4_OID),
        Ok(Some(Cell::I32(-2147483648)))
    );
    assert_eq!(convert_datum(&Datum::Int(i64::MAX), INT8_OID), Ok(Some(Cell::I64(i64::MAX))));
}

#[test]
fn integers_that_do_not_fit_are_out_of_range() {
    assert_eq!(convert_datum(&Datum::Int(32768), INT2_OID), Err(ConversionFault::OutOfRange));
    assert_eq!(convert_datum(&Datum::Int(-32769), INT2_OID), Err(ConversionFault::OutOfRange));
    assert_eq!(convert_datum(&Datum::Int(2147483648), INT4_OID), Err(ConversionFault::OutOfRange));
    assert_eq!(convert_datum(&Datum::Int(-2147483649), INT4_OID), Err(ConversionFault::OutOfRange));
}

#[test]
fn values_of_another_kind_are_a_mismatch() {
    assert_eq!(convert_datum(&Datum::Int(1), BOOL_OID), Err(ConversionFault::Mismatch));
    assert_eq!(convert_datum(&Datum::Int(1), TEXT_OID), Err(ConversionFault::Mismatch));
    assert_eq!(convert_datum(&Datum::Bool(true), INT4_OID), Err(ConversionFault::Mismatch));
    assert_eq!(
        convert_datum(&Datum::Text("1".to_string()), INT8_OID),
        Err(ConversionFault::Mismatch)
    );
}

#[test]
fn unsupported_types_are_refused_before_the_value_is_looked_at() {
    assert_eq!(convert_datum(&Datum::Null, 701), Err(ConversionFault::UnsupportedType));
    assert_eq!(convert_datum(&Datum::Int(1), 0), Err(ConversionFault::UnsupportedType));
}

#[test]
fn booleans_and_texts_convert_as_they_are() {
    assert_eq!(convert_datum(&Datum::Bool(true), BOOL_OID), Ok(Some(Cell::Bool(true))));
    assert_eq!(
        convert_datum(&Datum::Text("héllo".to_string()), TEXT_OID),
        Ok(Some(Cell::Text("héllo".to_string())))
    );
    assert_eq!(
        convert_datum(&Datum::Text(String::new()), VARCHAR_OID),
        Ok(Some(Cell::Text(String::new())))
    );
}

#[test]
fn ragged_columns_make_no_batch() {
    let ragged = vec![
        BatchColumn { name: "a".to_string(), values: vec![Datum::Int(1), Datum::Int(2)] },
        BatchColumn { name: "b".to_string(), values: vec![Datum::Int(1)] },
    ];
    assert!(Batch::try_new(ragged, 2).is_none());
    let even = vec![BatchColumn { name: "a".to_string(), values: vec![Datum::Int(1)] }];
    assert!(Batch::try_new(even.clone(), 2).is_none());
    let batch = Batch::try_new(even, 1).unwrap();
    assert_eq!(batch.num_rows(), 1);
    assert_eq!(batch.num_columns(), 1);
    assert_eq!(Batch::try_new(vec![], 4).unwrap().num_rows(), 4);
}

#[test]
fn find_column_takes_the_first_of_a_name() {
    let batch = Batch::try_new(
        vec![
            BatchColumn { name: "a".to_string(), values: vec![Datum::Int(1)] },
            BatchColumn { name: "b".to_string(), values: vec![Datum::Int(2)] },
            BatchColumn { name: "a".to_string(), values: vec![Datum::Int(3)] },
        ],
        1,
    )
    .unwrap();
    assert_eq!(batch.find_column("a"), Some(0));
    assert_eq!(batch.find_column("b"), Some(1));
    assert_eq!(batch.find_column("c"), None);
    let wanted = Column { name: "a".to_string(), num: 1, type_oid: INT8_OID };
    assert_eq!(batch.cell(0, &wanted, 4), Ok(Some(Cell::I64(1))));
    let absent = Column { name: "c".to_string(), num: 3, type_oid: INT8_OID };
    assert_eq!(batch.cell(0, &absent, 4), Err(ScanError::ColumnNotFound(4)));
}

#[test]
fn text_helpers_compare_by_characters() {
    assert!(str_equal("path", "path"));
    assert!(!str_equal("path", "paths"));
    assert!(!str_equal("path", "pith"));
    assert!(str_equal("", ""));
    assert!(str_equal("é", "é"));
    assert!(starts_with("extension=csv", "ext"));
    assert!(starts_with("abc", ""));
    assert!(!starts_with("ab", "abc"));
    assert!(option_is_named("path=/tmp", "path"));
    assert!(option_is_named("path=", "path"));
    assert!(!option_is_named("path", "path"));
    assert!(!option_is_named("pathological=1", "path"));
    assert!(option_is_named("=x", ""));
    assert_eq!(option_name("path=/a=b"), "path");
    assert_eq!(option_name("path"), "path");
    assert_eq!(option_name("=x"), "");
    assert_eq!(option_name(""), "");
}

#[test]
fn scan_errors_have_a_line_of_text() {
    assert_eq!(ScanError::StreamNotFound.message(), "stream not found");
    assert_eq!(ScanError::Plan("p".to_string()).message(), "p");
    assert_eq!(ScanError::Stream("s".to_string()).message(), "s");
    assert_eq!(
        ScanError::ColumnNotFound(2).message(),
        "requested column is missing from the batch"
    );
    assert_eq!(
        ScanError::Conversion(0, ConversionFault::UnsupportedType).message(),
        "column type is not supported"
    );
    assert_eq!(
        ScanError::Conversion(0, ConversionFault::Mismatch).message(),
        "value does not match the column type"
    );
    assert_eq!(
        ScanError::Conversion(0, ConversionFault::OutOfRange).message(),
        "integer does not fit the column type"
    );
}
