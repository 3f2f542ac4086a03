use basis_rs::error::{
    EngineFault, ErrorKind, ErrorSlot, ParquetError, BASIS_ERR_COLUMN_NOT_FOUND,
    BASIS_ERR_INVALID_UTF8, BASIS_ERR_IO, BASIS_ERR_NULL_PTR, BASIS_ERR_POLARS,
    BASIS_ERR_TYPE_MISMATCH, BASIS_OK,
};
use polars::prelude::PolarsError;
use basis_rs::text::{contains_nul, decimal_text, decode, join2, join3};

#[test]
fn status_codes_have_their_fixed_values() {
    assert_eq!(BASIS_OK, 0);
    assert_eq!(BASIS_ERR_NULL_PTR, -1);
    assert_eq!(BASIS_ERR_INVALID_UTF8, -2);
    assert_eq!(BASIS_ERR_IO, -3);
    assert_eq!(BASIS_ERR_COLUMN_NOT_FOUND, -4);
    assert_eq!(BASIS_ERR_TYPE_MISMATCH, -5);
    assert_eq!(BASIS_ERR_POLARS, -6);
}

#[test]
fn each_kind_reports_its_code() {
    assert_eq!(ErrorKind::NullPointer.code(), -1);
    assert_eq!(ErrorKind::InvalidUtf8.code(), -2);
    assert_eq!(ErrorKind::IoError.code(), -3);
    assert_eq!(ErrorKind::ColumnNotFound.code(), -4);
    assert_eq!(ErrorKind::TypeMismatch.code(), -5);
    assert_eq!(ErrorKind::EngineError.code(), -6);
}

#[test]
fn codes_map_back_to_their_kind() {
    assert_eq!(ErrorKind::from_code(-1), Some(ErrorKind::NullPointer));
    assert_eq!(ErrorKind::from_code(-4), Some(ErrorKind::ColumnNotFound));
    assert_eq!(ErrorKind::from_code(-6), Some(ErrorKind::EngineError));
    assert_eq!(ErrorKind::from_code(0), None);
    assert_eq!(ErrorKind::from_code(-7), None);
    assert_eq!(ErrorKind::from_code(1), None);
}

#[test]
fn slot_starts_empty_and_keeps_the_last_message() {
    let mut slot = ErrorSlot::new();
    assert!(slot.get_last_error().is_none());
    slot.set_error("first");
    slot.set_error("second");
    assert_eq!(slot.get_last_error().map(|m| m.as_str()), Some("second"));
    slot.clear_error();
    assert!(slot.get_last_error().is_none());
}

#[test]
fn slot_drops_a_message_with_a_zero_byte() {
    let mut slot = ErrorSlot::new();
    slot.set_error("kept");
    slot.set_error("bro\0ken");
    assert!(slot.get_last_error().is_none());
}

#[test]
fn parquet_error_messages() {
    assert_eq!(ParquetError::Io("gone".to_string()).message(), "IO error: gone");
    assert_eq!(
        ParquetError::Polars(PolarsError::ComputeError("bad".into())).message(),
        "Polars error: bad"
    );
    assert_eq!(
        ParquetError::Polars(PolarsError::ColumnNotFound("x".into())).message(),
        "Polars error: not found: x"
    );
    assert_eq!(
        ParquetError::InvalidPath("/x".to_string()).message(),
        "Invalid path: /x"
    );
}

#[test]
fn decimal_text_of_numbers() {
    assert_eq!(decimal_text(0), "0");
    assert_eq!(decimal_text(7), "7");
    assert_eq!(decimal_text(10), "10");
    assert_eq!(decimal_text(1234567890), "1234567890");
    assert_eq!(decimal_text(usize::MAX), usize::MAX.to_string());
}

#[test]
fn decode_accepts_text_and_rejects_broken_bytes() {
    assert_eq!(decode(b"score"), Some("score"));
    assert_eq!(decode("héllo".as_bytes()), Some("héllo"));
    assert_eq!(decode(&[0xff, 0xfe]), None);
    assert_eq!(decode(&[0xc3]), None);
    assert_eq!(decode(b""), Some(""));
}

#[test]
fn nul_detection_and_joins() {
    assert!(contains_nul("a\0b"));
    assert!(!contains_nul("ab"));
    assert!(!contains_nul(""));
    assert_eq!(join2("ab", "cd"), "abcd");
    assert_eq!(join3("column '", "x", "' not found"), "column 'x' not found");
}

#[test]
fn failures_of_reading_cross_the_boundary_with_a_kind() {
    let io = ParquetError::Io("denied".to_string()).to_boundary();
    assert_eq!(io.kind, ErrorKind::IoError);
    assert_eq!(io.message, "IO error: denied");
    let path = ParquetError::InvalidPath("??".to_string()).to_boundary();
    assert_eq!(path.kind, ErrorKind::IoError);
    let missing = ParquetError::Polars(PolarsError::ColumnNotFound("x".into())).to_boundary();
    assert_eq!(missing.kind, ErrorKind::ColumnNotFound);
    let schema = ParquetError::Polars(PolarsError::SchemaMismatch("x".into())).to_boundary();
    assert_eq!(schema.kind, ErrorKind::TypeMismatch);
    let storage =
        ParquetError::Polars(PolarsError::from(std::io::Error::other("disk"))).to_boundary();
    assert_eq!(storage.kind, ErrorKind::IoError);
    let other = ParquetError::Polars(PolarsError::ComputeError("x".into())).to_boundary();
    assert_eq!(other.kind, ErrorKind::EngineError);
    assert_eq!(other.message, "Polars error: x");
}

#[test]
fn engine_faults_map_to_kinds() {
    assert_eq!(EngineFault::ColumnNotFound.kind(), ErrorKind::ColumnNotFound);
    assert_eq!(EngineFault::SchemaMismatch.kind(), ErrorKind::TypeMismatch);
    assert_eq!(EngineFault::Io.kind(), ErrorKind::IoError);
    assert_eq!(EngineFault::Other.kind(), ErrorKind::EngineError);
}
