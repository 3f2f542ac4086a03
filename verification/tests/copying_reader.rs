use basis_rs::error::ErrorKind;
use basis_rs::reader::{
    parquet_reader_columns, parquet_reader_get_bool_column, parquet_reader_get_f32_column,
    parquet_reader_get_f64_column, parquet_reader_get_i32_column,
    parquet_reader_get_i64_column, parquet_reader_get_string_column, parquet_reader_num_cols,
    parquet_reader_num_rows, ParquetReader,
};
use basis_rs::schema::ColumnType;
use polars::prelude::{Column, DataFrame};

fn mixed_frame() -> DataFrame {
    DataFrame::new(vec![
        Column::new("id".into(), &[Some(1i64), None, Some(-3)]),
        Column::new("small".into(), &[Some(7i32), Some(8), None]),
        Column::new("name".into(), &[Some("a"), None, Some("c")]),
        Column::new("flag".into(), &[None, Some(true), Some(false)]),
    ])
    .unwrap()
}

#[test]
fn reader_reports_shape_and_schema() {
    let reader = ParquetReader::new(mixed_frame());
    assert_eq!(parquet_reader_num_rows(&reader), 3);
    assert_eq!(parquet_reader_num_cols(&reader), 4);
    let infos = parquet_reader_columns(&reader);
    assert_eq!(infos.len(), 4);
    assert_eq!(infos[0].name, "id");
    assert_eq!(infos[0].dtype, ColumnType::Int64);
    assert_eq!(infos[3].name, "flag");
    assert_eq!(infos[3].dtype, ColumnType::Bool);
}

#[test]
fn absent_values_surface_as_defaults() {
    let reader = ParquetReader::new(mixed_frame());
    assert_eq!(parquet_reader_get_i64_column(&reader, "id").unwrap(), vec![1, 0, -3]);
    assert_eq!(parquet_reader_get_i32_column(&reader, "small").unwrap(), vec![7, 8, 0]);
    assert_eq!(
        parquet_reader_get_string_column(&reader, "name").unwrap(),
        vec!["a".to_string(), String::new(), "c".to_string()]
    );
    assert_eq!(
        parquet_reader_get_bool_column(&reader, "flag").unwrap(),
        vec![false, true, false]
    );
}

#[test]
fn reader_rejects_the_wrong_element_type() {
    let reader = ParquetReader::new(mixed_frame());
    let error = parquet_reader_get_i64_column(&reader, "small").unwrap_err();
    assert_eq!(error.kind, ErrorKind::TypeMismatch);
    assert!(error.message.starts_with("Column 'small' is not Int64: "));
    let error = parquet_reader_get_i32_column(&reader, "id").unwrap_err();
    assert!(error.message.starts_with("Column 'id' is not Int32: "));
    let error = parquet_reader_get_bool_column(&reader, "name").unwrap_err();
    assert!(error.message.starts_with("Column 'name' is not Boolean: "));
    let error = parquet_reader_get_string_column(&reader, "flag").unwrap_err();
    assert!(error.message.starts_with("Column 'flag' is not String: "));
}

#[test]
fn reader_reports_a_missing_column() {
    let reader = ParquetReader::new(mixed_frame());
    let error = parquet_reader_get_i64_column(&reader, "zz").unwrap_err();
    assert_eq!(error.kind, ErrorKind::ColumnNotFound);
    assert_eq!(error.kind.code(), -4);
    assert!(error.message.starts_with("Column 'zz' not found: "));
}

#[test]
fn float_columns_are_read_as_bit_patterns() {
    let df = DataFrame::new(vec![
        Column::new("d".into(), &[Some(85.5f64), None, Some(-0.0), Some(f64::INFINITY)]),
        Column::new("e".into(), &[Some(0.5f32), Some(-2.0), None, Some(f32::MAX)]),
    ])
    .unwrap();
    let reader = ParquetReader::new(df);
    let doubles: Vec<f64> = parquet_reader_get_f64_column(&reader, "d")
        .unwrap()
        .into_iter()
        .map(f64::from_bits)
        .collect();
    assert_eq!(doubles, vec![85.5, 0.0, -0.0, f64::INFINITY]);
    assert_eq!(
        parquet_reader_get_f64_column(&reader, "d").unwrap(),
        vec![85.5f64.to_bits(), 0, (-0.0f64).to_bits(), f64::INFINITY.to_bits()]
    );
    let floats: Vec<f32> = parquet_reader_get_f32_column(&reader, "e")
        .unwrap()
        .into_iter()
        .map(f32::from_bits)
        .collect();
    assert_eq!(floats, vec![0.5, -2.0, 0.0, f32::MAX]);
    let error = parquet_reader_get_f64_column(&reader, "e").unwrap_err();
    assert_eq!(error.kind, ErrorKind::TypeMismatch);
    assert!(error.message.starts_with("Column 'e' is not Float64: "));
    let error = parquet_reader_get_f32_column(&reader, "d").unwrap_err();
    assert!(error.message.starts_with("Column 'd' is not Float32: "));
}
