use basis_rs::error::ErrorKind;
use basis_rs::frame::{
    parquet_df_columns, parquet_df_get_bool_chunks, parquet_df_get_i32_chunks,
    parquet_df_get_i64_chunks, parquet_df_get_string_column, parquet_df_num_chunks,
    parquet_df_num_cols, parquet_df_num_rows, ParquetDataFrame,
};
use basis_rs::reader::{
    parquet_reader_get_bool_column, parquet_reader_get_i32_column,
    parquet_reader_get_i64_column, parquet_reader_get_string_column, ParquetReader,
};
use basis_rs::schema::ColumnType;
use basis_rs::writer::{
    parquet_writer_add_bool_column, parquet_writer_add_i32_column,
    parquet_writer_add_i64_column, parquet_writer_add_string_column, parquet_writer_finish,
    parquet_writer_new, ParquetWriter,
};
use polars::prelude::Column;

fn strings(items: &[&str]) -> Vec<String> {
    items.iter().map(|s| s.to_string()).collect()
}

#[test]
fn last_write_wins_at_the_first_position() {
    let mut writer = parquet_writer_new("out.parquet").unwrap();
    parquet_writer_add_i64_column(&mut writer, "x", &[1, 2, 3]).unwrap();
    parquet_writer_add_i64_column(&mut writer, "y", &[4, 5, 6]).unwrap();
    parquet_writer_add_i64_column(&mut writer, "x", &[7, 8, 9]).unwrap();
    let table = parquet_writer_finish(writer).unwrap();
    assert_eq!(table.path, "out.parquet");
    let reader = ParquetReader::new(table.frame);
    let names: Vec<String> = basis_rs::reader::parquet_reader_columns(&reader)
        .into_iter()
        .map(|c| c.name)
        .collect();
    assert_eq!(names, strings(&["x", "y"]));
    assert_eq!(parquet_reader_get_i64_column(&reader, "x").unwrap(), vec![7, 8, 9]);
    assert_eq!(parquet_reader_get_i64_column(&reader, "y").unwrap(), vec![4, 5, 6]);
}

#[test]
fn a_replacement_may_change_the_element_type() {
    let mut writer = ParquetWriter::new("p");
    parquet_writer_add_i64_column(&mut writer, "a", &[1, 2]).unwrap();
    parquet_writer_add_string_column(&mut writer, "b", &strings(&["u", "v"])).unwrap();
    parquet_writer_add_bool_column(&mut writer, "a", &[true, false]).unwrap();
    let table = parquet_writer_finish(writer).unwrap();
    let handle = ParquetDataFrame::new(table.frame);
    let infos = parquet_df_columns(&handle);
    assert_eq!(infos.len(), 2);
    assert_eq!(infos[0].name, "a");
    assert_eq!(infos[0].dtype, ColumnType::Bool);
    assert_eq!(infos[1].name, "b");
    assert_eq!(infos[1].dtype, ColumnType::String);
}

#[test]
fn finish_without_columns_fails() {
    let writer = parquet_writer_new("never.parquet").unwrap();
    let error = parquet_writer_finish(writer).err().unwrap();
    assert_eq!(error.kind, ErrorKind::EngineError);
    assert_eq!(error.kind.code(), -6);
    assert_eq!(error.message, "No columns to write");
}

#[test]
fn finish_with_columns_of_different_lengths_fails() {
    let mut writer = parquet_writer_new("p").unwrap();
    parquet_writer_add_i64_column(&mut writer, "a", &[1, 2, 3]).unwrap();
    parquet_writer_add_i32_column(&mut writer, "b", &[1, 2]).unwrap();
    let error = parquet_writer_finish(writer).err().unwrap();
    assert_eq!(error.kind, ErrorKind::EngineError);
    assert!(!error.message.is_empty());
}

#[test]
fn what_is_written_is_what_is_read() {
    let mut writer = parquet_writer_new("p").unwrap();
    parquet_writer_add_i64_column(&mut writer, "id", &[1, -2, i64::MAX]).unwrap();
    parquet_writer_add_i32_column(&mut writer, "small", &[i32::MIN, 0, 5]).unwrap();
    parquet_writer_add_string_column(&mut writer, "name", &strings(&["a", "", "c"])).unwrap();
    parquet_writer_add_bool_column(&mut writer, "flag", &[true, false, true]).unwrap();
    let table = parquet_writer_finish(writer).unwrap();
    let reader = ParquetReader::new(table.frame.clone());
    assert_eq!(
        parquet_reader_get_i64_column(&reader, "id").unwrap(),
        vec![1, -2, i64::MAX]
    );
    assert_eq!(
        parquet_reader_get_i32_column(&reader, "small").unwrap(),
        vec![i32::MIN, 0, 5]
    );
    assert_eq!(
        parquet_reader_get_string_column(&reader, "name").unwrap(),
        strings(&["a", "", "c"])
    );
    assert_eq!(
        parquet_reader_get_bool_column(&reader, "flag").unwrap(),
        vec![true, false, true]
    );
    let handle = ParquetDataFrame::new(table.frame);
    assert_eq!(parquet_df_num_rows(&handle), 3);
    assert_eq!(parquet_df_num_cols(&handle), 4);
    let chunks = parquet_df_get_i64_chunks(&handle, "id").unwrap();
    assert_eq!(chunks.len(), 1);
    assert_eq!(chunks[0].len, 3);
    assert_eq!(
        parquet_df_get_string_column(&handle, "name").unwrap(),
        strings(&["a", "", "c"])
    );
}

#[test]
fn a_column_of_the_engine_is_added_under_its_name() {
    let mut writer = ParquetWriter::new("p");
    parquet_writer_add_i64_column(&mut writer, "id", &[1, 2]).unwrap();
    writer.add_column(Column::new("score".into(), &[1.5f64, 2.5]));
    writer.add_column(Column::new("id".into(), &[10i64, 20]));
    let table = parquet_writer_finish(writer).unwrap();
    let handle = ParquetDataFrame::new(table.frame);
    let infos = parquet_df_columns(&handle);
    assert_eq!(infos[0].name, "id");
    assert_eq!(infos[1].name, "score");
    assert_eq!(infos[1].dtype, ColumnType::Float64);
    let reader = ParquetReader::new(handle.into_frame());
    assert_eq!(parquet_reader_get_i64_column(&reader, "id").unwrap(), vec![10, 20]);
}

#[test]
fn empty_columns_make_a_table_without_rows() {
    let mut writer = ParquetWriter::new("p");
    parquet_writer_add_i64_column(&mut writer, "id", &[]).unwrap();
    parquet_writer_add_string_column(&mut writer, "name", &[]).unwrap();
    let table = parquet_writer_finish(writer).unwrap();
    let handle = ParquetDataFrame::new(table.frame);
    assert_eq!(parquet_df_num_rows(&handle), 0);
    assert_eq!(parquet_df_num_cols(&handle), 2);
    let chunks = parquet_df_get_i64_chunks(&handle, "id").unwrap();
    assert_eq!(chunks.iter().map(|c| c.len).sum::<usize>(), 0);
}

#[test]
fn every_added_column_is_one_run() {
    let mut writer = ParquetWriter::new("p");
    parquet_writer_add_i64_column(&mut writer, "a", &[1, 2, 3]).unwrap();
    parquet_writer_add_i32_column(&mut writer, "b", &[1, 2, 3]).unwrap();
    parquet_writer_add_string_column(&mut writer, "c", &strings(&["x", "y", "z"])).unwrap();
    parquet_writer_add_bool_column(&mut writer, "d", &[true, false, true]).unwrap();
    let handle = ParquetDataFrame::new(parquet_writer_finish(writer).unwrap().frame);
    for name in ["a", "b", "c", "d"] {
        assert_eq!(parquet_df_num_chunks(&handle, name).unwrap(), 1);
    }
    assert_eq!(parquet_df_get_i64_chunks(&handle, "a").unwrap()[0].len, 3);
    assert_eq!(parquet_df_get_i32_chunks(&handle, "b").unwrap()[0].len, 3);
    assert_eq!(parquet_df_get_bool_chunks(&handle, "d").unwrap()[0].len, 3);

    let mut writer = ParquetWriter::new("p");
    parquet_writer_add_i64_column(&mut writer, "a", &[]).unwrap();
    parquet_writer_add_i32_column(&mut writer, "b", &[]).unwrap();
    parquet_writer_add_string_column(&mut writer, "c", &[]).unwrap();
    parquet_writer_add_bool_column(&mut writer, "d", &[]).unwrap();
    let handle = ParquetDataFrame::new(parquet_writer_finish(writer).unwrap().frame);
    for name in ["a", "b", "c", "d"] {
        assert_eq!(parquet_df_num_chunks(&handle, name).unwrap(), 1);
    }
    let chunks = parquet_df_get_i64_chunks(&handle, "a").unwrap();
    assert_eq!(chunks.len(), 1);
    assert_eq!(chunks[0].len, 0);
}
