use basis_rs::parquet::{open_request, ParallelStrategy, ParquetCompression, StatisticsOptions};
use basis_rs::{ParquetReader, ParquetWriter};

fn strings(items: &[&str]) -> Vec<String> {
    items.iter().map(|s| s.to_string()).collect()
}

#[test]
fn new_reader_reads_everything() {
    let reader = ParquetReader::new("data.parquet");
    assert_eq!(reader.get_path(), "data.parquet");
    assert!(reader.get_columns().is_none());
    assert_eq!(reader.get_n_rows(), None);
    assert_eq!(reader.get_parallel(), ParallelStrategy::Auto);
}

#[test]
fn reader_builders_set_one_option_each() {
    let reader = ParquetReader::new("d")
        .with_columns(strings(&["id", "name"]))
        .with_n_rows(7)
        .with_parallel(ParallelStrategy::RowGroups);
    assert_eq!(reader.get_path(), "d");
    assert_eq!(reader.get_columns(), Some(&strings(&["id", "name"])));
    assert_eq!(reader.get_n_rows(), Some(7));
    assert_eq!(reader.get_parallel(), ParallelStrategy::RowGroups);
    let again = reader.with_n_rows(1).with_columns(Vec::new());
    assert_eq!(again.get_n_rows(), Some(1));
    assert_eq!(again.get_columns(), Some(&Vec::new()));
    assert_eq!(again.get_parallel(), ParallelStrategy::RowGroups);
}

#[test]
fn empty_projection_on_open_stands_for_all_columns() {
    assert!(open_request("d", Vec::new()).get_columns().is_none());
    assert_eq!(
        open_request("d", strings(&["b", "a"])).get_columns(),
        Some(&strings(&["b", "a"]))
    );
}

#[test]
fn new_writer_has_the_usual_options() {
    let writer = ParquetWriter::new("out.parquet");
    assert_eq!(writer.get_path(), "out.parquet");
    assert_eq!(writer.get_compression(), ParquetCompression::Zstd(None));
    assert_eq!(writer.get_row_group_size(), None);
    assert_eq!(writer.get_data_page_size(), None);
    assert_eq!(writer.get_statistics(), StatisticsOptions::default());
    assert_eq!(
        StatisticsOptions::default(),
        StatisticsOptions {
            min_value: true,
            max_value: true,
            distinct_count: false,
            null_count: true,
        }
    );
}

#[test]
fn writer_builders_set_one_option_each() {
    let statistics = StatisticsOptions {
        min_value: false,
        max_value: true,
        distinct_count: true,
        null_count: false,
    };
    let writer = ParquetWriter::new("o")
        .with_compression(ParquetCompression::Brotli(Some(3)))
        .with_row_group_size(100_000)
        .with_statistics(statistics)
        .with_data_page_size(4096);
    assert_eq!(writer.get_path(), "o");
    assert_eq!(writer.get_compression(), ParquetCompression::Brotli(Some(3)));
    assert_eq!(writer.get_row_group_size(), Some(100_000));
    assert_eq!(writer.get_statistics(), statistics);
    assert_eq!(writer.get_data_page_size(), Some(4096));
    let again = writer.with_compression(ParquetCompression::Lz4Raw);
    assert_eq!(again.get_compression(), ParquetCompression::Lz4Raw);
    assert_eq!(again.get_row_group_size(), Some(100_000));
}
