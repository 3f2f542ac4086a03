use basis_rs::error::ErrorKind;
use basis_rs::frame::{
    parquet_df_columns, parquet_df_get_i64_chunks, parquet_df_get_string_column,
    parquet_df_num_cols, parquet_df_num_rows, parquet_open, parquet_open_projected,
    ParquetDataFrame,
};
use basis_rs::parquet::{ParallelStrategy, ParquetCompression, StatisticsOptions};
use basis_rs::query::{
    execute_query, parquet_query_collect, parquet_query_collect_df, parquet_query_filter_f64,
    parquet_query_filter_i64, parquet_query_filter_str, parquet_query_new, parquet_query_select,
    FilterPredicate, PlanStep, Scalar,
};
use basis_rs::reader::{
    parquet_reader_get_i64_column, parquet_reader_get_string_column, parquet_reader_num_cols,
    parquet_reader_num_rows,
};
use basis_rs::schema::{ColumnType, FilterOp};
use basis_rs::writer::{
    parquet_writer_add_bool_column, parquet_writer_add_i64_column,
    parquet_writer_add_string_column, parquet_writer_finish, parquet_writer_new,
};
use basis_rs::{ParquetError, ParquetReader, ParquetWriter};
use polars::prelude::{
    col, lit, BrotliLevel, Column, DataFrame, Expr, GzipLevel, LazyFrame, PolarsError,
    ScanArgsParquet, SerReader, ZstdLevel,
};
use tempfile::{tempdir, NamedTempFile};

type Outcome<T> = Result<T, ParquetError>;

fn engine_strategy(strategy: ParallelStrategy) -> polars::prelude::ParallelStrategy {
    match strategy {
        ParallelStrategy::Sequential => polars::prelude::ParallelStrategy::None,
        ParallelStrategy::Columns => polars::prelude::ParallelStrategy::Columns,
        ParallelStrategy::RowGroups => polars::prelude::ParallelStrategy::RowGroups,
        ParallelStrategy::Prefiltered => polars::prelude::ParallelStrategy::Prefiltered,
        ParallelStrategy::Auto => polars::prelude::ParallelStrategy::Auto,
    }
}

fn engine_compression(
    compression: ParquetCompression,
) -> Result<polars::prelude::ParquetCompression, PolarsError> {
    Ok(match compression {
        ParquetCompression::Uncompressed => polars::prelude::ParquetCompression::Uncompressed,
        ParquetCompression::Snappy => polars::prelude::ParquetCompression::Snappy,
        ParquetCompression::Gzip(level) => {
            polars::prelude::ParquetCompression::Gzip(level.map(GzipLevel::try_new).transpose()?)
        }
        ParquetCompression::Lzo => polars::prelude::ParquetCompression::Lzo,
        ParquetCompression::Brotli(level) => polars::prelude::ParquetCompression::Brotli(
            level.map(BrotliLevel::try_new).transpose()?,
        ),
        ParquetCompression::Zstd(level) => {
            polars::prelude::ParquetCompression::Zstd(level.map(ZstdLevel::try_new).transpose()?)
        }
        ParquetCompression::Lz4Raw => polars::prelude::ParquetCompression::Lz4Raw,
    })
}

fn engine_statistics(options: StatisticsOptions) -> polars::prelude::StatisticsOptions {
    polars::prelude::StatisticsOptions {
        min_value: options.min_value,
        max_value: options.max_value,
        distinct_count: options.distinct_count,
        null_count: options.null_count,
    }
}

fn read(options: ParquetReader, stored: &NamedTempFile) -> Outcome<DataFrame> {
    assert_eq!(Some(options.get_path().as_str()), stored.path().to_str());
    let file = stored.reopen().map_err(|e| ParquetError::Io(e.to_string()))?;
    let mut reader = polars::prelude::ParquetReader::new(file);
    if let Some(columns) = options.get_columns() {
        reader = reader.with_columns(Some(columns.clone()));
    }
    reader = reader.read_parallel(engine_strategy(options.get_parallel()));
    let df = reader.finish().map_err(ParquetError::Polars)?;
    Ok(options.limit_rows(df))
}

fn scan(options: ParquetReader) -> Outcome<LazyFrame> {
    let mut args = ScanArgsParquet::default();
    args.n_rows = options.get_n_rows();
    args.parallel = engine_strategy(options.get_parallel());
    let lf = LazyFrame::scan_parquet(options.get_path(), args).map_err(ParquetError::Polars)?;
    match options.get_columns() {
        Some(columns) => Ok(lf.select(columns.iter().map(|c| col(c.as_str())).collect::<Vec<_>>())),
        None => Ok(lf),
    }
}

fn write(options: ParquetWriter, df: &mut DataFrame, stored: &NamedTempFile) -> Outcome<()> {
    assert_eq!(Some(options.get_path().as_str()), stored.path().to_str());
    let file = stored.reopen().map_err(|e| ParquetError::Io(e.to_string()))?;
    let compression =
        engine_compression(options.get_compression()).map_err(ParquetError::Polars)?;
    let mut writer = polars::prelude::ParquetWriter::new(file)
        .with_compression(compression)
        .with_statistics(engine_statistics(options.get_statistics()));
    if let Some(size) = options.get_row_group_size() {
        writer = writer.with_row_group_size(Some(size));
    }
    if let Some(size) = options.get_data_page_size() {
        writer = writer.with_data_page_size(Some(size));
    }
    writer.finish(df).map_err(ParquetError::Polars)?;
    Ok(())
}

fn literal(value: &Scalar) -> Expr {
    match value {
        Scalar::Int64(v) => lit(*v),
        Scalar::Int32(v) => lit(*v),
        Scalar::Float64(bits) => lit(f64::from_bits(*bits)),
        Scalar::Float32(bits) => lit(f32::from_bits(*bits)),
        Scalar::Str(v) => lit(v.clone()),
        Scalar::Bool(v) => lit(*v),
    }
}

fn expression(predicate: &FilterPredicate) -> Expr {
    let column = col(predicate.column.as_str());
    let value = literal(&predicate.literal);
    match predicate.op {
        FilterOp::Eq => column.eq(value),
        FilterOp::Ne => column.neq(value),
        FilterOp::Lt => column.lt(value),
        FilterOp::Le => column.lt_eq(value),
        FilterOp::Gt => column.gt(value),
        FilterOp::Ge => column.gt_eq(value),
    }
}

fn run(steps: Vec<PlanStep>) -> Result<DataFrame, PolarsError> {
    let mut plan: Option<LazyFrame> = None;
    let mut result: Option<DataFrame> = None;
    for step in steps {
        match step {
            PlanStep::Scan(path) => {
                plan = Some(LazyFrame::scan_parquet(path, ScanArgsParquet::default())?);
            }
            PlanStep::Select(columns) => {
                let exprs: Vec<Expr> = columns.iter().map(|c| col(c.as_str())).collect();
                plan = plan.map(|lf| lf.select(exprs));
            }
            PlanStep::Filter(predicate) => {
                plan = plan.map(|lf| lf.filter(expression(&predicate)));
            }
            PlanStep::Collect => {
                result = Some(plan.take().unwrap().collect()?);
            }
        }
    }
    Ok(result.unwrap())
}

fn sample_df() -> DataFrame {
    DataFrame::new(vec![
        Column::new("id".into(), &[1i64, 2, 3, 4, 5]),
        Column::new("name".into(), &["alice", "bob", "charlie", "diana", "eve"]),
        Column::new("score".into(), &[85.5f64, 92.0, 78.5, 95.0, 88.5]),
    ])
    .unwrap()
}

fn strings(items: &[&str]) -> Vec<String> {
    items.iter().map(|s| s.to_string()).collect()
}

#[test]
fn test_roundtrip() -> Outcome<()> {
    let stored = NamedTempFile::new().map_err(|e| ParquetError::Io(e.to_string()))?;
    let path = stored.path().to_str().unwrap();

    let mut df = sample_df();
    write(ParquetWriter::new(path), &mut df, &stored)?;

    let loaded = read(ParquetReader::new(path), &stored)?;
    assert_eq!(df.shape(), loaded.shape());
    Ok(())
}

#[test]
fn test_column_projection() -> Outcome<()> {
    let stored = NamedTempFile::new().map_err(|e| ParquetError::Io(e.to_string()))?;
    let path = stored.path().to_str().unwrap();

    let mut df = sample_df();
    write(ParquetWriter::new(path), &mut df, &stored)?;

    let loaded = read(ParquetReader::new(path).with_columns(strings(&["id", "name"])), &stored)?;

    assert_eq!(loaded.width(), 2);
    assert!(loaded.column("id").is_ok());
    assert!(loaded.column("name").is_ok());
    assert!(loaded.column("score").is_err());
    Ok(())
}

#[test]
fn test_row_limit() -> Outcome<()> {
    let stored = NamedTempFile::new().map_err(|e| ParquetError::Io(e.to_string()))?;
    let path = stored.path().to_str().unwrap();

    let mut df = sample_df();
    write(ParquetWriter::new(path), &mut df, &stored)?;

    let loaded = read(ParquetReader::new(path).with_n_rows(2), &stored)?;
    assert_eq!(loaded.height(), 2);
    Ok(())
}

#[test]
fn test_lazy_scan() -> Outcome<()> {
    let stored = NamedTempFile::new().map_err(|e| ParquetError::Io(e.to_string()))?;
    let path = stored.path().to_str().unwrap();

    let mut df = sample_df();
    write(ParquetWriter::new(path), &mut df, &stored)?;

    let result = scan(ParquetReader::new(path))?
        .filter(col("score").gt(lit(80.0)))
        .select([col("name"), col("score")])
        .collect()
        .map_err(ParquetError::Polars)?;

    assert_eq!(result.width(), 2);
    assert!(result.height() < df.height());
    Ok(())
}

#[test]
fn test_compression_options() -> Outcome<()> {
    let dir = tempdir().map_err(|e| ParquetError::Io(e.to_string()))?;

    let mut df = sample_df();

    for (name, compression) in [
        ("zstd", ParquetCompression::Zstd(None)),
        ("snappy", ParquetCompression::Snappy),
        ("uncompressed", ParquetCompression::Uncompressed),
    ] {
        let stored = tempfile::Builder::new()
            .prefix(name)
            .suffix(".parquet")
            .tempfile_in(dir.path())
            .map_err(|e| ParquetError::Io(e.to_string()))?;
        let path = stored.path().to_str().unwrap();
        write(ParquetWriter::new(path).with_compression(compression), &mut df, &stored)?;

        let loaded = read(ParquetReader::new(path), &stored)?;
        assert_eq!(df.shape(), loaded.shape(), "Failed for {name}");
    }
    Ok(())
}

#[test]
fn row_limit_keeps_the_first_rows_and_the_schema() {
    let reader = ParquetReader::new("unused").with_n_rows(2);
    let limited = ParquetDataFrame::new(reader.limit_rows(sample_df()));
    assert_eq!(parquet_df_num_rows(&limited), 2);
    assert_eq!(parquet_df_num_cols(&limited), 3);
    assert_eq!(
        parquet_df_get_string_column(&limited, "name").unwrap(),
        strings(&["alice", "bob"])
    );
    let wide = ParquetReader::new("unused").with_n_rows(9);
    assert_eq!(wide.limit_rows(sample_df()).height(), 5);
    let none = ParquetReader::new("unused").with_n_rows(0);
    assert_eq!(none.limit_rows(sample_df()).shape(), (0, 3));
    let open = ParquetReader::new("unused");
    assert_eq!(open.limit_rows(sample_df()).height(), 5);
}

#[test]
fn accumulated_table_survives_the_file() -> Outcome<()> {
    let stored = NamedTempFile::new().map_err(|e| ParquetError::Io(e.to_string()))?;
    let path = stored.path().to_str().unwrap();

    let mut writer = parquet_writer_new(path).unwrap();
    parquet_writer_add_i64_column(&mut writer, "id", &[10, 20, 30]).unwrap();
    parquet_writer_add_string_column(&mut writer, "name", &strings(&["x", "y", "z"])).unwrap();
    parquet_writer_add_bool_column(&mut writer, "flag", &[true, false, true]).unwrap();
    writer.add_column(Column::new("score".into(), &[0.5f64, 1.5, 2.5]));
    let mut table = parquet_writer_finish(writer).unwrap();
    write(ParquetWriter::new(table.path.as_str()), &mut table.frame, &stored)?;

    let handle = ParquetDataFrame::from_read(read(parquet_open(path), &stored)).unwrap();
    assert_eq!(parquet_df_num_rows(&handle), 3);
    assert_eq!(parquet_df_num_cols(&handle), 4);
    let infos = parquet_df_columns(&handle);
    let names: Vec<&str> = infos.iter().map(|c| c.name.as_str()).collect();
    assert_eq!(names, vec!["id", "name", "flag", "score"]);
    let tags: Vec<ColumnType> = infos.iter().map(|c| c.dtype).collect();
    assert_eq!(
        tags,
        vec![ColumnType::Int64, ColumnType::String, ColumnType::Bool, ColumnType::Float64]
    );
    assert_eq!(
        parquet_df_get_string_column(&handle, "name").unwrap(),
        strings(&["x", "y", "z"])
    );
    let frame = handle.into_frame();
    let scores: Vec<f64> =
        frame.column("score").unwrap().f64().unwrap().into_no_null_iter().collect();
    assert_eq!(scores, vec![0.5, 1.5, 2.5]);
    let reader = basis_rs::reader::ParquetReader::new(frame);
    assert_eq!(parquet_reader_get_i64_column(&reader, "id").unwrap(), vec![10, 20, 30]);
    Ok(())
}

#[test]
fn empty_writer_leaves_no_file() {
    let dir = tempdir().unwrap();
    let path = dir.path().join("empty.parquet");
    let writer = parquet_writer_new(path.to_str().unwrap()).unwrap();
    let finished = parquet_writer_finish(writer);
    assert!(finished.is_err());
    let error = finished.err().unwrap();
    assert_eq!(error.kind, ErrorKind::EngineError);
    assert_eq!(error.message, "No columns to write");
    assert!(!path.exists());
}

#[test]
fn projection_gives_the_requested_columns_in_order() -> Outcome<()> {
    let stored = NamedTempFile::new().map_err(|e| ParquetError::Io(e.to_string()))?;
    let path = stored.path().to_str().unwrap();
    let mut df = sample_df();
    write(ParquetWriter::new(path), &mut df, &stored)?;

    let request = parquet_open_projected(path, strings(&["score", "id"]));
    let handle = ParquetDataFrame::from_read(read(request, &stored)).unwrap();
    assert_eq!(parquet_df_num_cols(&handle), 2);
    assert_eq!(parquet_df_num_rows(&handle), 5);
    let names: Vec<String> = parquet_df_columns(&handle).into_iter().map(|c| c.name).collect();
    assert_eq!(names, strings(&["score", "id"]));
    assert_eq!(parquet_df_get_i64_chunks(&handle, "id").unwrap()[0].len, 5);
    assert_eq!(
        parquet_df_get_i64_chunks(&handle, "name").unwrap_err().kind,
        ErrorKind::ColumnNotFound
    );

    let all =
        ParquetDataFrame::from_read(read(parquet_open_projected(path, Vec::new()), &stored))
            .unwrap();
    assert_eq!(parquet_df_num_cols(&all), 3);
    Ok(())
}

#[test]
fn opening_a_missing_file_is_an_io_failure() {
    let dir = tempdir().unwrap();
    let path = dir.path().join("absent.parquet");
    let loaded = scan(parquet_open(path.to_str().unwrap()))
        .and_then(|lf| lf.collect().map_err(ParquetError::Polars));
    let error = ParquetDataFrame::from_read(loaded).err().unwrap();
    assert!(error.kind == ErrorKind::IoError || error.kind == ErrorKind::EngineError);
    assert!(error.message.starts_with("Polars error: "));
    let refused = ParquetError::Io("permission denied".to_string());
    let error = ParquetDataFrame::from_read(Err(refused)).err().unwrap();
    assert_eq!(error.kind, ErrorKind::IoError);
    assert_eq!(error.message, "IO error: permission denied");
}

#[test]
fn projection_of_an_unknown_column_fails() -> Outcome<()> {
    let stored = NamedTempFile::new().map_err(|e| ParquetError::Io(e.to_string()))?;
    let path = stored.path().to_str().unwrap();
    let mut df = sample_df();
    write(ParquetWriter::new(path), &mut df, &stored)?;
    let loaded = read(parquet_open_projected(path, strings(&["id", "nope"])), &stored);
    let error = ParquetDataFrame::from_read(loaded).err().unwrap();
    assert!(error.message.starts_with("Polars error: "));
    assert_eq!(error.kind, ErrorKind::ColumnNotFound, "{}", error.message);
    Ok(())
}

#[test]
fn filters_are_a_conjunction() -> Outcome<()> {
    let stored = NamedTempFile::new().map_err(|e| ParquetError::Io(e.to_string()))?;
    let path = stored.path().to_str().unwrap();
    let mut df = DataFrame::new(vec![
        Column::new("id".into(), &[1i64, 2, 3, 4, 5]),
        Column::new("name".into(), &["a", "b", "c", "d", "e"]),
        Column::new("score".into(), &[85.5f64, 92.0, 78.5, 95.0, 88.5]),
    ])
    .unwrap();
    write(ParquetWriter::new(path), &mut df, &stored)?;

    let mut query = parquet_query_new(path, true).unwrap();
    parquet_query_select(&mut query, strings(&["name", "score"]));
    parquet_query_filter_f64(&mut query, "score", FilterOp::Gt, 80.0f64.to_bits());
    let outcome = run(execute_query(&query));
    let handle = parquet_query_collect_df(query, outcome).unwrap();
    assert_eq!(parquet_df_num_cols(&handle), 2);
    assert_eq!(parquet_df_num_rows(&handle), 4);
    assert_eq!(
        parquet_df_get_string_column(&handle, "name").unwrap(),
        strings(&["a", "b", "d", "e"])
    );
    let frame = handle.into_frame();
    let scores: Vec<f64> =
        frame.column("score").unwrap().f64().unwrap().into_no_null_iter().collect();
    assert_eq!(scores, vec![85.5, 92.0, 95.0, 88.5]);

    let mut both = parquet_query_new(path, true).unwrap();
    parquet_query_filter_f64(&mut both, "score", FilterOp::Gt, 80.0f64.to_bits());
    parquet_query_filter_i64(&mut both, "id", FilterOp::Ge, 2);
    parquet_query_filter_str(&mut both, "name", FilterOp::Ne, "e");
    let outcome = run(execute_query(&both));
    let reader = parquet_query_collect(both, outcome).unwrap();
    assert_eq!(parquet_reader_num_cols(&reader), 3);
    assert_eq!(parquet_reader_num_rows(&reader), 2);
    assert_eq!(parquet_reader_get_i64_column(&reader, "id").unwrap(), vec![2, 4]);
    assert_eq!(
        parquet_reader_get_string_column(&reader, "name").unwrap(),
        strings(&["b", "d"])
    );
    Ok(())
}

#[test]
fn a_failing_execution_ends_the_query_with_the_engine_failure() {
    let stored = NamedTempFile::new().unwrap();
    let path = stored.path().to_str().unwrap();
    let mut df = sample_df();
    write(ParquetWriter::new(path), &mut df, &stored).unwrap();
    let mut query = parquet_query_new(path, true).unwrap();
    parquet_query_filter_i64(&mut query, "missing", FilterOp::Eq, 1);
    let outcome = run(execute_query(&query));
    let error = parquet_query_collect(query, outcome).err().unwrap();
    assert_eq!(error.kind, ErrorKind::EngineError);
    assert!(!error.message.is_empty());
}

#[test]
fn writer_options_reach_the_file() -> Outcome<()> {
    let stored = NamedTempFile::new().map_err(|e| ParquetError::Io(e.to_string()))?;
    let path = stored.path().to_str().unwrap();
    let mut df = sample_df();
    let options = ParquetWriter::new(path)
        .with_compression(ParquetCompression::Gzip(Some(6)))
        .with_row_group_size(2)
        .with_statistics(StatisticsOptions {
            min_value: false,
            max_value: false,
            distinct_count: false,
            null_count: false,
        })
        .with_data_page_size(1024);
    write(options, &mut df, &stored)?;
    let loaded = read(ParquetReader::new(path).with_parallel(ParallelStrategy::Columns), &stored)?;
    assert_eq!(loaded.shape(), (5, 3));
    let bad = ParquetWriter::new(path).with_compression(ParquetCompression::Gzip(Some(200)));
    assert!(matches!(write(bad, &mut df, &stored), Err(ParquetError::Polars(_))));
    Ok(())
}
