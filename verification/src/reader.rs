//! A loaded table whose columns are handed out as copies.

use crate::columns::{
    bool_or_false, column_infos, float32_or_zero, float64_or_zero, int32_or_zero,
    int64_or_zero, is_typed, is_typed_failure, read_bool, read_float32, read_float64,
    read_int32, read_int64, read_str, str_or_empty,
};
use crate::engine::{frame_columns, frame_height, height_of, width_of};
use crate::error::{BoundaryError, ParquetError};
use crate::parquet::{open_request, ParallelStrategy, ParquetReader as ReadOptions};
use crate::schema::{column_position, ColumnInfo, ColumnModel, ColumnType};
use crate::text::texts;
use polars::prelude::DataFrame;
use vstd::prelude::*;

verus! {

/// Owner of one loaded table. Every column is read by copying its values,
/// with a default in place of an absent value: 0, false or the empty string.
pub struct ParquetReader {
    df: DataFrame,
}

impl ParquetReader {
    /// The table that this reader owns.
    pub closed spec fn frame(&self) -> DataFrame {
        self.df
    }

    /// The columns of the table, in schema order.
    pub open spec fn columns(&self) -> Seq<ColumnModel> {
        frame_columns(self.frame())
    }

    /// The number of rows of the table.
    pub open spec fn height(&self) -> nat {
        frame_height(self.frame())
    }

    /// Takes ownership of a loaded table.
    pub fn new(df: DataFrame) -> (reader: ParquetReader)
        ensures
            reader.frame() == df,
    {
        ParquetReader { df }
    }

    /// Takes ownership of what a read gave: the table, or the failure as it
    /// crosses the boundary.
    pub fn from_read(loaded: Result<DataFrame, ParquetError>) -> (out: Result<
        ParquetReader,
        BoundaryError,
    >)
        ensures
            out is Ok <==> loaded is Ok,
            out matches Ok(reader) ==> loaded == Ok::<DataFrame, ParquetError>(reader.frame()),
            out matches Err(error) ==> loaded matches Err(e) && e.has_kind(error.kind)
                && e.has_message(error.message@),
    {
        match loaded {
            Ok(df) => Ok(ParquetReader::new(df)),
            Err(e) => Err(e.to_boundary()),
        }
    }

    /// The table, for reading.
    pub fn as_frame(&self) -> (df: &DataFrame)
        ensures
            *df == self.frame(),
    {
        &self.df
    }
}

/// What to read in order to open the file at `path`: all of it.
pub fn parquet_reader_open(path: &str) -> (request: ReadOptions)
    ensures
        request.path() == path@,
        request.projection() is None,
        request.row_limit() is None,
        request.parallel() == ParallelStrategy::Auto,
{
    ReadOptions::new(path)
}

/// What to read in order to open the file at `path` with the projection
/// `columns`: those columns in that order, and all columns where `columns` is
/// empty.
pub fn parquet_reader_open_projected(path: &str, columns: Vec<String>) -> (request: ReadOptions)
    ensures
        request.path() == path@,
        request.projection() == if columns@.len() == 0 {
            None
        } else {
            Some(texts(columns@))
        },
        request.row_limit() is None,
        request.parallel() == ParallelStrategy::Auto,
{
    open_request(path, columns)
}

/// The number of rows: every column holds that many values.
pub fn parquet_reader_num_rows(reader: &ParquetReader) -> (n: usize)
    ensures
        n == reader.height(),
        forall|i: int|
            0 <= i < reader.columns().len() ==> (#[trigger] reader.columns()[i]).cells.len() == n,
{
    height_of(&reader.df)
}

/// The number of columns.
pub fn parquet_reader_num_cols(reader: &ParquetReader) -> (n: usize)
    ensures
        n == reader.columns().len(),
{
    width_of(&reader.df)
}

/// Name and element type of every column, in schema order.
pub fn parquet_reader_columns(reader: &ParquetReader) -> (infos: Vec<ColumnInfo>)
    ensures
        infos@.len() == reader.columns().len(),
        forall|i: int|
            0 <= i < infos@.len() ==> (#[trigger] infos@[i])@ == (
                reader.columns()[i].name,
                reader.columns()[i].dtype,
            ),
{
    column_infos(&reader.df)
}

/// A copy of the 64-bit integer column called `name`, 0 for an absent value.
pub fn parquet_reader_get_i64_column(reader: &ParquetReader, name: &str) -> (out: Result<
    Vec<i64>,
    BoundaryError,
>)
    ensures
        out is Ok <==> is_typed(reader.columns(), name@, ColumnType::Int64),
        out matches Ok(values) ==> values@ == int64_or_zero(
            reader.columns()[column_position(reader.columns(), name@)].cells,
        ),
        out matches Err(error) ==> is_typed_failure(
            reader.columns(),
            name@,
            ColumnType::Int64,
            "is not Int64"@,
            error,
        ),
{
    read_int64(&reader.df, name, "is not Int64")
}

/// A copy of the 32-bit integer column called `name`, 0 for an absent value.
pub fn parquet_reader_get_i32_column(reader: &ParquetReader, name: &str) -> (out: Result<
    Vec<i32>,
    BoundaryError,
>)
    ensures
        out is Ok <==> is_typed(reader.columns(), name@, ColumnType::Int32),
        out matches Ok(values) ==> values@ == int32_or_zero(
            reader.columns()[column_position(reader.columns(), name@)].cells,
        ),
        out matches Err(error) ==> is_typed_failure(
            reader.columns(),
            name@,
            ColumnType::Int32,
            "is not Int32"@,
            error,
        ),
{
    read_int32(&reader.df, name, "is not Int32")
}

/// A copy of the double-precision column called `name`, each value as its IEEE 754
/// bit pattern, that of zero for an absent value.
pub fn parquet_reader_get_f64_column(reader: &ParquetReader, name: &str) -> (out: Result<
    Vec<u64>,
    BoundaryError,
>)
    ensures
        out is Ok <==> is_typed(reader.columns(), name@, ColumnType::Float64),
        out matches Ok(values) ==> values@ == float64_or_zero(
            reader.columns()[column_position(reader.columns(), name@)].cells,
        ),
        out matches Err(error) ==> is_typed_failure(
            reader.columns(),
            name@,
            ColumnType::Float64,
            "is not Float64"@,
            error,
        ),
{
    read_float64(&reader.df, name, "is not Float64")
}

/// A copy of the single-precision column called `name`, each value as its IEEE 754
/// bit pattern, that of zero for an absent value.
pub fn parquet_reader_get_f32_column(reader: &ParquetReader, name: &str) -> (out: Result<
    Vec<u32>,
    BoundaryError,
>)
    ensures
        out is Ok <==> is_typed(reader.columns(), name@, ColumnType::Float32),
        out matches Ok(values) ==> values@ == float32_or_zero(
            reader.columns()[column_position(reader.columns(), name@)].cells,
        ),
        out matches Err(error) ==> is_typed_failure(
            reader.columns(),
            name@,
            ColumnType::Float32,
            "is not Float32"@,
            error,
        ),
{
    read_float32(&reader.df, name, "is not Float32")
}

/// A copy of the string column called `name`, the empty string for an absent
/// value.
pub fn parquet_reader_get_string_column(reader: &ParquetReader, name: &str) -> (out: Result<
    Vec<String>,
    BoundaryError,
>)
    ensures
        out is Ok <==> is_typed(reader.columns(), name@, ColumnType::String),
        out matches Ok(values) ==> texts(values@) == str_or_empty(
            reader.columns()[column_position(reader.columns(), name@)].cells,
        ),
        out matches Err(error) ==> is_typed_failure(
            reader.columns(),
            name@,
            ColumnType::String,
            "is not String"@,
            error,
        ),
{
    read_str(&reader.df, name, "is not String")
}

/// A copy of the boolean column called `name`, false for an absent value.
pub fn parquet_reader_get_bool_column(reader: &ParquetReader, name: &str) -> (out: Result<
    Vec<bool>,
    BoundaryError,
>)
    ensures
        out is Ok <==> is_typed(reader.columns(), name@, ColumnType::Bool),
        out matches Ok(values) ==> values@ == bool_or_false(
            reader.columns()[column_position(reader.columns(), name@)].cells,
        ),
        out matches Err(error) ==> is_typed_failure(
            reader.columns(),
            name@,
            ColumnType::Bool,
            "is not Boolean"@,
            error,
        ),
{
    read_bool(&reader.df, name, "is not Boolean")
}

} // verus!
