//! The owning handle of a loaded table and the views into its storage.

use crate::columns::{
    bool_runs, column_infos, datetime_runs, float32_runs, float64_runs, int32_runs, int64_runs,
    is_mismatch, is_not_found, is_typed, is_typed_failure, locate_column, read_str,
    str_or_empty, type_mismatch_error, uint64_runs,
};
use crate::engine::{
    chunk_count_at, error_text, find_column, frame_columns, frame_height, height_of,
    rechunk_frame, run_lengths, width_of,
};
use crate::error::{BoundaryError, ErrorKind, ParquetError};
use crate::parquet::{open_request, ParallelStrategy, ParquetReader};
use crate::schema::{
    column_position, compacted, has_column, is_fragmented, lemma_compacted_is_whole,
    lemma_position_unique, ColumnChunk, ColumnInfo, ColumnModel, ColumnType,
};
use crate::text::texts;
use polars::prelude::DataFrame;
use vstd::prelude::*;

verus! {

/// The length of each chunk of `chunks`.
pub open spec fn chunk_lengths(chunks: Seq<ColumnChunk>) -> Seq<nat> {
    chunks.map_values(|c: ColumnChunk| c.len as nat)
}

/// Exclusive owner of one loaded table.
///
/// Every operation but [`parquet_df_rechunk`] only reads the table's storage.
/// A compaction may move the storage, so the handle counts its compactions
/// and stamps every chunk that it issues with the count: a chunk with an
/// older stamp must not be read.
pub struct ParquetDataFrame {
    df: DataFrame,
    generation: u64,
}

impl ParquetDataFrame {
    /// The table that this handle owns.
    pub closed spec fn frame(&self) -> DataFrame {
        self.df
    }

    /// How often this handle's table has been compacted.
    pub closed spec fn generation(&self) -> u64 {
        self.generation
    }

    /// The columns of the table, in schema order.
    pub open spec fn columns(&self) -> Seq<ColumnModel> {
        frame_columns(self.frame())
    }

    /// The number of rows of the table.
    pub open spec fn height(&self) -> nat {
        frame_height(self.frame())
    }

    /// Whether `chunk`, which this handle issued, may still be read: it
    /// carries this handle's count of compactions, and the count has not
    /// reached its largest value. A handle whose count can grow no further
    /// vouches for no chunk. A chunk says nothing of a handle that did not
    /// issue it.
    pub open spec fn is_current(&self, chunk: ColumnChunk) -> bool {
        chunk.generation == self.generation() && self.generation() < u64::MAX
    }

    /// `chunks` is what this handle issues for the column called `column`:
    /// one chunk per run, each of the run's length, each stamped with the
    /// handle's count of compactions.
    pub open spec fn issues(&self, chunks: Seq<ColumnChunk>, column: Seq<char>) -> bool {
        &&& chunk_lengths(chunks) == self.columns()[column_position(self.columns(), column)].chunks
        &&& forall|k: int|
            0 <= k < chunks.len() ==> (#[trigger] chunks[k]).generation == self.generation()
    }

    /// Takes ownership of a loaded table.
    pub fn new(df: DataFrame) -> (handle: ParquetDataFrame)
        ensures
            handle.frame() == df,
            handle.generation() == 0,
    {
        ParquetDataFrame { df, generation: 0 }
    }

    /// Takes ownership of what a read gave: the table, or the failure as it
    /// crosses the boundary.
    pub fn from_read(loaded: Result<DataFrame, ParquetError>) -> (out: Result<
        ParquetDataFrame,
        BoundaryError,
    >)
        ensures
            out is Ok <==> loaded is Ok,
            out matches Ok(handle) ==> loaded == Ok::<DataFrame, ParquetError>(handle.frame())
                && handle.generation() == 0,
            out matches Err(error) ==> loaded matches Err(e) && e.has_kind(error.kind)
                && e.has_message(error.message@),
    {
        match loaded {
            Ok(df) => Ok(ParquetDataFrame::new(df)),
            Err(e) => Err(e.to_boundary()),
        }
    }

    /// The table, for reading.
    pub fn as_frame(&self) -> (df: &DataFrame)
        ensures
            *df == self.frame(),
    {
        &self.df
    }

    /// Gives the table up.
    pub fn into_frame(self) -> (df: DataFrame)
        ensures
            df == self.frame(),
    {
        self.df
    }

    /// How often this handle's table has been compacted.
    pub fn current_generation(&self) -> (generation: u64)
        ensures
            generation == self.generation(),
    {
        self.generation
    }

    /// Tells whether `chunk` may still be read.
    pub fn chunk_is_valid(&self, chunk: &ColumnChunk) -> (valid: bool)
        ensures
            valid == self.is_current(*chunk),
    {
        chunk.generation == self.generation && self.generation < u64::MAX
    }

    /// Turns address and length pairs into chunks of this handle.
    pub fn stamp_chunks(&self, runs: Vec<(usize, usize)>) -> (chunks: Vec<ColumnChunk>)
        ensures
            chunks@.len() == runs@.len(),
            forall|k: int|
                0 <= k < chunks@.len() ==> #[trigger] chunks@[k] == (ColumnChunk {
                    ptr: runs@[k].0,
                    len: runs@[k].1,
                    generation: self.generation(),
                }),
            chunk_lengths(chunks@) == run_lengths(runs@),
    {
        let mut chunks: Vec<ColumnChunk> = Vec::new();
        let mut i: usize = 0;
        while i < runs.len()
            invariant
                i <= runs@.len(),
                chunks@.len() == i,
                forall|k: int|
                    0 <= k < i ==> #[trigger] chunks@[k] == (ColumnChunk {
                        ptr: runs@[k].0,
                        len: runs@[k].1,
                        generation: self.generation(),
                    }),
            decreases runs@.len() - i,
        {
            let run = runs[i];
            chunks.push(ColumnChunk { ptr: run.0, len: run.1, generation: self.generation });
            i += 1;
        }
        assert(chunk_lengths(chunks@) =~= run_lengths(runs@));
        chunks
    }
}

/// What to read in order to open the file at `path`: all of it.
pub fn parquet_open(path: &str) -> (request: ParquetReader)
    ensures
        request.path() == path@,
        request.projection() is None,
        request.row_limit() is None,
        request.parallel() == ParallelStrategy::Auto,
{
    ParquetReader::new(path)
}

/// What to read in order to open the file at `path` with the projection
/// `columns`: those columns in that order, and all columns where `columns` is
/// empty.
pub fn parquet_open_projected(path: &str, columns: Vec<String>) -> (request: ParquetReader)
    ensures
        request.path() == path@,
        request.projection() == if columns@.len() == 0 {
            None
        } else {
            Some(texts(columns@))
        },
        request.row_limit() is None,
        request.parallel() == ParallelStrategy::Auto,
{
    open_request(path, columns)
}

/// The number of rows: every column holds that many values.
pub fn parquet_df_num_rows(df: &ParquetDataFrame) -> (n: usize)
    ensures
        n == df.height(),
        forall|i: int|
            0 <= i < df.columns().len() ==> (#[trigger] df.columns()[i]).cells.len() == n,
{
    height_of(&df.df)
}

/// The number of columns.
pub fn parquet_df_num_cols(df: &ParquetDataFrame) -> (n: usize)
    ensures
        n == df.columns().len(),
{
    width_of(&df.df)
}

/// Name and element type of every column, in schema order.
pub fn parquet_df_columns(df: &ParquetDataFrame) -> (infos: Vec<ColumnInfo>)
    ensures
        infos@.len() == df.columns().len(),
        forall|i: int|
            0 <= i < infos@.len() ==> (#[trigger] infos@[i])@ == (
                df.columns()[i].name,
                df.columns()[i].dtype,
            ),
{
    column_infos(&df.df)
}

/// Tells whether some column of `df` is stored in more than one run.
fn frame_is_fragmented(df: &DataFrame) -> (found: bool)
    ensures
        found == is_fragmented(frame_columns(*df)),
{
    let width = width_of(df);
    let mut i: usize = 0;
    while i < width
        invariant
            i <= width,
            width == frame_columns(*df).len(),
            forall|k: int| 0 <= k < i ==> !((#[trigger] frame_columns(*df)[k]).chunks.len() > 1),
        decreases width - i,
    {
        if chunk_count_at(df, i) > 1 {
            return true;
        }
        i += 1;
    }
    false
}

/// How a compaction relates the handle before and after it and its result.
///
/// The result says whether some column was stored in more than one run. If
/// so, every such column is merged into one run and the count of compactions
/// goes up by one, or stays at its largest value; either makes every chunk
/// issued before stale. If not, the table is not touched. Names, element
/// types, values and the number of rows stay either way.
pub open spec fn rechunk_relation(
    before: ParquetDataFrame,
    after: ParquetDataFrame,
    result: bool,
) -> bool {
    &&& result == is_fragmented(before.columns())
    &&& after.columns() == compacted(before.columns())
    &&& after.height() == before.height()
    &&& result ==> after.generation() == if before.generation() < u64::MAX {
        (before.generation() + 1) as u64
    } else {
        u64::MAX
    }
    &&& !result ==> after.frame() == before.frame() && after.generation() == before.generation()
}

/// Compacts each column that is stored in more than one run into one run, and
/// tells whether it did so for any column.
///
/// This is the one operation that changes a table's storage. When it returns
/// true, every chunk obtained from this handle before is invalid.
pub fn parquet_df_rechunk(df: &mut ParquetDataFrame) -> (result: bool)
    ensures
        rechunk_relation(*old(df), *final(df), result),
{
    let had_multiple = frame_is_fragmented(&df.df);
    proof {
        lemma_compacted_is_whole(frame_columns(df.df));
    }
    if had_multiple {
        rechunk_frame(&mut df.df);
        if df.generation < u64::MAX {
            df.generation = df.generation + 1;
        }
    }
    had_multiple
}

/// A chunk that a handle issued before a compaction that returned true is not
/// current after it.
pub proof fn lemma_rechunk_invalidates(
    before: ParquetDataFrame,
    after: ParquetDataFrame,
    chunk: ColumnChunk,
)
    requires
        rechunk_relation(before, after, true),
        chunk.generation == before.generation(),
    ensures
        !after.is_current(chunk),
{
}

/// A compaction that returned false leaves every chunk as current as it was.
pub proof fn lemma_idle_rechunk_keeps_chunks(
    before: ParquetDataFrame,
    after: ParquetDataFrame,
    chunk: ColumnChunk,
)
    requires
        rechunk_relation(before, after, false),
    ensures
        after.is_current(chunk) == before.is_current(chunk),
        after.frame() == before.frame(),
{
}

/// Of two compactions in a row the second finds nothing to do: it returns
/// false and leaves the table and every chunk issued after the first as they
/// are.
pub proof fn lemma_rechunk_twice(
    first: ParquetDataFrame,
    second: ParquetDataFrame,
    third: ParquetDataFrame,
    r1: bool,
    r2: bool,
)
    requires
        rechunk_relation(first, second, r1),
        rechunk_relation(second, third, r2),
    ensures
        !r2,
        third.frame() == second.frame(),
        third.generation() == second.generation(),
{
    lemma_compacted_is_whole(first.columns());
}

/// The number of runs of the column called `column`.
pub fn parquet_df_num_chunks(df: &ParquetDataFrame, column: &str) -> (out: Result<
    usize,
    BoundaryError,
>)
    ensures
        out is Ok <==> has_column(df.columns(), column@),
        out matches Ok(n) ==> n == df.columns()[column_position(
            df.columns(),
            column@,
        )].chunks.len(),
        out matches Err(error) ==> error.kind == ErrorKind::ColumnNotFound,
{
    match find_column(&df.df, column) {
        Ok(index) => {
            proof {
                lemma_position_unique(frame_columns(df.df), column@, index as int);
            }
            Ok(chunk_count_at(&df.df, index))
        },
        Err(e) => Err(BoundaryError { kind: ErrorKind::ColumnNotFound, message: error_text(&e) }),
    }
}

/// The chunks of the 64-bit integer column called `column`, without copying.
///
/// A request for a column of another element type fails with a type
/// mismatch and hands out nothing.
pub fn parquet_df_get_i64_chunks(df: &ParquetDataFrame, column: &str) -> (out: Result<
    Vec<ColumnChunk>,
    BoundaryError,
>)
    ensures
        out is Ok <==> is_typed(df.columns(), column@, ColumnType::Int64),
        out matches Ok(chunks) ==> df.issues(chunks@, column@),
        out matches Err(error) ==> is_typed_failure(
            df.columns(),
            column@,
            ColumnType::Int64,
            "type mismatch"@,
            error,
        ),
{
    match int64_runs(&df.df, column, "type mismatch") {
        Ok(runs) => Ok(df.stamp_chunks(runs)),
        Err(error) => Err(error),
    }
}

/// The chunks of the 32-bit integer column called `column`, without copying.
///
/// A request for a column of another element type fails with a type
/// mismatch and hands out nothing.
pub fn parquet_df_get_i32_chunks(df: &ParquetDataFrame, column: &str) -> (out: Result<
    Vec<ColumnChunk>,
    BoundaryError,
>)
    ensures
        out is Ok <==> is_typed(df.columns(), column@, ColumnType::Int32),
        out matches Ok(chunks) ==> df.issues(chunks@, column@),
        out matches Err(error) ==> is_typed_failure(
            df.columns(),
            column@,
            ColumnType::Int32,
            "type mismatch"@,
            error,
        ),
{
    match int32_runs(&df.df, column, "type mismatch") {
        Ok(runs) => Ok(df.stamp_chunks(runs)),
        Err(error) => Err(error),
    }
}

/// The chunks of the unsigned 64-bit integer column called `column`, without
/// copying.
///
/// A request for a column of another element type fails with a type
/// mismatch and hands out nothing.
pub fn parquet_df_get_u64_chunks(df: &ParquetDataFrame, column: &str) -> (out: Result<
    Vec<ColumnChunk>,
    BoundaryError,
>)
    ensures
        out is Ok <==> is_typed(df.columns(), column@, ColumnType::UInt64),
        out matches Ok(chunks) ==> df.issues(chunks@, column@),
        out matches Err(error) ==> is_typed_failure(
            df.columns(),
            column@,
            ColumnType::UInt64,
            "type mismatch"@,
            error,
        ),
{
    match uint64_runs(&df.df, column, "type mismatch") {
        Ok(runs) => Ok(df.stamp_chunks(runs)),
        Err(error) => Err(error),
    }
}

/// The chunks of the double-precision column called `column`, without copying.
///
/// A request for a column of another element type fails with a type
/// mismatch and hands out nothing.
pub fn parquet_df_get_f64_chunks(df: &ParquetDataFrame, column: &str) -> (out: Result<
    Vec<ColumnChunk>,
    BoundaryError,
>)
    ensures
        out is Ok <==> is_typed(df.columns(), column@, ColumnType::Float64),
        out matches Ok(chunks) ==> df.issues(chunks@, column@),
        out matches Err(error) ==> is_typed_failure(
            df.columns(),
            column@,
            ColumnType::Float64,
            "type mismatch"@,
            error,
        ),
{
    match float64_runs(&df.df, column, "type mismatch") {
        Ok(runs) => Ok(df.stamp_chunks(runs)),
        Err(error) => Err(error),
    }
}

/// The chunks of the single-precision column called `column`, without copying.
///
/// A request for a column of another element type fails with a type
/// mismatch and hands out nothing.
pub fn parquet_df_get_f32_chunks(df: &ParquetDataFrame, column: &str) -> (out: Result<
    Vec<ColumnChunk>,
    BoundaryError,
>)
    ensures
        out is Ok <==> is_typed(df.columns(), column@, ColumnType::Float32),
        out matches Ok(chunks) ==> df.issues(chunks@, column@),
        out matches Err(error) ==> is_typed_failure(
            df.columns(),
            column@,
            ColumnType::Float32,
            "type mismatch"@,
            error,
        ),
{
    match float32_runs(&df.df, column, "type mismatch") {
        Ok(runs) => Ok(df.stamp_chunks(runs)),
        Err(error) => Err(error),
    }
}

/// The chunks of the boolean column called `column`, without copying.
/// Each address is that of bit-packed values, eight elements to a byte, and
/// each length counts elements.
///
/// A request for a column of another element type fails with a type
/// mismatch and hands out nothing.
pub fn parquet_df_get_bool_chunks(df: &ParquetDataFrame, column: &str) -> (out: Result<
    Vec<ColumnChunk>,
    BoundaryError,
>)
    ensures
        out is Ok <==> is_typed(df.columns(), column@, ColumnType::Bool),
        out matches Ok(chunks) ==> df.issues(chunks@, column@),
        out matches Err(error) ==> is_typed_failure(
            df.columns(),
            column@,
            ColumnType::Bool,
            "is not Boolean"@,
            error,
        ),
{
    match bool_runs(&df.df, column, "is not Boolean") {
        Ok(runs) => Ok(df.stamp_chunks(runs)),
        Err(error) => Err(error),
    }
}

/// The chunks of the datetime column called `column`, without copying.
/// The elements are 64-bit integers.
///
/// A request for a column of another element type fails with a type
/// mismatch and hands out nothing.
pub fn parquet_df_get_datetime_chunks(df: &ParquetDataFrame, column: &str) -> (out: Result<
    Vec<ColumnChunk>,
    BoundaryError,
>)
    ensures
        out is Ok <==> is_typed(df.columns(), column@, ColumnType::DateTime),
        out matches Ok(chunks) ==> df.issues(chunks@, column@),
        out matches Err(error) ==> is_typed_failure(
            df.columns(),
            column@,
            ColumnType::DateTime,
            "is not Datetime"@,
            error,
        ),
{
    match datetime_runs(&df.df, column, "is not Datetime") {
        Ok(runs) => Ok(df.stamp_chunks(runs)),
        Err(error) => Err(error),
    }
}

/// Whether columns of the element type `dtype` are handed out as chunks:
/// those of the seven fixed-width element types are, strings and columns
/// without a tag are not.
pub open spec fn has_chunk_view(dtype: ColumnType) -> bool {
    dtype != ColumnType::String && dtype != ColumnType::Unknown
}

/// How a failing request for chunks of the element type `dtype` is worded.
pub open spec fn chunk_label(dtype: ColumnType) -> Seq<char> {
    match dtype {
        ColumnType::Bool => "is not Boolean"@,
        ColumnType::DateTime => "is not Datetime"@,
        _ => "type mismatch"@,
    }
}

/// `error` is the failure that a request for the chunks of `column` as
/// `dtype` is owed: a lookup miss when no column has that name, else a type
/// mismatch.
pub open spec fn is_chunk_failure(
    columns: Seq<ColumnModel>,
    column: Seq<char>,
    dtype: ColumnType,
    error: BoundaryError,
) -> bool {
    if has_column(columns, column) {
        (!has_chunk_view(dtype) || columns[column_position(columns, column)].dtype != dtype)
            && is_mismatch(error, column, chunk_label(dtype))
    } else {
        is_not_found(error, column)
    }
}

/// The chunks of the column called `column`, which is to have the element
/// type `dtype`, without copying.
///
/// The requested element type is held against the column's own: a request
/// for another type than the column has fails with a type mismatch, and so
/// does every request for strings or for a type without a tag, which are
/// never handed out as chunks. Nothing is converted.
pub fn parquet_df_get_chunks(df: &ParquetDataFrame, column: &str, dtype: ColumnType) -> (out:
    Result<Vec<ColumnChunk>, BoundaryError>)
    ensures
        out is Ok <==> has_chunk_view(dtype) && is_typed(df.columns(), column@, dtype),
        out matches Ok(chunks) ==> df.issues(chunks@, column@),
        out matches Err(error) ==> is_chunk_failure(df.columns(), column@, dtype, error),
{
    match dtype {
        ColumnType::Int64 => parquet_df_get_i64_chunks(df, column),
        ColumnType::Int32 => parquet_df_get_i32_chunks(df, column),
        ColumnType::UInt64 => parquet_df_get_u64_chunks(df, column),
        ColumnType::Float64 => parquet_df_get_f64_chunks(df, column),
        ColumnType::Float32 => parquet_df_get_f32_chunks(df, column),
        ColumnType::Bool => parquet_df_get_bool_chunks(df, column),
        ColumnType::DateTime => parquet_df_get_datetime_chunks(df, column),
        ColumnType::String | ColumnType::Unknown => {
            match locate_column(&df.df, column) {
                Ok(_) => Err(
                    type_mismatch_error(column, "type mismatch", "no chunk view of this type"),
                ),
                Err(error) => Err(error),
            }
        },
    }
}

/// A copy of the values of the string column called `column`, the empty
/// string for an absent value. Strings are never handed out as chunks.
pub fn parquet_df_get_string_column(df: &ParquetDataFrame, column: &str) -> (out: Result<
    Vec<String>,
    BoundaryError,
>)
    ensures
        out is Ok <==> is_typed(df.columns(), column@, ColumnType::String),
        out matches Ok(values) ==> texts(values@) == str_or_empty(
            df.columns()[column_position(df.columns(), column@)].cells,
        ),
        out matches Err(error) ==> is_typed_failure(
            df.columns(),
            column@,
            ColumnType::String,
            "is not String"@,
            error,
        ),
{
    read_str(&df.df, column, "is not String")
}
} // verus!
