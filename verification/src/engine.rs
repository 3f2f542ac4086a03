//! The tabular engine, as far as this crate calls it.
//!
//! Nothing in this file is proved. Each function states what the engine's
//! source shows of the call that its body makes, over the model of a table in
//! [`crate::schema`].
//!
//! The engine can be told through its environment to panic where it would
//! return an error. What is stated here is the engine without that setting.

use crate::error::EngineFault;
use crate::schema::{
    bool_model, cell_bool, cell_float32, cell_float64, cell_int32, cell_int64, cell_str,
    column_fits, column_settles,
    compacted, frame_accepts, has_column, int32_model, int64_model, is_head_of, is_position,
    is_repeat_upsert, str_model, table_height, upsert, Cell, ColumnModel, ColumnType,
};
use crate::text::{option_texts, texts};
use polars::prelude::{
    Column, DataFrame, DataType, Float32Type, Float64Type, NamedFrom, PolarsError, Series,
};
use vstd::prelude::*;

verus! {

/// The engine's table: named columns of equal length.
#[verifier::external_type_specification]
#[verifier::external_body]
pub struct ExDataFrame(DataFrame);

/// One named column of the engine.
#[verifier::external_type_specification]
#[verifier::external_body]
pub struct ExColumn(Column);

/// The engine's error value.
#[verifier::external_type_specification]
#[verifier::external_body]
pub struct ExPolarsError(PolarsError);

/// The columns that a table holds, in schema order.
pub uninterp spec fn frame_columns(df: DataFrame) -> Seq<ColumnModel>;

/// The number of rows of a table.
pub uninterp spec fn frame_height(df: DataFrame) -> nat;

/// What a column holds: its name, element type, runs and values.
pub uninterp spec fn column_model(column: Column) -> ColumnModel;

/// The models of `columns`, in order.
pub open spec fn column_models(columns: Seq<Column>) -> Seq<ColumnModel> {
    columns.map_values(|c: Column| column_model(c))
}

/// The length of each run of `runs`, which pairs an address with a length.
pub open spec fn run_lengths(runs: Seq<(usize, usize)>) -> Seq<nat> {
    runs.map_values(|r: (usize, usize)| r.1 as nat)
}

/// `DataFrame::empty`: a table without columns and without rows.
#[verifier::external_body]
pub(crate) fn empty_frame() -> (df: DataFrame)
    ensures
        frame_columns(df) == Seq::<ColumnModel>::empty(),
        frame_height(df) == 0,
{
    DataFrame::empty()
}

/// `DataFrame::height`: the number of rows, which is the length of every
/// column.
#[verifier::external_body]
pub(crate) fn height_of(df: &DataFrame) -> (n: usize)
    ensures
        n == frame_height(*df),
        forall|i: int|
            0 <= i < frame_columns(*df).len() ==> (#[trigger] frame_columns(*df)[i]).cells.len()
                == n,
{
    df.height()
}

/// `DataFrame::width`: the number of columns.
#[verifier::external_body]
pub(crate) fn width_of(df: &DataFrame) -> (n: usize)
    ensures
        n == frame_columns(*df).len(),
{
    df.width()
}

/// `Column::name` of the column at `index` of `DataFrame::get_columns`.
#[verifier::external_body]
pub(crate) fn column_name_at(df: &DataFrame, index: usize) -> (name: String)
    requires
        index < frame_columns(*df).len(),
    ensures
        name@ == frame_columns(*df)[index as int].name,
{
    df.get_columns()[index].name().to_string()
}

/// `Column::dtype` of the column at `index`, as a tag. The engine's eight
/// element types that have a tag map to it; every other one maps to
/// `Unknown`. This is what the `dtype` of a column's model stands for.
#[verifier::external_body]
pub(crate) fn column_type_at(df: &DataFrame, index: usize) -> (tag: ColumnType)
    requires
        index < frame_columns(*df).len(),
    ensures
        tag == frame_columns(*df)[index as int].dtype,
{
    match df.get_columns()[index].dtype() {
        DataType::Int64 => ColumnType::Int64,
        DataType::Int32 => ColumnType::Int32,
        DataType::UInt64 => ColumnType::UInt64,
        DataType::Float64 => ColumnType::Float64,
        DataType::Float32 => ColumnType::Float32,
        DataType::String => ColumnType::String,
        DataType::Boolean => ColumnType::Bool,
        DataType::Datetime(_, _) => ColumnType::DateTime,
        _ => ColumnType::Unknown,
    }
}

/// `Column::n_chunks` of the column at `index`: the number of runs.
#[verifier::external_body]
pub(crate) fn chunk_count_at(df: &DataFrame, index: usize) -> (n: usize)
    requires
        index < frame_columns(*df).len(),
    ensures
        n == frame_columns(*df)[index as int].chunks.len(),
{
    df.get_columns()[index].n_chunks()
}

/// `DataFrame::try_get_column_index`, the lookup that `DataFrame::column`
/// makes: the position of the first column called `name`, or the engine's
/// error when no column has that name.
#[verifier::external_body]
pub(crate) fn find_column(df: &DataFrame, name: &str) -> (out: Result<usize, PolarsError>)
    ensures
        out is Ok <==> has_column(frame_columns(*df), name@),
        out matches Ok(i) ==> is_position(frame_columns(*df), name@, i as int),
{
    df.try_get_column_index(name)
}

/// `DataFrame::rechunk_mut`: every column of more than one run is merged into
/// one run. Names, element types, values and the number of rows stay.
#[verifier::external_body]
pub(crate) fn rechunk_frame(df: &mut DataFrame)
    ensures
        frame_columns(*final(df)) == compacted(frame_columns(*old(df))),
        frame_height(*final(df)) == frame_height(*old(df)),
{
    df.rechunk_mut()
}

/// `Column::i64` and `ChunkedArray::iter` on the column at `index`: its
/// values, an absent one as `None`. The engine's error comes exactly when the
/// column's element type is not the 64-bit integer.
#[verifier::external_body]
pub(crate) fn int64_values_at(df: &DataFrame, index: usize) -> (out: Result<
    Vec<Option<i64>>,
    PolarsError,
>)
    requires
        index < frame_columns(*df).len(),
    ensures
        out is Ok <==> frame_columns(*df)[index as int].dtype == ColumnType::Int64,
        out matches Ok(v) ==> v@ == frame_columns(*df)[index as int].cells.map_values(
            |c: Cell| cell_int64(c),
        ),
{
    Ok(df.get_columns()[index].i64()?.iter().collect())
}

/// `Column::i32` and `ChunkedArray::iter` on the column at `index`: its
/// values, an absent one as `None`. The engine's error comes exactly when the
/// column's element type is not the 32-bit integer.
#[verifier::external_body]
pub(crate) fn int32_values_at(df: &DataFrame, index: usize) -> (out: Result<
    Vec<Option<i32>>,
    PolarsError,
>)
    requires
        index < frame_columns(*df).len(),
    ensures
        out is Ok <==> frame_columns(*df)[index as int].dtype == ColumnType::Int32,
        out matches Ok(v) ==> v@ == frame_columns(*df)[index as int].cells.map_values(
            |c: Cell| cell_int32(c),
        ),
{
    Ok(df.get_columns()[index].i32()?.iter().collect())
}

/// `Column::bool` and `ChunkedArray::iter` on the column at `index`: its
/// values, an absent one as `None`. The engine's error comes exactly when the
/// column's element type is not the boolean.
#[verifier::external_body]
pub(crate) fn bool_values_at(df: &DataFrame, index: usize) -> (out: Result<
    Vec<Option<bool>>,
    PolarsError,
>)
    requires
        index < frame_columns(*df).len(),
    ensures
        out is Ok <==> frame_columns(*df)[index as int].dtype == ColumnType::Bool,
        out matches Ok(v) ==> v@ == frame_columns(*df)[index as int].cells.map_values(
            |c: Cell| cell_bool(c),
        ),
{
    Ok(df.get_columns()[index].bool()?.iter().collect())
}

/// `Column::str` and `ChunkedArray::iter` on the column at `index`: a copy of
/// each value, an absent one as `None`. The engine's error comes exactly when
/// the column's element type is not the string.
#[verifier::external_body]
pub(crate) fn str_values_at(df: &DataFrame, index: usize) -> (out: Result<
    Vec<Option<String>>,
    PolarsError,
>)
    requires
        index < frame_columns(*df).len(),
    ensures
        out is Ok <==> frame_columns(*df)[index as int].dtype == ColumnType::String,
        out matches Ok(v) ==> option_texts(v@) == frame_columns(
            *df,
        )[index as int].cells.map_values(|c: Cell| cell_str(c)),
{
    Ok(df.get_columns()[index].str()?.iter().map(|v| v.map(str::to_string)).collect())
}

/// `SeriesTrait::unpack` with `Float64Type` and `ChunkedArray::iter` on the column
/// at `index`: the bit pattern of each value, an absent one as `None`. The
/// engine's error comes exactly when the column's element type is not
/// the double-precision number.
#[verifier::external_body]
pub(crate) fn float64_bits_at(df: &DataFrame, index: usize) -> (out: Result<
    Vec<Option<u64>>,
    PolarsError,
>)
    requires
        index < frame_columns(*df).len(),
    ensures
        out is Ok <==> frame_columns(*df)[index as int].dtype == ColumnType::Float64,
        out matches Ok(v) ==> v@ == frame_columns(*df)[index as int].cells.map_values(
            |c: Cell| cell_float64(c),
        ),
{
    let values = df.get_columns()[index].as_materialized_series().unpack::<Float64Type>()?;
    Ok(values.iter().map(|v| v.map(|x| x.to_bits())).collect())
}

/// `SeriesTrait::unpack` with `Float32Type` and `ChunkedArray::iter` on the column
/// at `index`: the bit pattern of each value, an absent one as `None`. The
/// engine's error comes exactly when the column's element type is not
/// the single-precision number.
#[verifier::external_body]
pub(crate) fn float32_bits_at(df: &DataFrame, index: usize) -> (out: Result<
    Vec<Option<u32>>,
    PolarsError,
>)
    requires
        index < frame_columns(*df).len(),
    ensures
        out is Ok <==> frame_columns(*df)[index as int].dtype == ColumnType::Float32,
        out matches Ok(v) ==> v@ == frame_columns(*df)[index as int].cells.map_values(
            |c: Cell| cell_float32(c),
        ),
{
    let values = df.get_columns()[index].as_materialized_series().unpack::<Float32Type>()?;
    Ok(values.iter().map(|v| v.map(|x| x.to_bits())).collect())
}

/// `Column::i64` and `ChunkedArray::downcast_iter` on the column at
/// `index`: for each run the address of its values and their number. The
/// engine's error comes exactly when the column's element type is not
/// the 64-bit integer. No address is promised: it is whatever the allocator gave.
#[verifier::external_body]
pub(crate) fn int64_chunks_at(df: &DataFrame, index: usize) -> (out: Result<
    Vec<(usize, usize)>,
    PolarsError,
>)
    requires
        index < frame_columns(*df).len(),
    ensures
        out is Ok <==> frame_columns(*df)[index as int].dtype == ColumnType::Int64,
        out matches Ok(v) ==> run_lengths(v@) == frame_columns(*df)[index as int].chunks,
{
    let runs = df.get_columns()[index].i64()?.downcast_iter();
    Ok(runs.map(|a| (a.values().as_ptr() as usize, a.values().len())).collect())
}

/// `Column::i32` and `ChunkedArray::downcast_iter` on the column at
/// `index`: for each run the address of its values and their number. The
/// engine's error comes exactly when the column's element type is not
/// the 32-bit integer. No address is promised: it is whatever the allocator gave.
#[verifier::external_body]
pub(crate) fn int32_chunks_at(df: &DataFrame, index: usize) -> (out: Result<
    Vec<(usize, usize)>,
    PolarsError,
>)
    requires
        index < frame_columns(*df).len(),
    ensures
        out is Ok <==> frame_columns(*df)[index as int].dtype == ColumnType::Int32,
        out matches Ok(v) ==> run_lengths(v@) == frame_columns(*df)[index as int].chunks,
{
    let runs = df.get_columns()[index].i32()?.downcast_iter();
    Ok(runs.map(|a| (a.values().as_ptr() as usize, a.values().len())).collect())
}

/// `Column::u64` and `ChunkedArray::downcast_iter` on the column at
/// `index`: for each run the address of its values and their number. The
/// engine's error comes exactly when the column's element type is not
/// the unsigned 64-bit integer. No address is promised: it is whatever the allocator gave.
#[verifier::external_body]
pub(crate) fn uint64_chunks_at(df: &DataFrame, index: usize) -> (out: Result<
    Vec<(usize, usize)>,
    PolarsError,
>)
    requires
        index < frame_columns(*df).len(),
    ensures
        out is Ok <==> frame_columns(*df)[index as int].dtype == ColumnType::UInt64,
        out matches Ok(v) ==> run_lengths(v@) == frame_columns(*df)[index as int].chunks,
{
    let runs = df.get_columns()[index].u64()?.downcast_iter();
    Ok(runs.map(|a| (a.values().as_ptr() as usize, a.values().len())).collect())
}

/// `SeriesTrait::unpack` with `Float64Type` and `ChunkedArray::downcast_iter` on
/// the column at `index`: for each run the address of its values and their
/// number. The engine's error comes exactly when the column's element type
/// is not the double-precision number. No address is promised: it is whatever the allocator gave.
/// No value is read.
#[verifier::external_body]
pub(crate) fn float64_chunks_at(df: &DataFrame, index: usize) -> (out: Result<
    Vec<(usize, usize)>,
    PolarsError,
>)
    requires
        index < frame_columns(*df).len(),
    ensures
        out is Ok <==> frame_columns(*df)[index as int].dtype == ColumnType::Float64,
        out matches Ok(v) ==> run_lengths(v@) == frame_columns(*df)[index as int].chunks,
{
    let values = df.get_columns()[index].as_materialized_series().unpack::<Float64Type>()?;
    Ok(values.downcast_iter().map(|a| (a.values().as_ptr() as usize, a.values().len())).collect())
}

/// `SeriesTrait::unpack` with `Float32Type` and `ChunkedArray::downcast_iter` on
/// the column at `index`: for each run the address of its values and their
/// number. The engine's error comes exactly when the column's element type
/// is not the single-precision number. No address is promised: it is whatever the allocator gave.
/// No value is read.
#[verifier::external_body]
pub(crate) fn float32_chunks_at(df: &DataFrame, index: usize) -> (out: Result<
    Vec<(usize, usize)>,
    PolarsError,
>)
    requires
        index < frame_columns(*df).len(),
    ensures
        out is Ok <==> frame_columns(*df)[index as int].dtype == ColumnType::Float32,
        out matches Ok(v) ==> run_lengths(v@) == frame_columns(*df)[index as int].chunks,
{
    let values = df.get_columns()[index].as_materialized_series().unpack::<Float32Type>()?;
    Ok(values.downcast_iter().map(|a| (a.values().as_ptr() as usize, a.values().len())).collect())
}

/// `Column::datetime` and `ChunkedArray::downcast_iter` on the column at
/// `index`: for each run the address of its 64-bit values and their number. The
/// engine's error comes exactly when the column's element type is not
/// the datetime. No address is promised: it is whatever the allocator gave.
#[verifier::external_body]
pub(crate) fn datetime_chunks_at(df: &DataFrame, index: usize) -> (out: Result<
    Vec<(usize, usize)>,
    PolarsError,
>)
    requires
        index < frame_columns(*df).len(),
    ensures
        out is Ok <==> frame_columns(*df)[index as int].dtype == ColumnType::DateTime,
        out matches Ok(v) ==> run_lengths(v@) == frame_columns(*df)[index as int].chunks,
{
    let runs = df.get_columns()[index].datetime()?.downcast_iter();
    Ok(runs.map(|a| (a.values().as_ptr() as usize, a.values().len())).collect())
}

/// `Column::bool` and `ChunkedArray::downcast_iter` on the column at
/// `index`: for each run the address of its bit-packed values and the number
/// of its elements. The engine's error comes exactly when the column's
/// element type is not the boolean. No address is promised: it is whatever
/// the allocator gave.
#[verifier::external_body]
pub(crate) fn bool_chunks_at(df: &DataFrame, index: usize) -> (out: Result<
    Vec<(usize, usize)>,
    PolarsError,
>)
    requires
        index < frame_columns(*df).len(),
    ensures
        out is Ok <==> frame_columns(*df)[index as int].dtype == ColumnType::Bool,
        out matches Ok(v) ==> run_lengths(v@) == frame_columns(*df)[index as int].chunks,
{
    let runs = df.get_columns()[index].bool()?.downcast_iter();
    Ok(runs.map(|a| (a.values().as_slice().0.as_ptr() as usize, a.len())).collect())
}

/// `Column::name`.
#[verifier::external_body]
pub(crate) fn name_of_column(column: &Column) -> (name: String)
    ensures
        name@ == column_model(*column).name,
{
    column.name().to_string()
}

/// `Series::new` on a slice of 64-bit integers: one run, no absent value.
#[verifier::external_body]
pub(crate) fn int64_column(name: &str, data: &[i64]) -> (column: Column)
    ensures
        column_model(column) == int64_model(name@, data@),
{
    Series::new(name.into(), data).into()
}

/// `Series::new` on a slice of 32-bit integers: one run, no absent value.
#[verifier::external_body]
pub(crate) fn int32_column(name: &str, data: &[i32]) -> (column: Column)
    ensures
        column_model(column) == int32_model(name@, data@),
{
    Series::new(name.into(), data).into()
}

/// `Series::new` on a slice of booleans: one run, no absent value.
#[verifier::external_body]
pub(crate) fn bool_column(name: &str, data: &[bool]) -> (column: Column)
    ensures
        column_model(column) == bool_model(name@, data@),
{
    Series::new(name.into(), data).into()
}

/// `Series::new` on a slice of strings: one run, no absent value.
#[verifier::external_body]
pub(crate) fn str_column(name: &str, data: &[String]) -> (column: Column)
    ensures
        column_model(column) == str_model(name@, texts(data@)),
{
    Series::new(name.into(), data).into()
}

/// `DataFrame::new`: the table of `columns`, in their order. The engine's
/// error comes exactly when two columns share a name or a column's length
/// differs from the first one's.
#[verifier::external_body]
pub(crate) fn frame_from_columns(columns: Vec<Column>) -> (out: Result<DataFrame, PolarsError>)
    ensures
        out is Ok <==> frame_accepts(column_models(columns@)),
        out matches Ok(df) ==> frame_columns(df) == column_models(columns@),
        out matches Ok(df) ==> frame_height(df) == table_height(column_models(columns@)),
{
    DataFrame::new(columns)
}

/// `DataFrame::with_column`: adds `column`, or puts it in place of the column
/// of its name. The engine takes a column when the table has no columns yet,
/// when the column is as long as the table is high, or when it has one row.
/// Otherwise the engine's error comes and the table stays as it was. A column
/// of one row for a table of another height is stored with its row repeated
/// to the table's height, which stays; any other column is stored as it is,
/// and the table is then as high as the column is long.
#[verifier::external_body]
pub(crate) fn with_column(df: &mut DataFrame, column: Column) -> (out: Result<(), PolarsError>)
    ensures
        out is Ok <==> column_fits(
            frame_columns(*old(df)),
            frame_height(*old(df)),
            column_model(column),
        ),
        out is Err ==> *final(df) == *old(df),
        out is Ok && !column_settles(
            frame_columns(*old(df)),
            frame_height(*old(df)),
            column_model(column),
        ) ==> is_repeat_upsert(
            frame_columns(*final(df)),
            frame_columns(*old(df)),
            column_model(column),
            frame_height(*old(df)),
        ) && frame_height(*final(df)) == frame_height(*old(df)),
        out is Ok && column_settles(
            frame_columns(*old(df)),
            frame_height(*old(df)),
            column_model(column),
        ) ==> frame_columns(*final(df)) == upsert(frame_columns(*old(df)), column_model(column))
            && frame_height(*final(df)) == column_model(column).cells.len(),
{
    df.with_column(column).map(|_| ())
}

/// `DataFrame::head` with a length: the first `n` rows of every column, or
/// all rows where there are fewer. Names and element types stay; nothing is
/// promised of how the rows are stored.
#[verifier::external_body]
pub(crate) fn head_of(df: &DataFrame, n: usize) -> (out: DataFrame)
    ensures
        frame_height(out) == vstd::math::min(n as int, frame_height(*df) as int),
        frame_columns(out).len() == frame_columns(*df).len(),
        forall|i: int|
            0 <= i < frame_columns(out).len() ==> is_head_of(
                #[trigger] frame_columns(out)[i],
                frame_columns(*df)[i],
                n as nat,
            ),
{
    df.head(Some(n))
}

/// The variant of a `PolarsError`, as far as this crate tells the engine's
/// failures apart.
#[verifier::external_body]
pub(crate) fn fault_of(error: &PolarsError) -> (fault: EngineFault) {
    match error {
        PolarsError::ColumnNotFound(_) => EngineFault::ColumnNotFound,
        PolarsError::SchemaMismatch(_) => EngineFault::SchemaMismatch,
        PolarsError::IO { .. } => EngineFault::Io,
        _ => EngineFault::Other,
    }
}

/// `PolarsError`'s `Display`: the engine's message.
#[verifier::external_body]
pub(crate) fn error_text(error: &PolarsError) -> (text: String) {
    error.to_string()
}

} // verus!
