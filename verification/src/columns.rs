//! Reading the columns of a table by name: lookup, the check of the element
//! type, and the values with a default in place of an absent one.

use crate::engine::{
    bool_chunks_at, bool_values_at, column_name_at, column_type_at, datetime_chunks_at,
    error_text, find_column, float32_bits_at, float32_chunks_at, float64_bits_at,
    float64_chunks_at, frame_columns, int32_chunks_at, int32_values_at, int64_chunks_at,
    int64_values_at, run_lengths, str_values_at, uint64_chunks_at, width_of,
};
use crate::error::{BoundaryError, ErrorKind};
use crate::schema::{
    bool_model, cell_bool, cell_float32, cell_float64, cell_int32, cell_int64, cell_str,
    column_position, has_column, int32_model, int64_model, is_position, lemma_position_unique,
    str_model, Cell, ColumnInfo, ColumnModel, ColumnType,
};
use crate::text::{option_text, option_texts, texts};
use polars::prelude::DataFrame;
use vstd::prelude::*;
use vstd::string::StringExecFns;

verus! {

/// The message of a lookup that found no column called `column`; `detail` is
/// what the engine said.
pub open spec fn not_found_message(column: Seq<char>, detail: Seq<char>) -> Seq<char> {
    "Column '"@ + column + "' not found: "@ + detail
}

/// The message of a request for another element type than that of `column`.
/// `label` says what was expected and `detail` is what the engine said.
pub open spec fn mismatch_message(column: Seq<char>, label: Seq<char>, detail: Seq<char>) -> Seq<
    char,
> {
    "Column '"@ + column + "' "@ + label + ": "@ + detail
}

/// `error` reports that no column is called `column`.
pub open spec fn is_not_found(error: BoundaryError, column: Seq<char>) -> bool {
    &&& error.kind == ErrorKind::ColumnNotFound
    &&& exists|detail: Seq<char>| error.message@ == #[trigger] not_found_message(column, detail)
}

/// `error` reports that `column` has another element type than was asked for.
pub open spec fn is_mismatch(error: BoundaryError, column: Seq<char>, label: Seq<char>) -> bool {
    &&& error.kind == ErrorKind::TypeMismatch
    &&& exists|detail: Seq<char>|
        error.message@ == #[trigger] mismatch_message(column, label, detail)
}

/// A column called `column` exists and its element type is `dtype`.
pub open spec fn is_typed(columns: Seq<ColumnModel>, column: Seq<char>, dtype: ColumnType) -> bool {
    has_column(columns, column) && columns[column_position(columns, column)].dtype == dtype
}

/// `error` is the failure that a request for `column` as `dtype` is owed:
/// a lookup miss when no column has that name, else a type mismatch.
pub open spec fn is_typed_failure(
    columns: Seq<ColumnModel>,
    column: Seq<char>,
    dtype: ColumnType,
    label: Seq<char>,
    error: BoundaryError,
) -> bool {
    if has_column(columns, column) {
        columns[column_position(columns, column)].dtype != dtype && is_mismatch(
            error,
            column,
            label,
        )
    } else {
        is_not_found(error, column)
    }
}

/// A request for a column as another element type than its own never
/// succeeds, and the failure that it is owed is a type mismatch.
pub proof fn lemma_other_type_is_mismatch(
    columns: Seq<ColumnModel>,
    column: Seq<char>,
    own: ColumnType,
    asked: ColumnType,
    label: Seq<char>,
    error: BoundaryError,
)
    requires
        is_typed(columns, column, own),
        asked != own,
        is_typed_failure(columns, column, asked, label, error),
    ensures
        !is_typed(columns, column, asked),
        error.kind == ErrorKind::TypeMismatch,
{
}

/// The failure of a lookup.
pub fn not_found_error(column: &str, detail: &str) -> (error: BoundaryError)
    ensures
        error.kind == ErrorKind::ColumnNotFound,
        error.message@ == not_found_message(column@, detail@),
        is_not_found(error, column@),
{
    let mut message = String::from_str("Column '");
    message.append(column);
    message.append("' not found: ");
    message.append(detail);
    assert(message@ =~= not_found_message(column@, detail@));
    BoundaryError { kind: ErrorKind::ColumnNotFound, message }
}

/// The failure of a request for another element type than the column's.
pub fn type_mismatch_error(column: &str, label: &str, detail: &str) -> (error: BoundaryError)
    ensures
        error.kind == ErrorKind::TypeMismatch,
        error.message@ == mismatch_message(column@, label@, detail@),
        is_mismatch(error, column@, label@),
{
    let mut message = String::from_str("Column '");
    message.append(column);
    message.append("' ");
    message.append(label);
    message.append(": ");
    message.append(detail);
    assert(message@ =~= mismatch_message(column@, label@, detail@));
    BoundaryError { kind: ErrorKind::TypeMismatch, message }
}

/// Finds the column called `column`.
pub fn locate_column(df: &DataFrame, column: &str) -> (out: Result<usize, BoundaryError>)
    ensures
        out is Ok <==> has_column(frame_columns(*df), column@),
        out matches Ok(index) ==> is_position(frame_columns(*df), column@, index as int) && index
            == column_position(frame_columns(*df), column@),
        out matches Err(error) ==> is_not_found(error, column@),
{
    match find_column(df, column) {
        Ok(index) => {
            proof {
                lemma_position_unique(frame_columns(*df), column@, index as int);
            }
            Ok(index)
        },
        Err(e) => {
            let detail = error_text(&e);
            Err(not_found_error(column, detail.as_str()))
        },
    }
}

/// Name and element type of every column, in schema order.
pub fn column_infos(df: &DataFrame) -> (infos: Vec<ColumnInfo>)
    ensures
        infos@.len() == frame_columns(*df).len(),
        forall|i: int|
            0 <= i < infos@.len() ==> (#[trigger] infos@[i])@ == (
                frame_columns(*df)[i].name,
                frame_columns(*df)[i].dtype,
            ),
{
    let width = width_of(df);
    let mut infos: Vec<ColumnInfo> = Vec::new();
    let mut i: usize = 0;
    while i < width
        invariant
            i <= width,
            width == frame_columns(*df).len(),
            infos@.len() == i,
            forall|k: int|
                0 <= k < i ==> (#[trigger] infos@[k])@ == (
                    frame_columns(*df)[k].name,
                    frame_columns(*df)[k].dtype,
                ),
        decreases width - i,
    {
        let info = ColumnInfo { name: column_name_at(df, i), dtype: column_type_at(df, i) };
        infos.push(info);
        i += 1;
    }
    infos
}

/// The 64-bit integers of `cells`, 0 for an absent value.
pub open spec fn int64_or_zero(cells: Seq<Cell>) -> Seq<i64> {
    cells.map_values(
        |c: Cell|
            match cell_int64(c) {
                Some(v) => v,
                None => 0i64,
            },
    )
}

/// The 32-bit integers of `cells`, 0 for an absent value.
pub open spec fn int32_or_zero(cells: Seq<Cell>) -> Seq<i32> {
    cells.map_values(
        |c: Cell|
            match cell_int32(c) {
                Some(v) => v,
                None => 0i32,
            },
    )
}

/// The double-precision numbers of `cells` as bit patterns, that of zero for
/// an absent value.
pub open spec fn float64_or_zero(cells: Seq<Cell>) -> Seq<u64> {
    cells.map_values(
        |c: Cell|
            match cell_float64(c) {
                Some(bits) => bits,
                None => 0u64,
            },
    )
}

/// The single-precision numbers of `cells` as bit patterns, that of zero for
/// an absent value.
pub open spec fn float32_or_zero(cells: Seq<Cell>) -> Seq<u32> {
    cells.map_values(
        |c: Cell|
            match cell_float32(c) {
                Some(bits) => bits,
                None => 0u32,
            },
    )
}

/// The truth values of `cells`, false for an absent value.
pub open spec fn bool_or_false(cells: Seq<Cell>) -> Seq<bool> {
    cells.map_values(
        |c: Cell|
            match cell_bool(c) {
                Some(v) => v,
                None => false,
            },
    )
}

/// The strings of `cells`, the empty string for an absent value.
pub open spec fn str_or_empty(cells: Seq<Cell>) -> Seq<Seq<char>> {
    cells.map_values(
        |c: Cell|
            match cell_str(c) {
                Some(v) => v,
                None => Seq::<char>::empty(),
            },
    )
}

/// A column that was made of values without an absent one reads back as
/// those values: what is written is what is read.
pub proof fn lemma_read_back(
    name: Seq<char>,
    longs: Seq<i64>,
    ints: Seq<i32>,
    flags: Seq<bool>,
    strings: Seq<Seq<char>>,
)
    ensures
        int64_or_zero(int64_model(name, longs).cells) == longs,
        int32_or_zero(int32_model(name, ints).cells) == ints,
        bool_or_false(bool_model(name, flags).cells) == flags,
        str_or_empty(str_model(name, strings).cells) == strings,
{
    assert(int64_or_zero(int64_model(name, longs).cells) =~= longs);
    assert(int32_or_zero(int32_model(name, ints).cells) =~= ints);
    assert(bool_or_false(bool_model(name, flags).cells) =~= flags);
    assert(str_or_empty(str_model(name, strings).cells) =~= strings);
}

/// Puts 0 in place of each absent value.
pub(crate) fn fill_int64(values: Vec<Option<i64>>, Ghost(cells): Ghost<Seq<Cell>>) -> (out: Vec<
    i64,
>)
    requires
        values@ == cells.map_values(|c: Cell| cell_int64(c)),
    ensures
        out@ == int64_or_zero(cells),
{
    let mut out: Vec<i64> = Vec::new();
    let mut i: usize = 0;
    while i < values.len()
        invariant
            i <= values@.len(),
            values@ == cells.map_values(|c: Cell| cell_int64(c)),
            out@.len() == i,
            forall|k: int| 0 <= k < i ==> out@[k] == int64_or_zero(cells)[k],
        decreases values@.len() - i,
    {
        let v = match values[i] {
            Some(v) => v,
            None => 0,
        };
        out.push(v);
        i += 1;
    }
    assert(out@ =~= int64_or_zero(cells));
    out
}

/// Puts 0 in place of each absent value.
pub(crate) fn fill_int32(values: Vec<Option<i32>>, Ghost(cells): Ghost<Seq<Cell>>) -> (out: Vec<
    i32,
>)
    requires
        values@ == cells.map_values(|c: Cell| cell_int32(c)),
    ensures
        out@ == int32_or_zero(cells),
{
    let mut out: Vec<i32> = Vec::new();
    let mut i: usize = 0;
    while i < values.len()
        invariant
            i <= values@.len(),
            values@ == cells.map_values(|c: Cell| cell_int32(c)),
            out@.len() == i,
            forall|k: int| 0 <= k < i ==> out@[k] == int32_or_zero(cells)[k],
        decreases values@.len() - i,
    {
        let v = match values[i] {
            Some(v) => v,
            None => 0,
        };
        out.push(v);
        i += 1;
    }
    assert(out@ =~= int32_or_zero(cells));
    out
}

/// Puts the bit pattern of zero in place of each absent value.
pub(crate) fn fill_float64(values: Vec<Option<u64>>, Ghost(cells): Ghost<Seq<Cell>>) -> (out: Vec<
    u64,
>)
    requires
        values@ == cells.map_values(|c: Cell| cell_float64(c)),
    ensures
        out@ == float64_or_zero(cells),
{
    let mut out: Vec<u64> = Vec::new();
    let mut i: usize = 0;
    while i < values.len()
        invariant
            i <= values@.len(),
            values@ == cells.map_values(|c: Cell| cell_float64(c)),
            out@.len() == i,
            forall|k: int| 0 <= k < i ==> out@[k] == float64_or_zero(cells)[k],
        decreases values@.len() - i,
    {
        let v = match values[i] {
            Some(v) => v,
            None => 0,
        };
        out.push(v);
        i += 1;
    }
    assert(out@ =~= float64_or_zero(cells));
    out
}

/// Puts the bit pattern of zero in place of each absent value.
pub(crate) fn fill_float32(values: Vec<Option<u32>>, Ghost(cells): Ghost<Seq<Cell>>) -> (out: Vec<
    u32,
>)
    requires
        values@ == cells.map_values(|c: Cell| cell_float32(c)),
    ensures
        out@ == float32_or_zero(cells),
{
    let mut out: Vec<u32> = Vec::new();
    let mut i: usize = 0;
    while i < values.len()
        invariant
            i <= values@.len(),
            values@ == cells.map_values(|c: Cell| cell_float32(c)),
            out@.len() == i,
            forall|k: int| 0 <= k < i ==> out@[k] == float32_or_zero(cells)[k],
        decreases values@.len() - i,
    {
        let v = match values[i] {
            Some(v) => v,
            None => 0,
        };
        out.push(v);
        i += 1;
    }
    assert(out@ =~= float32_or_zero(cells));
    out
}

/// Puts false in place of each absent value.
pub(crate) fn fill_bool(values: Vec<Option<bool>>, Ghost(cells): Ghost<Seq<Cell>>) -> (out: Vec<
    bool,
>)
    requires
        values@ == cells.map_values(|c: Cell| cell_bool(c)),
    ensures
        out@ == bool_or_false(cells),
{
    let mut out: Vec<bool> = Vec::new();
    let mut i: usize = 0;
    while i < values.len()
        invariant
            i <= values@.len(),
            values@ == cells.map_values(|c: Cell| cell_bool(c)),
            out@.len() == i,
            forall|k: int| 0 <= k < i ==> out@[k] == bool_or_false(cells)[k],
        decreases values@.len() - i,
    {
        let v = match values[i] {
            Some(v) => v,
            None => false,
        };
        out.push(v);
        i += 1;
    }
    assert(out@ =~= bool_or_false(cells));
    out
}

/// Puts the empty string in place of each absent value.
pub(crate) fn fill_str(values: Vec<Option<String>>, Ghost(cells): Ghost<Seq<Cell>>) -> (out: Vec<
    String,
>)
    requires
        option_texts(values@) == cells.map_values(|c: Cell| cell_str(c)),
    ensures
        texts(out@) == str_or_empty(cells),
{
    let mut out: Vec<String> = Vec::new();
    let mut i: usize = 0;
    assert(option_texts(values@).len() == values@.len());
    while i < values.len()
        invariant
            i <= values@.len(),
            values@.len() == cells.len(),
            option_texts(values@) == cells.map_values(|c: Cell| cell_str(c)),
            out@.len() == i,
            forall|k: int| 0 <= k < i ==> (#[trigger] out@[k])@ == str_or_empty(cells)[k],
        decreases values@.len() - i,
    {
        assert(option_texts(values@)[i as int] == option_text(values@[i as int]));
        let v = match &values[i] {
            Some(v) => v.clone(),
            None => String::new(),
        };
        out.push(v);
        i += 1;
    }
    assert(texts(out@) =~= str_or_empty(cells));
    out
}

/// The values of the 64-bit integer column called `column`, 0 for an absent
/// value. `label` words the failure on another element type.
pub fn read_int64(df: &DataFrame, column: &str, label: &str) -> (out: Result<
    Vec<i64>,
    BoundaryError,
>)
    ensures
        out is Ok <==> is_typed(frame_columns(*df), column@, ColumnType::Int64),
        out matches Ok(values) ==> values@ == int64_or_zero(
            frame_columns(*df)[column_position(frame_columns(*df), column@)].cells,
        ),
        out matches Err(error) ==> is_typed_failure(
            frame_columns(*df),
            column@,
            ColumnType::Int64,
            label@,
            error,
        ),
{
    let index = match locate_column(df, column) {
        Ok(index) => index,
        Err(error) => {
            return Err(error);
        },
    };
    match int64_values_at(df, index) {
        Ok(values) => Ok(fill_int64(values, Ghost(frame_columns(*df)[index as int].cells))),
        Err(e) => {
            let detail = error_text(&e);
            Err(type_mismatch_error(column, label, detail.as_str()))
        },
    }
}

/// The values of the 32-bit integer column called `column`, 0 for an absent
/// value. `label` words the failure on another element type.
pub fn read_int32(df: &DataFrame, column: &str, label: &str) -> (out: Result<
    Vec<i32>,
    BoundaryError,
>)
    ensures
        out is Ok <==> is_typed(frame_columns(*df), column@, ColumnType::Int32),
        out matches Ok(values) ==> values@ == int32_or_zero(
            frame_columns(*df)[column_position(frame_columns(*df), column@)].cells,
        ),
        out matches Err(error) ==> is_typed_failure(
            frame_columns(*df),
            column@,
            ColumnType::Int32,
            label@,
            error,
        ),
{
    let index = match locate_column(df, column) {
        Ok(index) => index,
        Err(error) => {
            return Err(error);
        },
    };
    match int32_values_at(df, index) {
        Ok(values) => Ok(fill_int32(values, Ghost(frame_columns(*df)[index as int].cells))),
        Err(e) => {
            let detail = error_text(&e);
            Err(type_mismatch_error(column, label, detail.as_str()))
        },
    }
}

/// The values of the double-precision column called `column` as bit patterns, that
/// of zero for an absent value. `label` words the failure on another element
/// type.
pub fn read_float64(df: &DataFrame, column: &str, label: &str) -> (out: Result<
    Vec<u64>,
    BoundaryError,
>)
    ensures
        out is Ok <==> is_typed(frame_columns(*df), column@, ColumnType::Float64),
        out matches Ok(values) ==> values@ == float64_or_zero(
            frame_columns(*df)[column_position(frame_columns(*df), column@)].cells,
        ),
        out matches Err(error) ==> is_typed_failure(
            frame_columns(*df),
            column@,
            ColumnType::Float64,
            label@,
            error,
        ),
{
    let index = match locate_column(df, column) {
        Ok(index) => index,
        Err(error) => {
            return Err(error);
        },
    };
    match float64_bits_at(df, index) {
        Ok(values) => Ok(fill_float64(values, Ghost(frame_columns(*df)[index as int].cells))),
        Err(e) => {
            let detail = error_text(&e);
            Err(type_mismatch_error(column, label, detail.as_str()))
        },
    }
}

/// The values of the single-precision column called `column` as bit patterns, that
/// of zero for an absent value. `label` words the failure on another element
/// type.
pub fn read_float32(df: &DataFrame, column: &str, label: &str) -> (out: Result<
    Vec<u32>,
    BoundaryError,
>)
    ensures
        out is Ok <==> is_typed(frame_columns(*df), column@, ColumnType::Float32),
        out matches Ok(values) ==> values@ == float32_or_zero(
            frame_columns(*df)[column_position(frame_columns(*df), column@)].cells,
        ),
        out matches Err(error) ==> is_typed_failure(
            frame_columns(*df),
            column@,
            ColumnType::Float32,
            label@,
            error,
        ),
{
    let index = match locate_column(df, column) {
        Ok(index) => index,
        Err(error) => {
            return Err(error);
        },
    };
    match float32_bits_at(df, index) {
        Ok(values) => Ok(fill_float32(values, Ghost(frame_columns(*df)[index as int].cells))),
        Err(e) => {
            let detail = error_text(&e);
            Err(type_mismatch_error(column, label, detail.as_str()))
        },
    }
}

/// Address and length of each run of the double-precision column called `column`.
/// `label` words the failure on another element type.
pub fn float64_runs(df: &DataFrame, column: &str, label: &str) -> (out: Result<
    Vec<(usize, usize)>,
    BoundaryError,
>)
    ensures
        out is Ok <==> is_typed(frame_columns(*df), column@, ColumnType::Float64),
        out matches Ok(runs) ==> run_lengths(runs@) == frame_columns(*df)[column_position(
            frame_columns(*df),
            column@,
        )].chunks,
        out matches Err(error) ==> is_typed_failure(
            frame_columns(*df),
            column@,
            ColumnType::Float64,
            label@,
            error,
        ),
{
    let index = match locate_column(df, column) {
        Ok(index) => index,
        Err(error) => {
            return Err(error);
        },
    };
    match float64_chunks_at(df, index) {
        Ok(runs) => Ok(runs),
        Err(e) => {
            let detail = error_text(&e);
            Err(type_mismatch_error(column, label, detail.as_str()))
        },
    }
}

/// Address and length of each run of the single-precision column called `column`.
/// `label` words the failure on another element type.
pub fn float32_runs(df: &DataFrame, column: &str, label: &str) -> (out: Result<
    Vec<(usize, usize)>,
    BoundaryError,
>)
    ensures
        out is Ok <==> is_typed(frame_columns(*df), column@, ColumnType::Float32),
        out matches Ok(runs) ==> run_lengths(runs@) == frame_columns(*df)[column_position(
            frame_columns(*df),
            column@,
        )].chunks,
        out matches Err(error) ==> is_typed_failure(
            frame_columns(*df),
            column@,
            ColumnType::Float32,
            label@,
            error,
        ),
{
    let index = match locate_column(df, column) {
        Ok(index) => index,
        Err(error) => {
            return Err(error);
        },
    };
    match float32_chunks_at(df, index) {
        Ok(runs) => Ok(runs),
        Err(e) => {
            let detail = error_text(&e);
            Err(type_mismatch_error(column, label, detail.as_str()))
        },
    }
}

/// The values of the boolean column called `column`, false for an absent
/// value. `label` words the failure on another element type.
pub fn read_bool(df: &DataFrame, column: &str, label: &str) -> (out: Result<
    Vec<bool>,
    BoundaryError,
>)
    ensures
        out is Ok <==> is_typed(frame_columns(*df), column@, ColumnType::Bool),
        out matches Ok(values) ==> values@ == bool_or_false(
            frame_columns(*df)[column_position(frame_columns(*df), column@)].cells,
        ),
        out matches Err(error) ==> is_typed_failure(
            frame_columns(*df),
            column@,
            ColumnType::Bool,
            label@,
            error,
        ),
{
    let index = match locate_column(df, column) {
        Ok(index) => index,
        Err(error) => {
            return Err(error);
        },
    };
    match bool_values_at(df, index) {
        Ok(values) => Ok(fill_bool(values, Ghost(frame_columns(*df)[index as int].cells))),
        Err(e) => {
            let detail = error_text(&e);
            Err(type_mismatch_error(column, label, detail.as_str()))
        },
    }
}

/// The values of the string column called `column`, the empty string for an absent
/// value. `label` words the failure on another element type.
pub fn read_str(df: &DataFrame, column: &str, label: &str) -> (out: Result<
    Vec<String>,
    BoundaryError,
>)
    ensures
        out is Ok <==> is_typed(frame_columns(*df), column@, ColumnType::String),
        out matches Ok(values) ==> texts(values@) == str_or_empty(
            frame_columns(*df)[column_position(frame_columns(*df), column@)].cells,
        ),
        out matches Err(error) ==> is_typed_failure(
            frame_columns(*df),
            column@,
            ColumnType::String,
            label@,
            error,
        ),
{
    let index = match locate_column(df, column) {
        Ok(index) => index,
        Err(error) => {
            return Err(error);
        },
    };
    match str_values_at(df, index) {
        Ok(values) => Ok(fill_str(values, Ghost(frame_columns(*df)[index as int].cells))),
        Err(e) => {
            let detail = error_text(&e);
            Err(type_mismatch_error(column, label, detail.as_str()))
        },
    }
}

/// Address and length of each run of the 64-bit integer column called `column`.
/// `label` words the failure on another element type.
pub fn int64_runs(df: &DataFrame, column: &str, label: &str) -> (out: Result<
    Vec<(usize, usize)>,
    BoundaryError,
>)
    ensures
        out is Ok <==> is_typed(frame_columns(*df), column@, ColumnType::Int64),
        out matches Ok(runs) ==> run_lengths(runs@) == frame_columns(*df)[column_position(
            frame_columns(*df),
            column@,
        )].chunks,
        out matches Err(error) ==> is_typed_failure(
            frame_columns(*df),
            column@,
            ColumnType::Int64,
            label@,
            error,
        ),
{
    let index = match locate_column(df, column) {
        Ok(index) => index,
        Err(error) => {
            return Err(error);
        },
    };
    match int64_chunks_at(df, index) {
        Ok(runs) => Ok(runs),
        Err(e) => {
            let detail = error_text(&e);
            Err(type_mismatch_error(column, label, detail.as_str()))
        },
    }
}

/// Address and length of each run of the 32-bit integer column called `column`.
/// `label` words the failure on another element type.
pub fn int32_runs(df: &DataFrame, column: &str, label: &str) -> (out: Result<
    Vec<(usize, usize)>,
    BoundaryError,
>)
    ensures
        out is Ok <==> is_typed(frame_columns(*df), column@, ColumnType::Int32),
        out matches Ok(runs) ==> run_lengths(runs@) == frame_columns(*df)[column_position(
            frame_columns(*df),
            column@,
        )].chunks,
        out matches Err(error) ==> is_typed_failure(
            frame_columns(*df),
            column@,
            ColumnType::Int32,
            label@,
            error,
        ),
{
    let index = match locate_column(df, column) {
        Ok(index) => index,
        Err(error) => {
            return Err(error);
        },
    };
    match int32_chunks_at(df, index) {
        Ok(runs) => Ok(runs),
        Err(e) => {
            let detail = error_text(&e);
            Err(type_mismatch_error(column, label, detail.as_str()))
        },
    }
}

/// Address and length of each run of the unsigned 64-bit integer column called `column`.
/// `label` words the failure on another element type.
pub fn uint64_runs(df: &DataFrame, column: &str, label: &str) -> (out: Result<
    Vec<(usize, usize)>,
    BoundaryError,
>)
    ensures
        out is Ok <==> is_typed(frame_columns(*df), column@, ColumnType::UInt64),
        out matches Ok(runs) ==> run_lengths(runs@) == frame_columns(*df)[column_position(
            frame_columns(*df),
            column@,
        )].chunks,
        out matches Err(error) ==> is_typed_failure(
            frame_columns(*df),
            column@,
            ColumnType::UInt64,
            label@,
            error,
        ),
{
    let index = match locate_column(df, column) {
        Ok(index) => index,
        Err(error) => {
            return Err(error);
        },
    };
    match uint64_chunks_at(df, index) {
        Ok(runs) => Ok(runs),
        Err(e) => {
            let detail = error_text(&e);
            Err(type_mismatch_error(column, label, detail.as_str()))
        },
    }
}

/// Address and length of each run of the datetime column called `column`.
/// `label` words the failure on another element type.
pub fn datetime_runs(df: &DataFrame, column: &str, label: &str) -> (out: Result<
    Vec<(usize, usize)>,
    BoundaryError,
>)
    ensures
        out is Ok <==> is_typed(frame_columns(*df), column@, ColumnType::DateTime),
        out matches Ok(runs) ==> run_lengths(runs@) == frame_columns(*df)[column_position(
            frame_columns(*df),
            column@,
        )].chunks,
        out matches Err(error) ==> is_typed_failure(
            frame_columns(*df),
            column@,
            ColumnType::DateTime,
            label@,
            error,
        ),
{
    let index = match locate_column(df, column) {
        Ok(index) => index,
        Err(error) => {
            return Err(error);
        },
    };
    match datetime_chunks_at(df, index) {
        Ok(runs) => Ok(runs),
        Err(e) => {
            let detail = error_text(&e);
            Err(type_mismatch_error(column, label, detail.as_str()))
        },
    }
}

/// Address and length of each run of the boolean column called `column`.
/// `label` words the failure on another element type.
pub fn bool_runs(df: &DataFrame, column: &str, label: &str) -> (out: Result<
    Vec<(usize, usize)>,
    BoundaryError,
>)
    ensures
        out is Ok <==> is_typed(frame_columns(*df), column@, ColumnType::Bool),
        out matches Ok(runs) ==> run_lengths(runs@) == frame_columns(*df)[column_position(
            frame_columns(*df),
            column@,
        )].chunks,
        out matches Err(error) ==> is_typed_failure(
            frame_columns(*df),
            column@,
            ColumnType::Bool,
            label@,
            error,
        ),
{
    let index = match locate_column(df, column) {
        Ok(index) => index,
        Err(error) => {
            return Err(error);
        },
    };
    match bool_chunks_at(df, index) {
        Ok(runs) => Ok(runs),
        Err(e) => {
            let detail = error_text(&e);
            Err(type_mismatch_error(column, label, detail.as_str()))
        },
    }
}
} // verus!
