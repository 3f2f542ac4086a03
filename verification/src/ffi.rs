//! The plain-call surface: every operation takes what a native caller can
//! pass and answers with a status code.
//!
//! A pointer of the caller that may be null is an `Option` here, and a byte
//! string of the caller is a slice of bytes that has yet to be checked. A
//! failing operation writes its message into the error slot of the calling
//! thread and leaves its output parameter as it was; a successful one leaves
//! the slot as it was.

use crate::columns::{
    bool_or_false, fill_bool, fill_float64, fill_int64, fill_str, float64_or_zero,
    int64_or_zero, str_or_empty,
};
use crate::engine::{
    bool_column, bool_values_at, column_model, empty_frame, error_text, find_column,
    float64_bits_at, frame_columns, frame_height, height_of, int64_column, int64_values_at,
    str_column, str_values_at, width_of, with_column,
};
use crate::error::{
    recorded, ErrorSlot, ParquetError, BASIS_ERR_COLUMN_NOT_FOUND, BASIS_ERR_INVALID_UTF8,
    BASIS_ERR_IO, BASIS_ERR_NULL_PTR, BASIS_ERR_POLARS, BASIS_ERR_TYPE_MISMATCH, BASIS_OK,
};
use crate::parquet::{ParallelStrategy, ParquetCompression, ParquetReader, ParquetWriter};
use crate::schema::{
    bool_model, column_fits, column_position, column_settles, has_column, int64_model,
    is_repeat_of, is_repeat_upsert, lemma_position_exists, lemma_position_unique, str_model,
    upsert, ColumnModel, ColumnType,
};
use crate::text::{
    contains_nul, decimal, decimal_text, decode, decoded, has_nul, join2, join3, texts,
};
use polars::prelude::{Column, DataFrame};
use vstd::prelude::*;
use vstd::string::StringExecFns;
use vstd::utf8::{decode_utf8, encode_utf8, valid_utf8};

verus! {

/// Exclusive owner of one table on the plain-call surface.
pub struct BasisDataFrame {
    inner: DataFrame,
}

impl BasisDataFrame {
    /// The table that this handle owns.
    pub closed spec fn frame(&self) -> DataFrame {
        self.inner
    }

    /// The columns of the table, in schema order.
    pub open spec fn columns(&self) -> Seq<ColumnModel> {
        frame_columns(self.frame())
    }

    /// The number of rows of the table.
    pub open spec fn height(&self) -> nat {
        frame_height(self.frame())
    }

    /// Takes ownership of a table.
    pub fn new(df: DataFrame) -> (handle: BasisDataFrame)
        ensures
            handle.frame() == df,
    {
        BasisDataFrame { inner: df }
    }

    /// The table, for reading.
    pub fn as_frame(&self) -> (df: &DataFrame)
        ensures
            *df == self.frame(),
    {
        &self.inner
    }
}

/// A buffer of 64-bit integers that the callee allocated and the caller owns
/// until it frees it.
#[derive(Debug)]
pub struct Int64Column {
    pub data: Vec<i64>,
}

/// A buffer of double-precision numbers, each as its IEEE 754 bit pattern,
/// that the callee allocated and the caller owns until it frees it.
#[derive(Debug)]
pub struct Float64Column {
    pub data: Vec<u64>,
}

/// A buffer of truth values that the callee allocated and the caller owns
/// until it frees it.
#[derive(Debug)]
pub struct BoolColumn {
    pub data: Vec<bool>,
}

/// A buffer of strings that the callee allocated and the caller owns until it
/// frees it.
#[derive(Debug)]
pub struct StringColumn {
    pub data: Vec<String>,
}

/// The message of the most recent failure on the calling thread, if there is
/// one.
pub fn basis_get_last_error(slot: &ErrorSlot) -> (message: Option<&String>)
    ensures
        message is Some <==> slot@ is Some,
        message matches Some(m) ==> Some(m@) == slot@,
{
    slot.get_last_error()
}

/// Forgets the message of the most recent failure.
pub fn basis_clear_error(slot: &mut ErrorSlot)
    ensures
        final(slot)@ is None,
{
    slot.clear_error();
}

/// The bytes of a byte string of the caller that may be absent.
pub open spec fn bytes_of(bytes: Option<&[u8]>) -> Option<Seq<u8>> {
    match bytes {
        Some(b) => Some(b@),
        None => None,
    }
}

/// The text of a byte string of the caller; it means something only where
/// the byte string is there and valid.
pub open spec fn text_of(bytes: Option<&[u8]>) -> Seq<char> {
    match bytes {
        Some(b) => decode_utf8(b@),
        None => Seq::<char>::empty(),
    }
}

/// Records `message` in the slot and answers with `code`.
fn fail(slot: &mut ErrorSlot, code: i32, message: &str) -> (status: i32)
    ensures
        status == code,
        final(slot)@ == recorded(message@),
{
    slot.set_error(message);
    code
}

/// What to read for the file whose path the caller passed. An absent path
/// and a path that is not valid text are failures: nothing is to be read.
pub fn basis_parquet_read(slot: &mut ErrorSlot, path: Option<&[u8]>) -> (request: Option<
    ParquetReader,
>)
    ensures
        request is Some <==> (path matches Some(p) && valid_utf8(p@)),
        request matches Some(r) ==> Some(r.path()) == decoded(path->0@) && r.projection() is None
            && r.row_limit() is None && r.parallel() == ParallelStrategy::Auto && final(slot)@
            == old(slot)@,
        path is None ==> final(slot)@ == recorded("path is null"@),
        path matches Some(p) && !valid_utf8(p@) ==> final(slot)@ == recorded(
            "invalid UTF-8 in path"@,
        ),
{
    let bytes = match path {
        Some(bytes) => bytes,
        None => {
            slot.set_error("path is null");
            return None;
        },
    };
    match decode(bytes) {
        Some(text) => Some(ParquetReader::new(text)),
        None => {
            slot.set_error("invalid UTF-8 in path");
            None
        },
    }
}

/// The handle of a table that was read, or nothing and the failure's
/// message in the slot.
pub fn basis_parquet_read_result(
    slot: &mut ErrorSlot,
    loaded: Result<DataFrame, ParquetError>,
) -> (handle: Option<BasisDataFrame>)
    ensures
        handle is Some <==> loaded is Ok,
        handle matches Some(h) ==> loaded == Ok::<DataFrame, ParquetError>(h.frame())
            && final(slot)@ == old(slot)@,
        loaded matches Err(e) ==> exists|text: Seq<char>|
            e.has_message(text) && final(slot)@ == #[trigger] recorded(text),
{
    match loaded {
        Ok(df) => Some(BasisDataFrame { inner: df }),
        Err(e) => {
            let text = e.message();
            slot.set_error(text.as_str());
            assert(final(slot)@ == recorded(text@));
            None
        },
    }
}

/// The status that a request to write a table at a path is owed before
/// anything is written.
pub open spec fn write_request_status(df_present: bool, path: Option<Seq<u8>>) -> int {
    if !df_present || path is None {
        -1
    } else if !valid_utf8(path->0) {
        -2
    } else {
        0
    }
}

/// How to write the table of `df` at the path the caller passed, or the
/// status of the failure: a null pointer where the table or the path is
/// absent, invalid text where the path is not valid UTF-8.
pub fn basis_parquet_write(
    slot: &mut ErrorSlot,
    df: Option<&BasisDataFrame>,
    path: Option<&[u8]>,
) -> (request: Result<ParquetWriter, i32>)
    ensures
        request is Ok <==> write_request_status(df is Some, bytes_of(path)) == 0,
        request matches Ok(w) ==> Some(w.path()) == decoded(path->0@) && w.compression()
            == ParquetCompression::Zstd(None) && w.row_group_size() is None
            && w.data_page_size() is None && final(slot)@ == old(slot)@,
        request matches Err(status) ==> status == write_request_status(
            df is Some,
            bytes_of(path),
        ),
        request matches Err(status) ==> final(slot)@ == recorded(
            if status == -1 {
                "null pointer"@
            } else {
                "invalid UTF-8 in path"@
            },
        ),
{
    if df.is_none() || path.is_none() {
        return Err(fail(slot, BASIS_ERR_NULL_PTR, "null pointer"));
    }
    match decode(path.unwrap()) {
        Some(text) => Ok(ParquetWriter::new(text)),
        None => Err(fail(slot, BASIS_ERR_INVALID_UTF8, "invalid UTF-8 in path")),
    }
}

/// The status of a write that was made: success, or an I/O failure with the
/// failure's message in the slot.
pub fn basis_parquet_write_result(
    slot: &mut ErrorSlot,
    written: Result<(), ParquetError>,
) -> (status: i32)
    ensures
        written is Ok ==> status == 0 && final(slot)@ == old(slot)@,
        written matches Err(e) ==> status == -3 && exists|text: Seq<char>|
            e.has_message(text) && final(slot)@ == #[trigger] recorded(text),
{
    match written {
        Ok(()) => BASIS_OK,
        Err(e) => {
            let text = e.message();
            slot.set_error(text.as_str());
            assert(final(slot)@ == recorded(text@));
            BASIS_ERR_IO
        },
    }
}

/// A new table without columns.
pub fn basis_df_new() -> (handle: BasisDataFrame)
    ensures
        handle.columns() == Seq::<ColumnModel>::empty(),
        handle.height() == 0,
{
    BasisDataFrame { inner: empty_frame() }
}

/// The number of rows, and 0 for an absent handle. Every column holds that
/// many values.
pub fn basis_df_height(df: Option<&BasisDataFrame>) -> (n: usize)
    ensures
        df matches Some(handle) ==> n == handle.height(),
        df matches Some(handle) ==> forall|i: int|
            0 <= i < handle.columns().len() ==> (#[trigger] handle.columns()[i]).cells.len() == n,
        df is None ==> n == 0,
{
    match df {
        Some(handle) => height_of(&handle.inner),
        None => 0,
    }
}

/// The number of columns, and 0 for an absent handle.
pub fn basis_df_width(df: Option<&BasisDataFrame>) -> (n: usize)
    ensures
        df matches Some(handle) ==> n == handle.columns().len(),
        df is None ==> n == 0,
{
    match df {
        Some(handle) => width_of(&handle.inner),
        None => 0,
    }
}

/// The status that a request for the column called `name` of `df` is owed
/// before the column's element type is looked at: a null pointer where the
/// handle, the name or the output parameter is absent, invalid text where the
/// name is not valid UTF-8, a lookup miss where no column has the name.
pub open spec fn lookup_status(
    df: Option<&BasisDataFrame>,
    name: Option<&[u8]>,
    out_present: bool,
) -> int {
    if df is None || name is None || !out_present {
        -1
    } else if !valid_utf8(name->0@) {
        -2
    } else if !has_column(df->0.columns(), text_of(name)) {
        -4
    } else {
        0
    }
}

/// The status that a request for the column called `name` of `df` with the
/// element type `dtype` is owed: that of the lookup, and a type mismatch
/// where the column has another element type.
pub open spec fn column_request_status(
    df: Option<&BasisDataFrame>,
    name: Option<&[u8]>,
    out_present: bool,
    dtype: ColumnType,
) -> int {
    if lookup_status(df, name, out_present) != 0 {
        lookup_status(df, name, out_present)
    } else if df->0.columns()[column_position(df->0.columns(), text_of(name))].dtype != dtype {
        -5
    } else {
        0
    }
}

/// The message that goes with a failing status of a request for a column.
/// `label` names the element type that was asked for.
pub open spec fn column_request_message(status: int, name: Seq<char>, label: Seq<char>) -> Seq<
    char,
> {
    if status == -1 {
        "null pointer"@
    } else if status == -2 {
        "invalid UTF-8 in column name"@
    } else if status == -4 {
        "column '"@ + name + "' not found"@
    } else {
        "column '"@ + name + "' is not "@ + label
    }
}

/// Finds the column that the caller asks for: its position and its name as
/// text, or the failing status with its message in the slot.
pub fn locate_requested_column(
    slot: &mut ErrorSlot,
    df: Option<&BasisDataFrame>,
    name: Option<&[u8]>,
    out_present: bool,
) -> (out: Result<(usize, String), i32>)
    ensures
        out is Ok <==> lookup_status(df, name, out_present) == 0,
        out matches Ok(found) ==> found.1@ == text_of(name) && found.0 == column_position(
            df->0.columns(),
            text_of(name),
        ) && found.0 < df->0.columns().len() && final(slot)@ == old(slot)@,
        out matches Err(status) ==> status == lookup_status(df, name, out_present) && forall|
            label: Seq<char>,
        |
            final(slot)@ == recorded(
                #[trigger] column_request_message(status as int, text_of(name), label),
            ),
{
    if df.is_none() || name.is_none() || !out_present {
        return Err(fail(slot, BASIS_ERR_NULL_PTR, "null pointer"));
    }
    let handle = df.unwrap();
    let text = match decode(name.unwrap()) {
        Some(text) => text,
        None => {
            return Err(fail(slot, BASIS_ERR_INVALID_UTF8, "invalid UTF-8 in column name"));
        },
    };
    match find_column(&handle.inner, text) {
        Ok(index) => {
            proof {
                lemma_position_unique(handle.columns(), text@, index as int);
            }
            Ok((index, String::from_str(text)))
        },
        Err(_) => {
            let message = join3("column '", text, "' not found");
            Err(fail(slot, BASIS_ERR_COLUMN_NOT_FOUND, message.as_str()))
        },
    }
}

/// Reports that the column called `name` has another element type than the
/// one that `label` names.
pub fn report_type_mismatch(slot: &mut ErrorSlot, name: &str, label: &str) -> (status: i32)
    ensures
        status == -5,
        final(slot)@ == recorded(column_request_message(-5, name@, label@)),
{
    let mut message = String::from_str("column '");
    message.append(name);
    message.append("' is not ");
    message.append(label);
    assert(message@ =~= column_request_message(-5, name@, label@));
    fail(slot, BASIS_ERR_TYPE_MISMATCH, message.as_str())
}

/// Copies the 64-bit integer column called `name` into `out`, 0 for an
/// absent value.
pub fn basis_df_get_int64_column(
    slot: &mut ErrorSlot,
    df: Option<&BasisDataFrame>,
    name: Option<&[u8]>,
    out: Option<&mut Int64Column>,
) -> (status: i32)
    ensures
        status == column_request_status(df, name, out is Some, ColumnType::Int64),
        status != 0 ==> final(slot)@ == recorded(
            column_request_message(status as int, text_of(name), "Int64"@),
        ),
        status != 0 ==> (out matches Some(o) ==> *final(o) == *o),
        status == 0 ==> final(slot)@ == old(slot)@,
        status == 0 ==> (out matches Some(o) && final(o).data@ == int64_or_zero(
            df->0.columns()[column_position(df->0.columns(), text_of(name))].cells,
        )),
{
    let found = match locate_requested_column(slot, df, name, out.is_some()) {
        Ok(found) => found,
        Err(status) => {
            return status;
        },
    };
    let handle = df.unwrap();
    match int64_values_at(&handle.inner, found.0) {
        Ok(values) => {
            let ghost cells = handle.columns()[found.0 as int].cells;
            let data = fill_int64(values, Ghost(cells));
            match out {
                Some(o) => {
                    o.data = data;
                },
                None => {},
            }
            BASIS_OK
        },
        Err(_) => report_type_mismatch(slot, found.1.as_str(), "Int64"),
    }
}

/// Copies the double-precision column called `name` into `out`, each value as
/// its bit pattern, that of zero for an absent value.
pub fn basis_df_get_float64_column(
    slot: &mut ErrorSlot,
    df: Option<&BasisDataFrame>,
    name: Option<&[u8]>,
    out: Option<&mut Float64Column>,
) -> (status: i32)
    ensures
        status == column_request_status(df, name, out is Some, ColumnType::Float64),
        status != 0 ==> final(slot)@ == recorded(
            column_request_message(status as int, text_of(name), "Float64"@),
        ),
        status != 0 ==> (out matches Some(o) ==> *final(o) == *o),
        status == 0 ==> final(slot)@ == old(slot)@,
        status == 0 ==> (out matches Some(o) && final(o).data@ == float64_or_zero(
            df->0.columns()[column_position(df->0.columns(), text_of(name))].cells,
        )),
{
    let found = match locate_requested_column(slot, df, name, out.is_some()) {
        Ok(found) => found,
        Err(status) => {
            return status;
        },
    };
    let handle = df.unwrap();
    match float64_bits_at(&handle.inner, found.0) {
        Ok(values) => {
            let ghost cells = handle.columns()[found.0 as int].cells;
            let data = fill_float64(values, Ghost(cells));
            match out {
                Some(o) => {
                    o.data = data;
                },
                None => {},
            }
            BASIS_OK
        },
        Err(_) => report_type_mismatch(slot, found.1.as_str(), "Float64"),
    }
}

/// Copies the boolean column called `name` into `out`, false for an absent
/// value.
pub fn basis_df_get_bool_column(
    slot: &mut ErrorSlot,
    df: Option<&BasisDataFrame>,
    name: Option<&[u8]>,
    out: Option<&mut BoolColumn>,
) -> (status: i32)
    ensures
        status == column_request_status(df, name, out is Some, ColumnType::Bool),
        status != 0 ==> final(slot)@ == recorded(
            column_request_message(status as int, text_of(name), "Bool"@),
        ),
        status != 0 ==> (out matches Some(o) ==> *final(o) == *o),
        status == 0 ==> final(slot)@ == old(slot)@,
        status == 0 ==> (out matches Some(o) && final(o).data@ == bool_or_false(
            df->0.columns()[column_position(df->0.columns(), text_of(name))].cells,
        )),
{
    let found = match locate_requested_column(slot, df, name, out.is_some()) {
        Ok(found) => found,
        Err(status) => {
            return status;
        },
    };
    let handle = df.unwrap();
    match bool_values_at(&handle.inner, found.0) {
        Ok(values) => {
            let ghost cells = handle.columns()[found.0 as int].cells;
            let data = fill_bool(values, Ghost(cells));
            match out {
                Some(o) => {
                    o.data = data;
                },
                None => {},
            }
            BASIS_OK
        },
        Err(_) => report_type_mismatch(slot, found.1.as_str(), "Bool"),
    }
}

/// A string as it is handed to a caller that reads up to the first zero
/// byte: the string itself, or the empty string where it holds a zero byte.
pub open spec fn c_text(text: Seq<char>) -> Seq<char> {
    if has_nul(encode_utf8(text)) {
        Seq::<char>::empty()
    } else {
        text
    }
}

/// Each string of `strings` as it is handed to the caller.
pub open spec fn c_texts(strings: Seq<Seq<char>>) -> Seq<Seq<char>> {
    strings.map_values(|s: Seq<char>| c_text(s))
}

/// Puts the empty string in place of each string that holds a zero byte.
fn to_c_texts(strings: Vec<String>) -> (out: Vec<String>)
    ensures
        texts(out@) == c_texts(texts(strings@)),
{
    let mut out: Vec<String> = Vec::new();
    let mut i: usize = 0;
    while i < strings.len()
        invariant
            i <= strings@.len(),
            out@.len() == i,
            forall|k: int| 0 <= k < i ==> (#[trigger] out@[k])@ == c_text(strings@[k]@),
        decreases strings@.len() - i,
    {
        let item = if contains_nul(strings[i].as_str()) {
            String::new()
        } else {
            strings[i].clone()
        };
        out.push(item);
        i += 1;
    }
    assert(texts(out@) =~= c_texts(texts(strings@)));
    out
}

/// Copies the string column called `name` into `out`: the empty string for an
/// absent value and for a value that holds a zero byte.
pub fn basis_df_get_string_column(
    slot: &mut ErrorSlot,
    df: Option<&BasisDataFrame>,
    name: Option<&[u8]>,
    out: Option<&mut StringColumn>,
) -> (status: i32)
    ensures
        status == column_request_status(df, name, out is Some, ColumnType::String),
        status != 0 ==> final(slot)@ == recorded(
            column_request_message(status as int, text_of(name), "String"@),
        ),
        status != 0 ==> (out matches Some(o) ==> *final(o) == *o),
        status == 0 ==> final(slot)@ == old(slot)@,
        status == 0 ==> (out matches Some(o) && texts(final(o).data@) == c_texts(
            str_or_empty(df->0.columns()[column_position(df->0.columns(), text_of(name))].cells),
        )),
{
    let found = match locate_requested_column(slot, df, name, out.is_some()) {
        Ok(found) => found,
        Err(status) => {
            return status;
        },
    };
    let handle = df.unwrap();
    match str_values_at(&handle.inner, found.0) {
        Ok(values) => {
            let ghost cells = handle.columns()[found.0 as int].cells;
            let data = to_c_texts(fill_str(values, Ghost(cells)));
            match out {
                Some(o) => {
                    o.data = data;
                },
                None => {},
            }
            BASIS_OK
        },
        Err(_) => report_type_mismatch(slot, found.1.as_str(), "String"),
    }
}

/// Releases the buffer of `col`, which is then empty. An absent buffer and an
/// empty one are left alone.
pub fn basis_int64_column_free(col: Option<&mut Int64Column>)
    ensures
        col matches Some(c) ==> final(c).data@ == Seq::<i64>::empty(),
{
    match col {
        Some(c) => {
            if c.data.len() > 0 {
                c.data = Vec::new();
            }
        },
        None => {},
    }
}

/// Releases the buffer of `col`, which is then empty. An absent buffer and an
/// empty one are left alone.
pub fn basis_float64_column_free(col: Option<&mut Float64Column>)
    ensures
        col matches Some(c) ==> final(c).data@ == Seq::<u64>::empty(),
{
    match col {
        Some(c) => {
            if c.data.len() > 0 {
                c.data = Vec::new();
            }
        },
        None => {},
    }
}

/// Releases the buffer of `col`, which is then empty. An absent buffer and an
/// empty one are left alone.
pub fn basis_bool_column_free(col: Option<&mut BoolColumn>)
    ensures
        col matches Some(c) ==> final(c).data@ == Seq::<bool>::empty(),
{
    match col {
        Some(c) => {
            if c.data.len() > 0 {
                c.data = Vec::new();
            }
        },
        None => {},
    }
}

/// Releases the buffer of `col` with every string in it; the buffer is then
/// empty. An absent buffer and an empty one are left alone.
pub fn basis_string_column_free(col: Option<&mut StringColumn>)
    ensures
        col matches Some(c) ==> final(c).data@ == Seq::<String>::empty(),
{
    match col {
        Some(c) => {
            if c.data.len() > 0 {
                c.data = Vec::new();
            }
        },
        None => {},
    }
}
/// The status that a request to add a column is owed before the engine is
/// asked: a null pointer where the handle or the name is absent, or where
/// the data is absent although `len` elements are announced; invalid text
/// where the name is not valid UTF-8.
pub open spec fn add_request_status(
    df_present: bool,
    name: Option<&[u8]>,
    data_present: bool,
    len: usize,
) -> int {
    if !df_present || name is None || (!data_present && len > 0) {
        -1
    } else if !valid_utf8(name->0@) {
        -2
    } else {
        0
    }
}

/// The message that goes with a failing status of a request to add a column.
pub open spec fn add_request_message(status: int) -> Seq<char> {
    if status == -1 {
        "null pointer"@
    } else {
        "invalid UTF-8 in column name"@
    }
}

/// Checks what the caller passed for a new column and gives the column's
/// name as text, or the failing status with its message in the slot.
pub fn checked_column_name<'a>(
    slot: &mut ErrorSlot,
    df_present: bool,
    name: Option<&'a [u8]>,
    data_present: bool,
    len: usize,
) -> (out: Result<&'a str, i32>)
    ensures
        out is Ok <==> add_request_status(df_present, name, data_present, len) == 0,
        out matches Ok(text) ==> text@ == text_of(name) && final(slot)@ == old(slot)@,
        out matches Err(status) ==> status == add_request_status(
            df_present,
            name,
            data_present,
            len,
        ) && final(slot)@ == recorded(add_request_message(status as int)),
{
    if !df_present || name.is_none() || (!data_present && len > 0) {
        return Err(fail(slot, BASIS_ERR_NULL_PTR, "null pointer"));
    }
    match decode(name.unwrap()) {
        Some(text) => Ok(text),
        None => Err(fail(slot, BASIS_ERR_INVALID_UTF8, "invalid UTF-8 in column name")),
    }
}

/// How the addition of `column` relates the table before and after it and
/// the status.
///
/// The engine takes the column exactly when it fits the table. Then the
/// status is 0, the slot stays, and the column stands under its name: in
/// place of the column of that name, or at the end. A column of one row for
/// a table of another height is stored with its row repeated to the table's
/// height; any other column is stored as it is. Where the column does not
/// fit, the status reports the engine's failure, the slot holds a message,
/// and the table stays as it was.
pub open spec fn add_relation(
    before: BasisDataFrame,
    after: BasisDataFrame,
    column: ColumnModel,
    status: int,
    slot_before: Option<Seq<char>>,
    slot_after: Option<Seq<char>>,
) -> bool {
    let fits = column_fits(before.columns(), before.height(), column);
    &&& status == if fits {
        0int
    } else {
        -6int
    }
    &&& fits ==> slot_after == slot_before
    &&& fits && column_settles(before.columns(), before.height(), column) ==> after.columns()
        == upsert(before.columns(), column) && after.height() == column.cells.len()
    &&& fits && !column_settles(before.columns(), before.height(), column) ==> is_repeat_upsert(
        after.columns(),
        before.columns(),
        column,
        before.height(),
    ) && after.height() == before.height()
    &&& !fits ==> after.frame() == before.frame()
    &&& !fits ==> exists|text: Seq<char>| slot_after == #[trigger] recorded(text)
}

/// Adds `column` to the table of `df`, or puts it in place of the column of
/// its name.
pub fn add_column(slot: &mut ErrorSlot, df: &mut BasisDataFrame, column: Column) -> (status: i32)
    ensures
        add_relation(
            *old(df),
            *final(df),
            column_model(column),
            status as int,
            old(slot)@,
            final(slot)@,
        ),
{
    match with_column(&mut df.inner, column) {
        Ok(()) => BASIS_OK,
        Err(e) => {
            let text = error_text(&e);
            slot.set_error(text.as_str());
            assert(final(slot)@ == recorded(text@));
            BASIS_ERR_POLARS
        },
    }
}

/// The elements of a buffer of the caller; an absent buffer has none.
pub open spec fn elements<T>(data: Option<&[T]>) -> Seq<T> {
    match data {
        Some(d) => d@,
        None => Seq::<T>::empty(),
    }
}

/// Adds a column of 64-bit integers called `name` to the table, or puts it in
/// place of the column of that name. `len` is the number of elements that the
/// caller announces; it is read only where `data` is absent.
pub fn basis_df_add_int64_column(
    slot: &mut ErrorSlot,
    df: Option<&mut BasisDataFrame>,
    name: Option<&[u8]>,
    data: Option<&[i64]>,
    len: usize,
) -> (status: i32)
    ensures
        add_request_status(df is Some, name, data is Some, len) != 0 ==> status
            == add_request_status(df is Some, name, data is Some, len),
        add_request_status(df is Some, name, data is Some, len) != 0 ==> final(slot)@
            == recorded(add_request_message(status as int)),
        add_request_status(df is Some, name, data is Some, len) != 0 ==> (df matches Some(d)
            ==> final(d).frame() == d.frame()),
        add_request_status(df is Some, name, data is Some, len) == 0 ==> (df matches Some(d)
            && add_relation(
            *d,
            *final(d),
            int64_model(text_of(name), elements(data)),
            status as int,
            old(slot)@,
            final(slot)@,
        )),
{
    let text = match checked_column_name(slot, df.is_some(), name, data.is_some(), len) {
        Ok(text) => text,
        Err(status) => {
            return status;
        },
    };
    let empty: Vec<i64> = Vec::new();
    let values: &[i64] = match data {
        Some(values) => values,
        None => empty.as_slice(),
    };
    assert(values@ == elements(data));
    match df {
        Some(handle) => add_column(slot, handle, int64_column(text, values)),
        None => BASIS_ERR_NULL_PTR,
    }
}

/// Adds a column of truth values called `name` to the table, or puts it in
/// place of the column of that name. `len` is the number of elements that the
/// caller announces; it is read only where `data` is absent.
pub fn basis_df_add_bool_column(
    slot: &mut ErrorSlot,
    df: Option<&mut BasisDataFrame>,
    name: Option<&[u8]>,
    data: Option<&[bool]>,
    len: usize,
) -> (status: i32)
    ensures
        add_request_status(df is Some, name, data is Some, len) != 0 ==> status
            == add_request_status(df is Some, name, data is Some, len),
        add_request_status(df is Some, name, data is Some, len) != 0 ==> final(slot)@
            == recorded(add_request_message(status as int)),
        add_request_status(df is Some, name, data is Some, len) != 0 ==> (df matches Some(d)
            ==> final(d).frame() == d.frame()),
        add_request_status(df is Some, name, data is Some, len) == 0 ==> (df matches Some(d)
            && add_relation(
            *d,
            *final(d),
            bool_model(text_of(name), elements(data)),
            status as int,
            old(slot)@,
            final(slot)@,
        )),
{
    let text = match checked_column_name(slot, df.is_some(), name, data.is_some(), len) {
        Ok(text) => text,
        Err(status) => {
            return status;
        },
    };
    let empty: Vec<bool> = Vec::new();
    let values: &[bool] = match data {
        Some(values) => values,
        None => empty.as_slice(),
    };
    assert(values@ == elements(data));
    match df {
        Some(handle) => add_column(slot, handle, bool_column(text, values)),
        None => BASIS_ERR_NULL_PTR,
    }
}
/// Whether an element of a string array of the caller is there and is not
/// valid UTF-8.
pub open spec fn is_invalid_item(item: Option<&[u8]>) -> bool {
    item matches Some(bytes) && !valid_utf8(bytes@)
}

/// Whether `index` is the position of the first element of `items` that is
/// not valid UTF-8.
pub open spec fn is_first_invalid(items: Seq<Option<&[u8]>>, index: int) -> bool {
    &&& 0 <= index < items.len()
    &&& is_invalid_item(items[index])
    &&& forall|j: int| 0 <= j < index ==> !is_invalid_item(#[trigger] items[j])
}

/// The strings that a string array of the caller holds: the empty string for
/// an absent element.
pub open spec fn item_texts(items: Seq<Option<&[u8]>>) -> Seq<Seq<char>> {
    items.map_values(|item: Option<&[u8]>| text_of(item))
}

/// The message for an element at `index` that is not valid UTF-8.
pub open spec fn invalid_item_message(index: int) -> Seq<char> {
    "invalid UTF-8 in string at index "@ + decimal(index as nat)
}

/// Decodes a string array of the caller, the empty string for an absent
/// element. The first element that is not valid UTF-8 ends it with a failure
/// that names the element's position.
pub fn decode_items(slot: &mut ErrorSlot, items: &[Option<&[u8]>]) -> (out: Result<
    Vec<String>,
    i32,
>)
    ensures
        out is Ok <==> forall|i: int|
            0 <= i < items@.len() ==> !is_invalid_item(#[trigger] items@[i]),
        out matches Ok(strings) ==> texts(strings@) == item_texts(items@) && final(slot)@ == old(
            slot,
        )@,
        out matches Err(status) ==> status == -2 && exists|index: int|
            #[trigger] is_first_invalid(items@, index) && final(slot)@ == recorded(
                invalid_item_message(index),
            ),
{
    let mut strings: Vec<String> = Vec::new();
    let mut i: usize = 0;
    while i < items.len()
        invariant
            i <= items@.len(),
            strings@.len() == i,
            *slot == *old(slot),
            forall|k: int| 0 <= k < i ==> !is_invalid_item(#[trigger] items@[k]),
            forall|k: int| 0 <= k < i ==> (#[trigger] strings@[k])@ == text_of(items@[k]),
        decreases items@.len() - i,
    {
        match items[i] {
            Some(bytes) => {
                match decode(bytes) {
                    Some(text) => {
                        strings.push(String::from_str(text));
                    },
                    None => {
                        let position = decimal_text(i);
                        let message = join2("invalid UTF-8 in string at index ", position.as_str());
                        let status = fail(slot, BASIS_ERR_INVALID_UTF8, message.as_str());
                        assert(is_first_invalid(items@, i as int));
                        return Err(status);
                    },
                }
            },
            None => {
                strings.push(String::new());
            },
        }
        i += 1;
    }
    assert(texts(strings@) =~= item_texts(items@));
    Ok(strings)
}

/// Adds a column of strings called `name` to the table, or puts it in place
/// of the column of that name. An absent element is the empty string. `len`
/// is the number of elements that the caller announces; it is read only
/// where `data` is absent.
pub fn basis_df_add_string_column(
    slot: &mut ErrorSlot,
    df: Option<&mut BasisDataFrame>,
    name: Option<&[u8]>,
    data: Option<&[Option<&[u8]>]>,
    len: usize,
) -> (status: i32)
    ensures
        add_request_status(df is Some, name, data is Some, len) != 0 ==> status
            == add_request_status(df is Some, name, data is Some, len),
        add_request_status(df is Some, name, data is Some, len) != 0 ==> final(slot)@
            == recorded(add_request_message(status as int)),
        status == -1 || status == -2 ==> (df matches Some(d) ==> final(d).frame() == d.frame()),
        add_request_status(df is Some, name, data is Some, len) == 0 && (exists|index: int|
            is_first_invalid(elements(data), index)) ==> status == -2 && exists|index: int|
            #[trigger] is_first_invalid(elements(data), index) && final(slot)@ == recorded(
                invalid_item_message(index),
            ),
        add_request_status(df is Some, name, data is Some, len) == 0 && !(exists|index: int|
            is_first_invalid(elements(data), index)) ==> (df matches Some(d) && add_relation(
            *d,
            *final(d),
            str_model(text_of(name), item_texts(elements(data))),
            status as int,
            old(slot)@,
            final(slot)@,
        )),
{
    let text = match checked_column_name(slot, df.is_some(), name, data.is_some(), len) {
        Ok(text) => text,
        Err(status) => {
            return status;
        },
    };
    let empty: Vec<Option<&[u8]>> = Vec::new();
    let items: &[Option<&[u8]>] = match data {
        Some(items) => items,
        None => empty.as_slice(),
    };
    assert(items@ == elements(data));
    let strings = match decode_items(slot, items) {
        Ok(strings) => strings,
        Err(status) => {
            return status;
        },
    };
    assert(!(exists|index: int| is_first_invalid(elements(data), index))) by {
        if exists|index: int| is_first_invalid(elements(data), index) {
            let index = choose|index: int| is_first_invalid(elements(data), index);
            assert(!is_invalid_item(items@[index]));
        }
    }
    match df {
        Some(handle) => add_column(slot, handle, str_column(text, strings.as_slice())),
        None => BASIS_ERR_NULL_PTR,
    }
}

/// The status codes of the additions are those of a failing request before
/// the engine is asked, success, and the engine's failure; no other.
pub proof fn lemma_add_statuses(
    before: BasisDataFrame,
    after: BasisDataFrame,
    column: ColumnModel,
    status: int,
    slot_before: Option<Seq<char>>,
    slot_after: Option<Seq<char>>,
)
    requires
        add_relation(before, after, column, status, slot_before, slot_after),
    ensures
        status == 0 || status == -6,
        status == 0 ==> has_column(after.columns(), column.name),
{
    if status == 0 {
        let stored = if column_settles(before.columns(), before.height(), column) {
            column
        } else {
            choose|stored: ColumnModel|
                #[trigger] is_repeat_of(stored, column, before.height()) && after.columns()
                    == upsert(before.columns(), stored)
        };
        assert(stored.name == column.name);
        assert(after.columns() == upsert(before.columns(), stored));
        if has_column(before.columns(), column.name) {
            lemma_position_exists(before.columns(), column.name);
            let i = column_position(before.columns(), column.name);
            assert(after.columns()[i].name == column.name);
        } else {
            let i = before.columns().len() as int;
            assert(after.columns()[i].name == column.name);
        }
    }
}
} // verus!
