//! The column accumulator: named columns are added one by one and then
//! committed as one table.

use crate::engine::{
    bool_column, column_model, column_models, error_text, frame_columns, frame_from_columns,
    frame_height, int32_column, int64_column, name_of_column, str_column,
};
use crate::error::{BoundaryError, ErrorKind};
use crate::schema::{
    bool_model, column_names, column_position, has_column, int32_model, int64_model,
    is_position, lemma_position_exists, lemma_position_unique, lengths_equal, names_distinct,
    str_model, table_height, upsert, ColumnModel,
};
use crate::text::texts;
use polars::prelude::{Column, DataFrame};
use vstd::prelude::*;
use vstd::string::StringExecFns;

verus! {

/// An append-only collection of named columns for one output file.
///
/// A name that is added again keeps the position of its first occurrence and
/// gets the data of the last one.
pub struct ParquetWriter {
    path: String,
    columns: Vec<Column>,
}

/// The table that a writer has assembled, and the path to persist it at.
pub struct AssembledTable {
    pub path: String,
    pub frame: DataFrame,
}

impl ParquetWriter {
    /// What every writer satisfies: no two accumulated columns share a name.
    pub closed spec fn wf(&self) -> bool {
        names_distinct(column_models(self.columns@))
    }

    /// The path of the output file.
    pub closed spec fn path(&self) -> Seq<char> {
        self.path@
    }

    /// The accumulated columns, in output order.
    pub closed spec fn columns(&self) -> Seq<ColumnModel> {
        column_models(self.columns@)
    }

    /// The names of the accumulated columns, in output order.
    pub open spec fn order(&self) -> Seq<Seq<char>> {
        column_names(self.columns())
    }

    /// A writer for the file at `path`, without columns.
    pub fn new(path: &str) -> (writer: ParquetWriter)
        ensures
            writer.wf(),
            writer.path() == path@,
            writer.columns() == Seq::<ColumnModel>::empty(),
    {
        let writer = ParquetWriter { path: String::from_str(path), columns: Vec::new() };
        assert(writer.columns() =~= Seq::<ColumnModel>::empty());
        writer
    }

    /// The position of the column called `name`, if there is one.
    fn position_of(&self, name: &String) -> (out: Option<usize>)
        ensures
            out is Some <==> has_column(self.columns(), name@),
            out matches Some(i) ==> is_position(self.columns(), name@, i as int),
    {
        let mut i: usize = 0;
        while i < self.columns.len()
            invariant
                i <= self.columns@.len(),
                forall|k: int|
                    0 <= k < i ==> (#[trigger] column_models(self.columns@)[k]).name != name@,
            decreases self.columns@.len() - i,
        {
            let candidate = name_of_column(&self.columns[i]);
            if candidate == *name {
                assert(column_models(self.columns@)[i as int].name == name@);
                return Some(i);
            }
            i += 1;
        }
        None
    }

    /// Puts `column` under its name: in place of the column of that name
    /// where there is one, at the end otherwise.
    pub fn add_column(&mut self, column: Column)
        requires
            old(self).wf(),
        ensures
            final(self).wf(),
            final(self).path() == old(self).path(),
            final(self).columns() == upsert(old(self).columns(), column_model(column)),
    {
        let name = name_of_column(&column);
        let ghost before = column_models(self.columns@);
        match self.position_of(&name) {
            Some(i) => {
                proof {
                    lemma_position_unique(before, name@, i as int);
                }
                self.columns.set(i, column);
                assert(column_models(self.columns@) =~= before.update(
                    i as int,
                    column_model(column),
                ));
            },
            None => {
                self.columns.push(column);
                assert(column_models(self.columns@) =~= before.push(column_model(column)));
            },
        }
    }
}

/// A writer for the file at `path`, without columns.
pub fn parquet_writer_new(path: &str) -> (out: Result<ParquetWriter, BoundaryError>)
    ensures
        out matches Ok(writer) && writer.wf() && writer.path() == path@ && writer.columns()
            == Seq::<ColumnModel>::empty(),
{
    Ok(ParquetWriter::new(path))
}

/// Adds the 64-bit integer column `data` under `name`.
pub fn parquet_writer_add_i64_column(
    writer: &mut ParquetWriter,
    name: &str,
    data: &[i64],
) -> (out: Result<(), BoundaryError>)
    requires
        old(writer).wf(),
    ensures
        out is Ok,
        final(writer).wf(),
        final(writer).path() == old(writer).path(),
        final(writer).columns() == upsert(old(writer).columns(), int64_model(name@, data@)),
{
    writer.add_column(int64_column(name, data));
    Ok(())
}

/// Adds the 32-bit integer column `data` under `name`.
pub fn parquet_writer_add_i32_column(
    writer: &mut ParquetWriter,
    name: &str,
    data: &[i32],
) -> (out: Result<(), BoundaryError>)
    requires
        old(writer).wf(),
    ensures
        out is Ok,
        final(writer).wf(),
        final(writer).path() == old(writer).path(),
        final(writer).columns() == upsert(old(writer).columns(), int32_model(name@, data@)),
{
    writer.add_column(int32_column(name, data));
    Ok(())
}

/// Adds the string column `data` under `name`.
pub fn parquet_writer_add_string_column(
    writer: &mut ParquetWriter,
    name: &str,
    data: &[String],
) -> (out: Result<(), BoundaryError>)
    requires
        old(writer).wf(),
    ensures
        out is Ok,
        final(writer).wf(),
        final(writer).path() == old(writer).path(),
        final(writer).columns() == upsert(old(writer).columns(), str_model(name@, texts(data@))),
{
    writer.add_column(str_column(name, data));
    Ok(())
}

/// Adds the boolean column `data` under `name`.
pub fn parquet_writer_add_bool_column(
    writer: &mut ParquetWriter,
    name: &str,
    data: &[bool],
) -> (out: Result<(), BoundaryError>)
    requires
        old(writer).wf(),
    ensures
        out is Ok,
        final(writer).wf(),
        final(writer).path() == old(writer).path(),
        final(writer).columns() == upsert(old(writer).columns(), bool_model(name@, data@)),
{
    writer.add_column(bool_column(name, data));
    Ok(())
}

/// Commits the accumulated columns as one table, in their order.
///
/// A writer without columns fails with the message "No columns to write":
/// no table of zero columns is made. Columns of different lengths fail with
/// the engine's message. Nothing is persisted here: the caller writes the
/// table that comes back to the path that comes with it.
pub fn parquet_writer_finish(writer: ParquetWriter) -> (out: Result<AssembledTable, BoundaryError>)
    requires
        writer.wf(),
    ensures
        out is Ok <==> writer.columns().len() > 0 && lengths_equal(writer.columns()),
        out matches Ok(table) ==> table.path@ == writer.path() && frame_columns(table.frame)
            == writer.columns() && frame_height(table.frame) == table_height(writer.columns()),
        out matches Err(error) ==> error.kind == ErrorKind::EngineError,
        out matches Err(error) ==> (writer.columns().len() == 0 ==> error.message@
            == "No columns to write"@),
{
    if writer.columns.len() == 0 {
        return Err(
            BoundaryError {
                kind: ErrorKind::EngineError,
                message: String::from_str("No columns to write"),
            },
        );
    }
    match frame_from_columns(writer.columns) {
        Ok(frame) => Ok(AssembledTable { path: writer.path, frame }),
        Err(e) => Err(BoundaryError { kind: ErrorKind::EngineError, message: error_text(&e) }),
    }
}

/// Adding a column keeps the names distinct. A name that is there already
/// keeps its position and the order stays as it was; a new name goes to the
/// end. Either way the column under that name is then the one just added.
pub proof fn lemma_upsert(columns: Seq<ColumnModel>, column: ColumnModel)
    requires
        names_distinct(columns),
    ensures
        names_distinct(upsert(columns, column)),
        has_column(columns, column.name) ==> column_names(upsert(columns, column)) == column_names(
            columns,
        ),
        !has_column(columns, column.name) ==> column_names(upsert(columns, column))
            == column_names(columns).push(column.name),
        has_column(upsert(columns, column), column.name),
        upsert(columns, column)[column_position(upsert(columns, column), column.name)] == column,
{
    let after = upsert(columns, column);
    if has_column(columns, column.name) {
        let i = column_position(columns, column.name);
        lemma_position_exists(columns, column.name);
        assert(column_names(after) =~= column_names(columns));
        assert forall|a: int, b: int| 0 <= a < b < after.len() implies (#[trigger] after[a]).name
            != (#[trigger] after[b]).name by {
            assert(columns[a].name != columns[b].name);
        }
        assert(after[i].name == column.name);
        assert forall|j: int| 0 <= j < i implies (#[trigger] after[j]).name != column.name by {
            assert(columns[j].name != columns[i].name);
        }
        lemma_position_unique(after, column.name, i);
    } else {
        assert(column_names(after) =~= column_names(columns).push(column.name));
        assert forall|a: int, b: int| 0 <= a < b < after.len() implies (#[trigger] after[a]).name
            != (#[trigger] after[b]).name by {
            if b < columns.len() {
                assert(columns[a].name != columns[b].name);
            } else {
                assert(columns[a].name != column.name);
            }
        }
        let i = columns.len() as int;
        assert(after[i].name == column.name);
        assert forall|j: int| 0 <= j < i implies (#[trigger] after[j]).name != column.name by {
            assert(columns[j].name != column.name);
        }
        lemma_position_unique(after, column.name, i);
    }
}

/// Of three additions to an empty writer, under a first name, a second name
/// and the first name again, the result holds the first name's column and
/// then the second name's, and the first name's data is that of the third
/// addition.
pub proof fn lemma_last_write_first_position(
    first: ColumnModel,
    second: ColumnModel,
    third: ColumnModel,
)
    requires
        first.name != second.name,
        third.name == first.name,
    ensures
        upsert(upsert(upsert(Seq::<ColumnModel>::empty(), first), second), third) == seq![
            third,
            second,
        ],
        column_names(seq![third, second]) == seq![first.name, second.name],
{
    let empty = Seq::<ColumnModel>::empty();
    let one = upsert(empty, first);
    assert(!has_column(empty, first.name));
    assert(one =~= seq![first]);
    assert(!has_column(one, second.name)) by {
        if has_column(one, second.name) {
            let i = choose|i: int| 0 <= i < one.len() && (#[trigger] one[i]).name == second.name;
            assert(one[i] == first);
        }
    }
    let two = upsert(one, second);
    assert(two =~= seq![first, second]);
    assert(is_position(two, third.name, 0));
    lemma_position_unique(two, third.name, 0);
    assert(upsert(two, third) =~= seq![third, second]);
    assert(column_names(seq![third, second]) =~= seq![first.name, second.name]);
}
} // verus!
