//! The plain types shared across the boundary, and the mathematical model of
//! a table that the contracts of this crate speak of.

use vstd::prelude::*;

verus! {

/// Element type of a column as it is reported across the boundary.
#[derive(Clone, Copy, Debug, PartialEq, Eq, Structural)]
pub enum ColumnType {
    Int64,
    Int32,
    UInt64,
    Float64,
    Float32,
    String,
    Bool,
    /// Milliseconds since the epoch.
    DateTime,
    /// Any element type that has no tag of its own.
    Unknown,
}

/// Name and element type of one column.
#[derive(Clone, Debug)]
pub struct ColumnInfo {
    pub name: String,
    pub dtype: ColumnType,
}

impl View for ColumnInfo {
    type V = (Seq<char>, ColumnType);

    open spec fn view(&self) -> (Seq<char>, ColumnType) {
        (self.name@, self.dtype)
    }
}

/// Comparison of a filter predicate.
#[derive(Clone, Copy, Debug, PartialEq, Eq, Structural)]
pub enum FilterOp {
    Eq,
    Ne,
    Lt,
    Le,
    Gt,
    Ge,
}

/// A borrowed view of one contiguous run of a column's storage.
///
/// It may be read only while the table that issued it is alive and has not
/// been compacted since: `generation` is the table's count of compactions at
/// the time of issue.
#[derive(Clone, Copy, Debug, PartialEq, Eq, Structural)]
pub struct ColumnChunk {
    /// Address of the first element; for a boolean column, of the bit-packed
    /// values, eight elements to a byte.
    pub ptr: usize,
    /// Number of elements.
    pub len: usize,
    /// The issuing table's count of compactions at the time of issue.
    pub generation: u64,
}

/// One value of a column, as far as this crate reads values.
pub ghost enum Cell {
    /// An absent value.
    Null,
    Int64(i64),
    Int32(i32),
    /// A double-precision number, as its IEEE 754 bit pattern.
    Float64(u64),
    /// A single-precision number, as its IEEE 754 bit pattern.
    Float32(u32),
    Str(Seq<char>),
    Bool(bool),
    /// A value of an element type that this crate does not read.
    Other,
}

/// What a table holds of one column.
pub ghost struct ColumnModel {
    pub name: Seq<char>,
    pub dtype: ColumnType,
    /// The length of each contiguous run of storage, in order.
    pub chunks: Seq<nat>,
    /// The values, one per row.
    pub cells: Seq<Cell>,
}

/// The integer that a cell of a 64-bit integer column holds.
pub open spec fn cell_int64(cell: Cell) -> Option<i64> {
    match cell {
        Cell::Int64(v) => Some(v),
        _ => None,
    }
}

/// The integer that a cell of a 32-bit integer column holds.
pub open spec fn cell_int32(cell: Cell) -> Option<i32> {
    match cell {
        Cell::Int32(v) => Some(v),
        _ => None,
    }
}

/// The bit pattern that a cell of a double-precision column holds.
pub open spec fn cell_float64(cell: Cell) -> Option<u64> {
    match cell {
        Cell::Float64(bits) => Some(bits),
        _ => None,
    }
}

/// The bit pattern that a cell of a single-precision column holds.
pub open spec fn cell_float32(cell: Cell) -> Option<u32> {
    match cell {
        Cell::Float32(bits) => Some(bits),
        _ => None,
    }
}

/// The text that a cell of a string column holds.
pub open spec fn cell_str(cell: Cell) -> Option<Seq<char>> {
    match cell {
        Cell::Str(v) => Some(v),
        _ => None,
    }
}

/// The truth value that a cell of a boolean column holds.
pub open spec fn cell_bool(cell: Cell) -> Option<bool> {
    match cell {
        Cell::Bool(v) => Some(v),
        _ => None,
    }
}

/// A column of 64-bit integers without an absent value, stored in one run.
pub open spec fn int64_model(name: Seq<char>, data: Seq<i64>) -> ColumnModel {
    ColumnModel {
        name,
        dtype: ColumnType::Int64,
        chunks: seq![data.len()],
        cells: data.map_values(|v: i64| Cell::Int64(v)),
    }
}

/// A column of 32-bit integers without an absent value, stored in one run.
pub open spec fn int32_model(name: Seq<char>, data: Seq<i32>) -> ColumnModel {
    ColumnModel {
        name,
        dtype: ColumnType::Int32,
        chunks: seq![data.len()],
        cells: data.map_values(|v: i32| Cell::Int32(v)),
    }
}

/// A column of truth values without an absent value, stored in one run.
pub open spec fn bool_model(name: Seq<char>, data: Seq<bool>) -> ColumnModel {
    ColumnModel {
        name,
        dtype: ColumnType::Bool,
        chunks: seq![data.len()],
        cells: data.map_values(|v: bool| Cell::Bool(v)),
    }
}

/// A column of strings without an absent value, stored in one run.
pub open spec fn str_model(name: Seq<char>, data: Seq<Seq<char>>) -> ColumnModel {
    ColumnModel {
        name,
        dtype: ColumnType::String,
        chunks: seq![data.len()],
        cells: data.map_values(|v: Seq<char>| Cell::Str(v)),
    }
}

/// The names of `columns`, in order.
pub open spec fn column_names(columns: Seq<ColumnModel>) -> Seq<Seq<char>> {
    columns.map_values(|c: ColumnModel| c.name)
}

/// Whether some column of `columns` is called `name`.
pub open spec fn has_column(columns: Seq<ColumnModel>, name: Seq<char>) -> bool {
    exists|i: int| 0 <= i < columns.len() && (#[trigger] columns[i]).name == name
}

/// Whether `index` is the position of the first column called `name`.
pub open spec fn is_position(columns: Seq<ColumnModel>, name: Seq<char>, index: int) -> bool {
    &&& 0 <= index < columns.len()
    &&& columns[index].name == name
    &&& forall|j: int| 0 <= j < index ==> (#[trigger] columns[j]).name != name
}

/// The position of the first column called `name`. It means something only
/// where `has_column` holds.
pub open spec fn column_position(columns: Seq<ColumnModel>, name: Seq<char>) -> int {
    choose|index: int| is_position(columns, name, index)
}

/// A name that some column at or before `bound` has, has a position.
proof fn lemma_first_occurrence(columns: Seq<ColumnModel>, name: Seq<char>, bound: int)
    requires
        0 <= bound < columns.len(),
        columns[bound].name == name,
    ensures
        exists|index: int| is_position(columns, name, index),
    decreases bound,
{
    if forall|j: int| 0 <= j < bound ==> (#[trigger] columns[j]).name != name {
        assert(is_position(columns, name, bound));
    } else {
        let j = choose|j: int| 0 <= j < bound && (#[trigger] columns[j]).name == name;
        lemma_first_occurrence(columns, name, j);
    }
}

/// The name of a column of the table has a position.
pub proof fn lemma_position_exists(columns: Seq<ColumnModel>, name: Seq<char>)
    requires
        has_column(columns, name),
    ensures
        is_position(columns, name, column_position(columns, name)),
{
    let i = choose|i: int| 0 <= i < columns.len() && (#[trigger] columns[i]).name == name;
    lemma_first_occurrence(columns, name, i);
}

/// A name has at most one position.
pub proof fn lemma_position_unique(columns: Seq<ColumnModel>, name: Seq<char>, index: int)
    requires
        is_position(columns, name, index),
    ensures
        has_column(columns, name),
        column_position(columns, name) == index,
{
    let chosen = column_position(columns, name);
    assert(is_position(columns, name, chosen));
    if chosen < index {
        assert(columns[chosen].name != name);
    } else if index < chosen {
        assert(columns[index].name != name);
    }
}

/// `columns` with `column` put under its name: in place of the column of that
/// name where there is one, which keeps its position, and at the end
/// otherwise.
pub open spec fn upsert(columns: Seq<ColumnModel>, column: ColumnModel) -> Seq<ColumnModel> {
    if has_column(columns, column.name) {
        columns.update(column_position(columns, column.name), column)
    } else {
        columns.push(column)
    }
}

/// Whether a table of `columns` and `height` rows takes `column`: a table
/// without columns takes any column, another one takes a column of as many
/// rows as it has or of one row.
pub open spec fn column_fits(columns: Seq<ColumnModel>, height: nat, column: ColumnModel) -> bool {
    columns.len() == 0 || column.cells.len() == height || column.cells.len() == 1
}

/// Whether a table of `columns` and `height` rows stores `column` as it is:
/// it fits, and it is not a column of one row for a table of more rows.
pub open spec fn column_settles(
    columns: Seq<ColumnModel>,
    height: nat,
    column: ColumnModel,
) -> bool {
    &&& columns.len() == 0 || column.cells.len() == height
    &&& !(column.cells.len() == 1 && height > 1)
}

/// `stored` is `column` with its first row repeated to `height` rows, under
/// the same name and element type.
pub open spec fn is_repeat_of(stored: ColumnModel, column: ColumnModel, height: nat) -> bool {
    &&& stored.name == column.name
    &&& stored.dtype == column.dtype
    &&& stored.cells == Seq::new(height, |i: int| column.cells[0])
}

/// `after` is `before` with `column` put under its name, its first row
/// repeated to `height` rows.
pub open spec fn is_repeat_upsert(
    after: Seq<ColumnModel>,
    before: Seq<ColumnModel>,
    column: ColumnModel,
    height: nat,
) -> bool {
    exists|stored: ColumnModel|
        #[trigger] is_repeat_of(stored, column, height) && after == upsert(before, stored)
}

/// No two columns share a name.
pub open spec fn names_distinct(columns: Seq<ColumnModel>) -> bool {
    forall|i: int, j: int|
        0 <= i < j < columns.len() ==> (#[trigger] columns[i]).name != (#[trigger] columns[j]).name
}

/// All columns have as many rows as the first.
pub open spec fn lengths_equal(columns: Seq<ColumnModel>) -> bool {
    forall|i: int|
        0 <= i < columns.len() ==> (#[trigger] columns[i]).cells.len() == columns[0].cells.len()
}

/// Whether `columns` can make a table: distinct names, equal lengths.
pub open spec fn frame_accepts(columns: Seq<ColumnModel>) -> bool {
    names_distinct(columns) && lengths_equal(columns)
}

/// The number of rows of a table made of `columns`: the length of the first,
/// and 0 without columns.
pub open spec fn table_height(columns: Seq<ColumnModel>) -> nat {
    if columns.len() == 0 {
        0
    } else {
        columns[0].cells.len()
    }
}

/// `head` is `column` cut off after its first `n` rows.
pub open spec fn is_head_of(head: ColumnModel, column: ColumnModel, n: nat) -> bool {
    &&& head.name == column.name
    &&& head.dtype == column.dtype
    &&& head.cells == column.cells.take(vstd::math::min(n as int, column.cells.len() as int))
}

/// `projected` holds the columns of `table` that `names` calls, in the order
/// of `names`, each with the name, element type and values that it has in
/// `table`.
pub open spec fn is_projection(
    projected: Seq<ColumnModel>,
    table: Seq<ColumnModel>,
    names: Seq<Seq<char>>,
) -> bool {
    &&& projected.len() == names.len()
    &&& forall|k: int|
        0 <= k < names.len() ==> has_column(table, #[trigger] names[k]) && projected[k].name
            == names[k] && projected[k].dtype == table[column_position(table, names[k])].dtype
            && projected[k].cells == table[column_position(table, names[k])].cells
}

/// A projection of a table on distinct names has exactly as many columns as
/// there are names, in the order of the names. Each of the names is found in
/// it, with the element type and the values that its column has in the
/// table: a request that the table would have met, the projection meets too.
pub proof fn lemma_projection_resolves(
    projected: Seq<ColumnModel>,
    table: Seq<ColumnModel>,
    names: Seq<Seq<char>>,
    k: int,
)
    requires
        is_projection(projected, table, names),
        forall|i: int, j: int| 0 <= i < j < names.len() ==> names[i] != names[j],
        0 <= k < names.len(),
    ensures
        projected.len() == names.len(),
        column_names(projected) == names,
        has_column(projected, names[k]),
        column_position(projected, names[k]) == k,
        projected[k].dtype == table[column_position(table, names[k])].dtype,
        projected[k].cells == table[column_position(table, names[k])].cells,
{
    assert(column_names(projected) =~= names) by {
        assert forall|i: int| 0 <= i < names.len() implies column_names(projected)[i]
            == names[i] by {
            assert(has_column(table, names[i]));
        }
    }
    assert(has_column(table, names[k]));
    assert(is_position(projected, names[k], k)) by {
        assert forall|j: int| 0 <= j < k implies (#[trigger] projected[j]).name != names[k] by {
            assert(has_column(table, names[j]));
        }
    }
    lemma_position_unique(projected, names[k], k);
}

/// Whether some column is stored in more than one run.
pub open spec fn is_fragmented(columns: Seq<ColumnModel>) -> bool {
    exists|i: int| 0 <= i < columns.len() && (#[trigger] columns[i]).chunks.len() > 1
}

/// One column after compaction: a column of several runs becomes one run that
/// holds every row, any other column stays as it is.
pub open spec fn compact_column(column: ColumnModel) -> ColumnModel {
    if column.chunks.len() > 1 {
        ColumnModel { chunks: seq![column.cells.len()], ..column }
    } else {
        column
    }
}

/// A table's columns after compaction.
pub open spec fn compacted(columns: Seq<ColumnModel>) -> Seq<ColumnModel> {
    columns.map_values(|c: ColumnModel| compact_column(c))
}

/// Compaction leaves no column in more than one run, and compacting again
/// changes nothing.
pub proof fn lemma_compacted_is_whole(columns: Seq<ColumnModel>)
    ensures
        !is_fragmented(compacted(columns)),
        compacted(compacted(columns)) == compacted(columns),
        !is_fragmented(columns) ==> compacted(columns) == columns,
{
    assert(compacted(compacted(columns)) =~= compacted(columns));
    if !is_fragmented(columns) {
        assert forall|i: int| 0 <= i < columns.len() implies compacted(columns)[i]
            == columns[i] by {
            assert(!(columns[i].chunks.len() > 1));
        }
        assert(compacted(columns) =~= columns);
    }
}

} // verus!
