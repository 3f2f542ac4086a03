//! The deferred query: a source, a projection and a conjunction of filter
//! predicates that are accumulated now and executed once, later.

use crate::engine::error_text;
use crate::error::{BoundaryError, ErrorKind};
use crate::frame::ParquetDataFrame;
use crate::reader::ParquetReader;
use crate::schema::FilterOp;
use crate::text::{join2, texts};
use polars::prelude::{DataFrame, PolarsError};
use vstd::prelude::*;
use vstd::string::StringExecFns;

verus! {

/// The literal of a filter predicate.
#[derive(Debug)]
pub enum Scalar {
    Int64(i64),
    Int32(i32),
    /// A double-precision number, as its IEEE 754 bit pattern.
    Float64(u64),
    /// A single-precision number, as its IEEE 754 bit pattern.
    Float32(u32),
    Str(String),
    Bool(bool),
}

/// What a literal holds.
pub ghost enum ScalarModel {
    Int64(i64),
    Int32(i32),
    Float64(u64),
    Float32(u32),
    Str(Seq<char>),
    Bool(bool),
}

impl View for Scalar {
    type V = ScalarModel;

    open spec fn view(&self) -> ScalarModel {
        match self {
            Scalar::Int64(v) => ScalarModel::Int64(*v),
            Scalar::Int32(v) => ScalarModel::Int32(*v),
            Scalar::Float64(v) => ScalarModel::Float64(*v),
            Scalar::Float32(v) => ScalarModel::Float32(*v),
            Scalar::Str(v) => ScalarModel::Str(v@),
            Scalar::Bool(v) => ScalarModel::Bool(*v),
        }
    }
}

impl Scalar {
    /// A copy of this literal.
    pub fn duplicate(&self) -> (copy: Scalar)
        ensures
            copy@ == self@,
    {
        match self {
            Scalar::Int64(v) => Scalar::Int64(*v),
            Scalar::Int32(v) => Scalar::Int32(*v),
            Scalar::Float64(v) => Scalar::Float64(*v),
            Scalar::Float32(v) => Scalar::Float32(*v),
            Scalar::Str(v) => Scalar::Str(v.clone()),
            Scalar::Bool(v) => Scalar::Bool(*v),
        }
    }
}

/// One comparison of a column with a literal.
#[derive(Debug)]
pub struct FilterPredicate {
    pub column: String,
    pub op: FilterOp,
    pub literal: Scalar,
}

/// What a predicate holds.
pub ghost struct PredicateModel {
    pub column: Seq<char>,
    pub op: FilterOp,
    pub literal: ScalarModel,
}

impl View for FilterPredicate {
    type V = PredicateModel;

    open spec fn view(&self) -> PredicateModel {
        PredicateModel { column: self.column@, op: self.op, literal: self.literal@ }
    }
}

impl FilterPredicate {
    /// A copy of this predicate.
    pub fn duplicate(&self) -> (copy: FilterPredicate)
        ensures
            copy@ == self@,
    {
        FilterPredicate {
            column: self.column.clone(),
            op: self.op,
            literal: self.literal.duplicate(),
        }
    }
}

/// What each predicate of `predicates` holds.
pub open spec fn predicate_models(predicates: Seq<FilterPredicate>) -> Seq<PredicateModel> {
    predicates.map_values(|p: FilterPredicate| p@)
}

/// The comparison with the code `code`: 0 to 5 for equal, not equal, less,
/// less or equal, greater, greater or equal. Any other code is no comparison.
pub open spec fn op_of_code(code: int) -> Option<FilterOp> {
    if code == 0 {
        Some(FilterOp::Eq)
    } else if code == 1 {
        Some(FilterOp::Ne)
    } else if code == 2 {
        Some(FilterOp::Lt)
    } else if code == 3 {
        Some(FilterOp::Le)
    } else if code == 4 {
        Some(FilterOp::Gt)
    } else if code == 5 {
        Some(FilterOp::Ge)
    } else {
        None
    }
}

/// The comparison that a caller names by `code`, or `None` for a code that
/// names none: such a comparison is rejected before it reaches a query.
pub fn filter_op_from_code(code: u8) -> (op: Option<FilterOp>)
    ensures
        op == op_of_code(code as int),
{
    if code == 0 {
        Some(FilterOp::Eq)
    } else if code == 1 {
        Some(FilterOp::Ne)
    } else if code == 2 {
        Some(FilterOp::Lt)
    } else if code == 3 {
        Some(FilterOp::Le)
    } else if code == 4 {
        Some(FilterOp::Gt)
    } else if code == 5 {
        Some(FilterOp::Ge)
    } else {
        None
    }
}

/// The comparison that a caller names by `code`, or the failure that rejects
/// a code that names none, before anything reaches a query.
pub fn checked_filter_op(code: u8) -> (out: Result<FilterOp, BoundaryError>)
    ensures
        out is Ok <==> op_of_code(code as int) is Some,
        out matches Ok(op) ==> Some(op) == op_of_code(code as int),
        out matches Err(error) ==> error.kind == ErrorKind::EngineError && error.message@
            == "unsupported comparison"@,
{
    match filter_op_from_code(code) {
        Some(op) => Ok(op),
        None => Err(
            BoundaryError {
                kind: ErrorKind::EngineError,
                message: String::from_str("unsupported comparison"),
            },
        ),
    }
}

/// The predicate that compares the column called `column` with `value`.
pub fn make_filter_expr(column: &str, op: FilterOp, value: Scalar) -> (predicate: FilterPredicate)
    ensures
        predicate@ == (PredicateModel { column: column@, op, literal: value@ }),
{
    FilterPredicate { column: String::from_str(column), op, literal: value }
}

/// A query that is being built.
///
/// It is changed only by [`parquet_query_select`] and the filter calls, and
/// it is consumed by [`parquet_query_collect`] or
/// [`parquet_query_collect_df`]: after that no query is left to run again.
pub struct ParquetQuery {
    path: String,
    columns: Vec<String>,
    filters: Vec<FilterPredicate>,
}

impl ParquetQuery {
    /// The path of the source file.
    pub closed spec fn source(&self) -> Seq<char> {
        self.path@
    }

    /// The projection: the names of the columns to read, in order. The empty
    /// projection stands for all columns.
    pub closed spec fn projection(&self) -> Seq<Seq<char>> {
        texts(self.columns@)
    }

    /// The predicates, in the order in which they were added. A row is kept
    /// when it satisfies every one of them.
    pub closed spec fn predicates(&self) -> Seq<PredicateModel> {
        predicate_models(self.filters@)
    }

    /// Adds `predicate` to the conjunction.
    pub fn push_filter(&mut self, predicate: FilterPredicate)
        ensures
            final(self).source() == old(self).source(),
            final(self).projection() == old(self).projection(),
            final(self).predicates() == old(self).predicates().push(predicate@),
    {
        self.filters.push(predicate);
        assert(predicate_models(self.filters@) =~= predicate_models(old(self).filters@).push(
            predicate@,
        ));
    }
}

/// The message of a query on a source that does not exist.
pub open spec fn missing_source_message(path: Seq<char>) -> Seq<char> {
    "File not found: "@ + path
}

/// A query on the file at `path`, without projection and without predicates.
/// `exists` tells whether the file is there: where it is not, no query is
/// made.
pub fn parquet_query_new(path: &str, exists: bool) -> (out: Result<ParquetQuery, BoundaryError>)
    ensures
        out is Ok <==> exists,
        out matches Ok(query) ==> query.source() == path@ && query.projection() == Seq::<
            Seq<char>,
        >::empty() && query.predicates() == Seq::<PredicateModel>::empty(),
        out matches Err(error) ==> error.kind == ErrorKind::IoError && error.message@
            == missing_source_message(path@),
{
    if !exists {
        return Err(
            BoundaryError { kind: ErrorKind::IoError, message: join2("File not found: ", path) },
        );
    }
    let query = ParquetQuery {
        path: String::from_str(path),
        columns: Vec::new(),
        filters: Vec::new(),
    };
    assert(query.projection() =~= Seq::<Seq<char>>::empty());
    assert(query.predicates() =~= Seq::<PredicateModel>::empty());
    Ok(query)
}

/// Sets the projection of `query` to `columns`, in place of the one it had.
pub fn parquet_query_select(query: &mut ParquetQuery, columns: Vec<String>)
    ensures
        final(query).source() == old(query).source(),
        final(query).projection() == texts(columns@),
        final(query).predicates() == old(query).predicates(),
{
    query.columns = columns;
}

/// Adds a comparison of the column called `column` with a 64-bit integer.
pub fn parquet_query_filter_i64(query: &mut ParquetQuery, column: &str, op: FilterOp, value: i64)
    ensures
        final(query).source() == old(query).source(),
        final(query).projection() == old(query).projection(),
        final(query).predicates() == old(query).predicates().push(
            PredicateModel { column: column@, op, literal: ScalarModel::Int64(value) },
        ),
{
    query.push_filter(make_filter_expr(column, op, Scalar::Int64(value)));
}

/// Adds a comparison of the column called `column` with a 32-bit integer.
pub fn parquet_query_filter_i32(query: &mut ParquetQuery, column: &str, op: FilterOp, value: i32)
    ensures
        final(query).source() == old(query).source(),
        final(query).projection() == old(query).projection(),
        final(query).predicates() == old(query).predicates().push(
            PredicateModel { column: column@, op, literal: ScalarModel::Int32(value) },
        ),
{
    query.push_filter(make_filter_expr(column, op, Scalar::Int32(value)));
}

/// Adds a comparison of the column called `column` with a double-precision
/// number, given as its bit pattern.
pub fn parquet_query_filter_f64(
    query: &mut ParquetQuery,
    column: &str,
    op: FilterOp,
    bits: u64,
)
    ensures
        final(query).source() == old(query).source(),
        final(query).projection() == old(query).projection(),
        final(query).predicates() == old(query).predicates().push(
            PredicateModel { column: column@, op, literal: ScalarModel::Float64(bits) },
        ),
{
    query.push_filter(make_filter_expr(column, op, Scalar::Float64(bits)));
}

/// Adds a comparison of the column called `column` with a single-precision
/// number, given as its bit pattern.
pub fn parquet_query_filter_f32(
    query: &mut ParquetQuery,
    column: &str,
    op: FilterOp,
    bits: u32,
)
    ensures
        final(query).source() == old(query).source(),
        final(query).projection() == old(query).projection(),
        final(query).predicates() == old(query).predicates().push(
            PredicateModel { column: column@, op, literal: ScalarModel::Float32(bits) },
        ),
{
    query.push_filter(make_filter_expr(column, op, Scalar::Float32(bits)));
}

/// Adds a comparison of the column called `column` with a string.
pub fn parquet_query_filter_str(query: &mut ParquetQuery, column: &str, op: FilterOp, value: &str)
    ensures
        final(query).source() == old(query).source(),
        final(query).projection() == old(query).projection(),
        final(query).predicates() == old(query).predicates().push(
            PredicateModel { column: column@, op, literal: ScalarModel::Str(value@) },
        ),
{
    query.push_filter(make_filter_expr(column, op, Scalar::Str(String::from_str(value))));
}

/// Adds a comparison of the column called `column` with a truth value.
pub fn parquet_query_filter_bool(
    query: &mut ParquetQuery,
    column: &str,
    op: FilterOp,
    value: bool,
)
    ensures
        final(query).source() == old(query).source(),
        final(query).projection() == old(query).projection(),
        final(query).predicates() == old(query).predicates().push(
            PredicateModel { column: column@, op, literal: ScalarModel::Bool(value) },
        ),
{
    query.push_filter(make_filter_expr(column, op, Scalar::Bool(value)));
}

/// One step of the execution of a query.
#[derive(Debug)]
pub enum PlanStep {
    /// Start a lazy scan of the file at this path.
    Scan(String),
    /// Restrict the plan to these columns, in this order.
    Select(Vec<String>),
    /// Keep the rows that satisfy this predicate.
    Filter(FilterPredicate),
    /// Materialize the result.
    Collect,
}

/// What a step holds.
pub ghost enum StepModel {
    Scan(Seq<char>),
    Select(Seq<Seq<char>>),
    Filter(PredicateModel),
    Collect,
}

impl View for PlanStep {
    type V = StepModel;

    open spec fn view(&self) -> StepModel {
        match self {
            PlanStep::Scan(path) => StepModel::Scan(path@),
            PlanStep::Select(columns) => StepModel::Select(texts(columns@)),
            PlanStep::Filter(predicate) => StepModel::Filter(predicate@),
            PlanStep::Collect => StepModel::Collect,
        }
    }
}

/// What each step of `steps` holds.
pub open spec fn step_models(steps: Seq<PlanStep>) -> Seq<StepModel> {
    steps.map_values(|s: PlanStep| s@)
}

/// The steps that execute a query: the scan of the source, then the
/// projection unless it is empty, then one filter for each predicate in the
/// order of accumulation, then the materialization.
pub open spec fn plan_of(
    source: Seq<char>,
    projection: Seq<Seq<char>>,
    predicates: Seq<PredicateModel>,
) -> Seq<StepModel> {
    let head = if projection.len() == 0 {
        seq![StepModel::Scan(source)]
    } else {
        seq![StepModel::Scan(source), StepModel::Select(projection)]
    };
    head + predicates.map_values(|p: PredicateModel| StepModel::Filter(p)) + seq![
        StepModel::Collect,
    ]
}

/// A copy of each string of `strings`.
fn copy_strings(strings: &Vec<String>) -> (out: Vec<String>)
    ensures
        texts(out@) == texts(strings@),
{
    let mut out: Vec<String> = Vec::new();
    let mut i: usize = 0;
    while i < strings.len()
        invariant
            i <= strings@.len(),
            out@.len() == i,
            forall|k: int| 0 <= k < i ==> (#[trigger] out@[k])@ == strings@[k]@,
        decreases strings@.len() - i,
    {
        out.push(strings[i].clone());
        i += 1;
    }
    assert(texts(out@) =~= texts(strings@));
    out
}

/// The steps that execute `query`, in order. The query itself stays as it
/// is: nothing is run here.
pub fn execute_query(query: &ParquetQuery) -> (steps: Vec<PlanStep>)
    ensures
        step_models(steps@) == plan_of(query.source(), query.projection(), query.predicates()),
{
    let mut steps: Vec<PlanStep> = Vec::new();
    steps.push(PlanStep::Scan(query.path.clone()));
    if query.columns.len() > 0 {
        steps.push(PlanStep::Select(copy_strings(&query.columns)));
    }
    let ghost head = step_models(steps@);
    let ghost filters = predicate_models(query.filters@);
    assert(head =~= if query.projection().len() == 0 {
        seq![StepModel::Scan(query.source())]
    } else {
        seq![StepModel::Scan(query.source()), StepModel::Select(query.projection())]
    });
    let mut i: usize = 0;
    while i < query.filters.len()
        invariant
            i <= query.filters@.len(),
            filters == predicate_models(query.filters@),
            step_models(steps@) == head + filters.take(i as int).map_values(
                |p: PredicateModel| StepModel::Filter(p),
            ),
        decreases query.filters@.len() - i,
    {
        let ghost before = step_models(steps@);
        steps.push(PlanStep::Filter(query.filters[i].duplicate()));
        assert(step_models(steps@) =~= before.push(StepModel::Filter(filters[i as int])));
        assert(filters.take(i + 1).map_values(|p: PredicateModel| StepModel::Filter(p))
            =~= filters.take(i as int).map_values(|p: PredicateModel| StepModel::Filter(p)).push(
            StepModel::Filter(filters[i as int]),
        ));
        i += 1;
    }
    assert(filters.take(i as int) =~= filters);
    let ghost before = step_models(steps@);
    steps.push(PlanStep::Collect);
    assert(step_models(steps@) =~= before.push(StepModel::Collect));
    assert(before.push(StepModel::Collect) =~= before + seq![StepModel::Collect]);
    steps
}

/// The order of execution: the scan comes first and the materialization
/// last; a projection, if there is one, comes directly after the scan; the
/// filters follow in the order in which the predicates were added.
pub proof fn lemma_plan_order(
    source: Seq<char>,
    projection: Seq<Seq<char>>,
    predicates: Seq<PredicateModel>,
)
    ensures
        ({
            let plan = plan_of(source, projection, predicates);
            let first = if projection.len() == 0 {
                1int
            } else {
                2int
            };
            &&& plan.len() == first + predicates.len() + 1
            &&& plan[0] == StepModel::Scan(source)
            &&& projection.len() > 0 ==> plan[1] == StepModel::Select(projection)
            &&& forall|k: int|
                0 <= k < predicates.len() ==> #[trigger] plan[first + k] == StepModel::Filter(
                    predicates[k],
                )
            &&& plan[plan.len() - 1] == StepModel::Collect
        }),
{
}

/// A predicate that is added to a query only adds its filter to the plan,
/// after the filters that were there and before the materialization.
pub proof fn lemma_filters_accumulate(
    source: Seq<char>,
    projection: Seq<Seq<char>>,
    predicates: Seq<PredicateModel>,
    added: PredicateModel,
)
    ensures
        plan_of(source, projection, predicates.push(added)) == plan_of(
            source,
            projection,
            predicates,
        ).drop_last().push(StepModel::Filter(added)).push(StepModel::Collect),
{
    assert(plan_of(source, projection, predicates.push(added)) =~= plan_of(
        source,
        projection,
        predicates,
    ).drop_last().push(StepModel::Filter(added)).push(StepModel::Collect));
}

/// Ends `query` with what its execution gave: a table to read by copying, or
/// the engine's failure. The query is consumed either way.
pub fn parquet_query_collect(
    query: ParquetQuery,
    outcome: Result<DataFrame, PolarsError>,
) -> (out: Result<ParquetReader, BoundaryError>)
    ensures
        out is Ok <==> outcome is Ok,
        out matches Ok(reader) ==> Ok::<DataFrame, PolarsError>(reader.frame()) == outcome,
        out matches Err(error) ==> error.kind == ErrorKind::EngineError,
{
    match outcome {
        Ok(df) => Ok(ParquetReader::new(df)),
        Err(e) => Err(BoundaryError { kind: ErrorKind::EngineError, message: error_text(&e) }),
    }
}

/// Ends `query` with what its execution gave: a table to read in place, or
/// the engine's failure. The query is consumed either way.
pub fn parquet_query_collect_df(
    query: ParquetQuery,
    outcome: Result<DataFrame, PolarsError>,
) -> (out: Result<ParquetDataFrame, BoundaryError>)
    ensures
        out is Ok <==> outcome is Ok,
        out matches Ok(handle) ==> Ok::<DataFrame, PolarsError>(handle.frame()) == outcome
            && handle.generation() == 0,
        out matches Err(error) ==> error.kind == ErrorKind::EngineError,
{
    match outcome {
        Ok(df) => Ok(ParquetDataFrame::new(df)),
        Err(e) => Err(BoundaryError { kind: ErrorKind::EngineError, message: error_text(&e) }),
    }
}
} // verus!
