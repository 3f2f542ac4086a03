use basis_rs::error::ErrorKind;
use basis_rs::query::{
    checked_filter_op, execute_query, filter_op_from_code, make_filter_expr,
    parquet_query_filter_bool, parquet_query_filter_f32, parquet_query_filter_f64,
    parquet_query_filter_i32, parquet_query_filter_i64, parquet_query_filter_str,
    parquet_query_new, parquet_query_select, PlanStep, Scalar,
};
use basis_rs::schema::FilterOp;

fn strings(items: &[&str]) -> Vec<String> {
    items.iter().map(|s| s.to_string()).collect()
}

fn describe(step: &PlanStep) -> String {
    match step {
        PlanStep::Scan(path) => format!("scan {path}"),
        PlanStep::Select(columns) => format!("select {}", columns.join(",")),
        PlanStep::Filter(p) => format!("filter {} {:?} {:?}", p.column, p.op, p.literal),
        PlanStep::Collect => "collect".to_string(),
    }
}

#[test]
fn query_on_a_missing_source_is_never_made() {
    let error = parquet_query_new("/no/such/file.parquet", false).err().unwrap();
    assert_eq!(error.kind, ErrorKind::IoError);
    assert_eq!(error.message, "File not found: /no/such/file.parquet");
}

#[test]
fn empty_query_scans_and_collects() {
    let query = parquet_query_new("data.parquet", true).unwrap();
    let plan: Vec<String> = execute_query(&query).iter().map(describe).collect();
    assert_eq!(plan, strings(&["scan data.parquet", "collect"]));
}

#[test]
fn projection_comes_before_the_filters_in_their_order() {
    let mut query = parquet_query_new("data.parquet", true).unwrap();
    parquet_query_filter_i64(&mut query, "id", FilterOp::Ge, 2);
    parquet_query_select(&mut query, strings(&["name", "score"]));
    parquet_query_filter_str(&mut query, "name", FilterOp::Ne, "bob");
    parquet_query_filter_bool(&mut query, "flag", FilterOp::Eq, true);
    parquet_query_filter_i32(&mut query, "small", FilterOp::Lt, -1);
    let plan: Vec<String> = execute_query(&query).iter().map(describe).collect();
    assert_eq!(
        plan,
        strings(&[
            "scan data.parquet",
            "select name,score",
            "filter id Ge Int64(2)",
            "filter name Ne Str(\"bob\")",
            "filter flag Eq Bool(true)",
            "filter small Lt Int32(-1)",
            "collect",
        ])
    );
}

#[test]
fn select_replaces_the_projection() {
    let mut query = parquet_query_new("d", true).unwrap();
    parquet_query_select(&mut query, strings(&["a", "b"]));
    parquet_query_select(&mut query, strings(&["c"]));
    let plan: Vec<String> = execute_query(&query).iter().map(describe).collect();
    assert_eq!(plan, strings(&["scan d", "select c", "collect"]));
    parquet_query_select(&mut query, Vec::new());
    let plan: Vec<String> = execute_query(&query).iter().map(describe).collect();
    assert_eq!(plan, strings(&["scan d", "collect"]));
}

#[test]
fn float_literals_travel_as_bit_patterns() {
    let mut query = parquet_query_new("d", true).unwrap();
    parquet_query_filter_f64(&mut query, "score", FilterOp::Gt, 80.0f64.to_bits());
    parquet_query_filter_f32(&mut query, "ratio", FilterOp::Le, 0.5f32.to_bits());
    let steps = execute_query(&query);
    match &steps[1] {
        PlanStep::Filter(p) => match p.literal {
            Scalar::Float64(bits) => assert_eq!(f64::from_bits(bits), 80.0),
            _ => panic!("wrong literal"),
        },
        _ => panic!("wrong step"),
    }
    match &steps[2] {
        PlanStep::Filter(p) => match p.literal {
            Scalar::Float32(bits) => assert_eq!(f32::from_bits(bits), 0.5),
            _ => panic!("wrong literal"),
        },
        _ => panic!("wrong step"),
    }
}

#[test]
fn planning_leaves_the_query_as_it_is() {
    let mut query = parquet_query_new("d", true).unwrap();
    parquet_query_filter_i64(&mut query, "id", FilterOp::Eq, 1);
    let first: Vec<String> = execute_query(&query).iter().map(describe).collect();
    let second: Vec<String> = execute_query(&query).iter().map(describe).collect();
    assert_eq!(first, second);
}

#[test]
fn only_six_comparisons_have_a_code() {
    assert_eq!(filter_op_from_code(0), Some(FilterOp::Eq));
    assert_eq!(filter_op_from_code(1), Some(FilterOp::Ne));
    assert_eq!(filter_op_from_code(2), Some(FilterOp::Lt));
    assert_eq!(filter_op_from_code(3), Some(FilterOp::Le));
    assert_eq!(filter_op_from_code(4), Some(FilterOp::Gt));
    assert_eq!(filter_op_from_code(5), Some(FilterOp::Ge));
    assert_eq!(filter_op_from_code(6), None);
    assert_eq!(filter_op_from_code(255), None);
    assert_eq!(checked_filter_op(4).ok(), Some(FilterOp::Gt));
    let error = checked_filter_op(6).err().unwrap();
    assert_eq!(error.kind, ErrorKind::EngineError);
    assert_eq!(error.message, "unsupported comparison");
}

#[test]
fn make_filter_expr_keeps_its_parts() {
    let predicate = make_filter_expr("score", FilterOp::Le, Scalar::Int64(9));
    assert_eq!(predicate.column, "score");
    assert_eq!(predicate.op, FilterOp::Le);
    assert!(matches!(predicate.literal, Scalar::Int64(9)));
    let copy = predicate.duplicate();
    assert_eq!(copy.column, "score");
    assert!(matches!(copy.literal, Scalar::Int64(9)));
}
