use linear_fdw::coerce::{Cell, ColumnSpec, ColumnType};
use linear_fdw::error::FdwError;
use linear_fdw::scan::Connector;

fn col(name: &str, ty: ColumnType) -> ColumnSpec {
    ColumnSpec { name: name.to_string(), ty }
}

fn configured() -> Connector {
    let mut c = Connector::new();
    c.init(None, "lin_api_key".to_string());
    c
}

#[test]
fn init_applies_the_default_endpoint() {
    let c = configured();
    assert_eq!(c.base_url(), "https://api.linear.app/graphql");
    assert_eq!(c.api_key(), "lin_api_key");
}

#[test]
fn init_keeps_a_given_endpoint() {
    let mut c = Connector::new();
    c.init(Some("https://example.test/graphql".to_string()), "k".to_string());
    assert_eq!(c.base_url(), "https://example.test/graphql");
}

#[test]
fn one_issue_row_is_materialized_and_coerced() {
    let mut c = configured();
    let columns = vec![
        col("id", ColumnType::Str),
        col("title", ColumnType::Str),
        col("state", ColumnType::Str),
    ];
    let plan = c.plan_scan("issues", &Vec::new(), &columns, &Vec::new()).unwrap();
    let body = "{\"data\":{\"issues\":{\"nodes\":[{\"id\":\"1\",\"title\":\"Fix bug\",\"state\":{\"id\":\"s1\",\"name\":\"Done\",\"color\":\"#000\"}}]}}}";
    c.begin_scan(&plan, 200, body).unwrap();

    let row = c.iter_scan(&columns).unwrap().expect("one row");
    assert_eq!(row.len(), 3);
    assert!(matches!(&row[0], Some(Cell::Str(s)) if s == "1"));
    assert!(matches!(&row[1], Some(Cell::Str(s)) if s == "Fix bug"));
    assert!(matches!(&row[2], Some(Cell::Str(s)) if s == "Done"));

    assert!(c.iter_scan(&columns).unwrap().is_none());
}

#[test]
fn exhaustion_is_idempotent() {
    let mut c = configured();
    let columns = vec![col("id", ColumnType::Str)];
    let plan = c.plan_scan("issues", &Vec::new(), &columns, &Vec::new()).unwrap();
    let body = "{\"data\":{\"issues\":{\"nodes\":[{\"id\":\"1\"}]}}}";
    c.begin_scan(&plan, 200, body).unwrap();
    assert!(c.iter_scan(&columns).unwrap().is_some());
    for _ in 0..5 {
        assert!(c.iter_scan(&columns).unwrap().is_none());
    }
}

#[test]
fn graphql_errors_fail_the_scan_and_leave_no_rows() {
    let mut c = configured();
    let columns = vec![col("id", ColumnType::Str)];
    let plan = c.plan_scan("issues", &Vec::new(), &columns, &Vec::new()).unwrap();
    let body = "{\"errors\":[{\"message\":\"boom\"}],\"data\":null}";
    let err = c.begin_scan(&plan, 200, body).unwrap_err();
    match &err {
        FdwError::GraphQlErrors { errors } => {
            assert_eq!(errors, "[{\"message\":\"boom\"}]");
        }
        other => panic!("unexpected error: {:?}", other),
    }
    assert_eq!(err.message(), "GraphQL errors: [{\"message\":\"boom\"}]");
    assert!(c.iter_scan(&columns).unwrap().is_none());
}

#[test]
fn an_empty_errors_array_is_not_an_error() {
    let mut c = configured();
    let columns = vec![col("id", ColumnType::Str)];
    let plan = c.plan_scan("issues", &Vec::new(), &columns, &Vec::new()).unwrap();
    let body = "{\"errors\":[],\"data\":{\"issues\":{\"nodes\":[{\"id\":\"7\"}]}}}";
    c.begin_scan(&plan, 200, body).unwrap();
    assert!(c.iter_scan(&columns).unwrap().is_some());
}

#[test]
fn non_200_status_is_a_transport_error_with_the_body() {
    let mut c = configured();
    let plan = c.plan_scan("issues", &Vec::new(), &Vec::new(), &Vec::new()).unwrap();
    let err = c.begin_scan(&plan, 500, "upstream exploded").unwrap_err();
    assert_eq!(err.message(), "Failed to get data: upstream exploded");
}

#[test]
fn an_unparseable_body_is_a_protocol_error() {
    let mut c = configured();
    let plan = c.plan_scan("issues", &Vec::new(), &Vec::new(), &Vec::new()).unwrap();
    let err = c.begin_scan(&plan, 200, "not json").unwrap_err();
    assert!(err.message().starts_with("Failed to parse JSON response: "));
}

#[test]
fn an_absent_result_node_yields_zero_rows() {
    let mut c = configured();
    let columns = vec![col("id", ColumnType::Str)];
    let plan = c.plan_scan("issues", &Vec::new(), &columns, &Vec::new()).unwrap();
    c.begin_scan(&plan, 200, "{\"data\":{}}").unwrap();
    assert!(c.iter_scan(&columns).unwrap().is_none());
}

#[test]
fn a_singleton_object_becomes_one_record() {
    let mut c = configured();
    let columns = vec![col("id", ColumnType::Str)];
    let opts = vec![("id".to_string(), "i1".to_string())];
    let plan = c.plan_scan("issue", &opts, &columns, &Vec::new()).unwrap();
    c.begin_scan(&plan, 200, "{\"data\":{\"issue\":{\"id\":\"i1\"}}}").unwrap();
    let row = c.iter_scan(&columns).unwrap().expect("one row");
    assert!(matches!(&row[0], Some(Cell::Str(s)) if s == "i1"));
    assert!(c.iter_scan(&columns).unwrap().is_none());
}

#[test]
fn a_scalar_result_node_yields_zero_rows() {
    let mut c = configured();
    let columns = vec![col("id", ColumnType::Str)];
    let opts = vec![("id".to_string(), "i1".to_string())];
    let plan = c.plan_scan("issue", &opts, &columns, &Vec::new()).unwrap();
    c.begin_scan(&plan, 200, "{\"data\":{\"issue\":42}}").unwrap();
    assert!(c.iter_scan(&columns).unwrap().is_none());
}

#[test]
fn end_scan_discards_the_records() {
    let mut c = configured();
    let columns = vec![col("id", ColumnType::Str)];
    let plan = c.plan_scan("issues", &Vec::new(), &columns, &Vec::new()).unwrap();
    let body = "{\"data\":{\"issues\":{\"nodes\":[{\"id\":\"1\"},{\"id\":\"2\"}]}}}";
    c.begin_scan(&plan, 200, body).unwrap();
    c.end_scan();
    assert!(c.iter_scan(&columns).unwrap().is_none());
}

#[test]
fn a_fatal_row_error_leaves_the_cursor_in_place() {
    let mut c = configured();
    let columns = vec![col("created_at", ColumnType::Timestamp)];
    let plan = c.plan_scan("issues", &Vec::new(), &columns, &Vec::new()).unwrap();
    let body = "{\"data\":{\"issues\":{\"nodes\":[{\"createdAt\":\"garbage\"}]}}}";
    c.begin_scan(&plan, 200, body).unwrap();
    assert!(c.iter_scan(&columns).is_err());
    assert!(c.iter_scan(&columns).is_err());
    let relaxed = vec![col("created_at", ColumnType::Str)];
    let row = c.iter_scan(&relaxed).unwrap().expect("the row is still there");
    assert!(matches!(&row[0], Some(Cell::Str(v)) if v == "garbage"));
}

#[test]
fn re_scan_always_fails() {
    let mut c = configured();
    let err = c.re_scan().unwrap_err();
    assert_eq!(err.message(), "re_scan on foreign table is not supported");
}

#[test]
fn write_operations_are_rejected_or_inert() {
    let c = configured();
    let err = c.begin_modify().unwrap_err();
    assert_eq!(err.message(), "modify on foreign table is not supported");
    assert!(c.insert(&Vec::new()).is_ok());
    assert!(c.update(&Cell::Str("1".to_string()), &Vec::new()).is_ok());
    assert!(c.delete(&Cell::Str("1".to_string())).is_ok());
    assert!(c.end_modify().is_ok());
}

#[test]
fn host_version_requirement_is_fixed() {
    assert_eq!(Connector::host_version_requirement(), "^0.1.0");
}
