use linear_fdw::coerce::{ColumnSpec, ColumnType};
use linear_fdw::predicate::{PredValue, Predicate};
use linear_fdw::error::FdwError;
use linear_fdw::query::{plan_scan, pointer_text};

fn col(name: &str) -> ColumnSpec {
    ColumnSpec { name: name.to_string(), ty: ColumnType::Str }
}

fn no_opts() -> Vec<(String, String)> {
    Vec::new()
}

#[test]
fn issues_query_with_columns_and_no_predicates() {
    let columns = vec![col("id"), col("title"), col("state")];
    let plan = plan_scan("issues", &no_opts(), &columns, &Vec::new()).unwrap();
    assert_eq!(plan.query, "{ issues { nodes { id title state { id name color } } } }");
    assert_eq!(pointer_text(&plan.pointer), "/data/issues/nodes");
    assert_eq!(
        plan.body,
        "{\"query\":\"{ issues { nodes { id title state { id name color } } } }\"}"
    );
}

#[test]
fn empty_columns_and_predicates_still_build_for_every_kind() {
    let objects = [
        "issues",
        "issue",
        "teams",
        "team",
        "projects",
        "project",
        "project_issues",
        "users",
        "user",
        "user_assigned_issues",
        "cycles",
        "cycle_issues",
        "workflow_states",
        "issue_labels",
    ];
    let opts = vec![
        ("id".to_string(), "X".to_string()),
        ("project_id".to_string(), "X".to_string()),
        ("user_id".to_string(), "X".to_string()),
        ("cycle_id".to_string(), "X".to_string()),
    ];
    for object in objects {
        let plan = plan_scan(object, &opts, &Vec::new(), &Vec::new()).unwrap();
        assert!(!plan.query.contains("filter"));
        let opens = plan.query.matches('{').count();
        let closes = plan.query.matches('}').count();
        assert_eq!(opens, closes);
    }
}

#[test]
fn singleton_without_id_option_is_a_configuration_error() {
    let err = plan_scan("issue", &no_opts(), &Vec::new(), &Vec::new()).unwrap_err();
    match &err {
        FdwError::MissingOption { option, object } => {
            assert_eq!(option, "id");
            assert_eq!(object, "issue");
        }
        other => panic!("unexpected error: {:?}", other),
    }
    assert_eq!(err.message(), "Missing required option 'id' for object 'issue'");
}

#[test]
fn scoped_collection_without_its_scope_option_is_a_configuration_error() {
    let err = plan_scan("project_issues", &no_opts(), &Vec::new(), &Vec::new()).unwrap_err();
    assert_eq!(
        err.message(),
        "Missing required option 'project_id' for object 'project_issues'"
    );
}

#[test]
fn unknown_object_name_is_a_configuration_error() {
    let err = plan_scan("mystery", &no_opts(), &Vec::new(), &Vec::new()).unwrap_err();
    assert_eq!(err.message(), "Unknown object type: mystery");
}

#[test]
fn singleton_query_interpolates_the_id() {
    let opts = vec![("id".to_string(), "abc-123".to_string())];
    let columns = vec![col("id"), col("title")];
    let plan = plan_scan("issue", &opts, &columns, &Vec::new()).unwrap();
    assert_eq!(plan.query, "{ issue(id: \"abc-123\") { id title } }");
    assert_eq!(pointer_text(&plan.pointer), "/data/issue");
}

#[test]
fn scoped_query_nests_the_child_collection() {
    let opts = vec![("user_id".to_string(), "u1".to_string())];
    let columns = vec![col("id")];
    let plan = plan_scan("user_assigned_issues", &opts, &columns, &Vec::new()).unwrap();
    assert_eq!(plan.query, "{ user(id: \"u1\") { assignedIssues { nodes { id } } } }");
    assert_eq!(pointer_text(&plan.pointer), "/data/user/assignedIssues/nodes");
}

#[test]
fn filter_clause_is_rendered_inside_the_collection_arguments() {
    let preds = vec![Predicate {
        field: "state".to_string(),
        op: "=".to_string(),
        value: Some(PredValue::Str("Done".to_string())),
    }];
    let columns = vec![col("id")];
    let plan = plan_scan("issues", &no_opts(), &columns, &preds).unwrap();
    assert_eq!(
        plan.query,
        "{ issues(filter: { state: { eq: \"Done\" } }) { nodes { id } } }"
    );

    let opts = vec![("cycle_id".to_string(), "c9".to_string())];
    let plan = plan_scan("cycle_issues", &opts, &columns, &preds).unwrap();
    assert_eq!(
        plan.query,
        "{ cycle(id: \"c9\") { issues(filter: { state: { eq: \"Done\" } }) { nodes { id } } } }"
    );
}

#[test]
fn relation_columns_select_their_sub_selections() {
    let columns = vec![
        col("state_id"),
        col("team_id"),
        col("labels"),
        col("created_at"),
    ];
    let plan = plan_scan("issues", &no_opts(), &columns, &Vec::new()).unwrap();
    assert_eq!(
        plan.query,
        "{ issues { nodes { state { id } team { id } labels { nodes { id name color } } createdAt } } }"
    );
}

#[test]
fn request_body_escapes_the_query_text() {
    let opts = vec![("id".to_string(), "a\"b".to_string())];
    let plan = plan_scan("issue", &opts, &Vec::new(), &Vec::new()).unwrap();
    assert_eq!(plan.query, "{ issue(id: \"a\"b\") {  } }");
    assert_eq!(plan.body, "{\"query\":\"{ issue(id: \\\"a\\\"b\\\") {  } }\"}");
    let parsed: serde_json::Value = serde_json::from_str(&plan.body).unwrap();
    assert_eq!(parsed["query"], serde_json::Value::String(plan.query.clone()));
}
