use linear_fdw::catalog::schema_catalog;

#[test]
fn the_catalog_lists_the_supported_tables() {
    let tables = schema_catalog();
    let names: Vec<&str> = tables.iter().map(|t| t.table_name.as_str()).collect();
    assert_eq!(
        names,
        vec![
            "issues",
            "issue",
            "teams",
            "projects",
            "project_issues",
            "users",
            "user_assigned_issues",
            "cycles",
            "cycle_issues",
            "workflow_states",
            "issue_labels",
        ]
    );
}

#[test]
fn scoped_and_singleton_tables_require_their_id_options() {
    let tables = schema_catalog();
    for t in &tables {
        let expected: Vec<String> = match t.object.as_str() {
            "issue" => vec!["id".to_string()],
            "project_issues" => vec!["project_id".to_string()],
            "user_assigned_issues" => vec!["user_id".to_string()],
            "cycle_issues" => vec!["cycle_id".to_string()],
            _ => Vec::new(),
        };
        assert_eq!(t.required_options, expected, "table {}", t.table_name);
    }
}

#[test]
fn issue_tables_carry_the_issue_columns() {
    let tables = schema_catalog();
    let issues = tables.iter().find(|t| t.object == "issues").unwrap();
    let names: Vec<&str> = issues.columns.iter().map(|c| c.name.as_str()).collect();
    assert!(names.contains(&"id"));
    assert!(names.contains(&"state_id"));
    assert!(names.contains(&"labels") == false);
    assert!(names.contains(&"created_at"));
    let created = issues.columns.iter().find(|c| c.name == "created_at").unwrap();
    assert_eq!(created.declared_type, "timestamptz");
    let number = issues.columns.iter().find(|c| c.name == "number").unwrap();
    assert_eq!(number.declared_type, "float");
}
