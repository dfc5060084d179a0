use linear_fdw::predicate::{translate_predicates, PredValue, Predicate};

fn pred(field: &str, op: &str, value: Option<PredValue>) -> Predicate {
    Predicate { field: field.to_string(), op: op.to_string(), value }
}

#[test]
fn equals_string_round_trip() {
    let preds = vec![pred("state", "=", Some(PredValue::Str("X".to_string())))];
    assert_eq!(translate_predicates(&preds), "filter: { state: { eq: \"X\" } }");
}

#[test]
fn unsupported_operator_is_dropped_without_error() {
    let preds = vec![
        pred("labels", "@>", Some(PredValue::Str("bug".to_string()))),
        pred("title", "=", Some(PredValue::Str("A".to_string()))),
    ];
    assert_eq!(translate_predicates(&preds), "filter: { title: { eq: \"A\" } }");
}

#[test]
fn unsupported_value_kind_is_dropped_without_error() {
    let preds = vec![pred("estimate", "=", Some(PredValue::Unsupported))];
    assert_eq!(translate_predicates(&preds), "");
}

#[test]
fn missing_value_is_dropped_without_error() {
    let preds = vec![pred("title", "=", None)];
    assert_eq!(translate_predicates(&preds), "");
}

#[test]
fn no_translatable_predicate_yields_an_empty_clause() {
    assert_eq!(translate_predicates(&Vec::new()), "");
}

#[test]
fn operator_table_is_applied() {
    let cases = [
        ("=", "eq"),
        ("<>", "neq"),
        (">", "gt"),
        (">=", "gte"),
        ("<", "lt"),
        ("<=", "lte"),
        ("~~", "contains"),
        ("!~~", "notContains"),
        ("~~*", "containsIgnoreCase"),
        ("!~~*", "notContainsIgnoreCase"),
        ("IS NULL", "null"),
        ("IS NOT NULL", "notNull"),
    ];
    for (sql, remote) in cases {
        let preds = vec![pred("f", sql, Some(PredValue::Boolean(true)))];
        assert_eq!(
            translate_predicates(&preds),
            format!("filter: {{ f: {{ {}: true }} }}", remote)
        );
    }
}

#[test]
fn value_kinds_are_rendered_by_type() {
    let preds = vec![pred("number", "=", Some(PredValue::Int64(-42)))];
    assert_eq!(translate_predicates(&preds), "filter: { number: { eq: -42 } }");
    let preds = vec![pred("priority", "<", Some(PredValue::Int32(3)))];
    assert_eq!(translate_predicates(&preds), "filter: { priority: { lt: 3 } }");
    let preds = vec![
        pred("created_at", ">", Some(PredValue::Timestamp("2024-01-01T00:00:00Z".to_string()))),
    ];
    assert_eq!(
        translate_predicates(&preds),
        "filter: { createdAt: { gt: \"2024-01-01T00:00:00Z\" } }"
    );
}

#[test]
fn several_predicates_join_into_one_conjunction() {
    let preds = vec![
        pred("state", "=", Some(PredValue::Str("Done".to_string()))),
        pred("priority", ">=", Some(PredValue::Int32(2))),
    ];
    assert_eq!(
        translate_predicates(&preds),
        "filter: { state: { eq: \"Done\" }, priority: { gte: 2 } }"
    );
}

#[test]
fn field_names_are_camel_cased_in_fragments() {
    let preds = vec![pred("state_id", "=", Some(PredValue::Str("s1".to_string())))];
    assert_eq!(translate_predicates(&preds), "filter: { stateId: { eq: \"s1\" } }");
}
