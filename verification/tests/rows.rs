use linear_fdw::coerce::{coerce_cell, coerce_row, Cell, ColumnSpec, ColumnType};
use linear_fdw::error::FdwError;
use linear_fdw::json::Json;

fn col(name: &str, ty: ColumnType) -> ColumnSpec {
    ColumnSpec { name: name.to_string(), ty }
}

fn obj(entries: Vec<(&str, Json)>) -> Json {
    Json::Obj(entries.into_iter().map(|(k, v)| (k.to_string(), v)).collect())
}

fn s(v: &str) -> Json {
    Json::Str(v.to_string())
}

fn issue_record() -> Json {
    obj(vec![
        ("id", s("1")),
        ("title", s("Fix bug")),
        ("number", Json::Int(7)),
        ("createdAt", s("2023-07-31T20:00:00.000Z")),
        ("state", obj(vec![("id", s("s1")), ("name", s("Done")), ("color", s("#000"))])),
        ("team", obj(vec![("id", s("t1"))])),
        (
            "labels",
            obj(vec![(
                "nodes",
                Json::Arr(vec![obj(vec![("id", s("l1")), ("name", s("bug"))])]),
            )]),
        ),
    ])
}

#[test]
fn relation_columns_extract_through_the_nested_path() {
    let rec = issue_record();
    let cell = coerce_cell(&rec, &col("state_id", ColumnType::Str)).unwrap();
    assert!(matches!(cell, Some(Cell::Str(v)) if v == "s1"));
    let cell = coerce_cell(&rec, &col("state", ColumnType::Str)).unwrap();
    assert!(matches!(cell, Some(Cell::Str(v)) if v == "Done"));
    let cell = coerce_cell(&rec, &col("team_id", ColumnType::Str)).unwrap();
    assert!(matches!(cell, Some(Cell::Str(v)) if v == "t1"));
}

#[test]
fn relation_column_never_reads_the_flat_field() {
    // The record has no nested `team` object, only a flat `teamId`
    // member: the relation column must come back absent.
    let rec = obj(vec![("teamId", s("t9"))]);
    let cell = coerce_cell(&rec, &col("team_id", ColumnType::Str)).unwrap();
    assert!(cell.is_none());
}

#[test]
fn labels_serialize_back_to_a_json_cell() {
    let rec = issue_record();
    let cell = coerce_cell(&rec, &col("labels", ColumnType::Json)).unwrap();
    assert!(matches!(cell, Some(Cell::Json(v)) if v == "[{\"id\":\"l1\",\"name\":\"bug\"}]"));
}

#[test]
fn missing_members_are_soft_absences() {
    let rec = issue_record();
    assert!(coerce_cell(&rec, &col("assignee_id", ColumnType::Str)).unwrap().is_none());
    assert!(coerce_cell(&rec, &col("description", ColumnType::Str)).unwrap().is_none());
}

#[test]
fn each_type_accepts_only_its_own_source_shape() {
    let rec = obj(vec![
        ("flag", Json::Bool(true)),
        ("small", Json::Int(70)),
        ("big", Json::Int(5_000_000_000)),
        ("frac", Json::NumText("1.5".to_string())),
        ("name", s("x")),
        ("meta", obj(vec![("a", Json::Int(1))])),
    ]);
    assert!(matches!(
        coerce_cell(&rec, &col("flag", ColumnType::Bool)).unwrap(),
        Some(Cell::Bool(true))
    ));
    assert!(coerce_cell(&rec, &col("name", ColumnType::Bool)).unwrap().is_none());
    assert!(matches!(
        coerce_cell(&rec, &col("small", ColumnType::I32)).unwrap(),
        Some(Cell::I32(70))
    ));
    assert!(coerce_cell(&rec, &col("big", ColumnType::I32)).unwrap().is_none());
    assert!(matches!(
        coerce_cell(&rec, &col("big", ColumnType::I64)).unwrap(),
        Some(Cell::I64(5_000_000_000))
    ));
    assert!(coerce_cell(&rec, &col("frac", ColumnType::I64)).unwrap().is_none());
    assert!(matches!(
        coerce_cell(&rec, &col("meta", ColumnType::Json)).unwrap(),
        Some(Cell::Json(v)) if v == "{\"a\":1}"
    ));
    assert!(coerce_cell(&rec, &col("name", ColumnType::Json)).unwrap().is_none());
}

#[test]
fn timestamps_parse_to_epoch_microseconds() {
    let rec = issue_record();
    let cell = coerce_cell(&rec, &col("created_at", ColumnType::Timestamp)).unwrap();
    assert!(matches!(cell, Some(Cell::Timestamp(1_690_833_600_000_000))));
}

#[test]
fn an_unparseable_timestamp_is_a_fatal_data_error() {
    let rec = obj(vec![("createdAt", s("yesterday"))]);
    let err = coerce_cell(&rec, &col("created_at", ColumnType::Timestamp)).unwrap_err();
    assert_eq!(err.message(), "invalid timestamp value: yesterday");
}

#[test]
fn a_non_string_timestamp_source_is_a_soft_absence() {
    let rec = obj(vec![("createdAt", Json::Int(0))]);
    assert!(coerce_cell(&rec, &col("created_at", ColumnType::Timestamp)).unwrap().is_none());
}

#[test]
fn an_unsupported_declared_type_fails_fatally() {
    let rec = issue_record();
    let err = coerce_cell(&rec, &col("number", ColumnType::Unsupported)).unwrap_err();
    match &err {
        FdwError::UnsupportedColumnType { column } => assert_eq!(column, "number"),
        other => panic!("unexpected error: {:?}", other),
    }
    assert_eq!(err.message(), "column number data type is not supported");
}

#[test]
fn an_unsupported_declared_type_fails_even_when_the_member_is_absent() {
    let rec = obj(vec![]);
    assert!(coerce_cell(&rec, &col("anything", ColumnType::Unsupported)).is_err());
}

#[test]
fn a_row_is_coerced_in_column_order() {
    let rec = issue_record();
    let columns = vec![
        col("id", ColumnType::Str),
        col("number", ColumnType::I64),
        col("state_id", ColumnType::Str),
        col("missing", ColumnType::Str),
    ];
    let row = coerce_row(&rec, &columns).unwrap();
    assert_eq!(row.len(), 4);
    assert!(matches!(&row[0], Some(Cell::Str(v)) if v == "1"));
    assert!(matches!(&row[1], Some(Cell::I64(7))));
    assert!(matches!(&row[2], Some(Cell::Str(v)) if v == "s1"));
    assert!(row[3].is_none());
}
