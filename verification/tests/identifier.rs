use linear_fdw::names::to_remote_field;

#[test]
fn converts_snake_case_to_camel_case() {
    assert_eq!(to_remote_field("state_id"), "stateId");
    assert_eq!(to_remote_field("created_at"), "createdAt");
    assert_eq!(to_remote_field("sub_issue_sort_order"), "subIssueSortOrder");
}

#[test]
fn name_without_underscores_is_unchanged() {
    assert_eq!(to_remote_field("title"), "title");
    assert_eq!(to_remote_field("stateId"), "stateId");
    assert_eq!(to_remote_field(""), "");
}

#[test]
fn underscore_runs_collapse_and_raise_the_next_letter() {
    assert_eq!(to_remote_field("a__b"), "aB");
    assert_eq!(to_remote_field("_x"), "X");
    assert_eq!(to_remote_field("a_"), "a");
    assert_eq!(to_remote_field("a_1b"), "a1b");
}

#[test]
fn non_ascii_letters_pass_through() {
    assert_eq!(to_remote_field("héllo_wörld"), "hélloWörld");
}
