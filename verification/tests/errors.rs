use mcp_planify::error::PlanifyError;

#[test]
fn not_found_message_lists_searched_paths() {
    let error = PlanifyError::DbNotFound { searched: vec!["/a/b.db".to_string()], hint: "try again".to_string() };
    assert_eq!(error.message(), "Database not found at the expected location: [\"/a/b.db\"]. try again");
}

#[test]
fn not_found_message_with_nothing_searched() {
    let error = PlanifyError::DbNotFound { searched: vec![], hint: "set it".to_string() };
    assert_eq!(error.message(), "Database not found at the expected location: []. set it");
}

#[test]
fn database_error_message() {
    let error = PlanifyError::DbError("no such table: Items".to_string());
    assert_eq!(error.message(), "Error in the database no such table: Items");
}

#[test]
fn locked_error_hint() {
    let error = PlanifyError::locked("poisoned lock: another task failed inside");
    match &error {
        PlanifyError::DbLocked { hint } => assert_eq!(hint, "Thread error: poisoned lock: another task failed inside"),
        other => panic!("unexpected {:?}", other),
    }
    assert_eq!(error.message(), "Database locked Thread error: poisoned lock: another task failed inside");
}

#[test]
fn not_found_message_quotes_paths_as_paths() {
    let error = PlanifyError::DbNotFound {
        searched: vec!["/a/it's.db".to_string(), "/b.db".to_string()],
        hint: "h".to_string(),
    };
    let paths = vec![std::path::PathBuf::from("/a/it's.db"), std::path::PathBuf::from("/b.db")];
    assert_eq!(error.message(), format!("Database not found at the expected location: {:?}. h", paths));
}
