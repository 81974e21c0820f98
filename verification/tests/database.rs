use bearer_auth::database::{
    classify, handle_database_error_code, handle_sqlx_error, is_unique_constraint_violation,
    DbFailure, DriverFault, FailureKind, RuntimeFault,
};
use bearer_auth::error::DatabaseError;

fn failure(kind: FailureKind, unique_violation: bool) -> DbFailure {
    DbFailure { kind, unique_violation, text: "text".to_string() }
}

fn database(code: Option<&str>) -> RuntimeFault {
    RuntimeFault::Driver(DriverFault::Database { code: code.map(|c| c.to_string()) })
}

#[test]
fn schema_faults_are_internal() {
    assert_eq!(handle_database_error_code(Some("42P01")), DatabaseError::Internal);
    assert_eq!(handle_database_error_code(Some("42703")), DatabaseError::Internal);
    assert_eq!(handle_database_error_code(Some("42883")), DatabaseError::Internal);
}

#[test]
fn other_codes_are_failed_operations() {
    assert_eq!(handle_database_error_code(None), DatabaseError::OperationFailed);
    assert_eq!(handle_database_error_code(Some("")), DatabaseError::OperationFailed);
    assert_eq!(handle_database_error_code(Some("23505")), DatabaseError::OperationFailed);
    assert_eq!(handle_database_error_code(Some("42p01")), DatabaseError::OperationFailed);
    assert_eq!(handle_database_error_code(Some("42P0")), DatabaseError::OperationFailed);
    assert_eq!(handle_database_error_code(Some("42P011")), DatabaseError::OperationFailed);
    assert_eq!(handle_database_error_code(Some(" 42703")), DatabaseError::OperationFailed);
}

#[test]
fn driver_faults() {
    assert_eq!(
        handle_sqlx_error(&DriverFault::Database { code: Some("42883".to_string()) }),
        DatabaseError::Internal
    );
    assert_eq!(
        handle_sqlx_error(&DriverFault::Database { code: Some("08006".to_string()) }),
        DatabaseError::OperationFailed
    );
    assert_eq!(
        handle_sqlx_error(&DriverFault::Database { code: None }),
        DatabaseError::OperationFailed
    );
    assert_eq!(handle_sqlx_error(&DriverFault::Other), DatabaseError::OperationFailed);
}

#[test]
fn a_missing_record_comes_first() {
    assert_eq!(classify(&failure(FailureKind::RecordNotFound, false)), DatabaseError::NotFound);
    assert_eq!(classify(&failure(FailureKind::RecordNotFound, true)), DatabaseError::NotFound);
}

#[test]
fn a_unique_violation_is_a_conflict() {
    let violated = failure(FailureKind::Exec(database(Some("23505"))), true);
    assert!(is_unique_constraint_violation(&violated));
    assert_eq!(classify(&violated), DatabaseError::Conflict);
    assert_eq!(
        classify(&failure(FailureKind::Query(database(Some("42P01"))), true)),
        DatabaseError::Conflict
    );
    let plain = failure(FailureKind::Exec(database(Some("23505"))), false);
    assert!(!is_unique_constraint_violation(&plain));
    assert_eq!(classify(&plain), DatabaseError::OperationFailed);
}

#[test]
fn statements_and_queries_go_by_the_driver() {
    assert_eq!(
        classify(&failure(FailureKind::Exec(database(Some("42P01"))), false)),
        DatabaseError::Internal
    );
    assert_eq!(
        classify(&failure(FailureKind::Query(database(Some("42703"))), false)),
        DatabaseError::Internal
    );
    assert_eq!(
        classify(&failure(FailureKind::Query(database(None)), false)),
        DatabaseError::OperationFailed
    );
    assert_eq!(
        classify(&failure(FailureKind::Exec(RuntimeFault::Driver(DriverFault::Other)), false)),
        DatabaseError::OperationFailed
    );
    assert_eq!(
        classify(&failure(FailureKind::Exec(RuntimeFault::Internal), false)),
        DatabaseError::OperationFailed
    );
    assert_eq!(
        classify(&failure(FailureKind::Query(RuntimeFault::Internal), false)),
        DatabaseError::OperationFailed
    );
}

#[test]
fn the_rest_by_kind() {
    assert_eq!(
        classify(&failure(FailureKind::ConnectionAcquire, false)),
        DatabaseError::OperationFailed
    );
    assert_eq!(
        classify(&failure(FailureKind::Conn(database(Some("42P01"))), false)),
        DatabaseError::OperationFailed
    );
    assert_eq!(
        classify(&failure(FailureKind::Conn(RuntimeFault::Internal), false)),
        DatabaseError::OperationFailed
    );
    assert_eq!(
        classify(&failure(FailureKind::RecordNotInserted, false)),
        DatabaseError::OperationFailed
    );
    assert_eq!(
        classify(&failure(FailureKind::RecordNotUpdated, false)),
        DatabaseError::OperationFailed
    );
    assert_eq!(classify(&failure(FailureKind::AttrNotSet, false)), DatabaseError::OperationFailed);
    assert_eq!(classify(&failure(FailureKind::Other, false)), DatabaseError::Internal);
    assert_eq!(classify(&failure(FailureKind::Other, true)), DatabaseError::Conflict);
}
