use axum::http::StatusCode;
use bearer_auth::database::{DbFailure, FailureKind};
use bearer_auth::error::{
    ApiError, AuthError, DatabaseError, DbError, FetchError, KeyError, ServiceError, Stage,
    TokenFault,
};
use validator::ValidationErrors;

fn record_not_found(text: &str) -> DbFailure {
    DbFailure { kind: FailureKind::RecordNotFound, unique_violation: false, text: text.to_string() }
}

#[test]
fn db_err_maps_to_api_status() {
    let cases = vec![(record_not_found("Record not found"), StatusCode::NOT_FOUND)];

    for (db_err, expected_status) in cases {
        let service_err: ServiceError = db_err.into();
        let api_err: ApiError = service_err.into();
        assert_eq!(api_err.status(), expected_status.as_u16());
    }
}

#[test]
fn error_validation_maps_to_bad_request() {
    let mut ve = ValidationErrors::new();
    ve.add("field", validator::ValidationError::new("invalid"));
    let api_err: ApiError = ve.into();

    assert_eq!(api_err.status(), StatusCode::BAD_REQUEST.as_u16());
}

#[test]
fn api_validation_maps_to_bad_request() {
    let mut ve = ValidationErrors::new();
    ve.add("field", validator::ValidationError::new("invalid"));
    let api_err: ApiError = ve.into();

    assert_eq!(api_err.status(), StatusCode::BAD_REQUEST.as_u16());
    assert!(matches!(api_err, ApiError::BadRequest(_)));
}

#[test]
fn validation_errors_are_worded_in_the_message() {
    let mut ve = ValidationErrors::new();
    ve.add("title", validator::ValidationError::new("length"));
    let expected = ve.to_string();
    let api_err: ApiError = ve.into();

    assert!(!expected.is_empty());
    assert_eq!(api_err.client_msg(), expected);
}

#[test]
fn service_error_maps_to_correct_status() {
    let service_err = ServiceError::NotFound;
    let api_err: ApiError = service_err.into();
    assert_eq!(api_err.status(), StatusCode::NOT_FOUND.as_u16());
}

#[test]
fn record_not_found_maps_correctly() {
    let db_err = record_not_found("Record not found");
    let database_error: DatabaseError = db_err.into();
    assert!(matches!(database_error, DatabaseError::NotFound));
}

#[test]
fn db_err_maps_to_service_error() {
    let db_err = record_not_found("Record not found");
    let service_err: ServiceError = db_err.into();
    assert!(matches!(service_err, ServiceError::DatabaseError(_)));
    assert_eq!(service_err, ServiceError::DatabaseError(DatabaseError::NotFound));
}

#[test]
fn every_service_error_has_its_answer() {
    let cases: Vec<(ServiceError, u16, &str)> = vec![
        (ServiceError::NotFound, 404, "resource not found"),
        (ServiceError::AlreadyExists, 409, "resource already exists"),
        (ServiceError::ValidationError, 400, "validation failed"),
        (ServiceError::DatabaseError(DatabaseError::NotFound), 404, "resource not found"),
        (ServiceError::DatabaseError(DatabaseError::Conflict), 409, "resource already exists"),
        (ServiceError::DatabaseError(DatabaseError::OperationFailed), 400, "operation failed"),
        (
            ServiceError::DatabaseError(DatabaseError::Internal),
            500,
            "an internal error occurred",
        ),
    ];
    for (err, status, message) in cases {
        let api_err = ApiError::from(err);
        assert_eq!(api_err.status(), status);
        assert_eq!(api_err.client_msg(), message);
    }
    assert!(matches!(
        ApiError::from(ServiceError::DatabaseError(DatabaseError::Internal)),
        ApiError::Internal(text) if text == "database internal error"
    ));
}

#[test]
fn every_api_error_has_its_status() {
    assert_eq!(ApiError::Unauthorized("u").status(), StatusCode::UNAUTHORIZED.as_u16());
    assert_eq!(ApiError::Forbidden("f").status(), StatusCode::FORBIDDEN.as_u16());
    assert_eq!(ApiError::NotFound("n").status(), StatusCode::NOT_FOUND.as_u16());
    assert_eq!(ApiError::BadRequest("b".to_string()).status(), StatusCode::BAD_REQUEST.as_u16());
    assert_eq!(ApiError::Conflict("c").status(), StatusCode::CONFLICT.as_u16());
    assert_eq!(
        ApiError::Internal("i".to_string()).status(),
        StatusCode::INTERNAL_SERVER_ERROR.as_u16()
    );
}

#[test]
fn the_text_of_an_internal_error_is_never_shown() {
    assert_eq!(ApiError::Unauthorized("u").client_msg(), "u");
    assert_eq!(ApiError::Forbidden("f").client_msg(), "f");
    assert_eq!(ApiError::NotFound("n").client_msg(), "n");
    assert_eq!(ApiError::BadRequest("b".to_string()).client_msg(), "b");
    assert_eq!(ApiError::Conflict("c").client_msg(), "c");
    assert_eq!(
        ApiError::Internal("connection string".to_string()).client_msg(),
        "an internal error occurred"
    );
}

#[test]
fn every_failure_of_authentication_is_unauthorized() {
    let cases: Vec<(AuthError, &str)> = vec![
        (AuthError::InvalidToken(TokenFault::Malformed), "invalid token"),
        (AuthError::InvalidToken(TokenFault::MissingKeyId), "invalid token"),
        (AuthError::InvalidToken(TokenFault::Key(KeyError::KeyNotFound)), "invalid token"),
        (AuthError::InvalidToken(TokenFault::Key(KeyError::KeyMaterialInvalid)), "invalid token"),
        (AuthError::InvalidToken(TokenFault::Rejected), "invalid token"),
        (AuthError::InvalidToken(TokenFault::IncompleteClaims), "invalid token"),
        (AuthError::TokenExpired, "token expired"),
        (AuthError::VerificationUnavailable(FetchError::FetchFailed(None)), "invalid token"),
        (AuthError::VerificationUnavailable(FetchError::FetchFailed(Some(500))), "invalid token"),
        (AuthError::VerificationUnavailable(FetchError::ParseFailed), "invalid token"),
        (AuthError::MissingToken, "Missing token"),
    ];
    for (err, message) in cases {
        assert_eq!(err.status(), 401);
        assert_eq!(err.message(), message);
        let api_err = ApiError::from(err);
        assert_eq!(api_err.status(), 401);
        assert_eq!(api_err.client_msg(), message);
        assert!(matches!(api_err, ApiError::Unauthorized(_)));
    }
}

#[test]
fn inner_failures_map_to_the_taxonomy() {
    assert_eq!(
        AuthError::from(KeyError::KeyNotFound),
        AuthError::InvalidToken(TokenFault::Key(KeyError::KeyNotFound))
    );
    assert_eq!(
        AuthError::from(KeyError::KeyMaterialInvalid),
        AuthError::InvalidToken(TokenFault::Key(KeyError::KeyMaterialInvalid))
    );
    assert_eq!(
        AuthError::from(FetchError::ParseFailed),
        AuthError::VerificationUnavailable(FetchError::ParseFailed)
    );
    assert_eq!(
        AuthError::from(FetchError::FetchFailed(Some(502))),
        AuthError::VerificationUnavailable(FetchError::FetchFailed(Some(502)))
    );
    assert_eq!(
        ServiceError::from(DatabaseError::Conflict),
        ServiceError::DatabaseError(DatabaseError::Conflict)
    );
}

#[test]
fn db_error_answers() {
    assert_eq!(DbError::NotFound.status(), 404);
    assert_eq!(DbError::NotFound.client_msg(), "Record not found");
    let query = DbError::Query("relation \"todo\" does not exist".to_string());
    assert_eq!(query.status(), 500);
    assert_eq!(query.client_msg(), "Database error occurred");
}

#[test]
fn db_error_keeps_the_wording_inside() {
    let missing: DbError = record_not_found("RecordNotFound Error: Todo not found").into();
    assert!(matches!(missing, DbError::NotFound));
    let failed: DbError = DbFailure {
        kind: FailureKind::ConnectionAcquire,
        unique_violation: false,
        text: "Failed to acquire connection from pool: Connection pool timed out".to_string(),
    }
    .into();
    assert!(matches!(
        failed,
        DbError::Query(text)
            if text == "Failed to acquire connection from pool: Connection pool timed out"
    ));
}

#[test]
fn an_error_names_the_stage_it_was_rejected_at() {
    assert_eq!(AuthError::MissingToken.rejected_at(), Stage::Start);
    assert_eq!(AuthError::InvalidToken(TokenFault::Malformed).rejected_at(), Stage::Start);
    assert_eq!(AuthError::InvalidToken(TokenFault::MissingKeyId).rejected_at(), Stage::Start);
    assert_eq!(
        AuthError::VerificationUnavailable(FetchError::ParseFailed).rejected_at(),
        Stage::HeaderParsed
    );
    assert_eq!(
        AuthError::VerificationUnavailable(FetchError::FetchFailed(Some(500))).rejected_at(),
        Stage::HeaderParsed
    );
    assert_eq!(
        AuthError::InvalidToken(TokenFault::Key(KeyError::KeyNotFound)).rejected_at(),
        Stage::KeySetResolved
    );
    assert_eq!(
        AuthError::InvalidToken(TokenFault::Key(KeyError::KeyMaterialInvalid)).rejected_at(),
        Stage::KeySetResolved
    );
    assert_eq!(AuthError::InvalidToken(TokenFault::Rejected).rejected_at(), Stage::KeyResolved);
    assert_eq!(
        AuthError::InvalidToken(TokenFault::IncompleteClaims).rejected_at(),
        Stage::KeyResolved
    );
    assert_eq!(AuthError::TokenExpired.rejected_at(), Stage::CryptoVerified);
}
