//! The closed set of failures, layer by layer, and how each maps to the next.

use vstd::prelude::*;

verus! {

/// Why a key set could not be had from its source.
#[derive(Debug, Clone, Copy, PartialEq, Eq, Structural)]
pub enum FetchError {
    /// The request did not complete, or the source answered outside 2xx; the
    /// status is kept where there was an answer.
    FetchFailed(Option<u16>),
    /// The answer's body is no key-set document.
    ParseFailed,
}

/// Why no decoding key could be had from a key set.
#[derive(Debug, Clone, Copy, PartialEq, Eq, Structural)]
pub enum KeyError {
    /// No key of the set carries the key id asked for.
    KeyNotFound,
    /// The key was found, but its fields do not make a key.
    KeyMaterialInvalid,
}

/// What was wrong with a token that is refused as invalid.
#[derive(Debug, Clone, Copy, PartialEq, Eq, Structural)]
pub enum TokenFault {
    /// The token is no compact serialization with a readable header.
    Malformed,
    /// The header names no key id.
    MissingKeyId,
    /// The key set could not supply the key the header names.
    Key(KeyError),
    /// Signature, algorithm, audience or issuer did not hold.
    Rejected,
    /// The payload verified but lacks a subject or an expiry.
    IncompleteClaims,
}

/// The outcome of a verification that did not yield claims.
#[derive(Debug, Clone, Copy, PartialEq, Eq, Structural)]
pub enum AuthError {
    InvalidToken(TokenFault),
    TokenExpired,
    VerificationUnavailable(FetchError),
    MissingToken,
}

/// The stages that one verification passes through, in order. A
/// verification ends in `Accepted` or is rejected on the way from one stage
/// to the next; claims exist only from `Accepted` on.
#[derive(Debug, Clone, Copy, PartialEq, Eq, Structural)]
pub enum Stage {
    Start,
    HeaderParsed,
    KeySetResolved,
    KeyResolved,
    CryptoVerified,
    /// The expiry lies in the future. Nothing can fail from here: the next
    /// stage is `Accepted`.
    ExpiryChecked,
    Accepted,
}

impl AuthError {
    /// The stage that a verification had reached when it was rejected with
    /// this error.
    pub open spec fn spec_rejected_at(self) -> Stage {
        match self {
            AuthError::MissingToken => Stage::Start,
            AuthError::InvalidToken(TokenFault::Malformed) => Stage::Start,
            AuthError::InvalidToken(TokenFault::MissingKeyId) => Stage::Start,
            AuthError::VerificationUnavailable(_) => Stage::HeaderParsed,
            AuthError::InvalidToken(TokenFault::Key(_)) => Stage::KeySetResolved,
            AuthError::InvalidToken(TokenFault::Rejected) => Stage::KeyResolved,
            AuthError::InvalidToken(TokenFault::IncompleteClaims) => Stage::KeyResolved,
            AuthError::TokenExpired => Stage::CryptoVerified,
        }
    }

    pub fn rejected_at(&self) -> (r: Stage)
        ensures
            r == self.spec_rejected_at(),
    {
        match self {
            AuthError::MissingToken => Stage::Start,
            AuthError::InvalidToken(TokenFault::Malformed) => Stage::Start,
            AuthError::InvalidToken(TokenFault::MissingKeyId) => Stage::Start,
            AuthError::VerificationUnavailable(_) => Stage::HeaderParsed,
            AuthError::InvalidToken(TokenFault::Key(_)) => Stage::KeySetResolved,
            AuthError::InvalidToken(TokenFault::Rejected) => Stage::KeyResolved,
            AuthError::InvalidToken(TokenFault::IncompleteClaims) => Stage::KeyResolved,
            AuthError::TokenExpired => Stage::CryptoVerified,
        }
    }

    /// The text shown to the caller. It never carries the detail: a failure of
    /// the key source reads like an invalid token.
    pub open spec fn spec_message(self) -> Seq<char> {
        match self {
            AuthError::InvalidToken(_) => "invalid token"@,
            AuthError::VerificationUnavailable(_) => "invalid token"@,
            AuthError::TokenExpired => "token expired"@,
            AuthError::MissingToken => "Missing token"@,
        }
    }

    pub fn message(&self) -> (r: &'static str)
        ensures
            r@ == self.spec_message(),
    {
        match self {
            AuthError::InvalidToken(_) => "invalid token",
            AuthError::VerificationUnavailable(_) => "invalid token",
            AuthError::TokenExpired => "token expired",
            AuthError::MissingToken => "Missing token",
        }
    }

    /// Every failure of authentication is answered with 401.
    pub fn status(&self) -> (r: u16)
        ensures
            r == 401,
    {
        401
    }
}

impl From<KeyError> for AuthError {
    fn from(err: KeyError) -> (r: AuthError) {
        AuthError::InvalidToken(TokenFault::Key(err))
    }
}

impl vstd::std_specs::convert::FromSpecImpl<KeyError> for AuthError {
    open spec fn obeys_from_spec() -> bool {
        true
    }

    open spec fn from_spec(err: KeyError) -> AuthError {
        AuthError::InvalidToken(TokenFault::Key(err))
    }
}

impl From<FetchError> for AuthError {
    fn from(err: FetchError) -> (r: AuthError) {
        AuthError::VerificationUnavailable(err)
    }
}

impl vstd::std_specs::convert::FromSpecImpl<FetchError> for AuthError {
    open spec fn obeys_from_spec() -> bool {
        true
    }

    open spec fn from_spec(err: FetchError) -> AuthError {
        AuthError::VerificationUnavailable(err)
    }
}

/// What the HTTP layer answers with.
#[derive(Debug, Clone)]
pub enum ApiError {
    Unauthorized(&'static str),
    Forbidden(&'static str),
    NotFound(&'static str),
    BadRequest(String),
    Conflict(&'static str),
    /// A failure inside the service; the text is for the log, never for the
    /// caller.
    Internal(String),
}

pub enum ApiErrorView {
    Unauthorized(Seq<char>),
    Forbidden(Seq<char>),
    NotFound(Seq<char>),
    BadRequest(Seq<char>),
    Conflict(Seq<char>),
    Internal(Seq<char>),
}

impl DeepView for ApiError {
    type V = ApiErrorView;

    open spec fn deep_view(&self) -> ApiErrorView {
        match self {
            ApiError::Unauthorized(m) => ApiErrorView::Unauthorized(m@),
            ApiError::Forbidden(m) => ApiErrorView::Forbidden(m@),
            ApiError::NotFound(m) => ApiErrorView::NotFound(m@),
            ApiError::BadRequest(m) => ApiErrorView::BadRequest(m@),
            ApiError::Conflict(m) => ApiErrorView::Conflict(m@),
            ApiError::Internal(m) => ApiErrorView::Internal(m@),
        }
    }
}

/// The answer to a failed authentication: unauthorized, with the failure's
/// message.
pub open spec fn spec_from_auth(err: AuthError) -> ApiErrorView {
    ApiErrorView::Unauthorized(err.spec_message())
}

/// The answer to a failed request to the service.
pub open spec fn spec_from_service(err: ServiceError) -> ApiErrorView {
    match err {
        ServiceError::NotFound => ApiErrorView::NotFound("resource not found"@),
        ServiceError::AlreadyExists => ApiErrorView::Conflict("resource already exists"@),
        ServiceError::ValidationError => ApiErrorView::BadRequest("validation failed"@),
        ServiceError::DatabaseError(DatabaseError::NotFound) => ApiErrorView::NotFound(
            "resource not found"@,
        ),
        ServiceError::DatabaseError(DatabaseError::Conflict) => ApiErrorView::Conflict(
            "resource already exists"@,
        ),
        ServiceError::DatabaseError(DatabaseError::OperationFailed) => ApiErrorView::BadRequest(
            "operation failed"@,
        ),
        ServiceError::DatabaseError(DatabaseError::Internal) => ApiErrorView::Internal(
            "database internal error"@,
        ),
    }
}

/// The errors of `validator` for a whole request.
#[verifier::external_type_specification]
#[verifier::external_body]
pub struct ExValidationErrors(validator::ValidationErrors);

/// Words a set of validation errors with its own `Display`. Nothing is
/// claimed of the text: it lists the fields in the order in which a hash map
/// is walked.
#[verifier::external_body]
fn validation_errors_text(errors: &validator::ValidationErrors) -> String {
    errors.to_string()
}

/// A request that fails validation is a bad request, whatever the errors
/// say; their wording is the message.
impl vstd::std_specs::convert::FromSpecImpl<validator::ValidationErrors> for ApiError {
    open spec fn obeys_from_spec() -> bool {
        false
    }

    open spec fn from_spec(errors: validator::ValidationErrors) -> ApiError {
        choose|r: ApiError| (#[trigger] r.deep_view()) is BadRequest
    }
}

impl From<validator::ValidationErrors> for ApiError {
    fn from(errors: validator::ValidationErrors) -> (r: ApiError)
        ensures
            r is BadRequest,
    {
        ApiError::BadRequest(validation_errors_text(&errors))
    }
}

impl From<AuthError> for ApiError {
    fn from(err: AuthError) -> (r: ApiError)
        ensures
            r.deep_view() == spec_from_auth(err),
    {
        match err {
            AuthError::InvalidToken(_) => ApiError::Unauthorized("invalid token"),
            AuthError::VerificationUnavailable(_) => ApiError::Unauthorized("invalid token"),
            AuthError::TokenExpired => ApiError::Unauthorized("token expired"),
            AuthError::MissingToken => ApiError::Unauthorized("Missing token"),
        }
    }
}

impl vstd::std_specs::convert::FromSpecImpl<AuthError> for ApiError {
    open spec fn obeys_from_spec() -> bool {
        true
    }

    open spec fn from_spec(err: AuthError) -> ApiError {
        match err {
            AuthError::InvalidToken(_) => ApiError::Unauthorized("invalid token"),
            AuthError::VerificationUnavailable(_) => ApiError::Unauthorized("invalid token"),
            AuthError::TokenExpired => ApiError::Unauthorized("token expired"),
            AuthError::MissingToken => ApiError::Unauthorized("Missing token"),
        }
    }
}

/// The texts of a refused request are built when the answer is made, so the
/// conversion is stated over views, in the `ensures` of `from`.
impl vstd::std_specs::convert::FromSpecImpl<ServiceError> for ApiError {
    open spec fn obeys_from_spec() -> bool {
        false
    }

    open spec fn from_spec(err: ServiceError) -> ApiError {
        choose|r: ApiError| r.deep_view() == spec_from_service(err)
    }
}

impl From<ServiceError> for ApiError {
    fn from(err: ServiceError) -> (r: ApiError)
        ensures
            r.deep_view() == spec_from_service(err),
    {
        match err {
            ServiceError::NotFound => ApiError::NotFound("resource not found"),
            ServiceError::AlreadyExists => ApiError::Conflict("resource already exists"),
            ServiceError::ValidationError => ApiError::BadRequest("validation failed".to_owned()),
            ServiceError::DatabaseError(db) => match db {
                DatabaseError::NotFound => ApiError::NotFound("resource not found"),
                DatabaseError::Conflict => ApiError::Conflict("resource already exists"),
                DatabaseError::OperationFailed => ApiError::BadRequest(
                    "operation failed".to_owned(),
                ),
                DatabaseError::Internal => ApiError::Internal(
                    "database internal error".to_owned(),
                ),
            },
        }
    }
}

/// How an operation on the database failed, as the service sees it.
#[derive(Debug, Clone, Copy, PartialEq, Eq, Structural)]
pub enum DatabaseError {
    NotFound,
    Conflict,
    OperationFailed,
    Internal,
}

/// How a request to the service failed.
#[derive(Debug, Clone, Copy, PartialEq, Eq, Structural)]
pub enum ServiceError {
    NotFound,
    AlreadyExists,
    ValidationError,
    DatabaseError(DatabaseError),
}

impl From<DatabaseError> for ServiceError {
    fn from(err: DatabaseError) -> (r: ServiceError) {
        ServiceError::DatabaseError(err)
    }
}

impl vstd::std_specs::convert::FromSpecImpl<DatabaseError> for ServiceError {
    open spec fn obeys_from_spec() -> bool {
        true
    }

    open spec fn from_spec(err: DatabaseError) -> ServiceError {
        ServiceError::DatabaseError(err)
    }
}

/// A failure of the database for the HTTP layer: either the record is not
/// there, or the query failed and the text says how.
#[derive(Debug, Clone)]
pub enum DbError {
    Query(String),
    NotFound,
}

impl DbError {
    /// 404 for a record that is not there, 500 for anything else.
    pub fn status(&self) -> (r: u16)
        ensures
            r == (if self is NotFound {
                404u16
            } else {
                500u16
            }),
    {
        match self {
            DbError::NotFound => 404,
            DbError::Query(_) => 500,
        }
    }

    pub open spec fn spec_client_msg(&self) -> Seq<char> {
        match self {
            DbError::NotFound => "Record not found"@,
            DbError::Query(_) => "Database error occurred"@,
        }
    }

    /// The text for the caller. The text of a failed query stays inside.
    pub fn client_msg(&self) -> (r: &'static str)
        ensures
            r@ == self.spec_client_msg(),
    {
        match self {
            DbError::NotFound => "Record not found",
            DbError::Query(_) => "Database error occurred",
        }
    }
}

impl ApiError {
    /// The HTTP status of the answer.
    pub open spec fn spec_status(&self) -> u16 {
        match self {
            ApiError::Unauthorized(_) => 401,
            ApiError::Forbidden(_) => 403,
            ApiError::NotFound(_) => 404,
            ApiError::BadRequest(_) => 400,
            ApiError::Conflict(_) => 409,
            ApiError::Internal(_) => 500,
        }
    }

    pub fn status(&self) -> (r: u16)
        ensures
            r == self.spec_status(),
    {
        match self {
            ApiError::Unauthorized(_) => 401,
            ApiError::Forbidden(_) => 403,
            ApiError::NotFound(_) => 404,
            ApiError::BadRequest(_) => 400,
            ApiError::Conflict(_) => 409,
            ApiError::Internal(_) => 500,
        }
    }

    /// The text of the answer: the message the error was made with, except
    /// for an internal failure, whose text is never shown.
    pub open spec fn spec_client_msg(&self) -> Seq<char> {
        match self {
            ApiError::Unauthorized(m) => m@,
            ApiError::Forbidden(m) => m@,
            ApiError::NotFound(m) => m@,
            ApiError::Conflict(m) => m@,
            ApiError::BadRequest(m) => m@,
            ApiError::Internal(_) => "an internal error occurred"@,
        }
    }

    pub fn client_msg(&self) -> (r: &str)
        ensures
            r@ == self.spec_client_msg(),
    {
        match self {
            ApiError::Unauthorized(m) => m,
            ApiError::Forbidden(m) => m,
            ApiError::NotFound(m) => m,
            ApiError::Conflict(m) => m,
            ApiError::BadRequest(m) => m.as_str(),
            ApiError::Internal(_) => "an internal error occurred",
        }
    }
}

} // verus!
