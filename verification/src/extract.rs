//! What the HTTP layer extracts from a request, and how a request that cannot
//! be read is answered.

use vstd::prelude::*;
use crate::error::{ApiError, ApiErrorView};

verus! {

/// A request body that was read as JSON and found valid.
#[derive(Debug, Clone, Copy, Default)]
pub struct ValidatedJson<T>(pub T);

/// Path parameters that were read.
#[derive(Debug, Clone, Copy, Default)]
pub struct ValidatedPath<T>(pub T);

impl<T> ValidatedJson<T> {
    /// The value inside.
    pub fn into_inner(self) -> (r: T)
        ensures
            r == self.0,
    {
        self.0
    }
}

impl<T> ValidatedPath<T> {
    /// The value inside.
    pub fn into_inner(self) -> (r: T)
        ensures
            r == self.0,
    {
        self.0
    }
}

/// Why a body could not be read as JSON.
#[derive(Debug, Clone, Copy, PartialEq, Eq, Structural)]
pub enum JsonRejection {
    JsonDataError,
    JsonSyntaxError,
    MissingJsonContentType,
    BytesRejection,
    Other,
}

/// Why the path parameters could not be read.
#[derive(Debug, Clone, Copy, PartialEq, Eq, Structural)]
pub enum PathRejection {
    FailedToDeserializePathParams,
    MissingPathParams,
    Other,
}

pub open spec fn spec_json_message(rejection: JsonRejection) -> Seq<char> {
    match rejection {
        JsonRejection::JsonDataError => "Invalid JSON format in request body"@,
        JsonRejection::JsonSyntaxError => "Malformed JSON in request body"@,
        JsonRejection::MissingJsonContentType => {
            "Request must have Content-Type: application/json"@
        },
        JsonRejection::BytesRejection => "Invalid request body"@,
        JsonRejection::Other => "Invalid request format"@,
    }
}

pub open spec fn spec_path_message(rejection: PathRejection) -> Seq<char> {
    match rejection {
        PathRejection::FailedToDeserializePathParams => "Invalid path parameter format"@,
        PathRejection::MissingPathParams => "Missing required path parameters"@,
        PathRejection::Other => "Invalid path parameters"@,
    }
}

/// A body that cannot be read is a bad request; the message says what was
/// wrong in terms of the request, not of the reader.
pub fn map_json_rejection_to_user_error(rejection: JsonRejection) -> (r: ApiError)
    ensures
        r.deep_view() == ApiErrorView::BadRequest(spec_json_message(rejection)),
{
    match rejection {
        JsonRejection::JsonDataError => ApiError::BadRequest(
            "Invalid JSON format in request body".to_owned(),
        ),
        JsonRejection::JsonSyntaxError => ApiError::BadRequest(
            "Malformed JSON in request body".to_owned(),
        ),
        JsonRejection::MissingJsonContentType => ApiError::BadRequest(
            "Request must have Content-Type: application/json".to_owned(),
        ),
        JsonRejection::BytesRejection => ApiError::BadRequest("Invalid request body".to_owned()),
        JsonRejection::Other => ApiError::BadRequest("Invalid request format".to_owned()),
    }
}

/// Path parameters that cannot be read are a bad request.
pub fn map_path_rejection_to_user_error(rejection: PathRejection) -> (r: ApiError)
    ensures
        r.deep_view() == ApiErrorView::BadRequest(spec_path_message(rejection)),
{
    match rejection {
        PathRejection::FailedToDeserializePathParams => ApiError::BadRequest(
            "Invalid path parameter format".to_owned(),
        ),
        PathRejection::MissingPathParams => ApiError::BadRequest(
            "Missing required path parameters".to_owned(),
        ),
        PathRejection::Other => ApiError::BadRequest("Invalid path parameters".to_owned()),
    }
}

} // verus!
