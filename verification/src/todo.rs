//! The requests that create and change a todo, and the rule on their titles.

use vstd::prelude::*;

verus! {

/// The error of `validator` for one field.
#[verifier::external_type_specification]
#[verifier::external_body]
pub struct ExValidationError(validator::ValidationError);

/// The shortest and the longest title, in bytes.
pub const TITLE_MIN: usize = 1;

pub const TITLE_MAX: usize = 255;

/// The code that a `validator::ValidationError` carries.
pub uninterp spec fn validation_error_code(error: validator::ValidationError) -> Seq<char>;

/// Makes an error with `validator::ValidationError::new`. Trusted: the error
/// carries the code it was made with.
#[verifier::external_body]
fn validation_error(code: &'static str) -> (r: validator::ValidationError)
    ensures
        validation_error_code(r) == code@,
{
    validator::ValidationError::new(code)
}

/// A title is accepted where its length in bytes, as UTF-8, lies within the
/// bounds.
pub open spec fn title_ok(title: Seq<char>) -> bool {
    TITLE_MIN <= vstd::utf8::encode_utf8(title).len() <= TITLE_MAX
}

/// Checks the length of a title.
pub fn validate_title_length(title: &str) -> (r: Result<(), validator::ValidationError>)
    ensures
        r is Ok <==> title_ok(title@),
        r matches Err(error) ==> validation_error_code(error)
            == "must be between 1 and 255 characters long"@,
{
    let length: usize = title.as_bytes().len();
    if length < TITLE_MIN || length > TITLE_MAX {
        return Err(validation_error("must be between 1 and 255 characters long"));
    }
    Ok(())
}

/// The request to create a todo.
#[derive(Debug, Clone)]
pub struct CreateTodoRequest {
    pub title: String,
}

/// The request to change a todo.
#[derive(Debug, Clone)]
pub struct UpdateTodoRequest {
    pub title: String,
    pub completed: bool,
}

impl CreateTodoRequest {
    /// A request is valid where its title is.
    pub fn validate(&self) -> (r: Result<(), validator::ValidationError>)
        ensures
            r is Ok <==> title_ok(self.title@),
            r matches Err(error) ==> validation_error_code(error)
                == "must be between 1 and 255 characters long"@,
    {
        validate_title_length(self.title.as_str())
    }
}

impl UpdateTodoRequest {
    /// A request is valid where its title is.
    pub fn validate(&self) -> (r: Result<(), validator::ValidationError>)
        ensures
            r is Ok <==> title_ok(self.title@),
            r matches Err(error) ==> validation_error_code(error)
                == "must be between 1 and 255 characters long"@,
    {
        validate_title_length(self.title.as_str())
    }
}

} // verus!
