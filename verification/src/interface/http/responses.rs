use vstd::prelude::*;
use vstd::std_specs::cmp::PartialEqSpecImpl;

verus! {

/// An error as the interface reports it: the kind, and a message that is
/// safe to show.
#[derive(Debug, Eq)]
pub enum ApiError {
    /// The fault lies with the server. The message says no more than that.
    InternalServerError(String),
    /// The request was understood and cannot be carried out.
    UnprocessableEntity(String),
}

/// An [`ApiError`] with its message as a sequence of characters.
pub enum ApiErrorView {
    InternalServerError(Seq<char>),
    UnprocessableEntity(Seq<char>),
}

impl View for ApiError {
    type V = ApiErrorView;

    open spec fn view(&self) -> ApiErrorView {
        match self {
            ApiError::InternalServerError(message) => ApiErrorView::InternalServerError(message@),
            ApiError::UnprocessableEntity(message) => ApiErrorView::UnprocessableEntity(message@),
        }
    }
}

impl ApiError {
    /// The message of the error.
    pub fn message(&self) -> (message: &str)
        ensures
            self@ == ApiErrorView::InternalServerError(message@) || self@
                == ApiErrorView::UnprocessableEntity(message@),
    {
        match self {
            ApiError::InternalServerError(message) => message.as_str(),
            ApiError::UnprocessableEntity(message) => message.as_str(),
        }
    }
}

impl Clone for ApiError {
    fn clone(&self) -> (c: Self)
        ensures
            c@ == self@,
    {
        match self {
            ApiError::InternalServerError(message) => ApiError::InternalServerError(
                message.clone(),
            ),
            ApiError::UnprocessableEntity(message) => ApiError::UnprocessableEntity(
                message.clone(),
            ),
        }
    }
}

impl PartialEq for ApiError {
    fn eq(&self, other: &Self) -> (b: bool) {
        match (self, other) {
            (ApiError::InternalServerError(a), ApiError::InternalServerError(b)) => *a == *b,
            (ApiError::UnprocessableEntity(a), ApiError::UnprocessableEntity(b)) => *a == *b,
            _ => false,
        }
    }
}

impl PartialEqSpecImpl for ApiError {
    open spec fn obeys_eq_spec() -> bool {
        true
    }

    open spec fn eq_spec(&self, other: &Self) -> bool {
        self@ == other@
    }
}

/// What is said of a failure whose cause is not for the caller to see.
pub open spec fn internal_error_message() -> Seq<char> {
    "Internal server error"@
}

/// The error for a failure whose cause is not for the caller to see.
pub fn internal_server_error() -> (error: ApiError)
    ensures
        error@ == ApiErrorView::InternalServerError(internal_error_message()),
{
    ApiError::InternalServerError("Internal server error".to_owned())
}

} // verus!
