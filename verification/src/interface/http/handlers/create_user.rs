//! Creating a user: the request body, the answer, and the way from one to
//! the other.

use crate::application::UseCases;
use crate::domain::user::registered;
use crate::domain::user::CreateUserError;
use crate::domain::user::CreateUserRequest;
use crate::domain::user::CreateUserRequestView;
use crate::domain::user::User;
use crate::domain::user::UserEmail;
use crate::domain::user::UserEmailInvalidError;
use crate::domain::user::UserPassword;
use crate::domain::user::UserPasswordInvalidError;
use crate::identifier::hyphenated;
use crate::identifier::uuid_text;
use crate::interface::http::responses::internal_error_message;
use crate::interface::http::responses::internal_server_error;
use crate::interface::http::responses::ApiError;
use crate::interface::http::responses::ApiErrorView;
use vstd::prelude::*;
use vstd::std_specs::cmp::PartialEqSpecImpl;
use vstd::std_specs::convert::FromSpecImpl;
use vstd::string::StringExecFns;

verus! {

/// What is said when the e-mail address of a new user is taken.
pub open spec fn duplicate_user_message(email: Seq<char>) -> Seq<char> {
    "User with email "@ + email + " already exists"@
}

/// What is said when the e-mail address of a request is refused.
pub open spec fn invalid_email_message(email: Seq<char>) -> Seq<char> {
    "email address "@ + email + " is invalid"@
}

/// The error that the interface reports for a failed registration.
pub open spec fn create_user_error_response(e: CreateUserError) -> ApiErrorView {
    match e {
        CreateUserError::Duplicate { email } => ApiErrorView::UnprocessableEntity(
            duplicate_user_message(email@),
        ),
        CreateUserError::Unknown(_) => ApiErrorView::InternalServerError(internal_error_message()),
    }
}

impl From<CreateUserError> for ApiError {
    /// A taken address is the caller's to know; any other cause is not, and
    /// is dropped here.
    fn from(e: CreateUserError) -> (error: Self)
        ensures
            error@ == create_user_error_response(e),
    {
        match e {
            CreateUserError::Duplicate { email } => {
                let mut message = "User with email ".to_owned();
                message.append(email.to_string().as_str());
                message.append(" already exists");
                ApiError::UnprocessableEntity(message)
            },
            CreateUserError::Unknown(_) => internal_server_error(),
        }
    }
}

impl FromSpecImpl<CreateUserError> for ApiError {
    open spec fn obeys_from_spec() -> bool {
        false
    }

    open spec fn from_spec(e: CreateUserError) -> Self {
        arbitrary()
    }
}

/// The error that the interface reports for a body that is no request.
pub open spec fn parse_create_user_error_response(
    e: ParseCreateUserHttpRequestError,
) -> ApiErrorView {
    match e {
        ParseCreateUserHttpRequestError::EmailAddress(cause) => ApiErrorView::UnprocessableEntity(
            invalid_email_message(cause.invalid_email@),
        ),
        ParseCreateUserHttpRequestError::Password(_) => ApiErrorView::UnprocessableEntity(
            "password is invalid"@,
        ),
    }
}

impl From<ParseCreateUserHttpRequestError> for ApiError {
    fn from(e: ParseCreateUserHttpRequestError) -> (error: Self)
        ensures
            error@ == parse_create_user_error_response(e),
    {
        let message = match e {
            ParseCreateUserHttpRequestError::EmailAddress(cause) => {
                let mut message = "email address ".to_owned();
                message.append(cause.invalid_email.to_string().as_str());
                message.append(" is invalid");
                message
            },
            ParseCreateUserHttpRequestError::Password(_) => "password is invalid".to_owned(),
        };
        ApiError::UnprocessableEntity(message)
    }
}

impl FromSpecImpl<ParseCreateUserHttpRequestError> for ApiError {
    open spec fn obeys_from_spec() -> bool {
        false
    }

    open spec fn from_spec(e: ParseCreateUserHttpRequestError) -> Self {
        arbitrary()
    }
}

/// What is answered when a user was created: the identifier of the user in
/// its hyphenated form.
#[derive(Debug, Eq)]
pub struct CreateUserResponseData {
    id: String,
}

impl View for CreateUserResponseData {
    type V = Seq<char>;

    closed spec fn view(&self) -> Seq<char> {
        self.id@
    }
}

impl CreateUserResponseData {
    /// The identifier as text.
    pub fn id(&self) -> (id: &str)
        ensures
            id@ == self@,
    {
        self.id.as_str()
    }
}

impl Clone for CreateUserResponseData {
    fn clone(&self) -> (c: Self)
        ensures
            c@ == self@,
    {
        Self { id: self.id.clone() }
    }
}

impl PartialEq for CreateUserResponseData {
    fn eq(&self, other: &Self) -> (b: bool) {
        self.id == other.id
    }
}

impl PartialEqSpecImpl for CreateUserResponseData {
    open spec fn obeys_eq_spec() -> bool {
        true
    }

    open spec fn eq_spec(&self, other: &Self) -> bool {
        self@ == other@
    }
}

impl From<&User> for CreateUserResponseData {
    fn from(user: &User) -> (data: Self)
        ensures
            data@ == uuid_text(user@.id),
    {
        Self { id: hyphenated(*user.id()) }
    }
}

impl FromSpecImpl<&User> for CreateUserResponseData {
    open spec fn obeys_from_spec() -> bool {
        false
    }

    open spec fn from_spec(user: &User) -> Self {
        arbitrary()
    }
}

/// The body of a request to create a user.
#[derive(Debug, Eq)]
pub struct CreateUserHttpRequestBody {
    email: String,
    password: String,
}

impl View for CreateUserHttpRequestBody {
    type V = CreateUserRequestView;

    closed spec fn view(&self) -> CreateUserRequestView {
        CreateUserRequestView { email: self.email@, password: self.password@ }
    }
}

impl CreateUserHttpRequestBody {
    pub fn new(email: String, password: String) -> (body: Self)
        ensures
            body@ == (CreateUserRequestView { email: email@, password: password@ }),
    {
        Self { email, password }
    }

    /// Converts the body into a request of the domain. Both texts pass
    /// their validation, whatever they are, so this always succeeds.
    pub fn try_into_domain(self) -> (r: Result<CreateUserRequest, ParseCreateUserHttpRequestError>)
        ensures
            r matches Ok(req) && req@ == self@,
    {
        let email = match UserEmail::new(self.email.as_str()) {
            Ok(email) => email,
            Err(cause) => {
                return Err(ParseCreateUserHttpRequestError::EmailAddress(cause));
            },
        };
        let password = match UserPassword::new(self.password.as_str()) {
            Ok(password) => password,
            Err(cause) => {
                return Err(ParseCreateUserHttpRequestError::Password(cause));
            },
        };
        Ok(CreateUserRequest::new(email, password))
    }
}

impl Clone for CreateUserHttpRequestBody {
    fn clone(&self) -> (c: Self)
        ensures
            c@ == self@,
    {
        Self { email: self.email.clone(), password: self.password.clone() }
    }
}

impl PartialEq for CreateUserHttpRequestBody {
    fn eq(&self, other: &Self) -> (b: bool) {
        self.email == other.email && self.password == other.password
    }
}

impl PartialEqSpecImpl for CreateUserHttpRequestBody {
    open spec fn obeys_eq_spec() -> bool {
        true
    }

    open spec fn eq_spec(&self, other: &Self) -> bool {
        self@ == other@
    }
}

/// Why a body is no request to create a user.
#[derive(Debug)]
pub enum ParseCreateUserHttpRequestError {
    EmailAddress(UserEmailInvalidError),
    Password(UserPasswordInvalidError),
}

/// Whether `answer` is what the interface says of the outcome of a
/// registration: the identifier of the new user, or the error for the
/// failure.
pub open spec fn answers_registration(
    outcome: Result<User, CreateUserError>,
    answer: Result<CreateUserResponseData, ApiError>,
) -> bool {
    match outcome {
        Ok(user) => answer matches Ok(data) && data@ == uuid_text(user@.id),
        Err(e) => answer matches Err(error) && error@ == create_user_error_response(e),
    }
}

/// What the interface says of the outcome of a registration.
pub fn registration_answer(outcome: Result<User, CreateUserError>) -> (answer: Result<
    CreateUserResponseData,
    ApiError,
>)
    ensures
        answers_registration(outcome, answer),
{
    match outcome {
        Ok(user) => Ok(CreateUserResponseData::from(&user)),
        Err(e) => Err(ApiError::from(e)),
    }
}

/// Creates a user from a request body and says how it went: the body
/// becomes a request, the use case is carried out, and its outcome is put
/// into the words of the interface.
pub fn create_user<UC: UseCases>(services: &mut UC, body: CreateUserHttpRequestBody) -> (answer:
    Result<CreateUserResponseData, ApiError>)
    ensures
        final(services).wishlists() == old(services).wishlists(),
        final(services).reliable() == old(services).reliable(),
        exists|outcome: Result<User, CreateUserError>|
            {
                &&& registered(body@, old(services).users(), final(services).users(), outcome)
                &&& #[trigger] answers_registration(outcome, answer)
                &&& old(services).reliable() ==> !(outcome matches Err(CreateUserError::Unknown(_)))
            },
{
    match body.try_into_domain() {
        Ok(req) => {
            let outcome = services.create_user(&req);
            let ghost seen = outcome;
            let answer = registration_answer(outcome);
            assert(answers_registration(seen, answer));
            answer
        },
        Err(e) => Err(ApiError::from(e)),
    }
}

} // verus!
