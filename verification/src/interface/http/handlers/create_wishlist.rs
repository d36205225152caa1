//! Creating a wishlist: the request body, the answer, and the way from one
//! to the other.

use crate::application::UseCases;
use crate::domain::wishlist::created;
use crate::domain::wishlist::CreateWishlistError;
use crate::domain::wishlist::CreateWishlistRequest;
use crate::domain::wishlist::CreateWishlistRequestView;
use crate::domain::wishlist::OwnerIdInvalidError;
use crate::domain::wishlist::Wishlist;
use crate::domain::wishlist::WishlistName;
use crate::domain::wishlist::WishlistNameInvalidError;
use crate::identifier::hyphenated;
use crate::identifier::parse;
use crate::identifier::uuid_parsed;
use crate::identifier::uuid_text;
use crate::interface::http::responses::internal_error_message;
use crate::interface::http::responses::internal_server_error;
use crate::interface::http::responses::ApiError;
use crate::interface::http::responses::ApiErrorView;
use vstd::prelude::*;
use vstd::std_specs::cmp::PartialEqSpecImpl;
use vstd::std_specs::convert::FromSpecImpl;
use vstd::string::StringExecFns;

verus! {

/// What is said when the owner of a new wishlist is not registered.
pub open spec fn missing_owner_message(id: u128) -> Seq<char> {
    "Owner ID "@ + uuid_text(id) + " does not exist"@
}

/// What is said when the owner's identifier of a request cannot be read.
pub open spec fn invalid_owner_message(id: u128) -> Seq<char> {
    "owner id "@ + uuid_text(id) + " is invalid"@
}

/// The error that the interface reports for a failed creation.
pub open spec fn create_wishlist_error_response(e: CreateWishlistError) -> ApiErrorView {
    match e {
        CreateWishlistError::OwnerIdDoesNotExist { id } => ApiErrorView::UnprocessableEntity(
            missing_owner_message(id),
        ),
        CreateWishlistError::Unknown(_) => ApiErrorView::InternalServerError(
            internal_error_message(),
        ),
    }
}

impl From<CreateWishlistError> for ApiError {
    /// A missing owner is the caller's to know; any other cause is not, and
    /// is dropped here.
    fn from(e: CreateWishlistError) -> (error: Self)
        ensures
            error@ == create_wishlist_error_response(e),
    {
        match e {
            CreateWishlistError::OwnerIdDoesNotExist { id } => {
                let mut message = "Owner ID ".to_owned();
                message.append(hyphenated(id).as_str());
                message.append(" does not exist");
                ApiError::UnprocessableEntity(message)
            },
            CreateWishlistError::Unknown(_) => internal_server_error(),
        }
    }
}

impl FromSpecImpl<CreateWishlistError> for ApiError {
    open spec fn obeys_from_spec() -> bool {
        false
    }

    open spec fn from_spec(e: CreateWishlistError) -> Self {
        arbitrary()
    }
}

/// The error that the interface reports for a body that is no request.
pub open spec fn parse_create_wishlist_error_response(
    e: ParseCreateWishlistHttpRequestError,
) -> ApiErrorView {
    match e {
        ParseCreateWishlistHttpRequestError::InvalidOwnerId(cause) => {
            ApiErrorView::UnprocessableEntity(invalid_owner_message(cause.invalid_owner_id))
        },
        ParseCreateWishlistHttpRequestError::InvalidName(_) => ApiErrorView::UnprocessableEntity(
            "name is invalid"@,
        ),
    }
}

impl From<ParseCreateWishlistHttpRequestError> for ApiError {
    fn from(e: ParseCreateWishlistHttpRequestError) -> (error: Self)
        ensures
            error@ == parse_create_wishlist_error_response(e),
    {
        let message = match e {
            ParseCreateWishlistHttpRequestError::InvalidOwnerId(cause) => {
                let mut message = "owner id ".to_owned();
                message.append(hyphenated(cause.invalid_owner_id).as_str());
                message.append(" is invalid");
                message
            },
            ParseCreateWishlistHttpRequestError::InvalidName(_) => "name is invalid".to_owned(),
        };
        ApiError::UnprocessableEntity(message)
    }
}

impl FromSpecImpl<ParseCreateWishlistHttpRequestError> for ApiError {
    open spec fn obeys_from_spec() -> bool {
        false
    }

    open spec fn from_spec(e: ParseCreateWishlistHttpRequestError) -> Self {
        arbitrary()
    }
}

/// What is answered when a wishlist was created: the identifier of the
/// wishlist in its hyphenated form.
#[derive(Debug, Eq)]
pub struct CreateWishlistResponseData {
    pub id: String,
}

impl Clone for CreateWishlistResponseData {
    fn clone(&self) -> (c: Self)
        ensures
            c.id@ == self.id@,
    {
        Self { id: self.id.clone() }
    }
}

impl PartialEq for CreateWishlistResponseData {
    fn eq(&self, other: &Self) -> (b: bool) {
        self.id == other.id
    }
}

impl PartialEqSpecImpl for CreateWishlistResponseData {
    open spec fn obeys_eq_spec() -> bool {
        true
    }

    open spec fn eq_spec(&self, other: &Self) -> bool {
        self.id@ == other.id@
    }
}

impl From<&Wishlist> for CreateWishlistResponseData {
    fn from(wishlist: &Wishlist) -> (data: Self)
        ensures
            data.id@ == uuid_text(wishlist@.id),
    {
        Self { id: hyphenated(wishlist.id()) }
    }
}

impl FromSpecImpl<&Wishlist> for CreateWishlistResponseData {
    open spec fn obeys_from_spec() -> bool {
        false
    }

    open spec fn from_spec(wishlist: &Wishlist) -> Self {
        arbitrary()
    }
}

/// The body of a request to create a wishlist.
#[derive(Debug, Eq)]
pub struct CreateWishlistHttpRequestBody {
    pub name: String,
    pub owner_id: String,
    pub private: bool,
}

/// What a body asks for, given the identifier that was read from its
/// owner's text, if one was: the request, or the first reason why it is
/// none. The owner is looked at before the name.
pub open spec fn wishlist_request_of(
    body: CreateWishlistHttpRequestBody,
    owner: Option<u128>,
    r: Result<CreateWishlistRequest, ParseCreateWishlistHttpRequestError>,
) -> bool {
    match owner {
        None => r matches Err(ParseCreateWishlistHttpRequestError::InvalidOwnerId(e))
            && e.invalid_owner_id == 0,
        Some(owner_id) => if body.name@.len() == 0 {
            r matches Err(ParseCreateWishlistHttpRequestError::InvalidName(e)) && e.invalid_name@
                == body.name@
        } else {
            r matches Ok(req) && req@ == (CreateWishlistRequestView {
                owner_id,
                name: body.name@,
                private: body.private,
            })
        },
    }
}

impl CreateWishlistHttpRequestBody {
    /// Converts the body into a request of the domain, given what reading
    /// the owner's identifier gave. Where it gave an error, the request is
    /// refused with the nil identifier in place of the one that could not
    /// be read.
    pub fn into_domain_with(self, owner: Result<u128, uuid::Error>) -> (r: Result<
        CreateWishlistRequest,
        ParseCreateWishlistHttpRequestError,
    >)
        ensures
            wishlist_request_of(
                self,
                match owner {
                    Ok(id) => Some(id),
                    Err(_) => None,
                },
                r,
            ),
    {
        let owner_id = match owner {
            Ok(owner_id) => owner_id,
            Err(_) => {
                return Err(
                    ParseCreateWishlistHttpRequestError::InvalidOwnerId(
                        OwnerIdInvalidError { invalid_owner_id: 0 },
                    ),
                );
            },
        };
        let name = match WishlistName::new(self.name.as_str()) {
            Ok(name) => name,
            Err(cause) => {
                return Err(ParseCreateWishlistHttpRequestError::InvalidName(cause));
            },
        };
        Ok(CreateWishlistRequest::new(owner_id, name, self.private))
    }

    /// Converts the body into a request of the domain: reads the owner's
    /// identifier, then validates the name.
    pub fn try_into_domain(self) -> (r: Result<
        CreateWishlistRequest,
        ParseCreateWishlistHttpRequestError,
    >)
        ensures
            wishlist_request_of(self, uuid_parsed(self.owner_id@), r),
    {
        let owner = parse(self.owner_id.as_str());
        self.into_domain_with(owner)
    }
}

impl Clone for CreateWishlistHttpRequestBody {
    fn clone(&self) -> (c: Self)
        ensures
            c.name@ == self.name@,
            c.owner_id@ == self.owner_id@,
            c.private == self.private,
    {
        Self { name: self.name.clone(), owner_id: self.owner_id.clone(), private: self.private }
    }
}

impl PartialEq for CreateWishlistHttpRequestBody {
    fn eq(&self, other: &Self) -> (b: bool) {
        self.name == other.name && self.owner_id == other.owner_id && self.private == other.private
    }
}

impl PartialEqSpecImpl for CreateWishlistHttpRequestBody {
    open spec fn obeys_eq_spec() -> bool {
        true
    }

    open spec fn eq_spec(&self, other: &Self) -> bool {
        self.name@ == other.name@ && self.owner_id@ == other.owner_id@ && self.private
            == other.private
    }
}

/// Why a body is no request to create a wishlist.
#[derive(Debug)]
pub enum ParseCreateWishlistHttpRequestError {
    InvalidOwnerId(OwnerIdInvalidError),
    InvalidName(WishlistNameInvalidError),
}

/// Whether `answer` is what the interface says of the outcome of a
/// creation: the identifier of the new wishlist, or the error for the
/// failure.
pub open spec fn answers_creation(
    outcome: Result<Wishlist, CreateWishlistError>,
    answer: Result<CreateWishlistResponseData, ApiError>,
) -> bool {
    match outcome {
        Ok(wishlist) => answer matches Ok(data) && data.id@ == uuid_text(wishlist@.id),
        Err(e) => answer matches Err(error) && error@ == create_wishlist_error_response(e),
    }
}

/// What the interface says of the outcome of a creation.
pub fn creation_answer(outcome: Result<Wishlist, CreateWishlistError>) -> (answer: Result<
    CreateWishlistResponseData,
    ApiError,
>)
    ensures
        answers_creation(outcome, answer),
{
    match outcome {
        Ok(wishlist) => Ok(CreateWishlistResponseData::from(&wishlist)),
        Err(e) => Err(ApiError::from(e)),
    }
}

/// Creates a wishlist from a request body and says how it went. A body
/// that is no request is answered with the reason and changes nothing;
/// else the use case is carried out and its outcome is put into the words
/// of the interface.
pub fn create_wishlist<UC: UseCases>(services: &mut UC, body: CreateWishlistHttpRequestBody) -> (answer:
    Result<CreateWishlistResponseData, ApiError>)
    ensures
        final(services).users() == old(services).users(),
        final(services).owners() == old(services).owners(),
        final(services).reliable() == old(services).reliable(),
        exists|parsed: Result<CreateWishlistRequest, ParseCreateWishlistHttpRequestError>|
            {
                &&& #[trigger] wishlist_request_of(body, uuid_parsed(body.owner_id@), parsed)
                &&& match parsed {
                    Err(e) => {
                        &&& answer matches Err(error) && error@
                            == parse_create_wishlist_error_response(e)
                        &&& final(services).wishlists() == old(services).wishlists()
                    },
                    Ok(req) => exists|outcome: Result<Wishlist, CreateWishlistError>|
                        {
                            &&& created(
                                req@,
                                old(services).wishlists(),
                                final(services).wishlists(),
                                outcome,
                            )
                            &&& #[trigger] answers_creation(outcome, answer)
                            &&& old(services).reliable() ==> (outcome is Ok <==> old(
                                services,
                            ).owners().contains_key(req@.owner_id))
                        },
                }
            },
{
    let parsed = body.try_into_domain();
    let ghost seen_parse = parsed;
    match parsed {
        Ok(req) => {
            let outcome = services.create_wishlist(&req);
            let ghost seen = outcome;
            let answer = creation_answer(outcome);
            assert(answers_creation(seen, answer));
            assert(wishlist_request_of(body, uuid_parsed(body.owner_id@), seen_parse));
            answer
        },
        Err(e) => {
            let answer = Err(ApiError::from(e));
            assert(wishlist_request_of(body, uuid_parsed(body.owner_id@), seen_parse));
            answer
        },
    }
}

} // verus!
