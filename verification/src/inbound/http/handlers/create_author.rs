//! Creating an author over HTTP: from the body of a request to the request
//! of the domain, and from what the domain returns to the response.
//!
//! - `201 Created` with the identifier of the author that was created.
//! - `422 Unprocessable Entity` with a message for a body that is refused
//!   and for a name that is taken.
//! - `500 Internal Server Error` with one fixed message for any other
//!   failure; its cause is never told.

use crate::common::identifier::{id_text, is_text_of};
use crate::common::text::{is_blank, trimmed};
use crate::domain::blog::models::author::{
    duplicate_message, is_valid_email_address, Author, AuthorName, AuthorNameEmptyError,
    CreateAuthorError, CreateAuthorRequest, CreateAuthorRequestView, EmailAddress, EmailAddressError,
};
use crate::inbound::http::StatusCode;
use vstd::prelude::*;
use vstd::std_specs::convert::FromSpecImpl;
use vstd::string::to_string_from_display_ensures;

verus! {

/// A successful response: the status and the body that repeats it.
#[derive(Debug, Clone, PartialEq)]
pub struct ApiSuccess<T>(pub StatusCode, pub ApiResponseBody<T>);

/// A failure as the caller is told of it.
#[derive(Debug, Clone, PartialEq, Eq)]
pub enum ApiError {
    InternalServerError(String),
    UnprocessableEntity(String),
}

/// A failure told to the caller, as contracts speak of it.
pub ghost enum ApiErrorView {
    InternalServerError(Seq<char>),
    UnprocessableEntity(Seq<char>),
}

/// Generic response structure shared by all API responses.
#[derive(Debug, Clone, PartialEq, Eq)]
pub struct ApiResponseBody<T> {
    pub status_code: u16,
    pub data: T,
}

/// The response data format for all error responses.
#[derive(Debug, Clone, PartialEq, Eq)]
pub struct ApiErrorData {
    pub message: String,
}

/// The body of an author creation request that gives a name only.
#[derive(Debug, Clone, PartialEq, Eq)]
pub struct CreateAuthorRequestBody {
    pub name: String,
}

/// The response body data field for successful author creation.
#[derive(Debug, Clone, PartialEq, Eq)]
pub struct CreateAuthorResponseData {
    pub id: String,
}

/// The body of an author creation request.
#[derive(Debug, Clone, PartialEq, Eq)]
pub struct CreateAuthorHttpRequestBody {
    pub name: String,
    pub email_address: String,
}

/// The reason the body of a request is refused.
#[derive(Debug)]
pub enum ParseCreateAuthorHttpRequestError {
    Name(AuthorNameEmptyError),
    EmailAddress(EmailAddressError),
}

/// The one message of every response to an unknown failure.
pub open spec fn internal_error_message() -> Seq<char> {
    "Internal server error"@
}

/// What a caller is told when the name of the body is empty.
pub open spec fn empty_name_message() -> Seq<char> {
    "blog name cannot be empty"@
}

/// What a caller is told when `text` is refused as an email address.
pub open spec fn invalid_email_address_message(text: Seq<char>) -> Seq<char> {
    "email address "@ + text + " is invalid"@
}

/// What a failure of the domain is told as: a name that is taken with the
/// sentence that says so, anything else with the fixed message.
pub open spec fn told_of(error: CreateAuthorError) -> ApiErrorView {
    match error {
        CreateAuthorError::Duplicate { name } => ApiErrorView::UnprocessableEntity(
            duplicate_message(name@),
        ),
        CreateAuthorError::Unknown(_) => ApiErrorView::InternalServerError(
            internal_error_message(),
        ),
    }
}

impl<T> ApiSuccess<T> {
    /// A response of `status` whose body repeats the status beside `data`.
    pub fn new(status: StatusCode, data: T) -> (response: Self)
        ensures
            response.0 == status,
            response.1.status_code == status.number(),
            response.1.data == data,
    {
        ApiSuccess(status, ApiResponseBody::new(status, data))
    }
}

impl<T> ApiResponseBody<T> {
    /// A body that repeats the number of `status_code` beside `data`.
    pub fn new(status_code: StatusCode, data: T) -> (body: Self)
        ensures
            body.status_code == status_code.number(),
            body.data == data,
    {
        Self { status_code: status_code.as_u16(), data }
    }
}

impl ApiResponseBody<ApiErrorData> {
    /// The body of an error response: the number of `status_code` beside
    /// `message`.
    pub fn new_error(status_code: StatusCode, message: String) -> (body: Self)
        ensures
            body.status_code == status_code.number(),
            body.data.message == message,
    {
        Self { status_code: status_code.as_u16(), data: ApiErrorData { message } }
    }
}

impl View for ApiError {
    type V = ApiErrorView;

    open spec fn view(&self) -> ApiErrorView {
        match *self {
            ApiError::InternalServerError(message) => ApiErrorView::InternalServerError(message@),
            ApiError::UnprocessableEntity(message) => ApiErrorView::UnprocessableEntity(message@),
        }
    }
}

impl FromSpecImpl<anyhow::Error> for ApiError {
    open spec fn obeys_from_spec() -> bool {
        false
    }

    open spec fn from_spec(cause: anyhow::Error) -> Self {
        arbitrary()
    }
}

impl From<anyhow::Error> for ApiError {
    /// An internal error that holds what `cause` displays.
    fn from(cause: anyhow::Error) -> (told: Self)
        ensures
            told matches ApiError::InternalServerError(message) && to_string_from_display_ensures::<
                anyhow::Error,
            >(&cause, message),
    {
        ApiError::InternalServerError(cause.to_string())
    }
}

impl FromSpecImpl<CreateAuthorError> for ApiError {
    open spec fn obeys_from_spec() -> bool {
        false
    }

    open spec fn from_spec(error: CreateAuthorError) -> Self {
        arbitrary()
    }
}

impl From<CreateAuthorError> for ApiError {
    /// See [`told_of`]. The cause of an unknown failure is dropped here.
    fn from(error: CreateAuthorError) -> (told: Self)
        ensures
            told@ == told_of(error),
    {
        match error {
            CreateAuthorError::Duplicate { name } => {
                let mut message = "blog with name ".to_owned();
                message.append(name.as_str());
                message.append(" already exists");
                ApiError::UnprocessableEntity(message)
            },
            CreateAuthorError::Unknown(_) => ApiError::InternalServerError(
                "Internal server error".to_owned(),
            ),
        }
    }
}

impl FromSpecImpl<ParseCreateAuthorHttpRequestError> for ApiError {
    open spec fn obeys_from_spec() -> bool {
        false
    }

    open spec fn from_spec(error: ParseCreateAuthorHttpRequestError) -> Self {
        arbitrary()
    }
}

impl From<ParseCreateAuthorHttpRequestError> for ApiError {
    /// A body that is refused cannot be processed; the message says which
    /// field was refused.
    fn from(error: ParseCreateAuthorHttpRequestError) -> (told: Self)
        ensures
            told@ == match error {
                ParseCreateAuthorHttpRequestError::Name(_) => ApiErrorView::UnprocessableEntity(
                    empty_name_message(),
                ),
                ParseCreateAuthorHttpRequestError::EmailAddress(cause) => {
                    ApiErrorView::UnprocessableEntity(
                        invalid_email_address_message(cause.invalid_email@),
                    )
                },
            },
    {
        let message = match error {
            ParseCreateAuthorHttpRequestError::Name(_) => "blog name cannot be empty".to_owned(),
            ParseCreateAuthorHttpRequestError::EmailAddress(cause) => {
                let mut message = "email address ".to_owned();
                message.append(cause.invalid_email.as_str());
                message.append(" is invalid");
                message
            },
        };
        ApiError::UnprocessableEntity(message)
    }
}

impl ApiError {
    /// The status and the body of the response. What an internal error holds
    /// is for the log alone: the body has the fixed message in its place.
    pub fn into_response(self) -> (response: (StatusCode, ApiResponseBody<ApiErrorData>))
        ensures
            response.1.status_code == response.0.number(),
            match self {
                ApiError::InternalServerError(_) => response.0 == StatusCode::InternalServerError
                    && response.1.data.message@ == internal_error_message(),
                ApiError::UnprocessableEntity(message) => response.0
                    == StatusCode::UnprocessableEntity && response.1.data.message == message,
            },
    {
        match self {
            ApiError::InternalServerError(_) => (
                StatusCode::InternalServerError,
                ApiResponseBody::new_error(
                    StatusCode::InternalServerError,
                    "Internal server error".to_owned(),
                ),
            ),
            ApiError::UnprocessableEntity(message) => (
                StatusCode::UnprocessableEntity,
                ApiResponseBody::new_error(StatusCode::UnprocessableEntity, message),
            ),
        }
    }
}

impl FromSpecImpl<&Author> for CreateAuthorResponseData {
    open spec fn obeys_from_spec() -> bool {
        false
    }

    open spec fn from_spec(author: &Author) -> Self {
        arbitrary()
    }
}

impl From<&Author> for CreateAuthorResponseData {
    /// The identifier of `author` as text.
    fn from(author: &Author) -> (data: Self)
        ensures
            is_text_of(author@.id, data.id@),
    {
        Self { id: id_text(author.id()) }
    }
}

impl CreateAuthorHttpRequestBody {
    /// Converts the HTTP request body into a domain request. The name is
    /// looked at first: a body with a blank name is refused for its name,
    /// whatever its email address.
    pub fn try_into_domain(self) -> (parsed: Result<
        CreateAuthorRequest,
        ParseCreateAuthorHttpRequestError,
    >)
        ensures
            match parsed {
                Ok(request) => !is_blank(self.name@) && is_valid_email_address(
                    trimmed(self.email_address@),
                ) && request@ == (CreateAuthorRequestView {
                    name: trimmed(self.name@),
                    email: trimmed(self.email_address@),
                }),
                Err(ParseCreateAuthorHttpRequestError::Name(_)) => is_blank(self.name@),
                Err(ParseCreateAuthorHttpRequestError::EmailAddress(refused)) => !is_blank(
                    self.name@,
                ) && !is_valid_email_address(trimmed(self.email_address@))
                    && refused.invalid_email@ == trimmed(self.email_address@),
            },
    {
        let name = match AuthorName::new(self.name.as_str()) {
            Ok(name) => name,
            Err(empty) => { return Err(ParseCreateAuthorHttpRequestError::Name(empty)); },
        };
        let email = match EmailAddress::new(self.email_address.as_str()) {
            Ok(email) => email,
            Err(refused) => { return Err(ParseCreateAuthorHttpRequestError::EmailAddress(refused)); },
        };
        Ok(CreateAuthorRequest::new(name, email))
    }
}

/// The response to a create: `201 Created` with the identifier of the
/// author that the service returned, or the failure as [`told_of`] tells it.
pub fn respond(created: Result<Author, CreateAuthorError>) -> (response: Result<
    ApiSuccess<CreateAuthorResponseData>,
    ApiError,
>)
    ensures
        match created {
            Ok(author) => response matches Ok(success) && success.0 == StatusCode::Created
                && success.1.status_code == 201 && is_text_of(author@.id, success.1.data.id@),
            Err(error) => response matches Err(told) && told@ == told_of(error),
        },
{
    match created {
        Ok(author) => Ok(ApiSuccess::new(StatusCode::Created, CreateAuthorResponseData::from(&author))),
        Err(error) => Err(ApiError::from(error)),
    }
}

} // verus!
