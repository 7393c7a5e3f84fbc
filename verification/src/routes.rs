//! The interface in one piece: a handler that validates the body, has the
//! row stored in one transaction, and answers, without a domain service in
//! between.

use crate::common::failure::{contextualized, with_context};
use crate::common::identifier::{id_text, is_text_of};
use crate::common::text::{is_blank, trimmed};
use crate::domain::author::models::author::AuthorName;
use crate::domain::author::models::errors::duplicate_message;
use crate::inbound::http::StatusCode;
use crate::outbound::sqlite::{
    Command, CommandView, Ending, Phase, RowView, Transaction, TransactionView,
};
use vstd::prelude::*;
use vstd::std_specs::convert::FromSpecImpl;

pub use crate::inbound::http::handlers::create_author::{
    ApiErrorData, ApiResponseBody, ApiSuccess, CreateAuthorRequestBody, CreateAuthorResponseData,
};

verus! {

/// A failure as the handler answers it. What caused an internal error is
/// kept for the log.
#[derive(Debug)]
pub enum ApiError {
    InternalServerError(anyhow::Error),
    UnprocessableEntity(String),
}

/// A failure as contracts speak of it: the cause of an internal error is
/// opaque.
pub ghost enum ApiErrorView {
    InternalServerError,
    UnprocessableEntity(Seq<char>),
}

pub type ErrorResponseBody = ApiResponseBody<ApiErrorData>;

pub type ErrorResponse = (StatusCode, ErrorResponseBody);

/// What a caller is told when the name of the body is empty.
pub open spec fn empty_name_message() -> Seq<char> {
    "author name cannot be empty"@
}

/// What is kept for the log of a create that failed at the command `during`
/// for `cause`: a failure to open or to commit the transaction is said to be
/// one, a failed insert is kept as it is.
pub open spec fn logged_cause(during: Phase, cause: anyhow::Error) -> anyhow::Error {
    match during {
        Phase::Begin => contextualized(cause, "failed to start transaction"@),
        Phase::Insert => cause,
        Phase::Commit => contextualized(cause, "failed to commit transaction"@),
    }
}

/// The one message of every response to an internal error.
pub open spec fn internal_error_message() -> Seq<char> {
    "Internal server error"@
}

impl View for ApiError {
    type V = ApiErrorView;

    open spec fn view(&self) -> ApiErrorView {
        match *self {
            ApiError::InternalServerError(_) => ApiErrorView::InternalServerError,
            ApiError::UnprocessableEntity(message) => ApiErrorView::UnprocessableEntity(message@),
        }
    }
}

impl FromSpecImpl<anyhow::Error> for ApiError {
    open spec fn obeys_from_spec() -> bool {
        true
    }

    open spec fn from_spec(cause: anyhow::Error) -> Self {
        ApiError::InternalServerError(cause)
    }
}

impl From<anyhow::Error> for ApiError {
    fn from(cause: anyhow::Error) -> (told: Self) {
        Self::InternalServerError(cause)
    }
}

impl ApiError {
    /// The status and the body of the response. The cause of an internal
    /// error is for the log alone: the body has the fixed message.
    pub fn into_response(self) -> (response: ErrorResponse)
        ensures
            response.1.status_code == response.0.number(),
            match self {
                ApiError::InternalServerError(_) => response.0 == StatusCode::InternalServerError
                    && response.1.data.message@ == internal_error_message(),
                ApiError::UnprocessableEntity(message) => response.0
                    == StatusCode::UnprocessableEntity && response.1.data.message == message,
            },
    {
        match self {
            ApiError::InternalServerError(_) => (
                StatusCode::InternalServerError,
                ApiResponseBody::new_error(
                    StatusCode::InternalServerError,
                    "Internal server error".to_owned(),
                ),
            ),
            ApiError::UnprocessableEntity(message) => (
                StatusCode::UnprocessableEntity,
                ApiResponseBody::new_error(StatusCode::UnprocessableEntity, message),
            ),
        }
    }
}

/// The name that `body` asks for, trimmed. A body whose name is blank is
/// refused before anything is stored.
pub fn author_name(body: &CreateAuthorRequestBody) -> (parsed: Result<AuthorName, ApiError>)
    ensures
        match parsed {
            Ok(name) => !is_blank(body.name@) && name@ == trimmed(body.name@),
            Err(told) => is_blank(body.name@) && told@ == ApiErrorView::UnprocessableEntity(
                empty_name_message(),
            ),
        },
{
    match AuthorName::new(body.name.as_str()) {
        Ok(name) => Ok(name),
        Err(_) => Err(ApiError::UnprocessableEntity("author name cannot be empty".to_owned())),
    }
}

/// The create that stores an author called `name`, with the command that
/// opens its transaction.
pub fn save_author(name: &AuthorName) -> (started: (Transaction, Command))
    ensures
        started.0@ == (TransactionView::Started { row: RowView { name: name@, email: None } }),
        started.1@ == CommandView::Begin,
{
    Transaction::start(name.to_string(), None)
}

/// What is answered once the create for `name` has ended: `201 Created`
/// with the identifier of the row; `422 Unprocessable Entity` with the
/// sentence that says that the name is taken; an internal error for any
/// other failure.
pub fn create_author(name: &AuthorName, ending: Ending) -> (response: Result<
    ApiSuccess<CreateAuthorResponseData>,
    ApiError,
>)
    ensures
        match ending {
            Ending::Committed { id } => response matches Ok(success) && success.0
                == StatusCode::Created && success.1.status_code == 201 && is_text_of(
                id,
                success.1.data.id@,
            ),
            Ending::Conflict => response matches Err(told) && told@
                == ApiErrorView::UnprocessableEntity(duplicate_message(name@)),
            Ending::Failed { during, cause } => response matches Err(
                ApiError::InternalServerError(logged),
            ) && logged == logged_cause(during, cause),
        },
{
    match ending {
        Ending::Committed { id } => Ok(
            ApiSuccess::new(StatusCode::Created, CreateAuthorResponseData { id: id_text(&id) }),
        ),
        Ending::Conflict => {
            let mut message = "author with name ".to_owned();
            message.append(name.as_str());
            message.append(" already exists");
            Err(ApiError::UnprocessableEntity(message))
        },
        Ending::Failed { during, cause } => {
            let cause = match during {
                Phase::Begin => with_context(cause, "failed to start transaction".to_owned()),
                Phase::Insert => cause,
                Phase::Commit => with_context(cause, "failed to commit transaction".to_owned()),
            };
            Err(ApiError::from(cause))
        },
    }
}

} // verus!
