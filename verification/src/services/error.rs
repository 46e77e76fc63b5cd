//! Errors of the services, what a repository error becomes in a service, and
//! what a service error becomes at the transport boundary.
use crate::acl::errors::AuthzError;
use crate::errors::STATUS_BAD_REQUEST;
use crate::errors::STATUS_FORBIDDEN;
use crate::errors::STATUS_INTERNAL_SERVER_ERROR;
use crate::errors::STATUS_NOT_FOUND;
use crate::errors::STATUS_UNPROCESSABLE_ENTITY;
use crate::models::authorization::Action;
use crate::models::authorization::Resource;
use crate::repos::error::authz_repo_error;
use crate::repos::error::RepoError;
use crate::repos::error::RepoErrorView;
use crate::validation::error_entries;
use crate::validation::field_error;
use crate::validation::single_error;
use crate::validation::ErrorEntries;
use validator::ValidationErrors;
use vstd::prelude::*;

verus! {

/// Why a service could not do what it was asked.
#[derive(Debug)]
pub enum ServiceError {
    NotFound,
    Rollback,
    Validate(ValidationErrors),
    Parse(String),
    Connection(String),
    Transaction(String),
    Database(RepoError),
    HttpClient(String),
    EmailAlreadyExists(String),
    IncorrectCredentials,
    Unauthorized(String),
    Unknown(String),
}

/// A service error as plain values.
pub enum ServiceErrorView {
    NotFound,
    Rollback,
    Validate(ErrorEntries),
    Parse(Seq<char>),
    Connection(Seq<char>),
    Transaction(Seq<char>),
    Database(RepoErrorView),
    HttpClient(Seq<char>),
    EmailAlreadyExists(Seq<char>),
    IncorrectCredentials,
    Unauthorized(Seq<char>),
    Unknown(Seq<char>),
}

impl View for ServiceError {
    type V = ServiceErrorView;

    open spec fn view(&self) -> ServiceErrorView {
        match self {
            ServiceError::NotFound => ServiceErrorView::NotFound,
            ServiceError::Rollback => ServiceErrorView::Rollback,
            ServiceError::Validate(errors) => ServiceErrorView::Validate(error_entries(*errors)),
            ServiceError::Parse(text) => ServiceErrorView::Parse(text@),
            ServiceError::Connection(text) => ServiceErrorView::Connection(text@),
            ServiceError::Transaction(text) => ServiceErrorView::Transaction(text@),
            ServiceError::Database(cause) => ServiceErrorView::Database(cause@),
            ServiceError::HttpClient(text) => ServiceErrorView::HttpClient(text@),
            ServiceError::EmailAlreadyExists(text) => ServiceErrorView::EmailAlreadyExists(text@),
            ServiceError::IncorrectCredentials => ServiceErrorView::IncorrectCredentials,
            ServiceError::Unauthorized(text) => ServiceErrorView::Unauthorized(text@),
            ServiceError::Unknown(text) => ServiceErrorView::Unknown(text@),
        }
    }
}

/// The text of a refused access to `resource` for `action`.
pub open spec fn unauthorized_text(resource: Resource, action: Action) -> Seq<char> {
    "Unauthorized access: Resource: "@ + resource.name_spec() + ", Action: "@ + action.name_spec()
}

/// What a repository error is to a service.  Nothing found and a rollback
/// stay what they are.  A refused operation becomes `Unauthorized` with a
/// text that names the resource and the action.  Every other error is kept
/// as the cause of a database error.
pub open spec fn repo_error_in_service(err: RepoErrorView) -> ServiceErrorView {
    match err {
        RepoErrorView::NotFound => ServiceErrorView::NotFound,
        RepoErrorView::Rollback => ServiceErrorView::Rollback,
        RepoErrorView::Unauthorized(resource, action) => ServiceErrorView::Unauthorized(
            unauthorized_text(resource, action),
        ),
        _ => ServiceErrorView::Database(err),
    }
}

/// A service result with its error as plain values.
pub open spec fn service_outcome<T>(r: Result<T, ServiceError>) -> Result<T, ServiceErrorView> {
    match r {
        Ok(value) => Ok(value),
        Err(e) => Err(e@),
    }
}

/// The validation failure of one field, as a service error.
pub open spec fn validation_failure(field: Seq<char>, message: Seq<char>) -> ServiceErrorView {
    ServiceErrorView::Validate(single_error(field, field, message))
}

impl ServiceError {
    /// The validation failure of one field: the error's code is the field's
    /// name, and `message` says what is wrong with it.
    pub fn invalid(field: &'static str, message: &'static str) -> (r: ServiceError)
        ensures
            r@ == validation_failure(field@, message@),
    {
        ServiceError::Validate(field_error(field, field, message))
    }

    /// What a repository error is to a service.
    pub fn from(err: RepoError) -> (r: ServiceError)
        ensures
            r@ == repo_error_in_service(err@),
    {
        match err {
            RepoError::NotFound => ServiceError::NotFound,
            RepoError::Rollback => ServiceError::Rollback,
            RepoError::ContstaintViolation(e) => ServiceError::Database(
                RepoError::ContstaintViolation(e),
            ),
            RepoError::MismatchedType(e) => ServiceError::Database(RepoError::MismatchedType(e)),
            RepoError::Connection(e) => ServiceError::Database(RepoError::Connection(e)),
            RepoError::Unknown(e) => ServiceError::Database(RepoError::Unknown(e)),
            RepoError::Unauthorized(res, act) => ServiceError::Unauthorized(
                String::from_str("Unauthorized access: Resource: ").concat(res.name()).concat(
                    ", Action: ",
                ).concat(act.name()),
            ),
        }
    }

    /// Whether the error is a refusal, as opposed to a failure.
    pub fn is_unauthorized(&self) -> (r: bool)
        ensures
            r == (self@ is Unauthorized),
    {
        match self {
            ServiceError::Unauthorized(_) => true,
            _ => false,
        }
    }
}

/// An error as the transport layer answers it: the status, and the service
/// error that is its cause.
#[derive(Debug)]
pub enum ResponseError {
    NotFound,
    BadRequest(ServiceError),
    Validate(ValidationErrors),
    Forbidden(ServiceError),
    UnprocessableEntity(ServiceError),
    InternalServerError(ServiceError),
}

/// An answer's error as plain values.
pub enum ResponseErrorView {
    NotFound,
    BadRequest(ServiceErrorView),
    Validate(ErrorEntries),
    Forbidden(ServiceErrorView),
    UnprocessableEntity(ServiceErrorView),
    InternalServerError(ServiceErrorView),
}

impl View for ResponseError {
    type V = ResponseErrorView;

    open spec fn view(&self) -> ResponseErrorView {
        match self {
            ResponseError::NotFound => ResponseErrorView::NotFound,
            ResponseError::BadRequest(cause) => ResponseErrorView::BadRequest(cause@),
            ResponseError::Validate(errors) => ResponseErrorView::Validate(error_entries(*errors)),
            ResponseError::Forbidden(cause) => ResponseErrorView::Forbidden(cause@),
            ResponseError::UnprocessableEntity(cause) => ResponseErrorView::UnprocessableEntity(
                cause@,
            ),
            ResponseError::InternalServerError(cause) => ResponseErrorView::InternalServerError(
                cause@,
            ),
        }
    }
}

/// How a service error is answered.  A refusal is answered as forbidden and
/// nothing else is; a failure of the database, of a connection, of a
/// transaction or of the HTTP client is answered as a server error.
pub open spec fn service_error_in_response(e: ServiceErrorView) -> ResponseErrorView {
    match e {
        ServiceErrorView::NotFound => ResponseErrorView::NotFound,
        ServiceErrorView::Rollback => ResponseErrorView::BadRequest(e),
        ServiceErrorView::Validate(errors) => ResponseErrorView::Validate(errors),
        ServiceErrorView::Unauthorized(_) => ResponseErrorView::Forbidden(e),
        ServiceErrorView::Parse(_) => ResponseErrorView::UnprocessableEntity(e),
        ServiceErrorView::Database(_) => ResponseErrorView::InternalServerError(e),
        ServiceErrorView::HttpClient(_) => ResponseErrorView::InternalServerError(e),
        ServiceErrorView::EmailAlreadyExists(_) => ResponseErrorView::BadRequest(e),
        ServiceErrorView::IncorrectCredentials => ResponseErrorView::BadRequest(e),
        ServiceErrorView::Connection(_) => ResponseErrorView::InternalServerError(e),
        ServiceErrorView::Transaction(_) => ResponseErrorView::InternalServerError(e),
        ServiceErrorView::Unknown(_) => ResponseErrorView::InternalServerError(e),
    }
}

impl ResponseError {
    /// The status of the answer.
    pub open spec fn status_spec(answer: ResponseErrorView) -> u16 {
        match answer {
            ResponseErrorView::NotFound => STATUS_NOT_FOUND,
            ResponseErrorView::BadRequest(_) => STATUS_BAD_REQUEST,
            ResponseErrorView::Validate(_) => STATUS_BAD_REQUEST,
            ResponseErrorView::Forbidden(_) => STATUS_FORBIDDEN,
            ResponseErrorView::UnprocessableEntity(_) => STATUS_UNPROCESSABLE_ENTITY,
            ResponseErrorView::InternalServerError(_) => STATUS_INTERNAL_SERVER_ERROR,
        }
    }

    /// How a service error is answered.
    pub fn from(e: ServiceError) -> (r: ResponseError)
        ensures
            r@ == service_error_in_response(e@),
    {
        match e {
            ServiceError::NotFound => ResponseError::NotFound,
            ServiceError::Rollback => ResponseError::BadRequest(ServiceError::Rollback),
            ServiceError::Validate(valid_err) => ResponseError::Validate(valid_err),
            ServiceError::Unauthorized(msg) => ResponseError::Forbidden(
                ServiceError::Unauthorized(msg),
            ),
            ServiceError::Parse(msg) => ResponseError::UnprocessableEntity(
                ServiceError::Parse(msg),
            ),
            ServiceError::Database(msg) => ResponseError::InternalServerError(
                ServiceError::Database(msg),
            ),
            ServiceError::HttpClient(msg) => ResponseError::InternalServerError(
                ServiceError::HttpClient(msg),
            ),
            ServiceError::EmailAlreadyExists(msg) => ResponseError::BadRequest(
                ServiceError::EmailAlreadyExists(msg),
            ),
            ServiceError::IncorrectCredentials => ResponseError::BadRequest(
                ServiceError::IncorrectCredentials,
            ),
            ServiceError::Connection(msg) => ResponseError::InternalServerError(
                ServiceError::Connection(msg),
            ),
            ServiceError::Transaction(msg) => ResponseError::InternalServerError(
                ServiceError::Transaction(msg),
            ),
            ServiceError::Unknown(msg) => ResponseError::InternalServerError(
                ServiceError::Unknown(msg),
            ),
        }
    }

    /// The status of the answer.
    pub fn status(&self) -> (status: u16)
        ensures
            status == Self::status_spec(self@),
    {
        match self {
            ResponseError::NotFound => STATUS_NOT_FOUND,
            ResponseError::BadRequest(_) => STATUS_BAD_REQUEST,
            ResponseError::Validate(_) => STATUS_BAD_REQUEST,
            ResponseError::Forbidden(_) => STATUS_FORBIDDEN,
            ResponseError::UnprocessableEntity(_) => STATUS_UNPROCESSABLE_ENTITY,
            ResponseError::InternalServerError(_) => STATUS_INTERNAL_SERVER_ERROR,
        }
    }
}

/// A refusal and a failure never get the same answer.  What a check refuses
/// is answered as forbidden, through the repository and the service; a lookup
/// that failed during the check is answered as a server error.
pub proof fn denial_and_failure_are_answered_apart(
    e: AuthzError,
    resource: Resource,
    action: Action,
)
    ensures
        ({
            let answer = service_error_in_response(
                repo_error_in_service(authz_repo_error(e, resource, action)),
            );
            &&& e.is_denial_spec() ==> ResponseError::status_spec(answer) == STATUS_FORBIDDEN
            &&& !e.is_denial_spec() ==> ResponseError::status_spec(answer)
                == STATUS_INTERNAL_SERVER_ERROR
        }),
{
}

} // verus!
