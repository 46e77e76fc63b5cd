//! Errors that reach the transport boundary, with the status that each is
//! answered with.
use crate::validation::errors_to_json;
use validator::ValidationErrors;
use vstd::prelude::*;

verus! {

/// Status of an answer that found nothing.
pub const STATUS_NOT_FOUND: u16 = 404;

/// Status of an answer to a payload that failed validation.
pub const STATUS_BAD_REQUEST: u16 = 400;

/// Status of an answer to a payload that could not be parsed.
pub const STATUS_UNPROCESSABLE_ENTITY: u16 = 422;

/// Status of an answer to an operation that was refused.
pub const STATUS_FORBIDDEN: u16 = 403;

/// Status of an answer to an operation that failed on the server's side.
pub const STATUS_INTERNAL_SERVER_ERROR: u16 = 500;

/// An error as a controller answers it.
#[derive(Debug)]
pub enum ControllerError {
    NotFound,
    Parse(String),
    Validate(ValidationErrors),
    Forbidden,
    Connection(String),
    ElasticSearch(String),
}

impl ControllerError {
    /// The status that the error is answered with.
    pub open spec fn code_spec(&self) -> u16 {
        match self {
            ControllerError::NotFound => STATUS_NOT_FOUND,
            ControllerError::Validate(_) => STATUS_BAD_REQUEST,
            ControllerError::Parse(_) => STATUS_UNPROCESSABLE_ENTITY,
            ControllerError::Connection(_) => STATUS_INTERNAL_SERVER_ERROR,
            ControllerError::ElasticSearch(_) => STATUS_INTERNAL_SERVER_ERROR,
            ControllerError::Forbidden => STATUS_FORBIDDEN,
        }
    }

    /// The text that describes the error.
    pub open spec fn message_spec(&self) -> Seq<char> {
        match self {
            ControllerError::NotFound => "Not found"@,
            ControllerError::Parse(_) => "Parse error"@,
            ControllerError::Validate(_) => "Validation error"@,
            ControllerError::Forbidden => "Server is refusing to fullfil the reqeust"@,
            ControllerError::Connection(cause) => "Server is refusing to fullfil the reqeust: "@
                + cause@,
            ControllerError::ElasticSearch(cause) => "Server is refusing to fullfil the reqeust: "@
                + cause@,
        }
    }

    /// The status that the error is answered with: 404 where nothing was
    /// found, 400 for a payload that failed validation, 422 for one that
    /// could not be parsed, 403 for a refusal, and 500 where the database or
    /// the search index failed.
    pub fn code(&self) -> (status: u16)
        ensures
            status == self.code_spec(),
    {
        match self {
            ControllerError::NotFound => STATUS_NOT_FOUND,
            ControllerError::Validate(_) => STATUS_BAD_REQUEST,
            ControllerError::Parse(_) => STATUS_UNPROCESSABLE_ENTITY,
            ControllerError::Connection(_) | ControllerError::ElasticSearch(_) =>
                STATUS_INTERNAL_SERVER_ERROR,
            ControllerError::Forbidden => STATUS_FORBIDDEN,
        }
    }

    /// What the answer carries besides the status: the validation failures
    /// in their JSON form, and nothing for any other error.
    pub fn payload(&self) -> (payload: Option<serde_json::Value>)
        ensures
            payload == self.payload_spec(),
    {
        match self {
            ControllerError::Validate(e) => errors_to_json(e),
            _ => None,
        }
    }

    /// What the answer carries besides the status: for validation failures
    /// their JSON form, if they have one, and nothing for any other error.
    pub open spec fn payload_spec(&self) -> Option<serde_json::Value> {
        match self {
            ControllerError::Validate(errors) => crate::validation::errors_json(*errors),
            _ => None,
        }
    }

    /// The text that describes the error.
    pub fn message(&self) -> (text: String)
        ensures
            text@ == self.message_spec(),
    {
        match self {
            ControllerError::NotFound => String::from_str("Not found"),
            ControllerError::Parse(_) => String::from_str("Parse error"),
            ControllerError::Validate(_) => String::from_str("Validation error"),
            ControllerError::Forbidden => String::from_str(
                "Server is refusing to fullfil the reqeust",
            ),
            ControllerError::Connection(cause) => String::from_str(
                "Server is refusing to fullfil the reqeust: ",
            ).concat(cause.as_str()),
            ControllerError::ElasticSearch(cause) => String::from_str(
                "Server is refusing to fullfil the reqeust: ",
            ).concat(cause.as_str()),
        }
    }
}

} // verus!
