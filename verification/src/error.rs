//! What can go wrong, and how a failure is answered over HTTP.

use crate::outside::json_error_message;
use crate::types::{ErrorResponse, ErrorResponseView};
use vstd::prelude::*;
use vstd::std_specs::convert::FromSpecImpl;

verus! {

/// Status of a reply whose resource does not exist.
pub const STATUS_NOT_FOUND: u16 = 404;

/// Status of a reply to a request that cannot be served as it was sent.
pub const STATUS_BAD_REQUEST: u16 = 400;

/// Status of a reply to a request that failed on the operator's side.
pub const STATUS_INTERNAL_SERVER_ERROR: u16 = 500;

/// The failures of the operator.
#[derive(Debug)]
pub enum OperatorError {
    /// The cluster refused an operation; holds the cluster's message,
    /// unchanged.
    KubeError(String),
    /// The arguments of an invocation could not be encoded.
    SerdeError(serde_json::Error),
    /// No task of this name is in the namespace; holds the name.
    TaskNotFound(String),
    /// The configuration read at startup is not valid.
    ConfigError(String),
    /// The body of an invocation is malformed.
    InvalidRequest(String),
}

impl OperatorError {
    /// The message that the failure holds as text. An encoding failure
    /// holds none: its message is worded by the JSON encoder when asked.
    pub open spec fn held_message(self) -> Option<Seq<char>> {
        match self {
            OperatorError::KubeError(message) => Some(message@),
            OperatorError::SerdeError(_) => None,
            OperatorError::TaskNotFound(name) => Some(name@),
            OperatorError::ConfigError(message) => Some(message@),
            OperatorError::InvalidRequest(message) => Some(message@),
        }
    }

    /// The words that name the kind of failure.
    pub open spec fn kind_text(self) -> Seq<char> {
        match self {
            OperatorError::KubeError(_) => "Kubernetes error: "@,
            OperatorError::SerdeError(_) => "Serialization error: "@,
            OperatorError::TaskNotFound(_) => "Task not found: "@,
            OperatorError::ConfigError(_) => "Configuration error: "@,
            OperatorError::InvalidRequest(_) => "Invalid request: "@,
        }
    }

    /// The HTTP status that answers the failure: 404 for a task that is
    /// not there, 400 for what the caller sent wrongly, 500 for the rest.
    pub open spec fn status(self) -> u16 {
        match self {
            OperatorError::TaskNotFound(_) => 404,
            OperatorError::InvalidRequest(_) => 400,
            OperatorError::SerdeError(_) => 400,
            OperatorError::ConfigError(_) => 500,
            OperatorError::KubeError(_) => 500,
        }
    }

    /// The body that answers a failure of this kind whose message is
    /// `message`: the message, and as details the kind followed by the
    /// message.
    pub open spec fn response_with(self, message: Seq<char>) -> ErrorResponseView {
        ErrorResponseView { error: message, details: Some(self.kind_text() + message) }
    }

    /// The message of the failure: the text it holds, or for an encoding
    /// failure what the JSON encoder says of it.
    pub fn message(&self) -> (message: String)
        ensures
            self.held_message() is Some ==> message@ == self.held_message()->0,
    {
        match self {
            OperatorError::KubeError(message) => message.clone(),
            OperatorError::SerdeError(error) => json_error_message(error),
            OperatorError::TaskNotFound(name) => name.clone(),
            OperatorError::ConfigError(message) => message.clone(),
            OperatorError::InvalidRequest(message) => message.clone(),
        }
    }

    /// The words that name the kind of failure.
    pub fn kind(&self) -> (kind: &'static str)
        ensures
            kind@ == self.kind_text(),
    {
        match self {
            OperatorError::KubeError(_) => "Kubernetes error: ",
            OperatorError::SerdeError(_) => "Serialization error: ",
            OperatorError::TaskNotFound(_) => "Task not found: ",
            OperatorError::ConfigError(_) => "Configuration error: ",
            OperatorError::InvalidRequest(_) => "Invalid request: ",
        }
    }

    /// The failure in one line: its kind, then its message.
    pub fn to_string(&self) -> (line: String)
        ensures
            match self.held_message() {
                Some(message) => line@ == self.kind_text() + message,
                None => exists|message: Seq<char>| line@ == self.kind_text() + message,
            },
    {
        let message = self.message();
        String::from_str(self.kind()).concat(message.as_str())
    }

    /// The HTTP status that answers the failure.
    pub fn status_code(&self) -> (status: u16)
        ensures
            status == self.status(),
    {
        match self {
            OperatorError::TaskNotFound(_) => STATUS_NOT_FOUND,
            OperatorError::InvalidRequest(_) => STATUS_BAD_REQUEST,
            OperatorError::SerdeError(_) => STATUS_BAD_REQUEST,
            OperatorError::ConfigError(_) => STATUS_INTERNAL_SERVER_ERROR,
            OperatorError::KubeError(_) => STATUS_INTERNAL_SERVER_ERROR,
        }
    }

    /// The reply to a failure of this kind whose message is `message`: the
    /// status of the kind, and the uniform error body.
    pub fn reply_with(&self, message: String) -> (reply: (u16, ErrorResponse))
        ensures
            reply.0 == self.status(),
            reply.1@ == self.response_with(message@),
    {
        let details = String::from_str(self.kind()).concat(message.as_str());
        (self.status_code(), ErrorResponse { error: message, details: Some(details) })
    }

    /// Turns the failure into the reply that the caller gets. The body
    /// gives the failure's message, and as details the kind followed by
    /// that same message.
    pub fn into_response(self) -> (reply: (u16, ErrorResponse))
        ensures
            reply.0 == self.status(),
            reply.1@ == self.response_with(reply.1.error@),
            self.held_message() is Some ==> reply.1.error@ == self.held_message()->0,
    {
        let message = self.message();
        self.reply_with(message)
    }
}

impl From<serde_json::Error> for OperatorError {
    fn from(error: serde_json::Error) -> (failure: OperatorError) {
        OperatorError::SerdeError(error)
    }
}

impl FromSpecImpl<serde_json::Error> for OperatorError {
    open spec fn obeys_from_spec() -> bool {
        true
    }

    open spec fn from_spec(error: serde_json::Error) -> OperatorError {
        OperatorError::SerdeError(error)
    }
}

} // verus!
