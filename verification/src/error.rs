//! What can go wrong in a session.

use crate::strings::{concat2, concat3};
use vstd::prelude::*;

verus! {

/// A failure of the session layer.
#[derive(Debug)]
pub enum Error {
    CliNotFound(String),
    ConnectionError(String),
    ControlError { request_id: String, message: String },
    HookError { callback_id: String, message: String },
    Io(String),
    Json(String),
    NoSchemaConfigured,
    PermissionDenied { tool_name: String, message: String },
    ProcessError(String),
    ProtocolError(String),
    SchemaMismatch { expected: String, configured: String },
    Timeout(String),
}

pub enum ErrorModel {
    CliNotFound(Seq<char>),
    ConnectionError(Seq<char>),
    ControlError { request_id: Seq<char>, message: Seq<char> },
    HookError { callback_id: Seq<char>, message: Seq<char> },
    Io(Seq<char>),
    Json(Seq<char>),
    NoSchemaConfigured,
    PermissionDenied { tool_name: Seq<char>, message: Seq<char> },
    ProcessError(Seq<char>),
    ProtocolError(Seq<char>),
    SchemaMismatch { expected: Seq<char>, configured: Seq<char> },
    Timeout(Seq<char>),
}

impl View for Error {
    type V = ErrorModel;

    open spec fn view(&self) -> ErrorModel {
        match self {
            Error::CliNotFound(s) => ErrorModel::CliNotFound(s@),
            Error::ConnectionError(s) => ErrorModel::ConnectionError(s@),
            Error::ControlError { request_id, message } => ErrorModel::ControlError {
                request_id: request_id@,
                message: message@,
            },
            Error::HookError { callback_id, message } => ErrorModel::HookError {
                callback_id: callback_id@,
                message: message@,
            },
            Error::Io(s) => ErrorModel::Io(s@),
            Error::Json(s) => ErrorModel::Json(s@),
            Error::NoSchemaConfigured => ErrorModel::NoSchemaConfigured,
            Error::PermissionDenied { tool_name, message } => ErrorModel::PermissionDenied {
                tool_name: tool_name@,
                message: message@,
            },
            Error::ProcessError(s) => ErrorModel::ProcessError(s@),
            Error::ProtocolError(s) => ErrorModel::ProtocolError(s@),
            Error::SchemaMismatch { expected, configured } => ErrorModel::SchemaMismatch {
                expected: expected@,
                configured: configured@,
            },
            Error::Timeout(s) => ErrorModel::Timeout(s@),
        }
    }
}

impl ErrorModel {
    /// The failure in words.
    pub open spec fn message(self) -> Seq<char> {
        match self {
            ErrorModel::CliNotFound(s) => "agent executable not found: "@ + s,
            ErrorModel::ConnectionError(s) => "connection error: "@ + s,
            ErrorModel::ControlError { request_id, message } => "control error (request_id="@
                + request_id + "): "@ + message,
            ErrorModel::HookError { callback_id, message } => "hook error (callback_id="@
                + callback_id + "): "@ + message,
            ErrorModel::Io(s) => "I/O error: "@ + s,
            ErrorModel::Json(s) => "JSON error: "@ + s,
            ErrorModel::NoSchemaConfigured => "no output schema configured"@,
            ErrorModel::PermissionDenied { tool_name, message } => "permission denied for tool '"@
                + tool_name + "': "@ + message,
            ErrorModel::ProcessError(s) => "process error: "@ + s,
            ErrorModel::ProtocolError(s) => "protocol error: "@ + s,
            ErrorModel::SchemaMismatch { expected, configured } =>
                "schema mismatch: configured schema does not match requested type"@,
            ErrorModel::Timeout(s) => "timeout: "@ + s,
        }
    }
}

impl Error {
    /// The failure in words.
    pub fn message(&self) -> (r: String)
        ensures
            r@ == self@.message(),
    {
        match self {
            Error::CliNotFound(s) => concat2("agent executable not found: ", s.as_str()),
            Error::ConnectionError(s) => concat2("connection error: ", s.as_str()),
            Error::ControlError { request_id, message } => {
                let head = concat3("control error (request_id=", request_id.as_str(), "): ");
                concat2(head.as_str(), message.as_str())
            },
            Error::HookError { callback_id, message } => {
                let head = concat3("hook error (callback_id=", callback_id.as_str(), "): ");
                concat2(head.as_str(), message.as_str())
            },
            Error::Io(s) => concat2("I/O error: ", s.as_str()),
            Error::Json(s) => concat2("JSON error: ", s.as_str()),
            Error::NoSchemaConfigured => "no output schema configured".to_owned(),
            Error::PermissionDenied { tool_name, message } => {
                let head = concat3("permission denied for tool '", tool_name.as_str(), "': ");
                concat2(head.as_str(), message.as_str())
            },
            Error::ProcessError(s) => concat2("process error: ", s.as_str()),
            Error::ProtocolError(s) => concat2("protocol error: ", s.as_str()),
            Error::SchemaMismatch { .. } =>
                "schema mismatch: configured schema does not match requested type".to_owned(),
            Error::Timeout(s) => concat2("timeout: ", s.as_str()),
        }
    }
}

} // verus!
