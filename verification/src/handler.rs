//! Handlers that take the events of a run by kind.

use crate::response::{
    CompleteResponse, ErrorResponse, InitResponse, Response, TextResponse, ThinkingResponse,
    ToolResultResponse, ToolUseResponse,
};
use vstd::prelude::*;

verus! {

/// Takes the events of a run, one method for each kind.  A kind that a
/// handler does not care for is passed over.
pub trait Handler {
    fn on_text(&self, _text: &TextResponse) {
    }

    fn on_tool_use(&self, _tool_use: &ToolUseResponse) {
    }

    fn on_tool_result(&self, _tool_result: &ToolResultResponse) {
    }

    fn on_thinking(&self, _thinking: &ThinkingResponse) {
    }

    fn on_init(&self, _init: &InitResponse) {
    }

    fn on_error(&self, _error: &ErrorResponse) {
    }

    fn on_complete(&self, _complete: &CompleteResponse) {
    }
}

/// The handler that passes every event over.
pub struct DefaultHandler;

impl Handler for DefaultHandler {

}

/// The kinds of events.
#[derive(Debug, Clone, Copy, PartialEq, Eq)]
pub enum ResponseKind {
    Text,
    ToolUse,
    ToolResult,
    Thinking,
    Init,
    Error,
    Complete,
}

/// The kind of the event `response`.
pub open spec fn kind_of(response: crate::response::ResponseModel) -> ResponseKind {
    match response {
        crate::response::ResponseModel::Text(_) => ResponseKind::Text,
        crate::response::ResponseModel::ToolUse(_) => ResponseKind::ToolUse,
        crate::response::ResponseModel::ToolResult(_) => ResponseKind::ToolResult,
        crate::response::ResponseModel::Thinking(_) => ResponseKind::Thinking,
        crate::response::ResponseModel::Init(_) => ResponseKind::Init,
        crate::response::ResponseModel::Error(_) => ResponseKind::Error,
        crate::response::ResponseModel::Complete(_) => ResponseKind::Complete,
    }
}

/// Hands `response` to the method of `handler` that is for its kind, and
/// says which kind that was.
pub fn dispatch<H: Handler + ?Sized>(handler: &H, response: &Response) -> (r: ResponseKind)
    ensures
        r == kind_of(response@),
{
    match response {
        Response::Text(t) => {
            handler.on_text(t);
            ResponseKind::Text
        },
        Response::ToolUse(t) => {
            handler.on_tool_use(t);
            ResponseKind::ToolUse
        },
        Response::ToolResult(t) => {
            handler.on_tool_result(t);
            ResponseKind::ToolResult
        },
        Response::Thinking(t) => {
            handler.on_thinking(t);
            ResponseKind::Thinking
        },
        Response::Init(i) => {
            handler.on_init(i);
            ResponseKind::Init
        },
        Response::Error(e) => {
            handler.on_error(e);
            ResponseKind::Error
        },
        Response::Complete(c) => {
            handler.on_complete(c);
            ResponseKind::Complete
        },
    }
}

} // verus!
