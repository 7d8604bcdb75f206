//! A session layer for driving an interactive agent process over
//! newline-delimited JSON.
//!
//! The agent runs as a child process and speaks one JSON value per line in
//! each direction.  This library holds everything about a session but the
//! pipes themselves: the messages and their JSON forms, the tool endpoints
//! that answer the child in memory, the hooks and their identifiers, and the
//! one loop through which all that is read from the child goes.  It says
//! what is to be written, and it is handed what was read.

pub mod agent;
pub mod client;
pub mod codec;
pub mod conversation;
pub mod error;
pub mod handler;
pub mod hooks;
pub mod json;
pub mod mcp_server;
pub mod model;
pub mod named;
pub mod options;
pub mod permissions;
pub mod proto;
pub mod response;
pub mod strings;
pub mod tool;
pub mod tool_input;
pub mod transport;
pub mod util;
pub mod views;

pub use agent::Agent;
pub use client::Client;
pub use error::Error;
pub use handler::{dispatch, DefaultHandler, Handler};
pub use hooks::{
    Hooks, PostToolUseCallback, PostToolUseDecision, PostToolUseInput, PostToolUseOutput,
    PreToolUseCallback, PreToolUseDecision, PreToolUseInput, PreToolUseOutput, StopCallback,
    StopDecision, StopInput, StopOutput, UserPromptSubmitCallback, UserPromptSubmitDecision,
    UserPromptSubmitInput, UserPromptSubmitOutput,
};
pub use json::Json;
pub use mcp_server::McpServer;
pub use model::Model;
pub use options::Options;
pub use permissions::{Decision, PermissionContext, PermissionMode, PermissionRule};
pub use proto::message::{AssistantError, Usage};
pub use response::{
    CompleteResponse, ErrorResponse, InitResponse, Response, Responses, TextResponse,
    ThinkingResponse, ToolResultResponse, ToolUseResponse,
};
pub use tool::{Tool, ToolError, ToolHandler, ToolInput};
