//! The messages that cross the stream, and their JSON forms.

pub mod content_block;
pub mod control;
pub mod incoming;
pub mod message;

pub use content_block::ContentBlock;
pub use control::{
    ErrorCode, ErrorDetail, ErrorResponse, PermissionMode, Request, RequestEnvelope, Response,
    ServerInfo, SuccessResponse,
};
pub use incoming::{ControlRequestEnvelope, ControlResponseEnvelope, Incoming};
pub use message::{
    AssistantEnvelope, AssistantError, AssistantMessageInner, ErrorMessage, InitMessage, Message,
    OutgoingUserMessage, ResultMessage, SystemMessage, Usage, UserContent, UserEnvelope,
    UserMessageInner,
};
