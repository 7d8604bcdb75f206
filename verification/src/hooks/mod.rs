//! Hooks: callbacks of the host for events in the life of the child.

pub mod post_tool_use;
pub mod pre_tool_use;
pub mod stop;
pub mod table;
pub mod user_prompt_submit;

pub use post_tool_use::{
    OnPostToolUse, PostToolUseCallback, PostToolUseDecision, PostToolUseInput, PostToolUseOutput,
};
pub use pre_tool_use::{
    OnPreToolUse, PreToolUseCallback, PreToolUseDecision, PreToolUseInput, PreToolUseOutput,
};
pub use stop::{OnStop, StopCallback, StopDecision, StopInput, StopOutput};
pub use table::Hooks;
pub use user_prompt_submit::{
    OnUserPromptSubmit, UserPromptSubmitCallback, UserPromptSubmitDecision, UserPromptSubmitInput,
    UserPromptSubmitOutput,
};
