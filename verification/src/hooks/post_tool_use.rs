//! The hook for the event `PostToolUse`.

use crate::json::{
    member_or_null, members_model, no_members, opt_text, opt_text_json, optional, put, put_opt,
    string_or_empty, text_or_empty, value_or_null, Json, JsonModel,
};
use crate::tool_input::ToolInput;
use crate::views::{model_opt, model_str, opt_str};
use vstd::prelude::*;

verus! {

/// What the child tells a hook for `PostToolUse`.
#[derive(Debug)]
pub struct PostToolUseInput {
    pub session_id: String,
    pub transcript_path: String,
    pub tool_name: String,
    pub tool_input: ToolInput,
    pub tool_response: Json,
}

pub struct PostToolUseInputModel {
    pub session_id: Seq<char>,
    pub transcript_path: Seq<char>,
    pub tool_name: Seq<char>,
    pub tool_input: JsonModel,
    pub tool_response: JsonModel,
}

impl View for PostToolUseInput {
    type V = PostToolUseInputModel;

    open spec fn view(&self) -> PostToolUseInputModel {
        PostToolUseInputModel {
            session_id: self.session_id@,
            transcript_path: self.transcript_path@,
            tool_name: self.tool_name@,
            tool_input: self.tool_input@,
            tool_response: self.tool_response@,
        }
    }
}

impl PostToolUseInputModel {
    /// The input that the payload `input` of a callback carries.  A string
    /// that is missing is empty, a value that is missing is `null`.
    pub open spec fn of(input: JsonModel) -> PostToolUseInputModel {
        PostToolUseInputModel {
            session_id: text_or_empty(input, "session_id"@),
            transcript_path: text_or_empty(input, "transcript_path"@),
            tool_name: text_or_empty(input, "tool_name"@),
            tool_input: member_or_null(input, "tool_input"@),
            tool_response: member_or_null(input, "tool_response"@),
        }
    }
}

impl PostToolUseInput {
    pub fn new(
        session_id: &str,
        transcript_path: &str,
        tool_name: &str,
        tool_input: ToolInput,
        tool_response: Json,
    ) -> (r: PostToolUseInput)
        ensures
            r@ == (PostToolUseInputModel {
                session_id: session_id@,
                transcript_path: transcript_path@,
                tool_name: tool_name@,
                tool_input: tool_input@,
                tool_response: tool_response@,
            }),
    {
        PostToolUseInput {
            session_id: session_id.to_owned(),
            transcript_path: transcript_path.to_owned(),
            tool_name: tool_name.to_owned(),
            tool_input,
            tool_response,
        }
    }

    pub fn session_id(&self) -> (r: &str)
        ensures
            r@ == self@.session_id,
    {
        self.session_id.as_str()
    }

    pub fn transcript_path(&self) -> (r: &str)
        ensures
            r@ == self@.transcript_path,
    {
        self.transcript_path.as_str()
    }

    pub fn tool_name(&self) -> (r: &str)
        ensures
            r@ == self@.tool_name,
    {
        self.tool_name.as_str()
    }

    pub fn tool_input(&self) -> (r: &ToolInput)
        ensures
            r@ == self@.tool_input,
    {
        &self.tool_input
    }

    pub fn tool_response(&self) -> (r: &Json)
        ensures
            r@ == self@.tool_response,
    {
        &self.tool_response
    }

    /// Reads the input from the payload of a callback.
    pub fn from_json(input: &Json) -> (r: PostToolUseInput)
        ensures
            r@ == PostToolUseInputModel::of(input@),
    {
        PostToolUseInput {
            session_id: string_or_empty(input, "session_id"),
            transcript_path: string_or_empty(input, "transcript_path"),
            tool_name: string_or_empty(input, "tool_name"),
            tool_input: ToolInput::new(value_or_null(input, "tool_input")),
            tool_response: value_or_null(input, "tool_response"),
        }
    }
}

impl Clone for PostToolUseInput {
    fn clone(&self) -> (r: PostToolUseInput)
        ensures
            r@ == self@,
    {
        PostToolUseInput {
            session_id: self.session_id.clone(),
            transcript_path: self.transcript_path.clone(),
            tool_name: self.tool_name.clone(),
            tool_input: self.tool_input.clone(),
            tool_response: self.tool_response.clone(),
        }
    }
}

/// What a hook for `PostToolUse` decides.
#[derive(Debug, Clone, Copy, PartialEq, Eq)]
pub enum PostToolUseDecision {
    Continue,
    Block,
}

/// What a hook for `PostToolUse` answers: a decision, a reason, a context, or
/// nothing at all.
#[derive(Debug)]
pub struct PostToolUseOutput {
    pub decision: Option<PostToolUseDecision>,
    pub reason: Option<String>,
    pub additional_context: Option<String>,
}

pub struct PostToolUseOutputModel {
    pub decision: Option<PostToolUseDecision>,
    pub reason: Option<Seq<char>>,
    pub additional_context: Option<Seq<char>>,
}

impl View for PostToolUseOutput {
    type V = PostToolUseOutputModel;

    open spec fn view(&self) -> PostToolUseOutputModel {
        PostToolUseOutputModel {
            decision: self.decision,
            reason: model_opt(self.reason),
            additional_context: model_opt(self.additional_context),
        }
    }
}

impl PostToolUseOutputModel {
    /// The answer that decides nothing.
    pub open spec fn pass() -> PostToolUseOutputModel {
        PostToolUseOutputModel { decision: None, reason: None, additional_context: None }
    }

    /// The word for the decision on the wire: only a block is said.
    pub open spec fn decision_word(self) -> Option<JsonModel> {
        match self.decision {
            Some(PostToolUseDecision::Block) => Some(JsonModel::Text("block"@)),
            _ => None,
        }
    }

    /// The answer as the child expects it.
    pub open spec fn hook_response(self) -> JsonModel {
        JsonModel::Object(
            optional("decision"@, self.decision_word()) + optional(
                "reason"@,
                opt_text(self.reason),
            ) + seq![
                (
                    "hookSpecificOutput"@,
                    JsonModel::Object(
                        seq![("hookEventName"@, JsonModel::Text("PostToolUse"@))] + optional(
                "additionalContext"@,
                opt_text(self.additional_context),
            ),
                    ),
                ),
            ],
        )
    }
}

impl PostToolUseOutput {
    pub fn new() -> (r: PostToolUseOutput)
        ensures
            r@ == PostToolUseOutputModel::pass(),
    {
        PostToolUseOutput { decision: None, reason: None, additional_context: None }
    }

    /// The answer that decides nothing.
    pub fn pass() -> (r: PostToolUseOutput)
        ensures
            r@ == PostToolUseOutputModel::pass(),
    {
        PostToolUseOutput { decision: None, reason: None, additional_context: None }
    }

    /// The answer that blocks, for the reason `reason`.
    pub fn block(reason: &str) -> (r: PostToolUseOutput)
        ensures
            r@ == (PostToolUseOutputModel {
                decision: Some(PostToolUseDecision::Block),
                reason: Some(reason@),
                ..PostToolUseOutputModel::pass()
            }),
    {
        PostToolUseOutput {
            decision: Some(PostToolUseDecision::Block),
            reason: Some(reason.to_owned()), additional_context: None,
        }
    }

    /// The answer that lets the child go on, with `context` added.
    pub fn continue_with_context(context: &str) -> (r: PostToolUseOutput)
        ensures
            r@ == (PostToolUseOutputModel {
                decision: Some(PostToolUseDecision::Continue),
                additional_context: Some(context@),
                ..PostToolUseOutputModel::pass()
            }),
    {
        PostToolUseOutput {
            decision: Some(PostToolUseDecision::Continue),
            reason: None,
            additional_context: Some(context.to_owned()),
        }
    }

    pub fn decision(&self) -> (r: Option<PostToolUseDecision>)
        ensures
            r == self@.decision,
    {
        self.decision
    }

    pub fn reason(&self) -> (r: Option<&str>)
        ensures
            model_str(r) == self@.reason,
    {
        opt_str(&self.reason)
    }

    pub fn set_decision(&mut self, decision: PostToolUseDecision)
        ensures
            final(self)@ == (PostToolUseOutputModel { decision: Some(decision), ..old(self)@ }),
    {
        self.decision = Some(decision);
    }

    pub fn set_reason(&mut self, reason: &str)
        ensures
            final(self)@ == (PostToolUseOutputModel { reason: Some(reason@), ..old(self)@ }),
    {
        self.reason = Some(reason.to_owned());
    }

    pub fn with_decision(self, decision: PostToolUseDecision) -> (r: PostToolUseOutput)
        ensures
            r@ == (PostToolUseOutputModel { decision: Some(decision), ..self@ }),
    {
        PostToolUseOutput { decision: Some(decision), reason: self.reason, additional_context: self.additional_context }
    }

    pub fn with_reason(self, reason: &str) -> (r: PostToolUseOutput)
        ensures
            r@ == (PostToolUseOutputModel { reason: Some(reason@), ..self@ }),
    {
        PostToolUseOutput { decision: self.decision, reason: Some(reason.to_owned()), additional_context: self.additional_context }
    }

    pub fn additional_context(&self) -> (r: Option<&str>)
        ensures
            model_str(r) == self@.additional_context,
    {
        opt_str(&self.additional_context)
    }

    pub fn set_additional_context(&mut self, context: &str)
        ensures
            final(self)@ == (PostToolUseOutputModel { additional_context: Some(context@), ..old(self)@ }),
    {
        self.additional_context = Some(context.to_owned());
    }

    pub fn with_additional_context(self, context: &str) -> (r: PostToolUseOutput)
        ensures
            r@ == (PostToolUseOutputModel { additional_context: Some(context@), ..self@ }),
    {
        PostToolUseOutput {
            decision: self.decision,
            reason: self.reason,
            additional_context: Some(context.to_owned()),
        }
    }

    /// The answer as the child expects it.
    pub fn to_hook_response(&self) -> (r: Json)
        ensures
            r@ == self@.hook_response(),
    {
        let mut specific = no_members();
        put(&mut specific, "hookEventName", Json::text("PostToolUse"));
        put_opt(&mut specific, "additionalContext", opt_text_json(&self.additional_context));
        proof {
            assert(members_model(specific@) =~= self@.hook_response()->Object_0.last().1->Object_0);
        }
        let mut result = no_members();
        put_opt(
            &mut result,
            "decision",
            match self.decision {
                Some(PostToolUseDecision::Block) => Some(Json::text("block")),
                _ => None,
            },
        );
        put_opt(&mut result, "reason", opt_text_json(&self.reason));
        put(&mut result, "hookSpecificOutput", Json::object(specific));
        proof {
            assert(members_model(result@) =~= self@.hook_response()->Object_0);
        }
        Json::object(result)
    }
}

impl Default for PostToolUseOutput {
    fn default() -> (r: PostToolUseOutput)
        ensures
            r@ == PostToolUseOutputModel::pass(),
    {
        PostToolUseOutput::new()
    }
}

/// The work of a hook for `PostToolUse`, supplied by the host.
pub trait OnPostToolUse {
    /// Decides on `input`.
    fn call(&self, input: PostToolUseInput) -> PostToolUseOutput;
}

/// A hook for `PostToolUse` as the table holds it.
pub struct PostToolUseCallback {
    pub hook: Box<dyn OnPostToolUse>,
}

impl PostToolUseCallback {
    /// Wraps `hook`.
    pub fn new(hook: Box<dyn OnPostToolUse>) -> PostToolUseCallback {
        PostToolUseCallback { hook }
    }

    /// Hands `input` to the hook.  What comes back is the hook's own.
    pub fn call(&self, input: PostToolUseInput) -> PostToolUseOutput {
        self.hook.call(input)
    }
}

} // verus!
