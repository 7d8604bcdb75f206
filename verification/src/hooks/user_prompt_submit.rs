//! The hook for the event `UserPromptSubmit`.

use crate::json::{
    members_model, no_members, opt_text, opt_text_json, optional, put, put_opt, string_or_empty,
    text_or_empty, Json, JsonModel,
};
use crate::views::{model_opt, model_str, opt_str};
use vstd::prelude::*;

verus! {

/// What the child tells a hook for `UserPromptSubmit`.
#[derive(Debug)]
pub struct UserPromptSubmitInput {
    pub session_id: String,
    pub transcript_path: String,
    pub prompt: String,
}

pub struct UserPromptSubmitInputModel {
    pub session_id: Seq<char>,
    pub transcript_path: Seq<char>,
    pub prompt: Seq<char>,
}

impl View for UserPromptSubmitInput {
    type V = UserPromptSubmitInputModel;

    open spec fn view(&self) -> UserPromptSubmitInputModel {
        UserPromptSubmitInputModel {
            session_id: self.session_id@,
            transcript_path: self.transcript_path@,
            prompt: self.prompt@,
        }
    }
}

impl UserPromptSubmitInputModel {
    /// The input that the payload `input` of a callback carries.  A string
    /// that is missing is empty, a flag that is missing is off.
    pub open spec fn of(input: JsonModel) -> UserPromptSubmitInputModel {
        UserPromptSubmitInputModel {
            session_id: text_or_empty(input, "session_id"@),
            transcript_path: text_or_empty(input, "transcript_path"@),
            prompt: text_or_empty(input, "prompt"@),
        }
    }
}

impl UserPromptSubmitInput {
    pub fn new(session_id: &str, transcript_path: &str, prompt: &str) -> (r: UserPromptSubmitInput)
        ensures
            r@ == (UserPromptSubmitInputModel { session_id: session_id@, transcript_path: transcript_path@, prompt: prompt@ }),
    {
        UserPromptSubmitInput { session_id: session_id.to_owned(), transcript_path: transcript_path.to_owned(), prompt: prompt.to_owned() }
    }

    pub fn session_id(&self) -> (r: &str)
        ensures
            r@ == self@.session_id,
    {
        self.session_id.as_str()
    }

    pub fn transcript_path(&self) -> (r: &str)
        ensures
            r@ == self@.transcript_path,
    {
        self.transcript_path.as_str()
    }

    pub fn prompt(&self) -> (r: &str)
        ensures
            r@ == self@.prompt,
    {
        self.prompt.as_str()
    }

    /// Reads the input from the payload of a callback.
    pub fn from_json(input: &Json) -> (r: UserPromptSubmitInput)
        ensures
            r@ == UserPromptSubmitInputModel::of(input@),
    {
        UserPromptSubmitInput {
            session_id: string_or_empty(input, "session_id"),
            transcript_path: string_or_empty(input, "transcript_path"),
            prompt: string_or_empty(input, "prompt"),
        }
    }
}

impl Clone for UserPromptSubmitInput {
    fn clone(&self) -> (r: UserPromptSubmitInput)
        ensures
            r@ == self@,
    {
        UserPromptSubmitInput { session_id: self.session_id.clone(), transcript_path: self.transcript_path.clone(), prompt: self.prompt.clone() }
    }
}

/// What a hook for `UserPromptSubmit` decides.
#[derive(Debug, Clone, Copy, PartialEq, Eq)]
pub enum UserPromptSubmitDecision {
    Continue,
    Block,
}

/// What a hook for `UserPromptSubmit` answers: a decision, a reason, a context, or
/// nothing at all.
#[derive(Debug)]
pub struct UserPromptSubmitOutput {
    pub decision: Option<UserPromptSubmitDecision>,
    pub reason: Option<String>,
    pub additional_context: Option<String>,
}

pub struct UserPromptSubmitOutputModel {
    pub decision: Option<UserPromptSubmitDecision>,
    pub reason: Option<Seq<char>>,
    pub additional_context: Option<Seq<char>>,
}

impl View for UserPromptSubmitOutput {
    type V = UserPromptSubmitOutputModel;

    open spec fn view(&self) -> UserPromptSubmitOutputModel {
        UserPromptSubmitOutputModel {
            decision: self.decision,
            reason: model_opt(self.reason),
            additional_context: model_opt(self.additional_context),
        }
    }
}

impl UserPromptSubmitOutputModel {
    /// The answer that decides nothing.
    pub open spec fn pass() -> UserPromptSubmitOutputModel {
        UserPromptSubmitOutputModel { decision: None, reason: None, additional_context: None }
    }

    /// The word for the decision on the wire: only a block is said.
    pub open spec fn decision_word(self) -> Option<JsonModel> {
        match self.decision {
            Some(UserPromptSubmitDecision::Block) => Some(JsonModel::Text("block"@)),
            _ => None,
        }
    }

    /// The answer as the child expects it.
    pub open spec fn hook_response(self) -> JsonModel {
        JsonModel::Object(
            optional("decision"@, self.decision_word()) + optional(
                "reason"@,
                opt_text(self.reason),
            ) + seq![
                (
                    "hookSpecificOutput"@,
                    JsonModel::Object(
                        seq![("hookEventName"@, JsonModel::Text("UserPromptSubmit"@))] + optional(
                "additionalContext"@,
                opt_text(self.additional_context),
            ),
                    ),
                ),
            ],
        )
    }
}

impl UserPromptSubmitOutput {
    pub fn new() -> (r: UserPromptSubmitOutput)
        ensures
            r@ == UserPromptSubmitOutputModel::pass(),
    {
        UserPromptSubmitOutput { decision: None, reason: None, additional_context: None }
    }

    /// The answer that decides nothing.
    pub fn pass() -> (r: UserPromptSubmitOutput)
        ensures
            r@ == UserPromptSubmitOutputModel::pass(),
    {
        UserPromptSubmitOutput { decision: None, reason: None, additional_context: None }
    }

    /// The answer that blocks, for the reason `reason`.
    pub fn block(reason: &str) -> (r: UserPromptSubmitOutput)
        ensures
            r@ == (UserPromptSubmitOutputModel {
                decision: Some(UserPromptSubmitDecision::Block),
                reason: Some(reason@),
                ..UserPromptSubmitOutputModel::pass()
            }),
    {
        UserPromptSubmitOutput {
            decision: Some(UserPromptSubmitDecision::Block),
            reason: Some(reason.to_owned()), additional_context: None,
        }
    }

    pub fn decision(&self) -> (r: Option<UserPromptSubmitDecision>)
        ensures
            r == self@.decision,
    {
        self.decision
    }

    pub fn reason(&self) -> (r: Option<&str>)
        ensures
            model_str(r) == self@.reason,
    {
        opt_str(&self.reason)
    }

    pub fn set_decision(&mut self, decision: UserPromptSubmitDecision)
        ensures
            final(self)@ == (UserPromptSubmitOutputModel { decision: Some(decision), ..old(self)@ }),
    {
        self.decision = Some(decision);
    }

    pub fn set_reason(&mut self, reason: &str)
        ensures
            final(self)@ == (UserPromptSubmitOutputModel { reason: Some(reason@), ..old(self)@ }),
    {
        self.reason = Some(reason.to_owned());
    }

    pub fn with_decision(self, decision: UserPromptSubmitDecision) -> (r: UserPromptSubmitOutput)
        ensures
            r@ == (UserPromptSubmitOutputModel { decision: Some(decision), ..self@ }),
    {
        UserPromptSubmitOutput { decision: Some(decision), reason: self.reason, additional_context: self.additional_context }
    }

    pub fn with_reason(self, reason: &str) -> (r: UserPromptSubmitOutput)
        ensures
            r@ == (UserPromptSubmitOutputModel { reason: Some(reason@), ..self@ }),
    {
        UserPromptSubmitOutput { decision: self.decision, reason: Some(reason.to_owned()), additional_context: self.additional_context }
    }

    pub fn additional_context(&self) -> (r: Option<&str>)
        ensures
            model_str(r) == self@.additional_context,
    {
        opt_str(&self.additional_context)
    }

    pub fn set_additional_context(&mut self, context: &str)
        ensures
            final(self)@ == (UserPromptSubmitOutputModel { additional_context: Some(context@), ..old(self)@ }),
    {
        self.additional_context = Some(context.to_owned());
    }

    pub fn with_additional_context(self, context: &str) -> (r: UserPromptSubmitOutput)
        ensures
            r@ == (UserPromptSubmitOutputModel { additional_context: Some(context@), ..self@ }),
    {
        UserPromptSubmitOutput {
            decision: self.decision,
            reason: self.reason,
            additional_context: Some(context.to_owned()),
        }
    }

    /// The answer as the child expects it.
    pub fn to_hook_response(&self) -> (r: Json)
        ensures
            r@ == self@.hook_response(),
    {
        let mut specific = no_members();
        put(&mut specific, "hookEventName", Json::text("UserPromptSubmit"));
        put_opt(&mut specific, "additionalContext", opt_text_json(&self.additional_context));
        proof {
            assert(members_model(specific@) =~= self@.hook_response()->Object_0.last().1->Object_0);
        }
        let mut result = no_members();
        put_opt(
            &mut result,
            "decision",
            match self.decision {
                Some(UserPromptSubmitDecision::Block) => Some(Json::text("block")),
                _ => None,
            },
        );
        put_opt(&mut result, "reason", opt_text_json(&self.reason));
        put(&mut result, "hookSpecificOutput", Json::object(specific));
        proof {
            assert(members_model(result@) =~= self@.hook_response()->Object_0);
        }
        Json::object(result)
    }
}

impl Default for UserPromptSubmitOutput {
    fn default() -> (r: UserPromptSubmitOutput)
        ensures
            r@ == UserPromptSubmitOutputModel::pass(),
    {
        UserPromptSubmitOutput::new()
    }
}

/// The work of a hook for `UserPromptSubmit`, supplied by the host.
pub trait OnUserPromptSubmit {
    /// Decides on `input`.
    fn call(&self, input: UserPromptSubmitInput) -> UserPromptSubmitOutput;
}

/// A hook for `UserPromptSubmit` as the table holds it.
pub struct UserPromptSubmitCallback {
    pub hook: Box<dyn OnUserPromptSubmit>,
}

impl UserPromptSubmitCallback {
    /// Wraps `hook`.
    pub fn new(hook: Box<dyn OnUserPromptSubmit>) -> UserPromptSubmitCallback {
        UserPromptSubmitCallback { hook }
    }

    /// Hands `input` to the hook.  What comes back is the hook's own.
    pub fn call(&self, input: UserPromptSubmitInput) -> UserPromptSubmitOutput {
        self.hook.call(input)
    }
}

} // verus!
