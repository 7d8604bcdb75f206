//! The hook for the event `PreToolUse`.

use crate::json::{
    member_or_null, members_model, no_members, opt_text, opt_text_json, optional, put, put_opt,
    string_or_empty, text_or_empty, value_or_null, Json, JsonModel,
};
use crate::tool_input::ToolInput;
use crate::views::{model_opt, model_ref, model_str, opt_str};
use vstd::prelude::*;

verus! {

/// What the child tells a hook for `PreToolUse`.
#[derive(Debug)]
pub struct PreToolUseInput {
    pub session_id: String,
    pub transcript_path: String,
    pub tool_name: String,
    pub tool_input: ToolInput,
}

pub struct PreToolUseInputModel {
    pub session_id: Seq<char>,
    pub transcript_path: Seq<char>,
    pub tool_name: Seq<char>,
    pub tool_input: JsonModel,
}

impl View for PreToolUseInput {
    type V = PreToolUseInputModel;

    open spec fn view(&self) -> PreToolUseInputModel {
        PreToolUseInputModel {
            session_id: self.session_id@,
            transcript_path: self.transcript_path@,
            tool_name: self.tool_name@,
            tool_input: self.tool_input@,
        }
    }
}

impl PreToolUseInputModel {
    /// The input that the payload `input` of a callback carries.  A string
    /// that is missing is empty, a value that is missing is `null`.
    pub open spec fn of(input: JsonModel) -> PreToolUseInputModel {
        PreToolUseInputModel {
            session_id: text_or_empty(input, "session_id"@),
            transcript_path: text_or_empty(input, "transcript_path"@),
            tool_name: text_or_empty(input, "tool_name"@),
            tool_input: member_or_null(input, "tool_input"@),
        }
    }
}

impl PreToolUseInput {
    pub fn new(session_id: &str, transcript_path: &str, tool_name: &str, tool_input: ToolInput) -> (r:
        PreToolUseInput)
        ensures
            r@ == (PreToolUseInputModel {
                session_id: session_id@,
                transcript_path: transcript_path@,
                tool_name: tool_name@,
                tool_input: tool_input@,
            }),
    {
        PreToolUseInput {
            session_id: session_id.to_owned(),
            transcript_path: transcript_path.to_owned(),
            tool_name: tool_name.to_owned(),
            tool_input,
        }
    }

    pub fn session_id(&self) -> (r: &str)
        ensures
            r@ == self@.session_id,
    {
        self.session_id.as_str()
    }

    pub fn transcript_path(&self) -> (r: &str)
        ensures
            r@ == self@.transcript_path,
    {
        self.transcript_path.as_str()
    }

    pub fn tool_name(&self) -> (r: &str)
        ensures
            r@ == self@.tool_name,
    {
        self.tool_name.as_str()
    }

    pub fn tool_input(&self) -> (r: &ToolInput)
        ensures
            r@ == self@.tool_input,
    {
        &self.tool_input
    }

    /// Reads the input from the payload of a callback.
    pub fn from_json(input: &Json) -> (r: PreToolUseInput)
        ensures
            r@ == PreToolUseInputModel::of(input@),
    {
        PreToolUseInput {
            session_id: string_or_empty(input, "session_id"),
            transcript_path: string_or_empty(input, "transcript_path"),
            tool_name: string_or_empty(input, "tool_name"),
            tool_input: ToolInput::new(value_or_null(input, "tool_input")),
        }
    }
}

impl Clone for PreToolUseInput {
    fn clone(&self) -> (r: PreToolUseInput)
        ensures
            r@ == self@,
    {
        PreToolUseInput {
            session_id: self.session_id.clone(),
            transcript_path: self.transcript_path.clone(),
            tool_name: self.tool_name.clone(),
            tool_input: self.tool_input.clone(),
        }
    }
}

/// What a hook for `PreToolUse` decides.
#[derive(Debug, Clone, Copy, PartialEq, Eq)]
pub enum PreToolUseDecision {
    Allow,
    Deny,
    Ask,
}

impl PreToolUseDecision {
    /// The word for the decision on the wire.
    pub open spec fn word(self) -> Seq<char> {
        match self {
            PreToolUseDecision::Allow => "allow"@,
            PreToolUseDecision::Deny => "deny"@,
            PreToolUseDecision::Ask => "ask"@,
        }
    }

    /// The word for the decision on the wire.
    pub fn as_str(&self) -> (r: &'static str)
        ensures
            r@ == self.word(),
    {
        match self {
            PreToolUseDecision::Allow => "allow",
            PreToolUseDecision::Deny => "deny",
            PreToolUseDecision::Ask => "ask",
        }
    }
}

/// What a hook for `PreToolUse` answers: a decision, a reason, an input to
/// use in place of the tool's, or nothing at all.
#[derive(Debug)]
pub struct PreToolUseOutput {
    pub decision: Option<PreToolUseDecision>,
    pub reason: Option<String>,
    pub updated_input: Option<ToolInput>,
}

pub struct PreToolUseOutputModel {
    pub decision: Option<PreToolUseDecision>,
    pub reason: Option<Seq<char>>,
    pub updated_input: Option<JsonModel>,
}

impl View for PreToolUseOutput {
    type V = PreToolUseOutputModel;

    open spec fn view(&self) -> PreToolUseOutputModel {
        PreToolUseOutputModel {
            decision: self.decision,
            reason: model_opt(self.reason),
            updated_input: model_opt(self.updated_input),
        }
    }
}

impl PreToolUseOutputModel {
    /// The answer that decides nothing.
    pub open spec fn pass() -> PreToolUseOutputModel {
        PreToolUseOutputModel { decision: None, reason: None, updated_input: None }
    }

    /// The word for the decision on the wire.
    pub open spec fn decision_word(self) -> Option<JsonModel> {
        match self.decision {
            Some(d) => Some(JsonModel::Text(d.word())),
            None => None,
        }
    }

    /// The answer as the child expects it.
    pub open spec fn hook_response(self) -> JsonModel {
        JsonModel::Object(
            seq![
                (
                    "hookSpecificOutput"@,
                    JsonModel::Object(
                        seq![("hookEventName"@, JsonModel::Text("PreToolUse"@))] + optional(
                            "permissionDecision"@,
                            self.decision_word(),
                        ) + optional("permissionDecisionReason"@, opt_text(self.reason))
                            + optional("updatedInput"@, self.updated_input),
                    ),
                ),
            ],
        )
    }
}

impl PreToolUseOutput {
    pub fn new() -> (r: PreToolUseOutput)
        ensures
            r@ == PreToolUseOutputModel::pass(),
    {
        PreToolUseOutput { decision: None, reason: None, updated_input: None }
    }

    /// The answer that allows the tool.
    pub fn allow() -> (r: PreToolUseOutput)
        ensures
            r@ == (PreToolUseOutputModel {
                decision: Some(PreToolUseDecision::Allow),
                ..PreToolUseOutputModel::pass()
            }),
    {
        PreToolUseOutput { decision: Some(PreToolUseDecision::Allow), reason: None, updated_input: None }
    }

    /// The answer that denies the tool, for the reason `reason`.
    pub fn deny(reason: &str) -> (r: PreToolUseOutput)
        ensures
            r@ == (PreToolUseOutputModel {
                decision: Some(PreToolUseDecision::Deny),
                reason: Some(reason@),
                ..PreToolUseOutputModel::pass()
            }),
    {
        PreToolUseOutput {
            decision: Some(PreToolUseDecision::Deny),
            reason: Some(reason.to_owned()),
            updated_input: None,
        }
    }

    /// The answer that has the user asked, for the reason `reason`.
    pub fn ask(reason: &str) -> (r: PreToolUseOutput)
        ensures
            r@ == (PreToolUseOutputModel {
                decision: Some(PreToolUseDecision::Ask),
                reason: Some(reason@),
                ..PreToolUseOutputModel::pass()
            }),
    {
        PreToolUseOutput {
            decision: Some(PreToolUseDecision::Ask),
            reason: Some(reason.to_owned()),
            updated_input: None,
        }
    }

    /// The answer that decides nothing.
    pub fn pass() -> (r: PreToolUseOutput)
        ensures
            r@ == PreToolUseOutputModel::pass(),
    {
        PreToolUseOutput { decision: None, reason: None, updated_input: None }
    }

    pub fn decision(&self) -> (r: Option<PreToolUseDecision>)
        ensures
            r == self@.decision,
    {
        self.decision
    }

    pub fn reason(&self) -> (r: Option<&str>)
        ensures
            model_str(r) == self@.reason,
    {
        opt_str(&self.reason)
    }

    pub fn updated_input(&self) -> (r: Option<&ToolInput>)
        ensures
            model_ref(r) == self@.updated_input,
    {
        self.updated_input.as_ref()
    }

    pub fn set_decision(&mut self, decision: PreToolUseDecision)
        ensures
            final(self)@ == (PreToolUseOutputModel { decision: Some(decision), ..old(self)@ }),
    {
        self.decision = Some(decision);
    }

    pub fn set_reason(&mut self, reason: &str)
        ensures
            final(self)@ == (PreToolUseOutputModel { reason: Some(reason@), ..old(self)@ }),
    {
        self.reason = Some(reason.to_owned());
    }

    pub fn set_updated_input(&mut self, input: ToolInput)
        ensures
            final(self)@ == (PreToolUseOutputModel { updated_input: Some(input@), ..old(self)@ }),
    {
        self.updated_input = Some(input);
    }

    pub fn with_decision(self, decision: PreToolUseDecision) -> (r: PreToolUseOutput)
        ensures
            r@ == (PreToolUseOutputModel { decision: Some(decision), ..self@ }),
    {
        PreToolUseOutput {
            decision: Some(decision),
            reason: self.reason,
            updated_input: self.updated_input,
        }
    }

    pub fn with_reason(self, reason: &str) -> (r: PreToolUseOutput)
        ensures
            r@ == (PreToolUseOutputModel { reason: Some(reason@), ..self@ }),
    {
        PreToolUseOutput {
            decision: self.decision,
            reason: Some(reason.to_owned()),
            updated_input: self.updated_input,
        }
    }

    pub fn with_updated_input(self, input: ToolInput) -> (r: PreToolUseOutput)
        ensures
            r@ == (PreToolUseOutputModel { updated_input: Some(input@), ..self@ }),
    {
        PreToolUseOutput { decision: self.decision, reason: self.reason, updated_input: Some(input) }
    }

    /// The answer as the child expects it.
    pub fn to_hook_response(&self) -> (r: Json)
        ensures
            r@ == self@.hook_response(),
    {
        let mut specific = no_members();
        put(&mut specific, "hookEventName", Json::text("PreToolUse"));
        put_opt(
            &mut specific,
            "permissionDecision",
            match self.decision {
                Some(d) => Some(Json::text(d.as_str())),
                None => None,
            },
        );
        put_opt(&mut specific, "permissionDecisionReason", opt_text_json(&self.reason));
        put_opt(
            &mut specific,
            "updatedInput",
            match &self.updated_input {
                Some(input) => Some(input.as_value().clone()),
                None => None,
            },
        );
        proof {
            assert(members_model(specific@) =~= self@.hook_response()->Object_0[0].1->Object_0);
        }
        let mut result = no_members();
        put(&mut result, "hookSpecificOutput", Json::object(specific));
        proof {
            assert(members_model(result@) =~= self@.hook_response()->Object_0);
        }
        Json::object(result)
    }
}

impl Default for PreToolUseOutput {
    fn default() -> (r: PreToolUseOutput)
        ensures
            r@ == PreToolUseOutputModel::pass(),
    {
        PreToolUseOutput::new()
    }
}

/// The work of a hook for `PreToolUse`, supplied by the host.
pub trait OnPreToolUse {
    /// Decides on `input`.
    fn call(&self, input: PreToolUseInput) -> PreToolUseOutput;
}

/// A hook for `PreToolUse` as the table holds it.
pub struct PreToolUseCallback {
    pub hook: Box<dyn OnPreToolUse>,
}

impl PreToolUseCallback {
    /// Wraps `hook`.
    pub fn new(hook: Box<dyn OnPreToolUse>) -> PreToolUseCallback {
        PreToolUseCallback { hook }
    }

    /// Hands `input` to the hook.  What comes back is the hook's own.
    pub fn call(&self, input: PreToolUseInput) -> PreToolUseOutput {
        self.hook.call(input)
    }
}

} // verus!
