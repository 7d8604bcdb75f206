//! The hook for the event `Stop`.

use crate::json::{
    members_model, no_members, opt_text, opt_text_json, optional, put, put_opt, string_or_empty,
    text_or_empty, Json, JsonModel,
};
use crate::views::{model_opt, model_str, opt_str};
use vstd::prelude::*;

verus! {

/// What the child tells a hook for `Stop`.
#[derive(Debug)]
pub struct StopInput {
    pub session_id: String,
    pub transcript_path: String,
    pub stop_hook_active: bool,
}

pub struct StopInputModel {
    pub session_id: Seq<char>,
    pub transcript_path: Seq<char>,
    pub stop_hook_active: bool,
}

impl View for StopInput {
    type V = StopInputModel;

    open spec fn view(&self) -> StopInputModel {
        StopInputModel {
            session_id: self.session_id@,
            transcript_path: self.transcript_path@,
            stop_hook_active: self.stop_hook_active,
        }
    }
}

impl StopInputModel {
    /// The input that the payload `input` of a callback carries.  A string
    /// that is missing is empty, a flag that is missing is off.
    pub open spec fn of(input: JsonModel) -> StopInputModel {
        StopInputModel {
            session_id: text_or_empty(input, "session_id"@),
            transcript_path: text_or_empty(input, "transcript_path"@),
            stop_hook_active: input.bool_at("stop_hook_active"@) == Some(true),
        }
    }
}

impl StopInput {
    pub fn new(session_id: &str, transcript_path: &str, stop_hook_active: bool) -> (r: StopInput)
        ensures
            r@ == (StopInputModel { session_id: session_id@, transcript_path: transcript_path@, stop_hook_active: stop_hook_active }),
    {
        StopInput { session_id: session_id.to_owned(), transcript_path: transcript_path.to_owned(), stop_hook_active }
    }

    pub fn session_id(&self) -> (r: &str)
        ensures
            r@ == self@.session_id,
    {
        self.session_id.as_str()
    }

    pub fn transcript_path(&self) -> (r: &str)
        ensures
            r@ == self@.transcript_path,
    {
        self.transcript_path.as_str()
    }

    pub fn stop_hook_active(&self) -> (r: bool)
        ensures
            r == self@.stop_hook_active,
    {
        self.stop_hook_active
    }

    /// Reads the input from the payload of a callback.
    pub fn from_json(input: &Json) -> (r: StopInput)
        ensures
            r@ == StopInputModel::of(input@),
    {
        StopInput {
            session_id: string_or_empty(input, "session_id"),
            transcript_path: string_or_empty(input, "transcript_path"),
            stop_hook_active: match input.bool_at("stop_hook_active") {
                Some(b) => b,
                None => false,
            },
        }
    }
}

impl Clone for StopInput {
    fn clone(&self) -> (r: StopInput)
        ensures
            r@ == self@,
    {
        StopInput { session_id: self.session_id.clone(), transcript_path: self.transcript_path.clone(), stop_hook_active: self.stop_hook_active }
    }
}

/// What a hook for `Stop` decides.
#[derive(Debug, Clone, Copy, PartialEq, Eq)]
pub enum StopDecision {
    Continue,
    Block,
}

/// What a hook for `Stop` answers: a decision, a reason, or
/// nothing at all.
#[derive(Debug)]
pub struct StopOutput {
    pub decision: Option<StopDecision>,
    pub reason: Option<String>,
}

pub struct StopOutputModel {
    pub decision: Option<StopDecision>,
    pub reason: Option<Seq<char>>,
}

impl View for StopOutput {
    type V = StopOutputModel;

    open spec fn view(&self) -> StopOutputModel {
        StopOutputModel {
            decision: self.decision,
            reason: model_opt(self.reason),
        }
    }
}

impl StopOutputModel {
    /// The answer that decides nothing.
    pub open spec fn pass() -> StopOutputModel {
        StopOutputModel { decision: None, reason: None }
    }

    /// The word for the decision on the wire: only a block is said.
    pub open spec fn decision_word(self) -> Option<JsonModel> {
        match self.decision {
            Some(StopDecision::Block) => Some(JsonModel::Text("block"@)),
            _ => None,
        }
    }

    /// The answer as the child expects it.
    pub open spec fn hook_response(self) -> JsonModel {
        JsonModel::Object(
            optional("decision"@, self.decision_word()) + optional(
                "reason"@,
                opt_text(self.reason),
            ) + seq![
                (
                    "hookSpecificOutput"@,
                    JsonModel::Object(
                        seq![("hookEventName"@, JsonModel::Text("Stop"@))],
                    ),
                ),
            ],
        )
    }
}

impl StopOutput {
    pub fn new() -> (r: StopOutput)
        ensures
            r@ == StopOutputModel::pass(),
    {
        StopOutput { decision: None, reason: None }
    }

    /// The answer that decides nothing.
    pub fn pass() -> (r: StopOutput)
        ensures
            r@ == StopOutputModel::pass(),
    {
        StopOutput { decision: None, reason: None }
    }

    /// The answer that blocks, for the reason `reason`.
    pub fn block(reason: &str) -> (r: StopOutput)
        ensures
            r@ == (StopOutputModel {
                decision: Some(StopDecision::Block),
                reason: Some(reason@),
                ..StopOutputModel::pass()
            }),
    {
        StopOutput {
            decision: Some(StopDecision::Block),
            reason: Some(reason.to_owned()),
        }
    }

    pub fn decision(&self) -> (r: Option<StopDecision>)
        ensures
            r == self@.decision,
    {
        self.decision
    }

    pub fn reason(&self) -> (r: Option<&str>)
        ensures
            model_str(r) == self@.reason,
    {
        opt_str(&self.reason)
    }

    pub fn set_decision(&mut self, decision: StopDecision)
        ensures
            final(self)@ == (StopOutputModel { decision: Some(decision), ..old(self)@ }),
    {
        self.decision = Some(decision);
    }

    pub fn set_reason(&mut self, reason: &str)
        ensures
            final(self)@ == (StopOutputModel { reason: Some(reason@), ..old(self)@ }),
    {
        self.reason = Some(reason.to_owned());
    }

    pub fn with_decision(self, decision: StopDecision) -> (r: StopOutput)
        ensures
            r@ == (StopOutputModel { decision: Some(decision), ..self@ }),
    {
        StopOutput { decision: Some(decision), reason: self.reason }
    }

    pub fn with_reason(self, reason: &str) -> (r: StopOutput)
        ensures
            r@ == (StopOutputModel { reason: Some(reason@), ..self@ }),
    {
        StopOutput { decision: self.decision, reason: Some(reason.to_owned()) }
    }

    /// The answer as the child expects it.
    pub fn to_hook_response(&self) -> (r: Json)
        ensures
            r@ == self@.hook_response(),
    {
        let mut specific = no_members();
        put(&mut specific, "hookEventName", Json::text("Stop"));
        proof {
            assert(members_model(specific@) =~= self@.hook_response()->Object_0.last().1->Object_0);
        }
        let mut result = no_members();
        put_opt(
            &mut result,
            "decision",
            match self.decision {
                Some(StopDecision::Block) => Some(Json::text("block")),
                _ => None,
            },
        );
        put_opt(&mut result, "reason", opt_text_json(&self.reason));
        put(&mut result, "hookSpecificOutput", Json::object(specific));
        proof {
            assert(members_model(result@) =~= self@.hook_response()->Object_0);
        }
        Json::object(result)
    }
}

impl Default for StopOutput {
    fn default() -> (r: StopOutput)
        ensures
            r@ == StopOutputModel::pass(),
    {
        StopOutput::new()
    }
}

/// The work of a hook for `Stop`, supplied by the host.
pub trait OnStop {
    /// Decides on `input`.
    fn call(&self, input: StopInput) -> StopOutput;
}

/// A hook for `Stop` as the table holds it.
pub struct StopCallback {
    pub hook: Box<dyn OnStop>,
}

impl StopCallback {
    /// Wraps `hook`.
    pub fn new(hook: Box<dyn OnStop>) -> StopCallback {
        StopCallback { hook }
    }

    /// Hands `input` to the hook.  What comes back is the hook's own.
    pub fn call(&self, input: StopInput) -> StopOutput {
        self.hook.call(input)
    }
}

} // verus!
