//! Permission checks: what the host is asked, and what it may answer.

use crate::strings::concat3;
use crate::tool_input::ToolInput;
use crate::views::{model_opt, model_str, models, opt_str};
use vstd::prelude::*;

pub use crate::proto::control::PermissionMode;

verus! {

/// A rule that allows a tool, or a use of it.
#[derive(Debug)]
pub struct PermissionRule {
    pub tool_name: String,
    pub rule: Option<String>,
}

pub struct PermissionRuleModel {
    pub tool_name: Seq<char>,
    pub rule: Option<Seq<char>>,
}

impl View for PermissionRule {
    type V = PermissionRuleModel;

    open spec fn view(&self) -> PermissionRuleModel {
        PermissionRuleModel { tool_name: self.tool_name@, rule: model_opt(self.rule) }
    }
}

impl PermissionRule {
    pub fn new(tool_name: &str) -> (r: PermissionRule)
        ensures
            r@ == (PermissionRuleModel { tool_name: tool_name@, rule: None }),
    {
        PermissionRule { tool_name: tool_name.to_owned(), rule: None }
    }

    pub fn tool_name(&self) -> (r: &str)
        ensures
            r@ == self@.tool_name,
    {
        self.tool_name.as_str()
    }

    pub fn rule(&self) -> (r: Option<&str>)
        ensures
            model_str(r) == self@.rule,
    {
        opt_str(&self.rule)
    }

    pub fn set_tool_name(&mut self, tool_name: &str)
        ensures
            final(self)@ == (PermissionRuleModel { tool_name: tool_name@, ..old(self)@ }),
    {
        self.tool_name = tool_name.to_owned();
    }

    pub fn set_rule(&mut self, rule: Option<String>)
        ensures
            final(self)@ == (PermissionRuleModel { rule: model_opt(rule), ..old(self)@ }),
    {
        self.rule = rule;
    }

    pub fn with_tool_name(self, tool_name: &str) -> (r: PermissionRule)
        ensures
            r@ == (PermissionRuleModel { tool_name: tool_name@, ..self@ }),
    {
        PermissionRule { tool_name: tool_name.to_owned(), rule: self.rule }
    }

    pub fn with_rule(self, rule: &str) -> (r: PermissionRule)
        ensures
            r@ == (PermissionRuleModel { rule: Some(rule@), ..self@ }),
    {
        PermissionRule { tool_name: self.tool_name, rule: Some(rule.to_owned()) }
    }
}

impl Clone for PermissionRule {
    fn clone(&self) -> (r: PermissionRule)
        ensures
            r@ == self@,
    {
        PermissionRule {
            tool_name: self.tool_name.clone(),
            rule: match &self.rule {
                Some(s) => Some(s.clone()),
                None => None,
            },
        }
    }
}

/// What the host is told when the child asks for a tool.
#[derive(Debug)]
pub struct PermissionContext {
    pub tool_name: String,
    pub input: ToolInput,
    pub suggested_rules: Vec<PermissionRule>,
}

pub struct PermissionContextModel {
    pub tool_name: Seq<char>,
    pub input: crate::json::JsonModel,
    pub suggested_rules: Seq<PermissionRuleModel>,
}

impl View for PermissionContext {
    type V = PermissionContextModel;

    open spec fn view(&self) -> PermissionContextModel {
        PermissionContextModel {
            tool_name: self.tool_name@,
            input: self.input@,
            suggested_rules: models(self.suggested_rules@),
        }
    }
}

impl PermissionContext {
    pub fn new(tool_name: &str, input: ToolInput, suggested_rules: Vec<PermissionRule>) -> (r:
        PermissionContext)
        ensures
            r@ == (PermissionContextModel {
                tool_name: tool_name@,
                input: input@,
                suggested_rules: models(suggested_rules@),
            }),
    {
        PermissionContext { tool_name: tool_name.to_owned(), input, suggested_rules }
    }

    pub fn tool_name(&self) -> (r: &str)
        ensures
            r@ == self@.tool_name,
    {
        self.tool_name.as_str()
    }

    pub fn input(&self) -> (r: &ToolInput)
        ensures
            r@ == self@.input,
    {
        &self.input
    }

    pub fn suggested_rules(&self) -> (r: &Vec<PermissionRule>)
        ensures
            models(r@) == self@.suggested_rules,
    {
        &self.suggested_rules
    }

    pub fn set_tool_name(&mut self, tool_name: &str)
        ensures
            final(self)@ == (PermissionContextModel { tool_name: tool_name@, ..old(self)@ }),
    {
        self.tool_name = tool_name.to_owned();
    }

    pub fn set_input(&mut self, input: ToolInput)
        ensures
            final(self)@ == (PermissionContextModel { input: input@, ..old(self)@ }),
    {
        self.input = input;
    }

    pub fn set_suggested_rules(&mut self, suggested_rules: Vec<PermissionRule>)
        ensures
            final(self)@ == (PermissionContextModel {
                suggested_rules: models(suggested_rules@),
                ..old(self)@
            }),
    {
        self.suggested_rules = suggested_rules;
    }

    pub fn with_tool_name(self, tool_name: &str) -> (r: PermissionContext)
        ensures
            r@ == (PermissionContextModel { tool_name: tool_name@, ..self@ }),
    {
        PermissionContext {
            tool_name: tool_name.to_owned(),
            input: self.input,
            suggested_rules: self.suggested_rules,
        }
    }

    pub fn with_input(self, input: ToolInput) -> (r: PermissionContext)
        ensures
            r@ == (PermissionContextModel { input: input@, ..self@ }),
    {
        PermissionContext { tool_name: self.tool_name, input, suggested_rules: self.suggested_rules }
    }

    pub fn with_suggested_rules(self, suggested_rules: Vec<PermissionRule>) -> (r:
        PermissionContext)
        ensures
            r@ == (PermissionContextModel { suggested_rules: models(suggested_rules@), ..self@ }),
    {
        PermissionContext { tool_name: self.tool_name, input: self.input, suggested_rules }
    }
}

/// What the host answers when the child asks for a tool.
#[derive(Debug)]
pub enum Decision {
    Allow { updated_input: Option<ToolInput> },
    Deny { message: String, interrupt: bool },
}

pub enum DecisionModel {
    Allow { updated_input: Option<crate::json::JsonModel> },
    Deny { message: Seq<char>, interrupt: bool },
}

impl View for Decision {
    type V = DecisionModel;

    open spec fn view(&self) -> DecisionModel {
        match self {
            Decision::Allow { updated_input } => DecisionModel::Allow {
                updated_input: model_opt(*updated_input),
            },
            Decision::Deny { message, interrupt } => DecisionModel::Deny {
                message: message@,
                interrupt: *interrupt,
            },
        }
    }
}

impl Decision {
    /// Allows the tool with the input it has.
    pub fn allow() -> (r: Decision)
        ensures
            r@ == (DecisionModel::Allow { updated_input: None }),
    {
        Decision::Allow { updated_input: None }
    }

    /// Allows the tool with `input` in place of its own.
    pub fn allow_with_input(input: ToolInput) -> (r: Decision)
        ensures
            r@ == (DecisionModel::Allow { updated_input: Some(input@) }),
    {
        Decision::Allow { updated_input: Some(input) }
    }

    /// Denies the tool; the child goes on.
    pub fn deny(message: &str) -> (r: Decision)
        ensures
            r@ == (DecisionModel::Deny { message: message@, interrupt: false }),
    {
        Decision::Deny { message: message.to_owned(), interrupt: false }
    }

    /// Denies the tool and has the child stop what it does.
    pub fn deny_and_interrupt(message: &str) -> (r: Decision)
        ensures
            r@ == (DecisionModel::Deny { message: message@, interrupt: true }),
    {
        Decision::Deny { message: message.to_owned(), interrupt: true }
    }
}

/// The answer that allows every tool.
pub fn default_allow(_ctx: PermissionContext) -> (r: Decision)
    ensures
        r@ == (DecisionModel::Allow { updated_input: None }),
{
    Decision::allow()
}

/// The answer that denies every tool, naming it.
pub fn default_deny(ctx: PermissionContext) -> (r: Decision)
    ensures
        r@ == (DecisionModel::Deny {
            message: "Tool '"@ + ctx@.tool_name + "' not allowed"@,
            interrupt: false,
        }),
{
    let message = concat3("Tool '", ctx.tool_name(), "' not allowed");
    Decision::deny(message.as_str())
}

} // verus!
