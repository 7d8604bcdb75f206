//! Subagents that the child may hand work to.

use crate::model::{Model, ModelModel};
use crate::strings::clone_strings;
use crate::views::{model_opt, model_ref, models};
use vstd::prelude::*;

verus! {

/// A subagent: what it is for, its prompt, and optionally its model and the
/// tools it may use.
#[derive(Debug)]
pub struct Agent {
    pub description: String,
    pub prompt: String,
    pub model: Option<Model>,
    pub tools: Vec<String>,
}

pub struct AgentModel {
    pub description: Seq<char>,
    pub prompt: Seq<char>,
    pub model: Option<ModelModel>,
    pub tools: Seq<Seq<char>>,
}

impl View for Agent {
    type V = AgentModel;

    open spec fn view(&self) -> AgentModel {
        AgentModel {
            description: self.description@,
            prompt: self.prompt@,
            model: model_opt(self.model),
            tools: models(self.tools@),
        }
    }
}

impl Agent {
    /// The agent with the description `description` and the prompt
    /// `prompt`, without a model and without tools.
    pub fn new(description: &str, prompt: &str) -> (r: Agent)
        ensures
            r@ == (AgentModel {
                description: description@,
                prompt: prompt@,
                model: None,
                tools: Seq::empty(),
            }),
    {
        let r = Agent {
            description: description.to_owned(),
            prompt: prompt.to_owned(),
            model: None,
            tools: Vec::new(),
        };
        proof {
            assert(models(r.tools@) =~= Seq::<Seq<char>>::empty());
        }
        r
    }

    pub fn description(&self) -> (r: &str)
        ensures
            r@ == self@.description,
    {
        self.description.as_str()
    }

    pub fn prompt(&self) -> (r: &str)
        ensures
            r@ == self@.prompt,
    {
        self.prompt.as_str()
    }

    pub fn model(&self) -> (r: Option<&Model>)
        ensures
            model_ref(r) == self@.model,
    {
        self.model.as_ref()
    }

    pub fn set_model(&mut self, model: Model)
        ensures
            final(self)@ == (AgentModel { model: Some(model@), ..old(self)@ }),
    {
        self.model = Some(model);
    }

    pub fn with_model(self, model: Model) -> (r: Agent)
        ensures
            r@ == (AgentModel { model: Some(model@), ..self@ }),
    {
        Agent {
            description: self.description,
            prompt: self.prompt,
            model: Some(model),
            tools: self.tools,
        }
    }

    pub fn tools(&self) -> (r: &Vec<String>)
        ensures
            models(r@) == self@.tools,
    {
        &self.tools
    }

    pub fn set_tools(&mut self, tools: Vec<String>)
        ensures
            final(self)@ == (AgentModel { tools: models(tools@), ..old(self)@ }),
    {
        self.tools = tools;
    }

    pub fn with_tools(self, tools: Vec<String>) -> (r: Agent)
        ensures
            r@ == (AgentModel { tools: models(tools@), ..self@ }),
    {
        Agent { description: self.description, prompt: self.prompt, model: self.model, tools }
    }
}

impl Clone for Agent {
    fn clone(&self) -> (r: Agent)
        ensures
            r@ == self@,
    {
        Agent {
            description: self.description.clone(),
            prompt: self.prompt.clone(),
            model: match &self.model {
                Some(m) => Some(m.clone()),
                None => None,
            },
            tools: clone_strings(&self.tools),
        }
    }
}

} // verus!
