//! The models that the child can talk to.

use crate::strings::same;
use vstd::prelude::*;

verus! {

/// A model: one of the known families, the one that is inherited, or any
/// other by its name.
#[derive(Debug)]
pub enum Model {
    Sonnet,
    Opus,
    Haiku,
    Inherit,
    Custom(String),
}

pub enum ModelModel {
    Sonnet,
    Opus,
    Haiku,
    Inherit,
    Custom(Seq<char>),
}

impl View for Model {
    type V = ModelModel;

    open spec fn view(&self) -> ModelModel {
        match self {
            Model::Sonnet => ModelModel::Sonnet,
            Model::Opus => ModelModel::Opus,
            Model::Haiku => ModelModel::Haiku,
            Model::Inherit => ModelModel::Inherit,
            Model::Custom(s) => ModelModel::Custom(s@),
        }
    }
}

impl ModelModel {
    /// The name under which the child knows the model.
    pub open spec fn name(self) -> Seq<char> {
        match self {
            ModelModel::Sonnet => "sonnet"@,
            ModelModel::Opus => "opus"@,
            ModelModel::Haiku => "haiku"@,
            ModelModel::Inherit => "inherit"@,
            ModelModel::Custom(s) => s,
        }
    }

    /// The model that `s` names: a family by its short name or by its name
    /// with a version, the inherited model, or a custom model of that name.
    pub open spec fn named(s: Seq<char>) -> ModelModel {
        if s == "sonnet"@ || s == "sonnet-4-5"@ {
            ModelModel::Sonnet
        } else if s == "opus"@ || s == "opus-4-5"@ {
            ModelModel::Opus
        } else if s == "haiku"@ || s == "haiku-4-5"@ {
            ModelModel::Haiku
        } else if s == "inherit"@ {
            ModelModel::Inherit
        } else {
            ModelModel::Custom(s)
        }
    }
}

impl Model {
    /// The name under which the child knows the model.
    pub fn as_str(&self) -> (r: &str)
        ensures
            r@ == self@.name(),
    {
        match self {
            Model::Sonnet => "sonnet",
            Model::Opus => "opus",
            Model::Haiku => "haiku",
            Model::Inherit => "inherit",
            Model::Custom(s) => s.as_str(),
        }
    }

    /// The name of the model, owned.
    pub fn name(&self) -> (r: String)
        ensures
            r@ == self@.name(),
    {
        self.as_str().to_owned()
    }

    /// The model that `s` names.
    pub fn from_name(s: &str) -> (r: Model)
        ensures
            r@ == ModelModel::named(s@),
    {
        if same(s, "sonnet") || same(s, "sonnet-4-5") {
            Model::Sonnet
        } else if same(s, "opus") || same(s, "opus-4-5") {
            Model::Opus
        } else if same(s, "haiku") || same(s, "haiku-4-5") {
            Model::Haiku
        } else if same(s, "inherit") {
            Model::Inherit
        } else {
            Model::Custom(s.to_owned())
        }
    }
}

impl Clone for Model {
    fn clone(&self) -> (r: Model)
        ensures
            r@ == self@,
    {
        match self {
            Model::Sonnet => Model::Sonnet,
            Model::Opus => Model::Opus,
            Model::Haiku => Model::Haiku,
            Model::Inherit => Model::Inherit,
            Model::Custom(s) => Model::Custom(s.clone()),
        }
    }
}

} // verus!
