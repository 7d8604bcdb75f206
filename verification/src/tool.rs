//! Tools that the host offers to the child.

use crate::json::{members_model, no_members, put, Json, JsonModel};
use crate::strings::{concat2, concat3};
use crate::views::{model_opt, model_ref, models};
use vstd::prelude::*;

pub use crate::tool_input::ToolInput;

verus! {

/// Why a tool could not do its work.
#[derive(Debug)]
pub enum ToolError {
    MissingParameter(String),
    InvalidParameter { name: String, reason: String },
    ExecutionFailed(String),
    NotFound(String),
    PermissionDenied(String),
    DeserializationFailed(String),
    Other(String),
}

pub enum ToolErrorModel {
    MissingParameter(Seq<char>),
    InvalidParameter { name: Seq<char>, reason: Seq<char> },
    ExecutionFailed(Seq<char>),
    NotFound(Seq<char>),
    PermissionDenied(Seq<char>),
    DeserializationFailed(Seq<char>),
    Other(Seq<char>),
}

impl View for ToolError {
    type V = ToolErrorModel;

    open spec fn view(&self) -> ToolErrorModel {
        match self {
            ToolError::MissingParameter(s) => ToolErrorModel::MissingParameter(s@),
            ToolError::InvalidParameter { name, reason } => ToolErrorModel::InvalidParameter {
                name: name@,
                reason: reason@,
            },
            ToolError::ExecutionFailed(s) => ToolErrorModel::ExecutionFailed(s@),
            ToolError::NotFound(s) => ToolErrorModel::NotFound(s@),
            ToolError::PermissionDenied(s) => ToolErrorModel::PermissionDenied(s@),
            ToolError::DeserializationFailed(s) => ToolErrorModel::DeserializationFailed(s@),
            ToolError::Other(s) => ToolErrorModel::Other(s@),
        }
    }
}

impl ToolErrorModel {
    /// The error in words.
    pub open spec fn message(self) -> Seq<char> {
        match self {
            ToolErrorModel::MissingParameter(s) => "missing required parameter: "@ + s,
            ToolErrorModel::InvalidParameter { name, reason } => "invalid parameter '"@ + name
                + "': "@ + reason,
            ToolErrorModel::ExecutionFailed(s) => "execution failed: "@ + s,
            ToolErrorModel::NotFound(s) => "not found: "@ + s,
            ToolErrorModel::PermissionDenied(s) => "permission denied: "@ + s,
            ToolErrorModel::DeserializationFailed(s) => "deserialization failed: "@ + s,
            ToolErrorModel::Other(s) => s,
        }
    }
}

impl ToolError {
    pub fn missing_parameter(name: &str) -> (r: ToolError)
        ensures
            r@ == ToolErrorModel::MissingParameter(name@),
    {
        ToolError::MissingParameter(name.to_owned())
    }

    pub fn invalid_parameter(name: &str, reason: &str) -> (r: ToolError)
        ensures
            r@ == (ToolErrorModel::InvalidParameter { name: name@, reason: reason@ }),
    {
        ToolError::InvalidParameter { name: name.to_owned(), reason: reason.to_owned() }
    }

    pub fn execution_failed(msg: &str) -> (r: ToolError)
        ensures
            r@ == ToolErrorModel::ExecutionFailed(msg@),
    {
        ToolError::ExecutionFailed(msg.to_owned())
    }

    pub fn not_found(msg: &str) -> (r: ToolError)
        ensures
            r@ == ToolErrorModel::NotFound(msg@),
    {
        ToolError::NotFound(msg.to_owned())
    }

    pub fn permission_denied(msg: &str) -> (r: ToolError)
        ensures
            r@ == ToolErrorModel::PermissionDenied(msg@),
    {
        ToolError::PermissionDenied(msg.to_owned())
    }

    pub fn deserialization_failed(msg: &str) -> (r: ToolError)
        ensures
            r@ == ToolErrorModel::DeserializationFailed(msg@),
    {
        ToolError::DeserializationFailed(msg.to_owned())
    }

    /// Any other error, by its description.
    pub fn other(description: &str) -> (r: ToolError)
        ensures
            r@ == ToolErrorModel::Other(description@),
    {
        ToolError::Other(description.to_owned())
    }

    /// Any other error, by a message.
    pub fn msg(msg: &str) -> (r: ToolError)
        ensures
            r@ == ToolErrorModel::Other(msg@),
    {
        ToolError::Other(msg.to_owned())
    }

    /// The error in words.
    pub fn message(&self) -> (r: String)
        ensures
            r@ == self@.message(),
    {
        match self {
            ToolError::MissingParameter(s) => concat2("missing required parameter: ", s.as_str()),
            ToolError::InvalidParameter { name, reason } => {
                let head = concat3("invalid parameter '", name.as_str(), "': ");
                concat2(head.as_str(), reason.as_str())
            },
            ToolError::ExecutionFailed(s) => concat2("execution failed: ", s.as_str()),
            ToolError::NotFound(s) => concat2("not found: ", s.as_str()),
            ToolError::PermissionDenied(s) => concat2("permission denied: ", s.as_str()),
            ToolError::DeserializationFailed(s) => concat2("deserialization failed: ", s.as_str()),
            ToolError::Other(s) => s.clone(),
        }
    }
}

/// The work of a tool, supplied by the host.
pub trait ToolHandler {
    /// Does the tool's work on `input`.
    fn handle(&self, input: ToolInput) -> Result<Json, ToolError>;
}

/// A tool: what the child is told of it, and the handler that does its
/// work.
pub struct Tool {
    pub name: String,
    pub description: String,
    pub input_schema: Json,
    pub output_schema: Option<Json>,
    pub handler: Box<dyn ToolHandler>,
}

/// What the child is told of a tool.
pub struct ToolModel {
    pub name: Seq<char>,
    pub description: Seq<char>,
    pub input_schema: JsonModel,
    pub output_schema: Option<JsonModel>,
}

impl View for Tool {
    type V = ToolModel;

    open spec fn view(&self) -> ToolModel {
        ToolModel {
            name: self.name@,
            description: self.description@,
            input_schema: self.input_schema@,
            output_schema: model_opt(self.output_schema),
        }
    }
}

impl ToolModel {
    /// The entry of the tool in a listing.
    pub open spec fn listing(self) -> JsonModel {
        JsonModel::Object(
            seq![
                ("name"@, JsonModel::Text(self.name)),
                ("description"@, JsonModel::Text(self.description)),
                ("inputSchema"@, self.input_schema),
            ],
        )
    }

    /// The entries of `tools` in a listing.
    pub open spec fn listings(tools: Seq<ToolModel>) -> Seq<JsonModel> {
        Seq::new(tools.len(), |i: int| tools[i].listing())
    }

    /// The names of `tools`.
    pub open spec fn names(tools: Seq<ToolModel>) -> Seq<Seq<char>> {
        Seq::new(tools.len(), |i: int| tools[i].name)
    }
}

/// The content that says `s` as text.
pub open spec fn text_content(s: Seq<char>) -> JsonModel {
    JsonModel::Array(
        seq![
            JsonModel::Object(
                seq![("type"@, JsonModel::Text("text"@)), ("text"@, JsonModel::Text(s))],
            ),
        ],
    )
}

/// The content that says `s` as text and marks it as an error.
pub open spec fn error_content(s: Seq<char>) -> JsonModel {
    JsonModel::Array(
        seq![
            JsonModel::Object(
                seq![
                    ("type"@, JsonModel::Text("text"@)),
                    ("text"@, JsonModel::Text(s)),
                    ("is_error"@, JsonModel::Bool(true)),
                ],
            ),
        ],
    )
}

impl Tool {
    pub fn new(
        name: &str,
        description: &str,
        input_schema: Json,
        output_schema: Option<Json>,
        handler: Box<dyn ToolHandler>,
    ) -> (r: Tool)
        ensures
            r@ == (ToolModel {
                name: name@,
                description: description@,
                input_schema: input_schema@,
                output_schema: model_opt(output_schema),
            }),
    {
        Tool {
            name: name.to_owned(),
            description: description.to_owned(),
            input_schema,
            output_schema,
            handler,
        }
    }

    pub fn name(&self) -> (r: &str)
        ensures
            r@ == self@.name,
    {
        self.name.as_str()
    }

    pub fn description(&self) -> (r: &str)
        ensures
            r@ == self@.description,
    {
        self.description.as_str()
    }

    pub fn input_schema(&self) -> (r: &Json)
        ensures
            r@ == self@.input_schema,
    {
        &self.input_schema
    }

    pub fn output_schema(&self) -> (r: Option<&Json>)
        ensures
            model_ref(r) == self@.output_schema,
    {
        self.output_schema.as_ref()
    }

    /// Hands `input` to the tool's handler.  What comes back is the
    /// handler's own.
    pub fn call(&self, input: ToolInput) -> (r: Result<Json, ToolError>) {
        self.handler.handle(input)
    }

    /// The entry of the tool in a listing.
    pub fn listing(&self) -> (r: Json)
        ensures
            r@ == self@.listing(),
    {
        let mut members = no_members();
        put(&mut members, "name", Json::text(self.name.as_str()));
        put(&mut members, "description", Json::text(self.description.as_str()));
        put(&mut members, "inputSchema", self.input_schema.clone());
        proof {
            assert(members_model(members@) =~= self@.listing()->Object_0);
        }
        Json::object(members)
    }

    /// The content that says `s` as text.
    pub fn text_result(s: &str) -> (r: Json)
        ensures
            r@ == text_content(s@),
    {
        let mut members = no_members();
        put(&mut members, "type", Json::text("text"));
        put(&mut members, "text", Json::text(s));
        proof {
            assert(members_model(members@) =~= seq![
                ("type"@, JsonModel::Text("text"@)),
                ("text"@, JsonModel::Text(s@)),
            ]);
        }
        let mut items: Vec<Json> = Vec::new();
        items.push(Json::object(members));
        proof {
            assert(models(items@) =~= text_content(s@)->Array_0);
        }
        Json::array(items)
    }

    /// The content that says `s` as text and marks it as an error.
    pub fn error_result(s: &str) -> (r: Json)
        ensures
            r@ == error_content(s@),
    {
        let mut members = no_members();
        put(&mut members, "type", Json::text("text"));
        put(&mut members, "text", Json::text(s));
        put(&mut members, "is_error", Json::boolean(true));
        proof {
            assert(members_model(members@) =~= seq![
                ("type"@, JsonModel::Text("text"@)),
                ("text"@, JsonModel::Text(s@)),
                ("is_error"@, JsonModel::Bool(true)),
            ]);
        }
        let mut items: Vec<Json> = Vec::new();
        items.push(Json::object(members));
        proof {
            assert(models(items@) =~= error_content(s@)->Array_0);
        }
        Json::array(items)
    }
}

} // verus!
