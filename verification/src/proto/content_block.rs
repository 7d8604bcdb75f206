//! Content blocks: the units of a message's content.

use crate::json::{
    clone_members, clone_opt_json, lemma_lookup2, lemma_lookup3, lemma_lookup4,
    lemma_lookup_absent, lemma_lookup_append, lemma_lookup_optional, lemma_read_seq_prefix,
    lemma_read_seq_step, lemma_rest_append, lemma_rest_drops, lemma_rest_keeps, lookup,
    members_model, names, no_members, optional, put, put_all, put_opt, read_seq, Json, JsonModel,
};
use crate::strings::same;
use crate::views::{model_opt, model_ref, models};
use vstd::prelude::*;

verus! {

/// A run of text.
#[derive(Debug)]
pub struct Text {
    pub text: String,
    pub extra: Vec<(String, Json)>,
}

/// The request to run a tool.
#[derive(Debug)]
pub struct ToolUse {
    pub id: String,
    pub name: String,
    pub input: Json,
    pub extra: Vec<(String, Json)>,
}

/// What a tool answered.
#[derive(Debug)]
pub struct ToolResult {
    pub tool_use_id: String,
    pub content: Option<Json>,
    pub is_error: Option<bool>,
    pub extra: Vec<(String, Json)>,
}

/// A trace of reasoning.
#[derive(Debug)]
pub struct Thinking {
    pub thinking: String,
    pub signature: String,
    pub extra: Vec<(String, Json)>,
}

/// One unit of content.  Each kind keeps, as `extra`, the members that came
/// with it and that it does not know.
#[derive(Debug)]
pub enum ContentBlock {
    Text(Text),
    ToolUse(ToolUse),
    ToolResult(ToolResult),
    Thinking(Thinking),
}

pub struct TextModel {
    pub text: Seq<char>,
    pub extra: Seq<(Seq<char>, JsonModel)>,
}

pub struct ToolUseModel {
    pub id: Seq<char>,
    pub name: Seq<char>,
    pub input: JsonModel,
    pub extra: Seq<(Seq<char>, JsonModel)>,
}

pub struct ToolResultModel {
    pub tool_use_id: Seq<char>,
    pub content: Option<JsonModel>,
    pub is_error: Option<bool>,
    pub extra: Seq<(Seq<char>, JsonModel)>,
}

pub struct ThinkingModel {
    pub thinking: Seq<char>,
    pub signature: Seq<char>,
    pub extra: Seq<(Seq<char>, JsonModel)>,
}

pub enum ContentBlockModel {
    Text(TextModel),
    ToolUse(ToolUseModel),
    ToolResult(ToolResultModel),
    Thinking(ThinkingModel),
}

impl View for Text {
    type V = TextModel;

    open spec fn view(&self) -> TextModel {
        TextModel { text: self.text@, extra: members_model(self.extra@) }
    }
}

impl View for ToolUse {
    type V = ToolUseModel;

    open spec fn view(&self) -> ToolUseModel {
        ToolUseModel {
            id: self.id@,
            name: self.name@,
            input: self.input@,
            extra: members_model(self.extra@),
        }
    }
}

impl View for ToolResult {
    type V = ToolResultModel;

    open spec fn view(&self) -> ToolResultModel {
        ToolResultModel {
            tool_use_id: self.tool_use_id@,
            content: model_opt(self.content),
            is_error: self.is_error,
            extra: members_model(self.extra@),
        }
    }
}

impl View for Thinking {
    type V = ThinkingModel;

    open spec fn view(&self) -> ThinkingModel {
        ThinkingModel {
            thinking: self.thinking@,
            signature: self.signature@,
            extra: members_model(self.extra@),
        }
    }
}

impl View for ContentBlock {
    type V = ContentBlockModel;

    open spec fn view(&self) -> ContentBlockModel {
        match self {
            ContentBlock::Text(t) => ContentBlockModel::Text(t@),
            ContentBlock::ToolUse(t) => ContentBlockModel::ToolUse(t@),
            ContentBlock::ToolResult(t) => ContentBlockModel::ToolResult(t@),
            ContentBlock::Thinking(t) => ContentBlockModel::Thinking(t@),
        }
    }
}

impl TextModel {
    /// The block that says `text` and has no other member.
    pub open spec fn of(text: Seq<char>) -> TextModel {
        TextModel { text, extra: Seq::empty() }
    }

    /// The block on the wire: its kind, its own members, then the others.
    pub open spec fn wire(self) -> JsonModel {
        JsonModel::Object(
            seq![("type"@, JsonModel::Text("text"@)), ("text"@, JsonModel::Text(self.text))]
                + self.extra,
        )
    }

    /// The block that the object `j` carries, if it has the members of one.
    pub open spec fn read(j: JsonModel) -> Option<TextModel> {
        match j.text_at("text"@) {
            Some(text) => Some(TextModel { text, extra: j.unknown(seq!["type"@, "text"@]) }),
            None => None,
        }
    }
}

impl ToolUseModel {
    /// The block that asks for the tool `name` with `input` under `id`, and
    /// has no other member.
    pub open spec fn of(id: Seq<char>, name: Seq<char>, input: JsonModel) -> ToolUseModel {
        ToolUseModel { id, name, input, extra: Seq::empty() }
    }

    /// The block on the wire: its kind, its own members, then the others.
    pub open spec fn wire(self) -> JsonModel {
        JsonModel::Object(
            seq![
                ("type"@, JsonModel::Text("tool_use"@)),
                ("id"@, JsonModel::Text(self.id)),
                ("name"@, JsonModel::Text(self.name)),
                ("input"@, self.input),
            ] + self.extra,
        )
    }

    /// The block that the object `j` carries, if it has the members of one.
    pub open spec fn read(j: JsonModel) -> Option<ToolUseModel> {
        match (j.text_at("id"@), j.text_at("name"@), j.get("input"@)) {
            (Some(id), Some(name), Some(input)) => Some(
                ToolUseModel {
                    id,
                    name,
                    input,
                    extra: j.unknown(seq!["type"@, "id"@, "name"@, "input"@]),
                },
            ),
            _ => None,
        }
    }
}

impl ToolResultModel {
    /// The block that answers the tool use `tool_use_id`, without content,
    /// without a mark, and without any other member.
    pub open spec fn of(tool_use_id: Seq<char>) -> ToolResultModel {
        ToolResultModel { tool_use_id, content: None, is_error: None, extra: Seq::empty() }
    }

    /// The block on the wire: its kind, its own members, then the others.
    /// Absent parts are left out.
    pub open spec fn wire(self) -> JsonModel {
        JsonModel::Object(
            seq![
                ("type"@, JsonModel::Text("tool_result"@)),
                ("tool_use_id"@, JsonModel::Text(self.tool_use_id)),
            ] + optional("content"@, self.content) + optional(
                "is_error"@,
                match self.is_error {
                    Some(b) => Some(JsonModel::Bool(b)),
                    None => None,
                },
            ) + self.extra,
        )
    }

    /// The block that the object `j` carries, if it has the members of one.
    pub open spec fn read(j: JsonModel) -> Option<ToolResultModel> {
        match (j.text_at("tool_use_id"@), j.opt_bool_at("is_error"@)) {
            (Some(tool_use_id), Some(is_error)) => Some(
                ToolResultModel {
                    tool_use_id,
                    content: j.present("content"@),
                    is_error,
                    extra: j.unknown(seq!["type"@, "tool_use_id"@, "content"@, "is_error"@]),
                },
            ),
            _ => None,
        }
    }
}

impl ThinkingModel {
    /// The block that carries the reasoning `thinking` with `signature`,
    /// and has no other member.
    pub open spec fn of(thinking: Seq<char>, signature: Seq<char>) -> ThinkingModel {
        ThinkingModel { thinking, signature, extra: Seq::empty() }
    }

    /// The block on the wire: its kind, its own members, then the others.
    pub open spec fn wire(self) -> JsonModel {
        JsonModel::Object(
            seq![
                ("type"@, JsonModel::Text("thinking"@)),
                ("thinking"@, JsonModel::Text(self.thinking)),
                ("signature"@, JsonModel::Text(self.signature)),
            ] + self.extra,
        )
    }

    /// The block that the object `j` carries, if it has the members of one.
    pub open spec fn read(j: JsonModel) -> Option<ThinkingModel> {
        match (j.text_at("thinking"@), j.text_at("signature"@)) {
            (Some(thinking), Some(signature)) => Some(
                ThinkingModel {
                    thinking,
                    signature,
                    extra: j.unknown(seq!["type"@, "thinking"@, "signature"@]),
                },
            ),
            _ => None,
        }
    }
}

impl ContentBlockModel {
    /// The block on the wire.
    pub open spec fn wire(self) -> JsonModel {
        match self {
            ContentBlockModel::Text(t) => t.wire(),
            ContentBlockModel::ToolUse(t) => t.wire(),
            ContentBlockModel::ToolResult(t) => t.wire(),
            ContentBlockModel::Thinking(t) => t.wire(),
        }
    }

    /// The block that `j` carries: its member `type` selects the kind, and
    /// the members of that kind must be there.
    pub open spec fn read(j: JsonModel) -> Option<ContentBlockModel> {
        match j.text_at("type"@) {
            None => None,
            Some(tag) => if tag == "text"@ {
                match TextModel::read(j) {
                    Some(t) => Some(ContentBlockModel::Text(t)),
                    None => None,
                }
            } else if tag == "tool_use"@ {
                match ToolUseModel::read(j) {
                    Some(t) => Some(ContentBlockModel::ToolUse(t)),
                    None => None,
                }
            } else if tag == "tool_result"@ {
                match ToolResultModel::read(j) {
                    Some(t) => Some(ContentBlockModel::ToolResult(t)),
                    None => None,
                }
            } else if tag == "thinking"@ {
                match ThinkingModel::read(j) {
                    Some(t) => Some(ContentBlockModel::Thinking(t)),
                    None => None,
                }
            } else {
                None
            },
        }
    }

    /// The blocks that the elements of `items` carry, if each carries one.
    pub open spec fn read_all(items: Seq<JsonModel>) -> Option<Seq<ContentBlockModel>> {
        read_seq(items, |j: JsonModel| Self::read(j))
    }

    /// The blocks of `blocks` on the wire.
    pub open spec fn wire_all(blocks: Seq<ContentBlockModel>) -> Seq<JsonModel> {
        Seq::new(blocks.len(), |i: int| blocks[i].wire())
    }
}

impl Text {
    pub fn new(text: &str) -> (r: Text)
        ensures
            r@ == TextModel::of(text@),
    {
        Text { text: text.to_owned(), extra: no_members() }
    }

    pub fn text(&self) -> (r: &str)
        ensures
            r@ == self@.text,
    {
        self.text.as_str()
    }

    pub fn extra(&self) -> (r: &Vec<(String, Json)>)
        ensures
            members_model(r@) == self@.extra,
    {
        &self.extra
    }

    pub fn set_text(&mut self, text: &str)
        ensures
            final(self)@ == (TextModel { text: text@, ..old(self)@ }),
    {
        self.text = text.to_owned();
    }

    pub fn set_extra(&mut self, extra: Vec<(String, Json)>)
        ensures
            final(self)@ == (TextModel { extra: members_model(extra@), ..old(self)@ }),
    {
        self.extra = extra;
    }

    pub fn with_text(self, text: &str) -> (r: Text)
        ensures
            r@ == (TextModel { text: text@, ..self@ }),
    {
        let mut b = self;
        b.text = text.to_owned();
        b
    }

    pub fn with_extra(self, extra: Vec<(String, Json)>) -> (r: Text)
        ensures
            r@ == (TextModel { extra: members_model(extra@), ..self@ }),
    {
        let mut b = self;
        b.extra = extra;
        b
    }

    /// The block as a JSON value.
    pub fn to_json(&self) -> (r: Json)
        ensures
            r@ == self@.wire(),
    {
        let mut members = no_members();
        put(&mut members, "type", Json::text("text"));
        put(&mut members, "text", Json::text(self.text.as_str()));
        put_all(&mut members, &self.extra);
        proof {
            assert(members_model(members@) =~= self@.wire()->Object_0);
        }
        Json::object(members)
    }

    /// Reads the members of a text block from `j`.
    pub fn from_json(j: &Json) -> (r: Option<Text>)
        ensures
            model_opt(r) == TextModel::read(j@),
    {
        match j.str_at("text") {
            Some(text) => {
                let known = vec!["type", "text"];
                proof {
                    assert(names(known@) =~= seq!["type"@, "text"@]);
                }
                Some(Text { text: text.to_owned(), extra: j.unknown(&known) })
            },
            None => None,
        }
    }
}

impl Clone for Text {
    fn clone(&self) -> (r: Text)
        ensures
            r@ == self@,
    {
        Text { text: self.text.clone(), extra: clone_members(&self.extra) }
    }
}

impl ToolUse {
    pub fn new(id: &str, name: &str, input: Json) -> (r: ToolUse)
        ensures
            r@ == ToolUseModel::of(id@, name@, input@),
    {
        ToolUse { id: id.to_owned(), name: name.to_owned(), input, extra: no_members() }
    }

    pub fn id(&self) -> (r: &str)
        ensures
            r@ == self@.id,
    {
        self.id.as_str()
    }

    pub fn name(&self) -> (r: &str)
        ensures
            r@ == self@.name,
    {
        self.name.as_str()
    }

    pub fn input(&self) -> (r: &Json)
        ensures
            r@ == self@.input,
    {
        &self.input
    }

    pub fn extra(&self) -> (r: &Vec<(String, Json)>)
        ensures
            members_model(r@) == self@.extra,
    {
        &self.extra
    }

    pub fn set_id(&mut self, id: &str)
        ensures
            final(self)@ == (ToolUseModel { id: id@, ..old(self)@ }),
    {
        self.id = id.to_owned();
    }

    pub fn set_name(&mut self, name: &str)
        ensures
            final(self)@ == (ToolUseModel { name: name@, ..old(self)@ }),
    {
        self.name = name.to_owned();
    }

    pub fn set_input(&mut self, input: Json)
        ensures
            final(self)@ == (ToolUseModel { input: input@, ..old(self)@ }),
    {
        self.input = input;
    }

    pub fn set_extra(&mut self, extra: Vec<(String, Json)>)
        ensures
            final(self)@ == (ToolUseModel { extra: members_model(extra@), ..old(self)@ }),
    {
        self.extra = extra;
    }

    pub fn with_id(self, id: &str) -> (r: ToolUse)
        ensures
            r@ == (ToolUseModel { id: id@, ..self@ }),
    {
        let mut b = self;
        b.id = id.to_owned();
        b
    }

    pub fn with_name(self, name: &str) -> (r: ToolUse)
        ensures
            r@ == (ToolUseModel { name: name@, ..self@ }),
    {
        let mut b = self;
        b.name = name.to_owned();
        b
    }

    pub fn with_input(self, input: Json) -> (r: ToolUse)
        ensures
            r@ == (ToolUseModel { input: input@, ..self@ }),
    {
        let mut b = self;
        b.input = input;
        b
    }

    pub fn with_extra(self, extra: Vec<(String, Json)>) -> (r: ToolUse)
        ensures
            r@ == (ToolUseModel { extra: members_model(extra@), ..self@ }),
    {
        let mut b = self;
        b.extra = extra;
        b
    }

    /// The block as a JSON value.
    pub fn to_json(&self) -> (r: Json)
        ensures
            r@ == self@.wire(),
    {
        let mut members = no_members();
        put(&mut members, "type", Json::text("tool_use"));
        put(&mut members, "id", Json::text(self.id.as_str()));
        put(&mut members, "name", Json::text(self.name.as_str()));
        put(&mut members, "input", self.input.clone());
        put_all(&mut members, &self.extra);
        proof {
            assert(members_model(members@) =~= self@.wire()->Object_0);
        }
        Json::object(members)
    }

    /// Reads the members of a tool-use block from `j`.
    pub fn from_json(j: &Json) -> (r: Option<ToolUse>)
        ensures
            model_opt(r) == ToolUseModel::read(j@),
    {
        match (j.str_at("id"), j.str_at("name"), j.get("input")) {
            (Some(id), Some(name), Some(input)) => {
                let known = vec!["type", "id", "name", "input"];
                proof {
                    assert(names(known@) =~= seq!["type"@, "id"@, "name"@, "input"@]);
                }
                Some(
                    ToolUse {
                        id: id.to_owned(),
                        name: name.to_owned(),
                        input: input.clone(),
                        extra: j.unknown(&known),
                    },
                )
            },
            _ => None,
        }
    }
}

impl Clone for ToolUse {
    fn clone(&self) -> (r: ToolUse)
        ensures
            r@ == self@,
    {
        ToolUse {
            id: self.id.clone(),
            name: self.name.clone(),
            input: self.input.clone(),
            extra: clone_members(&self.extra),
        }
    }
}

impl ToolResult {
    pub fn new(tool_use_id: &str) -> (r: ToolResult)
        ensures
            r@ == ToolResultModel::of(tool_use_id@),
    {
        ToolResult {
            tool_use_id: tool_use_id.to_owned(),
            content: None,
            is_error: None,
            extra: no_members(),
        }
    }

    pub fn tool_use_id(&self) -> (r: &str)
        ensures
            r@ == self@.tool_use_id,
    {
        self.tool_use_id.as_str()
    }

    pub fn content(&self) -> (r: Option<&Json>)
        ensures
            model_ref(r) == self@.content,
    {
        self.content.as_ref()
    }

    pub fn is_error(&self) -> (r: Option<bool>)
        ensures
            r == self@.is_error,
    {
        self.is_error
    }

    pub fn extra(&self) -> (r: &Vec<(String, Json)>)
        ensures
            members_model(r@) == self@.extra,
    {
        &self.extra
    }

    pub fn set_tool_use_id(&mut self, tool_use_id: &str)
        ensures
            final(self)@ == (ToolResultModel { tool_use_id: tool_use_id@, ..old(self)@ }),
    {
        self.tool_use_id = tool_use_id.to_owned();
    }

    pub fn set_content(&mut self, content: Option<Json>)
        ensures
            final(self)@ == (ToolResultModel { content: model_opt(content), ..old(self)@ }),
    {
        self.content = content;
    }

    pub fn set_is_error(&mut self, is_error: Option<bool>)
        ensures
            final(self)@ == (ToolResultModel { is_error, ..old(self)@ }),
    {
        self.is_error = is_error;
    }

    pub fn set_extra(&mut self, extra: Vec<(String, Json)>)
        ensures
            final(self)@ == (ToolResultModel { extra: members_model(extra@), ..old(self)@ }),
    {
        self.extra = extra;
    }

    pub fn with_tool_use_id(self, tool_use_id: &str) -> (r: ToolResult)
        ensures
            r@ == (ToolResultModel { tool_use_id: tool_use_id@, ..self@ }),
    {
        let mut b = self;
        b.tool_use_id = tool_use_id.to_owned();
        b
    }

    pub fn with_content(self, content: Json) -> (r: ToolResult)
        ensures
            r@ == (ToolResultModel { content: Some(content@), ..self@ }),
    {
        let mut b = self;
        b.content = Some(content);
        b
    }

    pub fn with_error(self, is_error: bool) -> (r: ToolResult)
        ensures
            r@ == (ToolResultModel { is_error: Some(is_error), ..self@ }),
    {
        let mut b = self;
        b.is_error = Some(is_error);
        b
    }

    pub fn with_extra(self, extra: Vec<(String, Json)>) -> (r: ToolResult)
        ensures
            r@ == (ToolResultModel { extra: members_model(extra@), ..self@ }),
    {
        let mut b = self;
        b.extra = extra;
        b
    }

    /// The block as a JSON value.
    pub fn to_json(&self) -> (r: Json)
        ensures
            r@ == self@.wire(),
    {
        let mut members = no_members();
        put(&mut members, "type", Json::text("tool_result"));
        put(&mut members, "tool_use_id", Json::text(self.tool_use_id.as_str()));
        put_opt(&mut members, "content", clone_opt_json(&self.content));
        put_opt(
            &mut members,
            "is_error",
            match self.is_error {
                Some(b) => Some(Json::boolean(b)),
                None => None,
            },
        );
        put_all(&mut members, &self.extra);
        proof {
            assert(members_model(members@) =~= self@.wire()->Object_0);
        }
        Json::object(members)
    }

    /// Reads the members of a tool-result block from `j`.
    pub fn from_json(j: &Json) -> (r: Option<ToolResult>)
        ensures
            model_opt(r) == ToolResultModel::read(j@),
    {
        match (j.str_at("tool_use_id"), j.opt_bool_at("is_error")) {
            (Some(id), Some(is_error)) => {
                let content = match j.present("content") {
                    Some(c) => Some(c.clone()),
                    None => None,
                };
                let known = vec!["type", "tool_use_id", "content", "is_error"];
                proof {
                    assert(names(known@) =~= seq![
                        "type"@,
                        "tool_use_id"@,
                        "content"@,
                        "is_error"@,
                    ]);
                }
                Some(
                    ToolResult {
                        tool_use_id: id.to_owned(),
                        content,
                        is_error,
                        extra: j.unknown(&known),
                    },
                )
            },
            _ => None,
        }
    }
}

impl Clone for ToolResult {
    fn clone(&self) -> (r: ToolResult)
        ensures
            r@ == self@,
    {
        ToolResult {
            tool_use_id: self.tool_use_id.clone(),
            content: clone_opt_json(&self.content),
            is_error: self.is_error,
            extra: clone_members(&self.extra),
        }
    }
}

impl Thinking {
    pub fn new(thinking: &str, signature: &str) -> (r: Thinking)
        ensures
            r@ == ThinkingModel::of(thinking@, signature@),
    {
        Thinking {
            thinking: thinking.to_owned(),
            signature: signature.to_owned(),
            extra: no_members(),
        }
    }

    pub fn thinking(&self) -> (r: &str)
        ensures
            r@ == self@.thinking,
    {
        self.thinking.as_str()
    }

    pub fn signature(&self) -> (r: &str)
        ensures
            r@ == self@.signature,
    {
        self.signature.as_str()
    }

    pub fn extra(&self) -> (r: &Vec<(String, Json)>)
        ensures
            members_model(r@) == self@.extra,
    {
        &self.extra
    }

    pub fn set_thinking(&mut self, thinking: &str)
        ensures
            final(self)@ == (ThinkingModel { thinking: thinking@, ..old(self)@ }),
    {
        self.thinking = thinking.to_owned();
    }

    pub fn set_signature(&mut self, signature: &str)
        ensures
            final(self)@ == (ThinkingModel { signature: signature@, ..old(self)@ }),
    {
        self.signature = signature.to_owned();
    }

    pub fn set_extra(&mut self, extra: Vec<(String, Json)>)
        ensures
            final(self)@ == (ThinkingModel { extra: members_model(extra@), ..old(self)@ }),
    {
        self.extra = extra;
    }

    pub fn with_thinking(self, thinking: &str) -> (r: Thinking)
        ensures
            r@ == (ThinkingModel { thinking: thinking@, ..self@ }),
    {
        let mut b = self;
        b.thinking = thinking.to_owned();
        b
    }

    pub fn with_signature(self, signature: &str) -> (r: Thinking)
        ensures
            r@ == (ThinkingModel { signature: signature@, ..self@ }),
    {
        let mut b = self;
        b.signature = signature.to_owned();
        b
    }

    pub fn with_extra(self, extra: Vec<(String, Json)>) -> (r: Thinking)
        ensures
            r@ == (ThinkingModel { extra: members_model(extra@), ..self@ }),
    {
        let mut b = self;
        b.extra = extra;
        b
    }

    /// The block as a JSON value.
    pub fn to_json(&self) -> (r: Json)
        ensures
            r@ == self@.wire(),
    {
        let mut members = no_members();
        put(&mut members, "type", Json::text("thinking"));
        put(&mut members, "thinking", Json::text(self.thinking.as_str()));
        put(&mut members, "signature", Json::text(self.signature.as_str()));
        put_all(&mut members, &self.extra);
        proof {
            assert(members_model(members@) =~= self@.wire()->Object_0);
        }
        Json::object(members)
    }

    /// Reads the members of a thinking block from `j`.
    pub fn from_json(j: &Json) -> (r: Option<Thinking>)
        ensures
            model_opt(r) == ThinkingModel::read(j@),
    {
        match (j.str_at("thinking"), j.str_at("signature")) {
            (Some(thinking), Some(signature)) => {
                let known = vec!["type", "thinking", "signature"];
                proof {
                    assert(names(known@) =~= seq!["type"@, "thinking"@, "signature"@]);
                }
                Some(
                    Thinking {
                        thinking: thinking.to_owned(),
                        signature: signature.to_owned(),
                        extra: j.unknown(&known),
                    },
                )
            },
            _ => None,
        }
    }
}

impl Clone for Thinking {
    fn clone(&self) -> (r: Thinking)
        ensures
            r@ == self@,
    {
        Thinking {
            thinking: self.thinking.clone(),
            signature: self.signature.clone(),
            extra: clone_members(&self.extra),
        }
    }
}

impl ContentBlock {
    pub fn text(text: &str) -> (r: ContentBlock)
        ensures
            r@ == ContentBlockModel::Text(TextModel::of(text@)),
    {
        ContentBlock::Text(Text::new(text))
    }

    pub fn tool_use(id: &str, name: &str, input: Json) -> (r: ContentBlock)
        ensures
            r@ == ContentBlockModel::ToolUse(ToolUseModel::of(id@, name@, input@)),
    {
        ContentBlock::ToolUse(ToolUse::new(id, name, input))
    }

    pub fn tool_result(tool_use_id: &str) -> (r: ContentBlock)
        ensures
            r@ == ContentBlockModel::ToolResult(ToolResultModel::of(tool_use_id@)),
    {
        ContentBlock::ToolResult(ToolResult::new(tool_use_id))
    }

    pub fn thinking(thinking: &str, signature: &str) -> (r: ContentBlock)
        ensures
            r@ == ContentBlockModel::Thinking(ThinkingModel::of(thinking@, signature@)),
    {
        ContentBlock::Thinking(Thinking::new(thinking, signature))
    }

    /// The block as a JSON value.
    pub fn to_json(&self) -> (r: Json)
        ensures
            r@ == self@.wire(),
    {
        match self {
            ContentBlock::Text(t) => t.to_json(),
            ContentBlock::ToolUse(t) => t.to_json(),
            ContentBlock::ToolResult(t) => t.to_json(),
            ContentBlock::Thinking(t) => t.to_json(),
        }
    }

    /// Reads a block from `j`, by its member `type`.
    pub fn from_json(j: &Json) -> (r: Option<ContentBlock>)
        ensures
            model_opt(r) == ContentBlockModel::read(j@),
    {
        match j.str_at("type") {
            None => None,
            Some(tag) => if same(tag, "text") {
                match Text::from_json(j) {
                    Some(t) => Some(ContentBlock::Text(t)),
                    None => None,
                }
            } else if same(tag, "tool_use") {
                match ToolUse::from_json(j) {
                    Some(t) => Some(ContentBlock::ToolUse(t)),
                    None => None,
                }
            } else if same(tag, "tool_result") {
                match ToolResult::from_json(j) {
                    Some(t) => Some(ContentBlock::ToolResult(t)),
                    None => None,
                }
            } else if same(tag, "thinking") {
                match Thinking::from_json(j) {
                    Some(t) => Some(ContentBlock::Thinking(t)),
                    None => None,
                }
            } else {
                None
            },
        }
    }

    /// Reads a block from each element of `items`; `None` where one of them
    /// carries no block.
    pub fn all_from_json(items: &Vec<Json>) -> (r: Option<Vec<ContentBlock>>)
        ensures
            match r {
                Some(blocks) => ContentBlockModel::read_all(models(items@)) == Some(models(blocks@)),
                None => ContentBlockModel::read_all(models(items@)) is None,
            },
    {
        let ghost read = |j: JsonModel| ContentBlockModel::read(j);
        let mut blocks: Vec<ContentBlock> = Vec::new();
        let mut i: usize = 0;
        proof {
            assert(models(items@).take(0) =~= Seq::empty());
            assert(models(blocks@) =~= Seq::empty());
        }
        while i < items.len()
            invariant
                i <= items.len(),
                read == (|j: JsonModel| ContentBlockModel::read(j)),
                read_seq(models(items@).take(i as int), read) == Some(models(blocks@)),
            decreases items.len() - i,
        {
            proof {
                lemma_read_seq_step(models(items@), read, i as int);
            }
            match ContentBlock::from_json(&items[i]) {
                Some(block) => {
                    proof {
                        crate::views::lemma_models_push(blocks@, block);
                    }
                    blocks.push(block);
                },
                None => {
                    proof {
                        lemma_read_seq_prefix(models(items@), read, i + 1);
                    }
                    return None;
                },
            }
            i = i + 1;
        }
        proof {
            assert(models(items@).take(items.len() as int) =~= models(items@));
        }
        Some(blocks)
    }

    /// The blocks of `blocks` as JSON values.
    pub fn all_to_json(blocks: &Vec<ContentBlock>) -> (r: Vec<Json>)
        ensures
            models(r@) == ContentBlockModel::wire_all(models(blocks@)),
    {
        let mut out: Vec<Json> = Vec::new();
        let mut i: usize = 0;
        while i < blocks.len()
            invariant
                i <= blocks.len(),
                out.len() == i,
                forall|k: int| 0 <= k < i ==> out[k]@ == blocks[k]@.wire(),
            decreases blocks.len() - i,
        {
            out.push(blocks[i].to_json());
            i = i + 1;
        }
        proof {
            assert(models(out@) =~= ContentBlockModel::wire_all(models(blocks@)));
        }
        out
    }

    /// A copy of each block of `blocks`.
    pub fn clone_all(blocks: &Vec<ContentBlock>) -> (r: Vec<ContentBlock>)
        ensures
            models(r@) == models(blocks@),
    {
        let mut out: Vec<ContentBlock> = Vec::new();
        let mut i: usize = 0;
        while i < blocks.len()
            invariant
                i <= blocks.len(),
                out.len() == i,
                forall|k: int| 0 <= k < i ==> out[k]@ == blocks[k]@,
            decreases blocks.len() - i,
        {
            out.push(blocks[i].clone());
            i = i + 1;
        }
        proof {
            assert(models(out@) =~= models(blocks@));
        }
        out
    }
}

impl Clone for ContentBlock {
    fn clone(&self) -> (r: ContentBlock)
        ensures
            r@ == self@,
    {
        match self {
            ContentBlock::Text(t) => ContentBlock::Text(t.clone()),
            ContentBlock::ToolUse(t) => ContentBlock::ToolUse(t.clone()),
            ContentBlock::ToolResult(t) => ContentBlock::ToolResult(t.clone()),
            ContentBlock::Thinking(t) => ContentBlock::Thinking(t.clone()),
        }
    }
}

/// Whether no member of `extra` has a name among `known`.
pub open spec fn apart(extra: Seq<(Seq<char>, JsonModel)>, known: Seq<Seq<char>>) -> bool {
    forall|i: int| 0 <= i < extra.len() ==> !known.contains((#[trigger] extra[i]).0)
}

/// The names of the kinds of blocks, and the names of their members, differ
/// from one another.
proof fn lemma_names_differ()
    ensures
        "tool_use"@ != "text"@,
        "tool_result"@ != "text"@,
        "tool_result"@ != "tool_use"@,
        "thinking"@ != "text"@,
        "thinking"@ != "tool_use"@,
        "thinking"@ != "tool_result"@,
        "type"@ != "text"@,
        "type"@ != "id"@,
        "type"@ != "name"@,
        "type"@ != "input"@,
        "id"@ != "name"@,
        "id"@ != "input"@,
        "name"@ != "input"@,
        "type"@ != "tool_use_id"@,
        "type"@ != "content"@,
        "type"@ != "is_error"@,
        "tool_use_id"@ != "content"@,
        "tool_use_id"@ != "is_error"@,
        "content"@ != "is_error"@,
        "type"@ != "thinking"@,
        "type"@ != "signature"@,
        "thinking"@ != "signature"@,
{
    reveal_strlit("text");
    reveal_strlit("tool_use");
    reveal_strlit("tool_result");
    reveal_strlit("thinking");
    reveal_strlit("type");
    reveal_strlit("id");
    reveal_strlit("name");
    reveal_strlit("input");
    reveal_strlit("tool_use_id");
    reveal_strlit("content");
    reveal_strlit("is_error");
    reveal_strlit("signature");
    assert("tool_use"@.len() != "text"@.len());
    assert("tool_result"@.len() != "text"@.len());
    assert("tool_result"@.len() != "tool_use"@.len());
    assert("thinking"@.len() != "text"@.len());
    assert("thinking"@[1] != "tool_use"@[1]);
    assert("thinking"@.len() != "tool_result"@.len());
    assert("type"@[1] != "text"@[1]);
    assert("type"@.len() != "id"@.len());
    assert("type"@[0] != "name"@[0]);
    assert("type"@.len() != "input"@.len());
    assert("id"@.len() != "name"@.len());
    assert("id"@.len() != "input"@.len());
    assert("name"@.len() != "input"@.len());
    assert("type"@.len() != "tool_use_id"@.len());
    assert("type"@.len() != "content"@.len());
    assert("type"@.len() != "is_error"@.len());
    assert("tool_use_id"@.len() != "content"@.len());
    assert("tool_use_id"@.len() != "is_error"@.len());
    assert("content"@.len() != "is_error"@.len());
    assert("type"@.len() != "thinking"@.len());
    assert("type"@.len() != "signature"@.len());
    assert("thinking"@.len() != "signature"@.len());
}

/// A text block that is written is read back as it was, unless one of its
/// other members has the name of one of its own.
pub proof fn lemma_text_reads_back(m: TextModel)
    requires
        apart(m.extra, seq!["type"@, "text"@]),
    ensures
        ContentBlockModel::read(ContentBlockModel::Text(m).wire()) == Some(
            ContentBlockModel::Text(m),
        ),
{
    lemma_names_differ();
    let head = seq![("type"@, JsonModel::Text("text"@)), ("text"@, JsonModel::Text(m.text))];
    let known = seq!["type"@, "text"@];
    let j = m.wire();
    lemma_lookup_append(head, m.extra, "type"@);
    lemma_lookup_append(head, m.extra, "text"@);
    lemma_lookup2(head, "type"@);
    lemma_lookup2(head, "text"@);
    lemma_rest_append(head, m.extra, known);
    assert(known[0] == "type"@ && known[1] == "text"@);
    lemma_rest_drops(head, known);
    lemma_rest_keeps(m.extra, known);
    assert(Seq::<(Seq<char>, JsonModel)>::empty() + m.extra =~= m.extra);
    assert(j.text_at("type"@) == Some("text"@));
    assert(TextModel::read(j) == Some(m));
}

/// A tool-use block that is written is read back as it was, unless one of
/// its other members has the name of one of its own.
pub proof fn lemma_tool_use_reads_back(m: ToolUseModel)
    requires
        apart(m.extra, seq!["type"@, "id"@, "name"@, "input"@]),
    ensures
        ContentBlockModel::read(ContentBlockModel::ToolUse(m).wire()) == Some(
            ContentBlockModel::ToolUse(m),
        ),
{
    lemma_names_differ();
    let head = seq![
        ("type"@, JsonModel::Text("tool_use"@)),
        ("id"@, JsonModel::Text(m.id)),
        ("name"@, JsonModel::Text(m.name)),
        ("input"@, m.input),
    ];
    let known = seq!["type"@, "id"@, "name"@, "input"@];
    let j = m.wire();
    lemma_lookup_append(head, m.extra, "type"@);
    lemma_lookup_append(head, m.extra, "id"@);
    lemma_lookup_append(head, m.extra, "name"@);
    lemma_lookup_append(head, m.extra, "input"@);
    lemma_lookup4(head, "type"@);
    lemma_lookup4(head, "id"@);
    lemma_lookup4(head, "name"@);
    lemma_lookup4(head, "input"@);
    lemma_rest_append(head, m.extra, known);
    assert(known[0] == "type"@ && known[1] == "id"@ && known[2] == "name"@ && known[3]
        == "input"@);
    lemma_rest_drops(head, known);
    lemma_rest_keeps(m.extra, known);
    assert(Seq::<(Seq<char>, JsonModel)>::empty() + m.extra =~= m.extra);
    assert(j.text_at("type"@) == Some("tool_use"@));
    assert(ToolUseModel::read(j) == Some(m));
}

/// A thinking block that is written is read back as it was, unless one of
/// its other members has the name of one of its own.
pub proof fn lemma_thinking_reads_back(m: ThinkingModel)
    requires
        apart(m.extra, seq!["type"@, "thinking"@, "signature"@]),
    ensures
        ContentBlockModel::read(ContentBlockModel::Thinking(m).wire()) == Some(
            ContentBlockModel::Thinking(m),
        ),
{
    lemma_names_differ();
    let head = seq![
        ("type"@, JsonModel::Text("thinking"@)),
        ("thinking"@, JsonModel::Text(m.thinking)),
        ("signature"@, JsonModel::Text(m.signature)),
    ];
    let known = seq!["type"@, "thinking"@, "signature"@];
    let j = m.wire();
    lemma_lookup_append(head, m.extra, "type"@);
    lemma_lookup_append(head, m.extra, "thinking"@);
    lemma_lookup_append(head, m.extra, "signature"@);
    lemma_lookup3(head, "type"@);
    lemma_lookup3(head, "thinking"@);
    lemma_lookup3(head, "signature"@);
    lemma_rest_append(head, m.extra, known);
    assert(known[0] == "type"@ && known[1] == "thinking"@ && known[2] == "signature"@);
    lemma_rest_drops(head, known);
    lemma_rest_keeps(m.extra, known);
    assert(Seq::<(Seq<char>, JsonModel)>::empty() + m.extra =~= m.extra);
    assert(j.text_at("type"@) == Some("thinking"@));
    assert(ThinkingModel::read(j) == Some(m));
}

/// A tool-result block that is written is read back as it was, unless its
/// content is `null`, which reads as no content, or one of its other
/// members has the name of one of its own.
pub proof fn lemma_tool_result_reads_back(m: ToolResultModel)
    requires
        apart(m.extra, seq!["type"@, "tool_use_id"@, "content"@, "is_error"@]),
        m.content != Some(JsonModel::Null),
    ensures
        ContentBlockModel::read(ContentBlockModel::ToolResult(m).wire()) == Some(
            ContentBlockModel::ToolResult(m),
        ),
{
    lemma_names_differ();
    let head = seq![
        ("type"@, JsonModel::Text("tool_result"@)),
        ("tool_use_id"@, JsonModel::Text(m.tool_use_id)),
    ];
    let mark = match m.is_error {
        Some(b) => Some(JsonModel::Bool(b)),
        None => None,
    };
    let content = optional("content"@, m.content);
    let is_error = optional("is_error"@, mark);
    let known = seq!["type"@, "tool_use_id"@, "content"@, "is_error"@];
    let j = m.wire();
    assert(known[0] == "type"@ && known[1] == "tool_use_id"@ && known[2] == "content"@
        && known[3] == "is_error"@);
    assert forall|key: Seq<char>| #[trigger]
        lookup(head + content + is_error + m.extra, key) == (match lookup(head, key) {
            Some(v) => Some(v),
            None => match lookup(content, key) {
                Some(v) => Some(v),
                None => match lookup(is_error, key) {
                    Some(v) => Some(v),
                    None => lookup(m.extra, key),
                },
            },
        }) by {
        lemma_lookup_append(head + content + is_error, m.extra, key);
        lemma_lookup_append(head + content, is_error, key);
        lemma_lookup_append(head, content, key);
    }
    lemma_lookup2(head, "type"@);
    lemma_lookup2(head, "tool_use_id"@);
    lemma_lookup2(head, "content"@);
    lemma_lookup2(head, "is_error"@);
    lemma_lookup_optional("content"@, m.content, "content"@);
    lemma_lookup_optional("content"@, m.content, "is_error"@);
    lemma_lookup_optional("is_error"@, mark, "is_error"@);
    lemma_lookup_optional("is_error"@, mark, "content"@);
    lemma_lookup_absent(m.extra, "content"@);
    lemma_lookup_absent(m.extra, "is_error"@);
    lemma_rest_append(head + content + is_error, m.extra, known);
    lemma_rest_append(head + content, is_error, known);
    lemma_rest_append(head, content, known);
    lemma_rest_drops(head, known);
    lemma_rest_drops(content, known);
    lemma_rest_drops(is_error, known);
    lemma_rest_keeps(m.extra, known);
    assert(Seq::<(Seq<char>, JsonModel)>::empty() + Seq::<(Seq<char>, JsonModel)>::empty()
        + Seq::<(Seq<char>, JsonModel)>::empty() + m.extra =~= m.extra);
    assert(j.text_at("type"@) == Some("tool_result"@));
    assert(j.opt_bool_at("is_error"@) == Some(m.is_error));
    assert(j.present("content"@) == m.content);
    assert(ToolResultModel::read(j) == Some(m));
}

} // verus!
