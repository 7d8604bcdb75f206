//! The messages of the data channel.

use crate::json::{
    clone_members, clone_opt_json, members_model, names, no_members, put, Json, JsonModel,
};
use crate::proto::content_block::{ContentBlock, ContentBlockModel};
use crate::strings::same;
use crate::views::{clone_opt_string, model_opt, model_ref, model_str, models, opt_str, own};
use vstd::prelude::*;

verus! {

/// Why the assistant could not answer.
#[derive(Debug, Clone, Copy, PartialEq, Eq)]
pub enum AssistantError {
    AuthenticationFailed,
    BillingError,
    RateLimit,
    InvalidRequest,
    ServerError,
    Unknown,
}

impl AssistantError {
    /// The name of the error on the wire.
    pub open spec fn name(self) -> Seq<char> {
        match self {
            AssistantError::AuthenticationFailed => "authentication_failed"@,
            AssistantError::BillingError => "billing_error"@,
            AssistantError::RateLimit => "rate_limit"@,
            AssistantError::InvalidRequest => "invalid_request"@,
            AssistantError::ServerError => "server_error"@,
            AssistantError::Unknown => "unknown"@,
        }
    }

    /// The error that `tag` names on the wire.
    pub open spec fn named(tag: Seq<char>) -> Option<AssistantError> {
        if tag == "authentication_failed"@ {
            Some(AssistantError::AuthenticationFailed)
        } else if tag == "billing_error"@ {
            Some(AssistantError::BillingError)
        } else if tag == "rate_limit"@ {
            Some(AssistantError::RateLimit)
        } else if tag == "invalid_request"@ {
            Some(AssistantError::InvalidRequest)
        } else if tag == "server_error"@ {
            Some(AssistantError::ServerError)
        } else if tag == "unknown"@ {
            Some(AssistantError::Unknown)
        } else {
            None
        }
    }

    /// The error in words.
    pub open spec fn text(self) -> Seq<char> {
        match self {
            AssistantError::AuthenticationFailed => "authentication failed"@,
            AssistantError::BillingError => "billing error"@,
            AssistantError::RateLimit => "rate limit exceeded"@,
            AssistantError::InvalidRequest => "invalid request"@,
            AssistantError::ServerError => "server error"@,
            AssistantError::Unknown => "unknown error"@,
        }
    }

    /// The optional error in the member `error` of `j`: `None` where the
    /// member names no known error.
    pub open spec fn read_opt(j: JsonModel) -> Option<Option<AssistantError>> {
        match j.opt_text_at("error"@) {
            Some(None) => Some(None),
            Some(Some(tag)) => match Self::named(tag) {
                Some(e) => Some(Some(e)),
                None => None,
            },
            None => None,
        }
    }

    /// The name of the error on the wire.
    pub fn wire_name(&self) -> (r: &'static str)
        ensures
            r@ == self.name(),
    {
        match self {
            AssistantError::AuthenticationFailed => "authentication_failed",
            AssistantError::BillingError => "billing_error",
            AssistantError::RateLimit => "rate_limit",
            AssistantError::InvalidRequest => "invalid_request",
            AssistantError::ServerError => "server_error",
            AssistantError::Unknown => "unknown",
        }
    }

    /// The error that `tag` names on the wire.
    pub fn from_name(tag: &str) -> (r: Option<AssistantError>)
        ensures
            r == Self::named(tag@),
    {
        if same(tag, "authentication_failed") {
            Some(AssistantError::AuthenticationFailed)
        } else if same(tag, "billing_error") {
            Some(AssistantError::BillingError)
        } else if same(tag, "rate_limit") {
            Some(AssistantError::RateLimit)
        } else if same(tag, "invalid_request") {
            Some(AssistantError::InvalidRequest)
        } else if same(tag, "server_error") {
            Some(AssistantError::ServerError)
        } else if same(tag, "unknown") {
            Some(AssistantError::Unknown)
        } else {
            None
        }
    }

    /// The error in words.
    pub fn message(&self) -> (r: String)
        ensures
            r@ == self.text(),
    {
        match self {
            AssistantError::AuthenticationFailed => "authentication failed".to_owned(),
            AssistantError::BillingError => "billing error".to_owned(),
            AssistantError::RateLimit => "rate limit exceeded".to_owned(),
            AssistantError::InvalidRequest => "invalid request".to_owned(),
            AssistantError::ServerError => "server error".to_owned(),
            AssistantError::Unknown => "unknown error".to_owned(),
        }
    }

    /// Reads the optional member `error` of `j`.
    pub fn from_json_opt(j: &Json) -> (r: Option<Option<AssistantError>>)
        ensures
            r == Self::read_opt(j@),
    {
        match j.opt_str_at("error") {
            Some(None) => Some(None),
            Some(Some(tag)) => match AssistantError::from_name(tag) {
                Some(e) => Some(Some(e)),
                None => None,
            },
            None => None,
        }
    }
}

/// What a user message holds: plain text, or blocks.
#[derive(Debug)]
pub enum UserContent {
    Text(String),
    Blocks(Vec<ContentBlock>),
}

pub enum UserContentModel {
    Text(Seq<char>),
    Blocks(Seq<ContentBlockModel>),
}

impl View for UserContent {
    type V = UserContentModel;

    open spec fn view(&self) -> UserContentModel {
        match self {
            UserContent::Text(s) => UserContentModel::Text(s@),
            UserContent::Blocks(b) => UserContentModel::Blocks(models(b@)),
        }
    }
}

impl UserContentModel {
    /// The content on the wire: a string, or an array of blocks.
    pub open spec fn wire(self) -> JsonModel {
        match self {
            UserContentModel::Text(s) => JsonModel::Text(s),
            UserContentModel::Blocks(b) => JsonModel::Array(ContentBlockModel::wire_all(b)),
        }
    }

    /// The content that `j` carries.
    pub open spec fn read(j: JsonModel) -> Option<UserContentModel> {
        match j {
            JsonModel::Text(s) => Some(UserContentModel::Text(s)),
            JsonModel::Array(items) => match ContentBlockModel::read_all(items) {
                Some(b) => Some(UserContentModel::Blocks(b)),
                None => None,
            },
            _ => None,
        }
    }
}

impl UserContent {
    /// The content as a JSON value.
    pub fn to_json(&self) -> (r: Json)
        ensures
            r@ == self@.wire(),
    {
        match self {
            UserContent::Text(s) => Json::text(s.as_str()),
            UserContent::Blocks(b) => Json::array(ContentBlock::all_to_json(b)),
        }
    }

    /// Reads the content from `j`.
    pub fn from_json(j: &Json) -> (r: Option<UserContent>)
        ensures
            model_opt(r) == UserContentModel::read(j@),
    {
        match j {
            Json::Text(s) => Some(UserContent::Text(s.clone())),
            Json::Array(items) => {
                proof {
                    crate::json::lemma_array_view(*items);
                }
                match ContentBlock::all_from_json(items) {
                    Some(b) => Some(UserContent::Blocks(b)),
                    None => None,
                }
            },
            _ => None,
        }
    }
}

impl Clone for UserContent {
    fn clone(&self) -> (r: UserContent)
        ensures
            r@ == self@,
    {
        match self {
            UserContent::Text(s) => UserContent::Text(s.clone()),
            UserContent::Blocks(b) => UserContent::Blocks(ContentBlock::clone_all(b)),
        }
    }
}

/// The body of a user message.
#[derive(Debug)]
pub struct UserMessageInner {
    pub content: UserContent,
    pub extra: Vec<(String, Json)>,
}

pub struct UserMessageInnerModel {
    pub content: UserContentModel,
    pub extra: Seq<(Seq<char>, JsonModel)>,
}

impl View for UserMessageInner {
    type V = UserMessageInnerModel;

    open spec fn view(&self) -> UserMessageInnerModel {
        UserMessageInnerModel { content: self.content@, extra: members_model(self.extra@) }
    }
}

impl UserMessageInnerModel {
    /// The body that `j` carries: its member `content` must hold content.
    pub open spec fn read(j: JsonModel) -> Option<UserMessageInnerModel> {
        match j.get("content"@) {
            Some(c) => match UserContentModel::read(c) {
                Some(content) => Some(
                    UserMessageInnerModel { content, extra: j.unknown(seq!["content"@]) },
                ),
                None => None,
            },
            None => None,
        }
    }
}

impl UserMessageInner {
    pub fn new(content: UserContent) -> (r: UserMessageInner)
        ensures
            r@ == (UserMessageInnerModel { content: content@, extra: Seq::empty() }),
    {
        UserMessageInner { content, extra: no_members() }
    }

    pub fn content(&self) -> (r: &UserContent)
        ensures
            r@ == self@.content,
    {
        &self.content
    }

    pub fn set_content(&mut self, content: UserContent)
        ensures
            final(self)@ == (UserMessageInnerModel { content: content@, ..old(self)@ }),
    {
        self.content = content;
    }

    pub fn with_content(self, content: UserContent) -> (r: UserMessageInner)
        ensures
            r@ == (UserMessageInnerModel { content: content@, ..self@ }),
    {
        let mut m = self;
        m.content = content;
        m
    }

    pub fn extra(&self) -> (r: &Vec<(String, Json)>)
        ensures
            members_model(r@) == self@.extra,
    {
        &self.extra
    }

    pub fn set_extra(&mut self, extra: Vec<(String, Json)>)
        ensures
            final(self)@ == (UserMessageInnerModel { extra: members_model(extra@), ..old(self)@ }),
    {
        self.extra = extra;
    }

    pub fn with_extra(self, extra: Vec<(String, Json)>) -> (r: UserMessageInner)
        ensures
            r@ == (UserMessageInnerModel { extra: members_model(extra@), ..self@ }),
    {
        let mut m = self;
        m.extra = extra;
        m
    }

    /// Reads the body of a user message from `j`.
    pub fn from_json(j: &Json) -> (r: Option<UserMessageInner>)
        ensures
            model_opt(r) == UserMessageInnerModel::read(j@),
    {
        match j.get("content") {
            Some(c) => match UserContent::from_json(c) {
                Some(content) => {
                    let known = vec!["content"];
                    proof {
                        assert(names(known@) =~= seq!["content"@]);
                    }
                    Some(UserMessageInner { content, extra: j.unknown(&known) })
                },
                None => None,
            },
            None => None,
        }
    }
}

impl Clone for UserMessageInner {
    fn clone(&self) -> (r: UserMessageInner)
        ensures
            r@ == self@,
    {
        UserMessageInner { content: self.content.clone(), extra: clone_members(&self.extra) }
    }
}

/// A user message as the child echoes it.
#[derive(Debug)]
pub struct UserEnvelope {
    pub message: UserMessageInner,
}

pub struct UserEnvelopeModel {
    pub message: UserMessageInnerModel,
}

impl View for UserEnvelope {
    type V = UserEnvelopeModel;

    open spec fn view(&self) -> UserEnvelopeModel {
        UserEnvelopeModel { message: self.message@ }
    }
}

impl UserEnvelopeModel {
    /// The envelope that `j` carries: its member `message` must hold a body.
    pub open spec fn read(j: JsonModel) -> Option<UserEnvelopeModel> {
        match j.get("message"@) {
            Some(m) => match UserMessageInnerModel::read(m) {
                Some(message) => Some(UserEnvelopeModel { message }),
                None => None,
            },
            None => None,
        }
    }
}

impl UserEnvelope {
    pub fn new(message: UserMessageInner) -> (r: UserEnvelope)
        ensures
            r@ == (UserEnvelopeModel { message: message@ }),
    {
        UserEnvelope { message }
    }

    pub fn message(&self) -> (r: &UserMessageInner)
        ensures
            r@ == self@.message,
    {
        &self.message
    }

    pub fn set_message(&mut self, message: UserMessageInner)
        ensures
            final(self)@ == (UserEnvelopeModel { message: message@ }),
    {
        self.message = message;
    }

    pub fn with_message(self, message: UserMessageInner) -> (r: UserEnvelope)
        ensures
            r@ == (UserEnvelopeModel { message: message@ }),
    {
        UserEnvelope { message }
    }

    /// Reads a user message from `j`.
    pub fn from_json(j: &Json) -> (r: Option<UserEnvelope>)
        ensures
            model_opt(r) == UserEnvelopeModel::read(j@),
    {
        match j.get("message") {
            Some(m) => match UserMessageInner::from_json(m) {
                Some(message) => Some(UserEnvelope { message }),
                None => None,
            },
            None => None,
        }
    }
}

impl Clone for UserEnvelope {
    fn clone(&self) -> (r: UserEnvelope)
        ensures
            r@ == self@,
    {
        UserEnvelope { message: self.message.clone() }
    }
}

/// The body of an assistant message.
#[derive(Debug)]
pub struct AssistantMessageInner {
    pub content: Vec<ContentBlock>,
    pub model: String,
    pub error: Option<AssistantError>,
    pub extra: Vec<(String, Json)>,
}

pub struct AssistantMessageInnerModel {
    pub content: Seq<ContentBlockModel>,
    pub model: Seq<char>,
    pub error: Option<AssistantError>,
    pub extra: Seq<(Seq<char>, JsonModel)>,
}

impl View for AssistantMessageInner {
    type V = AssistantMessageInnerModel;

    open spec fn view(&self) -> AssistantMessageInnerModel {
        AssistantMessageInnerModel {
            content: models(self.content@),
            model: self.model@,
            error: self.error,
            extra: members_model(self.extra@),
        }
    }
}

impl AssistantMessageInnerModel {
    /// The blocks in the member `content` of `j`, which must be an array of
    /// blocks.
    pub open spec fn read_content(j: JsonModel) -> Option<Seq<ContentBlockModel>> {
        match j.get("content"@) {
            Some(JsonModel::Array(items)) => ContentBlockModel::read_all(items),
            _ => None,
        }
    }

    /// The body that `j` carries.
    pub open spec fn read(j: JsonModel) -> Option<AssistantMessageInnerModel> {
        if Self::read_content(j) is Some && j.text_at("model"@) is Some
            && AssistantError::read_opt(j) is Some {
            Some(
                AssistantMessageInnerModel {
                    content: Self::read_content(j).unwrap(),
                    model: j.text_at("model"@).unwrap(),
                    error: AssistantError::read_opt(j).unwrap(),
                    extra: j.unknown(seq!["content"@, "model"@, "error"@]),
                },
            )
        } else {
            None
        }
    }
}

impl AssistantMessageInner {
    pub fn new(content: Vec<ContentBlock>, model: &str) -> (r: AssistantMessageInner)
        ensures
            r@ == (AssistantMessageInnerModel {
                content: models(content@),
                model: model@,
                error: None,
                extra: Seq::empty(),
            }),
    {
        AssistantMessageInner { content, model: model.to_owned(), error: None, extra: no_members() }
    }

    pub fn content(&self) -> (r: &Vec<ContentBlock>)
        ensures
            models(r@) == self@.content,
    {
        &self.content
    }

    pub fn model(&self) -> (r: &str)
        ensures
            r@ == self@.model,
    {
        self.model.as_str()
    }

    pub fn error(&self) -> (r: Option<AssistantError>)
        ensures
            r == self@.error,
    {
        self.error
    }

    pub fn set_content(&mut self, content: Vec<ContentBlock>)
        ensures
            final(self)@ == (AssistantMessageInnerModel { content: models(content@), ..old(self)@ }),
    {
        self.content = content;
    }

    pub fn set_model(&mut self, model: &str)
        ensures
            final(self)@ == (AssistantMessageInnerModel { model: model@, ..old(self)@ }),
    {
        self.model = model.to_owned();
    }

    pub fn set_error(&mut self, error: Option<AssistantError>)
        ensures
            final(self)@ == (AssistantMessageInnerModel { error, ..old(self)@ }),
    {
        self.error = error;
    }

    pub fn with_content(self, content: Vec<ContentBlock>) -> (r: AssistantMessageInner)
        ensures
            r@ == (AssistantMessageInnerModel { content: models(content@), ..self@ }),
    {
        let mut m = self;
        m.content = content;
        m
    }

    pub fn with_model(self, model: &str) -> (r: AssistantMessageInner)
        ensures
            r@ == (AssistantMessageInnerModel { model: model@, ..self@ }),
    {
        let mut m = self;
        m.model = model.to_owned();
        m
    }

    pub fn with_error(self, error: AssistantError) -> (r: AssistantMessageInner)
        ensures
            r@ == (AssistantMessageInnerModel { error: Some(error), ..self@ }),
    {
        let mut m = self;
        m.error = Some(error);
        m
    }

    pub fn extra(&self) -> (r: &Vec<(String, Json)>)
        ensures
            members_model(r@) == self@.extra,
    {
        &self.extra
    }

    pub fn set_extra(&mut self, extra: Vec<(String, Json)>)
        ensures
            final(self)@ == (AssistantMessageInnerModel { extra: members_model(extra@), ..old(self)@ }),
    {
        self.extra = extra;
    }

    pub fn with_extra(self, extra: Vec<(String, Json)>) -> (r: AssistantMessageInner)
        ensures
            r@ == (AssistantMessageInnerModel { extra: members_model(extra@), ..self@ }),
    {
        let mut m = self;
        m.extra = extra;
        m
    }

    /// Reads the body of an assistant message from `j`.
    pub fn from_json(j: &Json) -> (r: Option<AssistantMessageInner>)
        ensures
            model_opt(r) == AssistantMessageInnerModel::read(j@),
    {
        let content = match j.get("content") {
            Some(Json::Array(items)) => {
                proof {
                    crate::json::lemma_array_view(*items);
                }
                match ContentBlock::all_from_json(items) {
                    Some(b) => b,
                    None => {
                        return None;
                    },
                }
            },
            _ => {
                return None;
            },
        };
        let model = match j.str_at("model") {
            Some(m) => m,
            None => {
                return None;
            },
        };
        let error = match AssistantError::from_json_opt(j) {
            Some(e) => e,
            None => {
                return None;
            },
        };
        let known = vec!["content", "model", "error"];
        proof {
            assert(names(known@) =~= seq!["content"@, "model"@, "error"@]);
        }
        Some(AssistantMessageInner { content, model: model.to_owned(), error, extra: j.unknown(&known) })
    }
}

impl Clone for AssistantMessageInner {
    fn clone(&self) -> (r: AssistantMessageInner)
        ensures
            r@ == self@,
    {
        AssistantMessageInner {
            content: ContentBlock::clone_all(&self.content),
            model: self.model.clone(),
            error: self.error,
            extra: clone_members(&self.extra),
        }
    }
}

/// An assistant message.
#[derive(Debug)]
pub struct AssistantEnvelope {
    pub message: AssistantMessageInner,
}

pub struct AssistantEnvelopeModel {
    pub message: AssistantMessageInnerModel,
}

impl View for AssistantEnvelope {
    type V = AssistantEnvelopeModel;

    open spec fn view(&self) -> AssistantEnvelopeModel {
        AssistantEnvelopeModel { message: self.message@ }
    }
}

impl AssistantEnvelopeModel {
    /// The envelope that `j` carries: its member `message` must hold a body.
    pub open spec fn read(j: JsonModel) -> Option<AssistantEnvelopeModel> {
        match j.get("message"@) {
            Some(m) => match AssistantMessageInnerModel::read(m) {
                Some(message) => Some(AssistantEnvelopeModel { message }),
                None => None,
            },
            None => None,
        }
    }
}

impl AssistantEnvelope {
    pub fn new(message: AssistantMessageInner) -> (r: AssistantEnvelope)
        ensures
            r@ == (AssistantEnvelopeModel { message: message@ }),
    {
        AssistantEnvelope { message }
    }

    pub fn message(&self) -> (r: &AssistantMessageInner)
        ensures
            r@ == self@.message,
    {
        &self.message
    }

    pub fn set_message(&mut self, message: AssistantMessageInner)
        ensures
            final(self)@ == (AssistantEnvelopeModel { message: message@ }),
    {
        self.message = message;
    }

    pub fn with_message(self, message: AssistantMessageInner) -> (r: AssistantEnvelope)
        ensures
            r@ == (AssistantEnvelopeModel { message: message@ }),
    {
        AssistantEnvelope { message }
    }

    /// Reads an assistant message from `j`.
    pub fn from_json(j: &Json) -> (r: Option<AssistantEnvelope>)
        ensures
            model_opt(r) == AssistantEnvelopeModel::read(j@),
    {
        match j.get("message") {
            Some(m) => match AssistantMessageInner::from_json(m) {
                Some(message) => Some(AssistantEnvelope { message }),
                None => None,
            },
            None => None,
        }
    }
}

impl Clone for AssistantEnvelope {
    fn clone(&self) -> (r: AssistantEnvelope)
        ensures
            r@ == self@,
    {
        AssistantEnvelope { message: self.message.clone() }
    }
}

/// The message that opens a session.
#[derive(Debug)]
pub struct InitMessage {
    pub session_id: Option<String>,
    pub model: Option<String>,
    pub cwd: Option<String>,
    pub extra: Vec<(String, Json)>,
}

pub struct InitMessageModel {
    pub session_id: Option<Seq<char>>,
    pub model: Option<Seq<char>>,
    pub cwd: Option<Seq<char>>,
    pub extra: Seq<(Seq<char>, JsonModel)>,
}

impl View for InitMessage {
    type V = InitMessageModel;

    open spec fn view(&self) -> InitMessageModel {
        InitMessageModel {
            session_id: model_opt(self.session_id),
            model: model_opt(self.model),
            cwd: model_opt(self.cwd),
            extra: members_model(self.extra@),
        }
    }
}

impl InitMessageModel {
    /// The message without any member.
    pub open spec fn empty() -> InitMessageModel {
        InitMessageModel { session_id: None, model: None, cwd: None, extra: Seq::empty() }
    }

    /// The message that `j` carries: each of its three members is a string
    /// or absent.
    pub open spec fn read(j: JsonModel) -> Option<InitMessageModel> {
        if j.opt_text_at("session_id"@) is Some && j.opt_text_at("model"@) is Some
            && j.opt_text_at("cwd"@) is Some {
            Some(
                InitMessageModel {
                    session_id: j.opt_text_at("session_id"@).unwrap(),
                    model: j.opt_text_at("model"@).unwrap(),
                    cwd: j.opt_text_at("cwd"@).unwrap(),
                    extra: j.unknown(
                        seq!["type"@, "subtype"@, "session_id"@, "model"@, "cwd"@],
                    ),
                },
            )
        } else {
            None
        }
    }
}

impl InitMessage {
    pub fn new() -> (r: InitMessage)
        ensures
            r@ == InitMessageModel::empty(),
    {
        InitMessage { session_id: None, model: None, cwd: None, extra: no_members() }
    }

    pub fn session_id(&self) -> (r: Option<&str>)
        ensures
            model_str(r) == self@.session_id,
    {
        opt_str(&self.session_id)
    }

    pub fn model(&self) -> (r: Option<&str>)
        ensures
            model_str(r) == self@.model,
    {
        opt_str(&self.model)
    }

    pub fn cwd(&self) -> (r: Option<&str>)
        ensures
            model_str(r) == self@.cwd,
    {
        opt_str(&self.cwd)
    }

    pub fn set_session_id(&mut self, session_id: Option<String>)
        ensures
            final(self)@ == (InitMessageModel { session_id: model_opt(session_id), ..old(self)@ }),
    {
        self.session_id = session_id;
    }

    pub fn set_model(&mut self, model: Option<String>)
        ensures
            final(self)@ == (InitMessageModel { model: model_opt(model), ..old(self)@ }),
    {
        self.model = model;
    }

    pub fn set_cwd(&mut self, cwd: Option<String>)
        ensures
            final(self)@ == (InitMessageModel { cwd: model_opt(cwd), ..old(self)@ }),
    {
        self.cwd = cwd;
    }

    pub fn with_session_id(self, session_id: &str) -> (r: InitMessage)
        ensures
            r@ == (InitMessageModel { session_id: Some(session_id@), ..self@ }),
    {
        let mut m = self;
        m.session_id = Some(session_id.to_owned());
        m
    }

    pub fn with_model(self, model: &str) -> (r: InitMessage)
        ensures
            r@ == (InitMessageModel { model: Some(model@), ..self@ }),
    {
        let mut m = self;
        m.model = Some(model.to_owned());
        m
    }

    pub fn with_cwd(self, cwd: &str) -> (r: InitMessage)
        ensures
            r@ == (InitMessageModel { cwd: Some(cwd@), ..self@ }),
    {
        let mut m = self;
        m.cwd = Some(cwd.to_owned());
        m
    }

    pub fn extra(&self) -> (r: &Vec<(String, Json)>)
        ensures
            members_model(r@) == self@.extra,
    {
        &self.extra
    }

    pub fn set_extra(&mut self, extra: Vec<(String, Json)>)
        ensures
            final(self)@ == (InitMessageModel { extra: members_model(extra@), ..old(self)@ }),
    {
        self.extra = extra;
    }

    pub fn with_extra(self, extra: Vec<(String, Json)>) -> (r: InitMessage)
        ensures
            r@ == (InitMessageModel { extra: members_model(extra@), ..self@ }),
    {
        let mut m = self;
        m.extra = extra;
        m
    }

    /// Reads an init message from `j`.
    pub fn from_json(j: &Json) -> (r: Option<InitMessage>)
        ensures
            model_opt(r) == InitMessageModel::read(j@),
    {
        match (j.opt_str_at("session_id"), j.opt_str_at("model"), j.opt_str_at("cwd")) {
            (Some(session_id), Some(model), Some(cwd)) => {
                let known = vec!["type", "subtype", "session_id", "model", "cwd"];
                proof {
                    assert(names(known@) =~= seq![
                        "type"@,
                        "subtype"@,
                        "session_id"@,
                        "model"@,
                        "cwd"@,
                    ]);
                }
                Some(
                    InitMessage {
                        session_id: own(session_id),
                        model: own(model),
                        cwd: own(cwd),
                        extra: j.unknown(&known),
                    },
                )
            },
            _ => None,
        }
    }
}

impl Default for InitMessage {
    fn default() -> (r: InitMessage)
        ensures
            r@ == InitMessageModel::empty(),
    {
        InitMessage::new()
    }
}

impl Clone for InitMessage {
    fn clone(&self) -> (r: InitMessage)
        ensures
            r@ == self@,
    {
        InitMessage {
            session_id: clone_opt_string(&self.session_id),
            model: clone_opt_string(&self.model),
            cwd: clone_opt_string(&self.cwd),
            extra: clone_members(&self.extra),
        }
    }
}

/// An error that the child reports on the data channel.
#[derive(Debug)]
pub struct ErrorMessage {
    pub error: String,
    pub extra: Vec<(String, Json)>,
}

pub struct ErrorMessageModel {
    pub error: Seq<char>,
    pub extra: Seq<(Seq<char>, JsonModel)>,
}

impl View for ErrorMessage {
    type V = ErrorMessageModel;

    open spec fn view(&self) -> ErrorMessageModel {
        ErrorMessageModel { error: self.error@, extra: members_model(self.extra@) }
    }
}

impl ErrorMessageModel {
    /// The message that `j` carries: its member `error` must be a string.
    pub open spec fn read(j: JsonModel) -> Option<ErrorMessageModel> {
        match j.text_at("error"@) {
            Some(error) => Some(
                ErrorMessageModel { error, extra: j.unknown(seq!["type"@, "subtype"@, "error"@]) },
            ),
            None => None,
        }
    }
}

impl ErrorMessage {
    pub fn new(error: &str) -> (r: ErrorMessage)
        ensures
            r@ == (ErrorMessageModel { error: error@, extra: Seq::empty() }),
    {
        ErrorMessage { error: error.to_owned(), extra: no_members() }
    }

    pub fn error(&self) -> (r: &str)
        ensures
            r@ == self@.error,
    {
        self.error.as_str()
    }

    pub fn set_error(&mut self, error: &str)
        ensures
            final(self)@ == (ErrorMessageModel { error: error@, ..old(self)@ }),
    {
        self.error = error.to_owned();
    }

    pub fn with_error(self, error: &str) -> (r: ErrorMessage)
        ensures
            r@ == (ErrorMessageModel { error: error@, ..self@ }),
    {
        let mut m = self;
        m.error = error.to_owned();
        m
    }

    pub fn extra(&self) -> (r: &Vec<(String, Json)>)
        ensures
            members_model(r@) == self@.extra,
    {
        &self.extra
    }

    pub fn set_extra(&mut self, extra: Vec<(String, Json)>)
        ensures
            final(self)@ == (ErrorMessageModel { extra: members_model(extra@), ..old(self)@ }),
    {
        self.extra = extra;
    }

    pub fn with_extra(self, extra: Vec<(String, Json)>) -> (r: ErrorMessage)
        ensures
            r@ == (ErrorMessageModel { extra: members_model(extra@), ..self@ }),
    {
        let mut m = self;
        m.extra = extra;
        m
    }

    /// Reads an error message from `j`.
    pub fn from_json(j: &Json) -> (r: Option<ErrorMessage>)
        ensures
            model_opt(r) == ErrorMessageModel::read(j@),
    {
        match j.str_at("error") {
            Some(error) => {
                let known = vec!["type", "subtype", "error"];
                proof {
                    assert(names(known@) =~= seq!["type"@, "subtype"@, "error"@]);
                }
                Some(ErrorMessage { error: error.to_owned(), extra: j.unknown(&known) })
            },
            None => None,
        }
    }
}

impl Clone for ErrorMessage {
    fn clone(&self) -> (r: ErrorMessage)
        ensures
            r@ == self@,
    {
        ErrorMessage { error: self.error.clone(), extra: clone_members(&self.extra) }
    }
}

/// A system message: the start of the session, or an error.
#[derive(Debug)]
pub enum SystemMessage {
    Init(InitMessage),
    Error(ErrorMessage),
}

pub enum SystemMessageModel {
    Init(InitMessageModel),
    Error(ErrorMessageModel),
}

impl View for SystemMessage {
    type V = SystemMessageModel;

    open spec fn view(&self) -> SystemMessageModel {
        match self {
            SystemMessage::Init(m) => SystemMessageModel::Init(m@),
            SystemMessage::Error(m) => SystemMessageModel::Error(m@),
        }
    }
}

impl SystemMessageModel {
    /// The message that `j` carries: its member `subtype` selects the kind.
    pub open spec fn read(j: JsonModel) -> Option<SystemMessageModel> {
        match j.text_at("subtype"@) {
            None => None,
            Some(tag) => if tag == "init"@ {
                match InitMessageModel::read(j) {
                    Some(m) => Some(SystemMessageModel::Init(m)),
                    None => None,
                }
            } else if tag == "error"@ {
                match ErrorMessageModel::read(j) {
                    Some(m) => Some(SystemMessageModel::Error(m)),
                    None => None,
                }
            } else {
                None
            },
        }
    }
}

impl SystemMessage {
    /// Reads a system message from `j`, by its member `subtype`.
    pub fn from_json(j: &Json) -> (r: Option<SystemMessage>)
        ensures
            model_opt(r) == SystemMessageModel::read(j@),
    {
        match j.str_at("subtype") {
            None => None,
            Some(tag) => if same(tag, "init") {
                match InitMessage::from_json(j) {
                    Some(m) => Some(SystemMessage::Init(m)),
                    None => None,
                }
            } else if same(tag, "error") {
                match ErrorMessage::from_json(j) {
                    Some(m) => Some(SystemMessage::Error(m)),
                    None => None,
                }
            } else {
                None
            },
        }
    }
}

impl Clone for SystemMessage {
    fn clone(&self) -> (r: SystemMessage)
        ensures
            r@ == self@,
    {
        match self {
            SystemMessage::Init(m) => SystemMessage::Init(m.clone()),
            SystemMessage::Error(m) => SystemMessage::Error(m.clone()),
        }
    }
}

/// Token counts of a run.
#[derive(Debug)]
pub struct Usage {
    pub input_tokens: Option<i64>,
    pub output_tokens: Option<i64>,
    pub total_tokens: Option<i64>,
    pub cache_creation_input_tokens: Option<i64>,
    pub cache_read_input_tokens: Option<i64>,
    pub extra: Vec<(String, Json)>,
}

pub struct UsageModel {
    pub input_tokens: Option<i64>,
    pub output_tokens: Option<i64>,
    pub total_tokens: Option<i64>,
    pub cache_creation_input_tokens: Option<i64>,
    pub cache_read_input_tokens: Option<i64>,
    pub extra: Seq<(Seq<char>, JsonModel)>,
}

impl View for Usage {
    type V = UsageModel;

    open spec fn view(&self) -> UsageModel {
        UsageModel {
            input_tokens: self.input_tokens,
            output_tokens: self.output_tokens,
            total_tokens: self.total_tokens,
            cache_creation_input_tokens: self.cache_creation_input_tokens,
            cache_read_input_tokens: self.cache_read_input_tokens,
            extra: members_model(self.extra@),
        }
    }
}

/// The count, or `default` where there is none.
pub open spec fn count_or(count: Option<i64>, default: i64) -> i64 {
    match count {
        Some(n) => n,
        None => default,
    }
}

impl UsageModel {
    /// The counts without any count.
    pub open spec fn empty() -> UsageModel {
        UsageModel {
            input_tokens: None,
            output_tokens: None,
            total_tokens: None,
            cache_creation_input_tokens: None,
            cache_read_input_tokens: None,
            extra: Seq::empty(),
        }
    }

    /// The names of the counts.
    pub open spec fn known() -> Seq<Seq<char>> {
        seq![
            "input_tokens"@,
            "output_tokens"@,
            "total_tokens"@,
            "cache_creation_input_tokens"@,
            "cache_read_input_tokens"@,
        ]
    }

    /// The counts that the object `j` carries: each member is an integer or
    /// absent.
    pub open spec fn read(j: JsonModel) -> Option<UsageModel> {
        if j is Object && j.opt_int_at("input_tokens"@) is Some && j.opt_int_at("output_tokens"@) is Some
            && j.opt_int_at("total_tokens"@) is Some && j.opt_int_at(
            "cache_creation_input_tokens"@,
        ) is Some && j.opt_int_at("cache_read_input_tokens"@) is Some {
            Some(
                UsageModel {
                    input_tokens: j.opt_int_at("input_tokens"@).unwrap(),
                    output_tokens: j.opt_int_at("output_tokens"@).unwrap(),
                    total_tokens: j.opt_int_at("total_tokens"@).unwrap(),
                    cache_creation_input_tokens: j.opt_int_at(
                        "cache_creation_input_tokens"@,
                    ).unwrap(),
                    cache_read_input_tokens: j.opt_int_at("cache_read_input_tokens"@).unwrap(),
                    extra: j.unknown(Self::known()),
                },
            )
        } else {
            None
        }
    }

    /// The optional counts in the member `usage` of `j`.
    pub open spec fn read_opt(j: JsonModel) -> Option<Option<UsageModel>> {
        match j.present("usage"@) {
            None => Some(None),
            Some(u) => match Self::read(u) {
                Some(usage) => Some(Some(usage)),
                None => None,
            },
        }
    }
}

impl Usage {
    pub fn new() -> (r: Usage)
        ensures
            r@ == UsageModel::empty(),
    {
        Usage {
            input_tokens: None,
            output_tokens: None,
            total_tokens: None,
            cache_creation_input_tokens: None,
            cache_read_input_tokens: None,
            extra: no_members(),
        }
    }

    pub fn input_tokens(&self) -> (r: Option<i64>)
        ensures
            r == self@.input_tokens,
    {
        self.input_tokens
    }

    pub fn output_tokens(&self) -> (r: Option<i64>)
        ensures
            r == self@.output_tokens,
    {
        self.output_tokens
    }

    pub fn total_tokens(&self) -> (r: Option<i64>)
        ensures
            r == self@.total_tokens,
    {
        self.total_tokens
    }

    pub fn cache_creation_input_tokens(&self) -> (r: Option<i64>)
        ensures
            r == self@.cache_creation_input_tokens,
    {
        self.cache_creation_input_tokens
    }

    pub fn cache_read_input_tokens(&self) -> (r: Option<i64>)
        ensures
            r == self@.cache_read_input_tokens,
    {
        self.cache_read_input_tokens
    }

    /// The input count, or `default` where there is none.
    pub fn input_tokens_or(&self, default: i64) -> (r: i64)
        ensures
            r == count_or(self@.input_tokens, default),
    {
        match self.input_tokens {
            Some(n) => n,
            None => default,
        }
    }

    /// The output count, or `default` where there is none.
    pub fn output_tokens_or(&self, default: i64) -> (r: i64)
        ensures
            r == count_or(self@.output_tokens, default),
    {
        match self.output_tokens {
            Some(n) => n,
            None => default,
        }
    }

    /// The total count, or `default` where there is none.
    pub fn total_tokens_or(&self, default: i64) -> (r: i64)
        ensures
            r == count_or(self@.total_tokens, default),
    {
        match self.total_tokens {
            Some(n) => n,
            None => default,
        }
    }

    pub fn set_input_tokens(&mut self, input_tokens: Option<i64>)
        ensures
            final(self)@ == (UsageModel { input_tokens, ..old(self)@ }),
    {
        self.input_tokens = input_tokens;
    }

    pub fn set_output_tokens(&mut self, output_tokens: Option<i64>)
        ensures
            final(self)@ == (UsageModel { output_tokens, ..old(self)@ }),
    {
        self.output_tokens = output_tokens;
    }

    pub fn set_total_tokens(&mut self, total_tokens: Option<i64>)
        ensures
            final(self)@ == (UsageModel { total_tokens, ..old(self)@ }),
    {
        self.total_tokens = total_tokens;
    }

    pub fn set_cache_creation_input_tokens(&mut self, tokens: Option<i64>)
        ensures
            final(self)@ == (UsageModel { cache_creation_input_tokens: tokens, ..old(self)@ }),
    {
        self.cache_creation_input_tokens = tokens;
    }

    pub fn set_cache_read_input_tokens(&mut self, tokens: Option<i64>)
        ensures
            final(self)@ == (UsageModel { cache_read_input_tokens: tokens, ..old(self)@ }),
    {
        self.cache_read_input_tokens = tokens;
    }

    pub fn with_input_tokens(self, input_tokens: i64) -> (r: Usage)
        ensures
            r@ == (UsageModel { input_tokens: Some(input_tokens), ..self@ }),
    {
        let mut u = self;
        u.input_tokens = Some(input_tokens);
        u
    }

    pub fn with_output_tokens(self, output_tokens: i64) -> (r: Usage)
        ensures
            r@ == (UsageModel { output_tokens: Some(output_tokens), ..self@ }),
    {
        let mut u = self;
        u.output_tokens = Some(output_tokens);
        u
    }

    pub fn with_total_tokens(self, total_tokens: i64) -> (r: Usage)
        ensures
            r@ == (UsageModel { total_tokens: Some(total_tokens), ..self@ }),
    {
        let mut u = self;
        u.total_tokens = Some(total_tokens);
        u
    }

    pub fn with_cache_creation_input_tokens(self, tokens: i64) -> (r: Usage)
        ensures
            r@ == (UsageModel { cache_creation_input_tokens: Some(tokens), ..self@ }),
    {
        let mut u = self;
        u.cache_creation_input_tokens = Some(tokens);
        u
    }

    pub fn with_cache_read_input_tokens(self, tokens: i64) -> (r: Usage)
        ensures
            r@ == (UsageModel { cache_read_input_tokens: Some(tokens), ..self@ }),
    {
        let mut u = self;
        u.cache_read_input_tokens = Some(tokens);
        u
    }

    pub fn extra(&self) -> (r: &Vec<(String, Json)>)
        ensures
            members_model(r@) == self@.extra,
    {
        &self.extra
    }

    pub fn set_extra(&mut self, extra: Vec<(String, Json)>)
        ensures
            final(self)@ == (UsageModel { extra: members_model(extra@), ..old(self)@ }),
    {
        self.extra = extra;
    }

    pub fn with_extra(self, extra: Vec<(String, Json)>) -> (r: Usage)
        ensures
            r@ == (UsageModel { extra: members_model(extra@), ..self@ }),
    {
        let mut u = self;
        u.extra = extra;
        u
    }

    /// Reads the counts from the object `j`.
    pub fn from_json(j: &Json) -> (r: Option<Usage>)
        ensures
            model_opt(r) == UsageModel::read(j@),
    {
        match j {
            Json::Object(_) => {},
            _ => {
                return None;
            },
        }
        match (
            j.opt_i64_at("input_tokens"),
            j.opt_i64_at("output_tokens"),
            j.opt_i64_at("total_tokens"),
            j.opt_i64_at("cache_creation_input_tokens"),
            j.opt_i64_at("cache_read_input_tokens"),
        ) {
            (Some(a), Some(b), Some(c), Some(d), Some(e)) => {
                let known = vec![
                    "input_tokens",
                    "output_tokens",
                    "total_tokens",
                    "cache_creation_input_tokens",
                    "cache_read_input_tokens",
                ];
                proof {
                    assert(names(known@) =~= UsageModel::known());
                }
                Some(
                    Usage {
                        input_tokens: a,
                        output_tokens: b,
                        total_tokens: c,
                        cache_creation_input_tokens: d,
                        cache_read_input_tokens: e,
                        extra: j.unknown(&known),
                    },
                )
            },
            _ => None,
        }
    }

    /// Reads the optional member `usage` of `j`.
    pub fn from_json_opt(j: &Json) -> (r: Option<Option<Usage>>)
        ensures
            match r {
                Some(u) => UsageModel::read_opt(j@) == Some(model_opt(u)),
                None => UsageModel::read_opt(j@) is None,
            },
    {
        match j.present("usage") {
            None => Some(None),
            Some(u) => match Usage::from_json(u) {
                Some(usage) => Some(Some(usage)),
                None => None,
            },
        }
    }
}

impl Default for Usage {
    fn default() -> (r: Usage)
        ensures
            r@ == UsageModel::empty(),
    {
        Usage::new()
    }
}

impl Clone for Usage {
    fn clone(&self) -> (r: Usage)
        ensures
            r@ == self@,
    {
        Usage {
            input_tokens: self.input_tokens,
            output_tokens: self.output_tokens,
            total_tokens: self.total_tokens,
            cache_creation_input_tokens: self.cache_creation_input_tokens,
            cache_read_input_tokens: self.cache_read_input_tokens,
            extra: clone_members(&self.extra),
        }
    }
}

/// The message that ends a run.
///
/// The cost is kept as the JSON number that the child sent.
#[derive(Debug)]
pub struct ResultMessage {
    pub subtype: String,
    pub duration_ms: i64,
    pub duration_api_ms: i64,
    pub is_error: bool,
    pub num_turns: i32,
    pub session_id: String,
    pub total_cost_usd: Option<Json>,
    pub usage: Option<Usage>,
    pub result: Option<String>,
    pub structured_output: Option<Json>,
    pub extra: Vec<(String, Json)>,
}

pub struct ResultMessageModel {
    pub subtype: Seq<char>,
    pub duration_ms: i64,
    pub duration_api_ms: i64,
    pub is_error: bool,
    pub num_turns: i32,
    pub session_id: Seq<char>,
    pub total_cost_usd: Option<JsonModel>,
    pub usage: Option<UsageModel>,
    pub result: Option<Seq<char>>,
    pub structured_output: Option<JsonModel>,
    pub extra: Seq<(Seq<char>, JsonModel)>,
}

impl View for ResultMessage {
    type V = ResultMessageModel;

    open spec fn view(&self) -> ResultMessageModel {
        ResultMessageModel {
            subtype: self.subtype@,
            duration_ms: self.duration_ms,
            duration_api_ms: self.duration_api_ms,
            is_error: self.is_error,
            num_turns: self.num_turns,
            session_id: self.session_id@,
            total_cost_usd: model_opt(self.total_cost_usd),
            usage: model_opt(self.usage),
            result: model_opt(self.result),
            structured_output: model_opt(self.structured_output),
            extra: members_model(self.extra@),
        }
    }
}

impl ResultMessageModel {
    /// The names of the members of a result message.
    pub open spec fn known() -> Seq<Seq<char>> {
        seq![
            "type"@,
            "subtype"@,
            "duration_ms"@,
            "duration_api_ms"@,
            "is_error"@,
            "num_turns"@,
            "session_id"@,
            "total_cost_usd"@,
            "usage"@,
            "result"@,
            "structured_output"@,
        ]
    }

    /// The number of turns in the member `num_turns` of `j`, which must fit
    /// 32 bits.
    pub open spec fn read_turns(j: JsonModel) -> Option<i32> {
        match j.int_at("num_turns"@) {
            Some(n) => if i32::MIN <= n <= i32::MAX {
                Some(n as i32)
            } else {
                None
            },
            None => None,
        }
    }

    /// The optional cost in the member `total_cost_usd` of `j`, which must
    /// be a number where it is present.
    pub open spec fn read_cost(j: JsonModel) -> Option<Option<JsonModel>> {
        match j.present("total_cost_usd"@) {
            None => Some(None),
            Some(n) => if n.is_number() {
                Some(Some(n))
            } else {
                None
            },
        }
    }

    /// The message that `j` carries.
    pub open spec fn read(j: JsonModel) -> Option<ResultMessageModel> {
        if j.text_at("subtype"@) is Some && j.int_at("duration_ms"@) is Some && j.int_at(
            "duration_api_ms"@,
        ) is Some && j.bool_at("is_error"@) is Some && Self::read_turns(j) is Some && j.text_at(
            "session_id"@,
        ) is Some && Self::read_cost(j) is Some && UsageModel::read_opt(j) is Some && j.opt_text_at(
            "result"@,
        ) is Some {
            Some(
                ResultMessageModel {
                    subtype: j.text_at("subtype"@).unwrap(),
                    duration_ms: j.int_at("duration_ms"@).unwrap(),
                    duration_api_ms: j.int_at("duration_api_ms"@).unwrap(),
                    is_error: j.bool_at("is_error"@).unwrap(),
                    num_turns: Self::read_turns(j).unwrap(),
                    session_id: j.text_at("session_id"@).unwrap(),
                    total_cost_usd: Self::read_cost(j).unwrap(),
                    usage: UsageModel::read_opt(j).unwrap(),
                    result: j.opt_text_at("result"@).unwrap(),
                    structured_output: j.present("structured_output"@),
                    extra: j.unknown(Self::known()),
                },
            )
        } else {
            None
        }
    }

    /// A fresh message of kind `subtype` for the session `session_id`.
    pub open spec fn fresh(subtype: Seq<char>, session_id: Seq<char>) -> ResultMessageModel {
        ResultMessageModel {
            subtype,
            duration_ms: 0,
            duration_api_ms: 0,
            is_error: false,
            num_turns: 0,
            session_id,
            total_cost_usd: None,
            usage: None,
            result: None,
            structured_output: None,
            extra: Seq::empty(),
        }
    }
}

impl ResultMessage {
    pub fn new(subtype: &str, session_id: &str) -> (r: ResultMessage)
        ensures
            r@ == ResultMessageModel::fresh(subtype@, session_id@),
    {
        ResultMessage {
            subtype: subtype.to_owned(),
            duration_ms: 0,
            duration_api_ms: 0,
            is_error: false,
            num_turns: 0,
            session_id: session_id.to_owned(),
            total_cost_usd: None,
            usage: None,
            result: None,
            structured_output: None,
            extra: no_members(),
        }
    }

    pub fn subtype(&self) -> (r: &str)
        ensures
            r@ == self@.subtype,
    {
        self.subtype.as_str()
    }

    pub fn duration_ms(&self) -> (r: i64)
        ensures
            r == self@.duration_ms,
    {
        self.duration_ms
    }

    pub fn duration_api_ms(&self) -> (r: i64)
        ensures
            r == self@.duration_api_ms,
    {
        self.duration_api_ms
    }

    pub fn is_error(&self) -> (r: bool)
        ensures
            r == self@.is_error,
    {
        self.is_error
    }

    pub fn num_turns(&self) -> (r: i32)
        ensures
            r == self@.num_turns,
    {
        self.num_turns
    }

    pub fn session_id(&self) -> (r: &str)
        ensures
            r@ == self@.session_id,
    {
        self.session_id.as_str()
    }

    /// The cost, as the JSON number that the child sent.
    pub fn total_cost_usd(&self) -> (r: Option<&Json>)
        ensures
            model_ref(r) == self@.total_cost_usd,
    {
        self.total_cost_usd.as_ref()
    }

    pub fn usage(&self) -> (r: Option<&Usage>)
        ensures
            model_ref(r) == self@.usage,
    {
        self.usage.as_ref()
    }

    pub fn result(&self) -> (r: Option<&str>)
        ensures
            model_str(r) == self@.result,
    {
        opt_str(&self.result)
    }

    pub fn structured_output(&self) -> (r: Option<&Json>)
        ensures
            model_ref(r) == self@.structured_output,
    {
        self.structured_output.as_ref()
    }

    pub fn set_subtype(&mut self, subtype: &str)
        ensures
            final(self)@ == (ResultMessageModel { subtype: subtype@, ..old(self)@ }),
    {
        self.subtype = subtype.to_owned();
    }

    pub fn set_duration_ms(&mut self, duration_ms: i64)
        ensures
            final(self)@ == (ResultMessageModel { duration_ms, ..old(self)@ }),
    {
        self.duration_ms = duration_ms;
    }

    pub fn set_duration_api_ms(&mut self, duration_api_ms: i64)
        ensures
            final(self)@ == (ResultMessageModel { duration_api_ms, ..old(self)@ }),
    {
        self.duration_api_ms = duration_api_ms;
    }

    pub fn set_is_error(&mut self, is_error: bool)
        ensures
            final(self)@ == (ResultMessageModel { is_error, ..old(self)@ }),
    {
        self.is_error = is_error;
    }

    pub fn set_num_turns(&mut self, num_turns: i32)
        ensures
            final(self)@ == (ResultMessageModel { num_turns, ..old(self)@ }),
    {
        self.num_turns = num_turns;
    }

    pub fn set_session_id(&mut self, session_id: &str)
        ensures
            final(self)@ == (ResultMessageModel { session_id: session_id@, ..old(self)@ }),
    {
        self.session_id = session_id.to_owned();
    }

    /// Sets the cost, given as a JSON number.
    pub fn set_total_cost_usd(&mut self, total_cost_usd: Option<Json>)
        ensures
            final(self)@ == (ResultMessageModel {
                total_cost_usd: model_opt(total_cost_usd),
                ..old(self)@
            }),
    {
        self.total_cost_usd = total_cost_usd;
    }

    pub fn set_usage(&mut self, usage: Option<Usage>)
        ensures
            final(self)@ == (ResultMessageModel { usage: model_opt(usage), ..old(self)@ }),
    {
        self.usage = usage;
    }

    pub fn set_result(&mut self, result: Option<String>)
        ensures
            final(self)@ == (ResultMessageModel { result: model_opt(result), ..old(self)@ }),
    {
        self.result = result;
    }

    pub fn set_structured_output(&mut self, structured_output: Option<Json>)
        ensures
            final(self)@ == (ResultMessageModel {
                structured_output: model_opt(structured_output),
                ..old(self)@
            }),
    {
        self.structured_output = structured_output;
    }

    pub fn with_subtype(self, subtype: &str) -> (r: ResultMessage)
        ensures
            r@ == (ResultMessageModel { subtype: subtype@, ..self@ }),
    {
        let mut m = self;
        m.subtype = subtype.to_owned();
        m
    }

    pub fn with_duration_ms(self, duration_ms: i64) -> (r: ResultMessage)
        ensures
            r@ == (ResultMessageModel { duration_ms, ..self@ }),
    {
        let mut m = self;
        m.duration_ms = duration_ms;
        m
    }

    pub fn with_duration_api_ms(self, duration_api_ms: i64) -> (r: ResultMessage)
        ensures
            r@ == (ResultMessageModel { duration_api_ms, ..self@ }),
    {
        let mut m = self;
        m.duration_api_ms = duration_api_ms;
        m
    }

    pub fn with_is_error(self, is_error: bool) -> (r: ResultMessage)
        ensures
            r@ == (ResultMessageModel { is_error, ..self@ }),
    {
        let mut m = self;
        m.is_error = is_error;
        m
    }

    pub fn with_num_turns(self, num_turns: i32) -> (r: ResultMessage)
        ensures
            r@ == (ResultMessageModel { num_turns, ..self@ }),
    {
        let mut m = self;
        m.num_turns = num_turns;
        m
    }

    pub fn with_session_id(self, session_id: &str) -> (r: ResultMessage)
        ensures
            r@ == (ResultMessageModel { session_id: session_id@, ..self@ }),
    {
        let mut m = self;
        m.session_id = session_id.to_owned();
        m
    }

    /// Sets the cost, given as a JSON number.
    pub fn with_total_cost_usd(self, total_cost_usd: Json) -> (r: ResultMessage)
        ensures
            r@ == (ResultMessageModel { total_cost_usd: Some(total_cost_usd@), ..self@ }),
    {
        let mut m = self;
        m.total_cost_usd = Some(total_cost_usd);
        m
    }

    pub fn with_usage(self, usage: Usage) -> (r: ResultMessage)
        ensures
            r@ == (ResultMessageModel { usage: Some(usage@), ..self@ }),
    {
        let mut m = self;
        m.usage = Some(usage);
        m
    }

    pub fn with_result(self, result: &str) -> (r: ResultMessage)
        ensures
            r@ == (ResultMessageModel { result: Some(result@), ..self@ }),
    {
        let mut m = self;
        m.result = Some(result.to_owned());
        m
    }

    pub fn with_structured_output(self, structured_output: Json) -> (r: ResultMessage)
        ensures
            r@ == (ResultMessageModel { structured_output: Some(structured_output@), ..self@ }),
    {
        let mut m = self;
        m.structured_output = Some(structured_output);
        m
    }

    pub fn extra(&self) -> (r: &Vec<(String, Json)>)
        ensures
            members_model(r@) == self@.extra,
    {
        &self.extra
    }

    pub fn set_extra(&mut self, extra: Vec<(String, Json)>)
        ensures
            final(self)@ == (ResultMessageModel { extra: members_model(extra@), ..old(self)@ }),
    {
        self.extra = extra;
    }

    pub fn with_extra(self, extra: Vec<(String, Json)>) -> (r: ResultMessage)
        ensures
            r@ == (ResultMessageModel { extra: members_model(extra@), ..self@ }),
    {
        let mut m = self;
        m.extra = extra;
        m
    }

    /// Reads a result message from `j`.
    pub fn from_json(j: &Json) -> (r: Option<ResultMessage>)
        ensures
            model_opt(r) == ResultMessageModel::read(j@),
    {
        let subtype = match j.str_at("subtype") {
            Some(s) => s,
            None => {
                return None;
            },
        };
        let duration_ms = match j.i64_at("duration_ms") {
            Some(n) => n,
            None => {
                return None;
            },
        };
        let duration_api_ms = match j.i64_at("duration_api_ms") {
            Some(n) => n,
            None => {
                return None;
            },
        };
        let is_error = match j.bool_at("is_error") {
            Some(b) => b,
            None => {
                return None;
            },
        };
        let num_turns: i32 = match j.i64_at("num_turns") {
            Some(n) => if -2147483648 <= n && n <= 2147483647 {
                n as i32
            } else {
                return None;
            },
            None => {
                return None;
            },
        };
        let session_id = match j.str_at("session_id") {
            Some(s) => s,
            None => {
                return None;
            },
        };
        let total_cost_usd = match j.present("total_cost_usd") {
            None => None,
            Some(n) => if n.is_number() {
                Some(n.clone())
            } else {
                return None;
            },
        };
        let usage = match Usage::from_json_opt(j) {
            Some(u) => u,
            None => {
                return None;
            },
        };
        let result = match j.opt_str_at("result") {
            Some(s) => own(s),
            None => {
                return None;
            },
        };
        let structured_output = match j.present("structured_output") {
            Some(v) => Some(v.clone()),
            None => None,
        };
        let known = vec![
            "type",
            "subtype",
            "duration_ms",
            "duration_api_ms",
            "is_error",
            "num_turns",
            "session_id",
            "total_cost_usd",
            "usage",
            "result",
            "structured_output",
        ];
        proof {
            assert(names(known@) =~= ResultMessageModel::known());
        }
        Some(
            ResultMessage {
                subtype: subtype.to_owned(),
                duration_ms,
                duration_api_ms,
                is_error,
                num_turns,
                session_id: session_id.to_owned(),
                total_cost_usd,
                usage,
                result,
                structured_output,
                extra: j.unknown(&known),
            },
        )
    }
}

impl Clone for ResultMessage {
    fn clone(&self) -> (r: ResultMessage)
        ensures
            r@ == self@,
    {
        ResultMessage {
            subtype: self.subtype.clone(),
            duration_ms: self.duration_ms,
            duration_api_ms: self.duration_api_ms,
            is_error: self.is_error,
            num_turns: self.num_turns,
            session_id: self.session_id.clone(),
            total_cost_usd: clone_opt_json(&self.total_cost_usd),
            usage: match &self.usage {
                Some(u) => Some(u.clone()),
                None => None,
            },
            result: clone_opt_string(&self.result),
            structured_output: clone_opt_json(&self.structured_output),
            extra: clone_members(&self.extra),
        }
    }
}

/// A message of the data channel.
#[derive(Debug)]
pub enum Message {
    User(UserEnvelope),
    Assistant(AssistantEnvelope),
    System(SystemMessage),
    Result(ResultMessage),
}

pub enum MessageModel {
    User(UserEnvelopeModel),
    Assistant(AssistantEnvelopeModel),
    System(SystemMessageModel),
    Result(ResultMessageModel),
}

impl View for Message {
    type V = MessageModel;

    open spec fn view(&self) -> MessageModel {
        match self {
            Message::User(m) => MessageModel::User(m@),
            Message::Assistant(m) => MessageModel::Assistant(m@),
            Message::System(m) => MessageModel::System(m@),
            Message::Result(m) => MessageModel::Result(m@),
        }
    }
}

impl MessageModel {
    /// The message that `j` carries: its member `type` selects the kind.
    pub open spec fn read(j: JsonModel) -> Option<MessageModel> {
        match j.text_at("type"@) {
            None => None,
            Some(tag) => if tag == "user"@ {
                match UserEnvelopeModel::read(j) {
                    Some(m) => Some(MessageModel::User(m)),
                    None => None,
                }
            } else if tag == "assistant"@ {
                match AssistantEnvelopeModel::read(j) {
                    Some(m) => Some(MessageModel::Assistant(m)),
                    None => None,
                }
            } else if tag == "system"@ {
                match SystemMessageModel::read(j) {
                    Some(m) => Some(MessageModel::System(m)),
                    None => None,
                }
            } else if tag == "result"@ {
                match ResultMessageModel::read(j) {
                    Some(m) => Some(MessageModel::Result(m)),
                    None => None,
                }
            } else {
                None
            },
        }
    }
}

impl Message {
    /// Reads a message from `j`, by its member `type`.
    pub fn from_json(j: &Json) -> (r: Option<Message>)
        ensures
            model_opt(r) == MessageModel::read(j@),
    {
        match j.str_at("type") {
            None => None,
            Some(tag) => if same(tag, "user") {
                match UserEnvelope::from_json(j) {
                    Some(m) => Some(Message::User(m)),
                    None => None,
                }
            } else if same(tag, "assistant") {
                match AssistantEnvelope::from_json(j) {
                    Some(m) => Some(Message::Assistant(m)),
                    None => None,
                }
            } else if same(tag, "system") {
                match SystemMessage::from_json(j) {
                    Some(m) => Some(Message::System(m)),
                    None => None,
                }
            } else if same(tag, "result") {
                match ResultMessage::from_json(j) {
                    Some(m) => Some(Message::Result(m)),
                    None => None,
                }
            } else {
                None
            },
        }
    }
}

impl Clone for Message {
    fn clone(&self) -> (r: Message)
        ensures
            r@ == self@,
    {
        match self {
            Message::User(m) => Message::User(m.clone()),
            Message::Assistant(m) => Message::Assistant(m.clone()),
            Message::System(m) => Message::System(m.clone()),
            Message::Result(m) => Message::Result(m.clone()),
        }
    }
}

/// The body of a message that the host sends.
#[derive(Debug)]
pub struct OutgoingUserInner {
    pub role: String,
    pub content: UserContent,
}

pub struct OutgoingUserInnerModel {
    pub role: Seq<char>,
    pub content: UserContentModel,
}

impl View for OutgoingUserInner {
    type V = OutgoingUserInnerModel;

    open spec fn view(&self) -> OutgoingUserInnerModel {
        OutgoingUserInnerModel { role: self.role@, content: self.content@ }
    }
}

impl OutgoingUserInnerModel {
    /// The body on the wire.
    pub open spec fn wire(self) -> JsonModel {
        JsonModel::Object(
            seq![("role"@, JsonModel::Text(self.role)), ("content"@, self.content.wire())],
        )
    }
}

impl OutgoingUserInner {
    pub fn new(role: &str, content: UserContent) -> (r: OutgoingUserInner)
        ensures
            r@ == (OutgoingUserInnerModel { role: role@, content: content@ }),
    {
        OutgoingUserInner { role: role.to_owned(), content }
    }

    pub fn role(&self) -> (r: &str)
        ensures
            r@ == self@.role,
    {
        self.role.as_str()
    }

    pub fn content(&self) -> (r: &UserContent)
        ensures
            r@ == self@.content,
    {
        &self.content
    }

    pub fn set_role(&mut self, role: &str)
        ensures
            final(self)@ == (OutgoingUserInnerModel { role: role@, ..old(self)@ }),
    {
        self.role = role.to_owned();
    }

    pub fn set_content(&mut self, content: UserContent)
        ensures
            final(self)@ == (OutgoingUserInnerModel { content: content@, ..old(self)@ }),
    {
        self.content = content;
    }

    pub fn with_role(self, role: &str) -> (r: OutgoingUserInner)
        ensures
            r@ == (OutgoingUserInnerModel { role: role@, ..self@ }),
    {
        OutgoingUserInner { role: role.to_owned(), content: self.content }
    }

    pub fn with_content(self, content: UserContent) -> (r: OutgoingUserInner)
        ensures
            r@ == (OutgoingUserInnerModel { content: content@, ..self@ }),
    {
        OutgoingUserInner { role: self.role, content }
    }

    /// The body as a JSON value.
    pub fn to_json(&self) -> (r: Json)
        ensures
            r@ == self@.wire(),
    {
        let mut members = no_members();
        put(&mut members, "role", Json::text(self.role.as_str()));
        put(&mut members, "content", self.content.to_json());
        proof {
            assert(members_model(members@) =~= self@.wire()->Object_0);
        }
        Json::object(members)
    }
}

/// A message that the host sends on the data channel.
#[derive(Debug)]
pub struct OutgoingUserMessage {
    pub msg_type: String,
    pub message: OutgoingUserInner,
}

pub struct OutgoingUserMessageModel {
    pub msg_type: Seq<char>,
    pub message: OutgoingUserInnerModel,
}

impl View for OutgoingUserMessage {
    type V = OutgoingUserMessageModel;

    open spec fn view(&self) -> OutgoingUserMessageModel {
        OutgoingUserMessageModel { msg_type: self.msg_type@, message: self.message@ }
    }
}

impl OutgoingUserMessageModel {
    /// The message on the wire.
    pub open spec fn wire(self) -> JsonModel {
        JsonModel::Object(
            seq![("type"@, JsonModel::Text(self.msg_type)), ("message"@, self.message.wire())],
        )
    }

    /// The user message that carries `content`.
    pub open spec fn user(content: UserContentModel) -> OutgoingUserMessageModel {
        OutgoingUserMessageModel {
            msg_type: "user"@,
            message: OutgoingUserInnerModel { role: "user"@, content },
        }
    }
}

impl OutgoingUserMessage {
    /// The user message that carries `content`.
    pub fn new(content: UserContent) -> (r: OutgoingUserMessage)
        ensures
            r@ == OutgoingUserMessageModel::user(content@),
    {
        OutgoingUserMessage {
            msg_type: "user".to_owned(),
            message: OutgoingUserInner::new("user", content),
        }
    }

    /// The user message that carries the text `s`.
    pub fn text(s: &str) -> (r: OutgoingUserMessage)
        ensures
            r@ == OutgoingUserMessageModel::user(UserContentModel::Text(s@)),
    {
        OutgoingUserMessage::new(UserContent::Text(s.to_owned()))
    }

    /// The user message that carries `blocks`.
    pub fn blocks(blocks: Vec<ContentBlock>) -> (r: OutgoingUserMessage)
        ensures
            r@ == OutgoingUserMessageModel::user(UserContentModel::Blocks(models(blocks@))),
    {
        OutgoingUserMessage::new(UserContent::Blocks(blocks))
    }

    pub fn msg_type(&self) -> (r: &str)
        ensures
            r@ == self@.msg_type,
    {
        self.msg_type.as_str()
    }

    pub fn message(&self) -> (r: &OutgoingUserInner)
        ensures
            r@ == self@.message,
    {
        &self.message
    }

    pub fn set_msg_type(&mut self, msg_type: &str)
        ensures
            final(self)@ == (OutgoingUserMessageModel { msg_type: msg_type@, ..old(self)@ }),
    {
        self.msg_type = msg_type.to_owned();
    }

    pub fn set_message(&mut self, message: OutgoingUserInner)
        ensures
            final(self)@ == (OutgoingUserMessageModel { message: message@, ..old(self)@ }),
    {
        self.message = message;
    }

    pub fn with_msg_type(self, msg_type: &str) -> (r: OutgoingUserMessage)
        ensures
            r@ == (OutgoingUserMessageModel { msg_type: msg_type@, ..self@ }),
    {
        OutgoingUserMessage { msg_type: msg_type.to_owned(), message: self.message }
    }

    pub fn with_message(self, message: OutgoingUserInner) -> (r: OutgoingUserMessage)
        ensures
            r@ == (OutgoingUserMessageModel { message: message@, ..self@ }),
    {
        OutgoingUserMessage { msg_type: self.msg_type, message }
    }

    /// The message as a JSON value.
    pub fn to_json(&self) -> (r: Json)
        ensures
            r@ == self@.wire(),
    {
        let mut members = no_members();
        put(&mut members, "type", Json::text(self.msg_type.as_str()));
        put(&mut members, "message", self.message.to_json());
        proof {
            assert(members_model(members@) =~= self@.wire()->Object_0);
        }
        Json::object(members)
    }
}

} // verus!
