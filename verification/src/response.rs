//! The events that a run yields, as the host sees them.

use crate::json::Json;
use crate::proto::content_block::{
    ContentBlock, ContentBlockModel, Text, TextModel, Thinking, ThinkingModel, ToolResult,
    ToolResultModel, ToolUse, ToolUseModel,
};
use crate::proto::message::{
    AssistantError, InitMessage, InitMessageModel, Message, MessageModel, ResultMessage,
    ResultMessageModel, SystemMessage, SystemMessageModel, Usage,
};
use crate::strings::same;
use crate::views::{lemma_models_push, model_ref, model_str, models};
use vstd::prelude::*;

verus! {

/// A run of text from the assistant.
#[derive(Debug)]
pub struct TextResponse(pub Text);

/// The assistant asks for a tool.
#[derive(Debug)]
pub struct ToolUseResponse(pub ToolUse);

/// What a tool answered.
#[derive(Debug)]
pub struct ToolResultResponse(pub ToolResult);

/// A trace of the assistant's reasoning.
#[derive(Debug)]
pub struct ThinkingResponse(pub Thinking);

/// The session has started.
#[derive(Debug)]
pub struct InitResponse(pub InitMessage);

/// Something went wrong: in the child, or with the assistant.
#[derive(Debug)]
pub enum ErrorResponse {
    System(String),
    Assistant(AssistantError),
}

/// The run has ended.
#[derive(Debug)]
pub struct CompleteResponse(pub ResultMessage);

/// One event of a run.
#[derive(Debug)]
pub enum Response {
    Text(TextResponse),
    ToolUse(ToolUseResponse),
    ToolResult(ToolResultResponse),
    Thinking(ThinkingResponse),
    Init(InitResponse),
    Error(ErrorResponse),
    Complete(CompleteResponse),
}

pub enum ErrorResponseModel {
    System(Seq<char>),
    Assistant(AssistantError),
}

pub enum ResponseModel {
    Text(TextModel),
    ToolUse(ToolUseModel),
    ToolResult(ToolResultModel),
    Thinking(ThinkingModel),
    Init(InitMessageModel),
    Error(ErrorResponseModel),
    Complete(ResultMessageModel),
}

impl View for TextResponse {
    type V = TextModel;

    open spec fn view(&self) -> TextModel {
        self.0@
    }
}

impl View for ToolUseResponse {
    type V = ToolUseModel;

    open spec fn view(&self) -> ToolUseModel {
        self.0@
    }
}

impl View for ToolResultResponse {
    type V = ToolResultModel;

    open spec fn view(&self) -> ToolResultModel {
        self.0@
    }
}

impl View for ThinkingResponse {
    type V = ThinkingModel;

    open spec fn view(&self) -> ThinkingModel {
        self.0@
    }
}

impl View for InitResponse {
    type V = InitMessageModel;

    open spec fn view(&self) -> InitMessageModel {
        self.0@
    }
}

impl View for ErrorResponse {
    type V = ErrorResponseModel;

    open spec fn view(&self) -> ErrorResponseModel {
        match self {
            ErrorResponse::System(s) => ErrorResponseModel::System(s@),
            ErrorResponse::Assistant(e) => ErrorResponseModel::Assistant(*e),
        }
    }
}

impl View for CompleteResponse {
    type V = ResultMessageModel;

    open spec fn view(&self) -> ResultMessageModel {
        self.0@
    }
}

impl View for Response {
    type V = ResponseModel;

    open spec fn view(&self) -> ResponseModel {
        match self {
            Response::Text(t) => ResponseModel::Text(t@),
            Response::ToolUse(t) => ResponseModel::ToolUse(t@),
            Response::ToolResult(t) => ResponseModel::ToolResult(t@),
            Response::Thinking(t) => ResponseModel::Thinking(t@),
            Response::Init(i) => ResponseModel::Init(i@),
            Response::Error(e) => ResponseModel::Error(e@),
            Response::Complete(c) => ResponseModel::Complete(c@),
        }
    }
}

impl TextResponse {
    pub fn content(&self) -> (r: &str)
        ensures
            r@ == self@.text,
    {
        self.0.text()
    }
}

impl Clone for TextResponse {
    fn clone(&self) -> (r: TextResponse)
        ensures
            r@ == self@,
    {
        TextResponse(self.0.clone())
    }
}

impl ToolUseResponse {
    pub fn id(&self) -> (r: &str)
        ensures
            r@ == self@.id,
    {
        self.0.id()
    }

    pub fn name(&self) -> (r: &str)
        ensures
            r@ == self@.name,
    {
        self.0.name()
    }

    pub fn input(&self) -> (r: &Json)
        ensures
            r@ == self@.input,
    {
        self.0.input()
    }
}

impl Clone for ToolUseResponse {
    fn clone(&self) -> (r: ToolUseResponse)
        ensures
            r@ == self@,
    {
        ToolUseResponse(self.0.clone())
    }
}

impl ToolResultResponse {
    pub fn tool_use_id(&self) -> (r: &str)
        ensures
            r@ == self@.tool_use_id,
    {
        self.0.tool_use_id()
    }

    pub fn content(&self) -> (r: Option<&Json>)
        ensures
            model_ref(r) == self@.content,
    {
        self.0.content()
    }

    /// Whether the tool reported an error; `false` where it did not say.
    pub fn is_error(&self) -> (r: bool)
        ensures
            r == (self@.is_error == Some(true)),
    {
        match self.0.is_error() {
            Some(b) => b,
            None => false,
        }
    }
}

impl Clone for ToolResultResponse {
    fn clone(&self) -> (r: ToolResultResponse)
        ensures
            r@ == self@,
    {
        ToolResultResponse(self.0.clone())
    }
}

impl ThinkingResponse {
    pub fn content(&self) -> (r: &str)
        ensures
            r@ == self@.thinking,
    {
        self.0.thinking()
    }

    pub fn signature(&self) -> (r: &str)
        ensures
            r@ == self@.signature,
    {
        self.0.signature()
    }
}

impl Clone for ThinkingResponse {
    fn clone(&self) -> (r: ThinkingResponse)
        ensures
            r@ == self@,
    {
        ThinkingResponse(self.0.clone())
    }
}

impl InitResponse {
    pub fn session_id(&self) -> (r: Option<&str>)
        ensures
            model_str(r) == self@.session_id,
    {
        self.0.session_id()
    }

    pub fn model(&self) -> (r: Option<&str>)
        ensures
            model_str(r) == self@.model,
    {
        self.0.model()
    }

    pub fn cwd(&self) -> (r: Option<&str>)
        ensures
            model_str(r) == self@.cwd,
    {
        self.0.cwd()
    }
}

impl Clone for InitResponse {
    fn clone(&self) -> (r: InitResponse)
        ensures
            r@ == self@,
    {
        InitResponse(self.0.clone())
    }
}

impl ErrorResponseModel {
    /// The error in words.
    pub open spec fn message(self) -> Seq<char> {
        match self {
            ErrorResponseModel::System(s) => s,
            ErrorResponseModel::Assistant(e) => e.text(),
        }
    }
}

impl ErrorResponse {
    /// The error in words.
    pub fn message(&self) -> (r: String)
        ensures
            r@ == self@.message(),
    {
        match self {
            ErrorResponse::System(s) => s.clone(),
            ErrorResponse::Assistant(e) => e.message(),
        }
    }

    pub fn is_system(&self) -> (r: bool)
        ensures
            r == (self@ is System),
    {
        match self {
            ErrorResponse::System(_) => true,
            _ => false,
        }
    }

    pub fn is_assistant(&self) -> (r: bool)
        ensures
            r == (self@ is Assistant),
    {
        match self {
            ErrorResponse::Assistant(_) => true,
            _ => false,
        }
    }

    pub fn as_system(&self) -> (r: Option<&str>)
        ensures
            match r {
                Some(s) => self@ == ErrorResponseModel::System(s@),
                None => !(self@ is System),
            },
    {
        match self {
            ErrorResponse::System(s) => Some(s.as_str()),
            _ => None,
        }
    }

    pub fn as_assistant(&self) -> (r: Option<&AssistantError>)
        ensures
            match r {
                Some(e) => self@ == ErrorResponseModel::Assistant(*e),
                None => !(self@ is Assistant),
            },
    {
        match self {
            ErrorResponse::Assistant(e) => Some(e),
            _ => None,
        }
    }

    pub fn is_rate_limit(&self) -> (r: bool)
        ensures
            r == (self@ == ErrorResponseModel::Assistant(AssistantError::RateLimit)),
    {
        match self {
            ErrorResponse::Assistant(AssistantError::RateLimit) => true,
            _ => false,
        }
    }

    pub fn is_authentication_failed(&self) -> (r: bool)
        ensures
            r == (self@ == ErrorResponseModel::Assistant(AssistantError::AuthenticationFailed)),
    {
        match self {
            ErrorResponse::Assistant(AssistantError::AuthenticationFailed) => true,
            _ => false,
        }
    }

    pub fn is_billing_error(&self) -> (r: bool)
        ensures
            r == (self@ == ErrorResponseModel::Assistant(AssistantError::BillingError)),
    {
        match self {
            ErrorResponse::Assistant(AssistantError::BillingError) => true,
            _ => false,
        }
    }
}

impl Clone for ErrorResponse {
    fn clone(&self) -> (r: ErrorResponse)
        ensures
            r@ == self@,
    {
        match self {
            ErrorResponse::System(s) => ErrorResponse::System(s.clone()),
            ErrorResponse::Assistant(e) => ErrorResponse::Assistant(*e),
        }
    }
}

impl CompleteResponse {
    pub fn subtype(&self) -> (r: &str)
        ensures
            r@ == self@.subtype,
    {
        self.0.subtype()
    }

    pub fn duration_ms(&self) -> (r: i64)
        ensures
            r == self@.duration_ms,
    {
        self.0.duration_ms()
    }

    pub fn duration_api_ms(&self) -> (r: i64)
        ensures
            r == self@.duration_api_ms,
    {
        self.0.duration_api_ms()
    }

    pub fn num_turns(&self) -> (r: i32)
        ensures
            r == self@.num_turns,
    {
        self.0.num_turns()
    }

    pub fn session_id(&self) -> (r: &str)
        ensures
            r@ == self@.session_id,
    {
        self.0.session_id()
    }

    /// The cost, as the JSON number that the child sent.
    pub fn total_cost_usd(&self) -> (r: Option<&Json>)
        ensures
            model_ref(r) == self@.total_cost_usd,
    {
        self.0.total_cost_usd()
    }

    pub fn usage(&self) -> (r: Option<&Usage>)
        ensures
            model_ref(r) == self@.usage,
    {
        self.0.usage()
    }

    pub fn result_text(&self) -> (r: Option<&str>)
        ensures
            model_str(r) == self@.result,
    {
        self.0.result()
    }

    pub fn structured_output(&self) -> (r: Option<&Json>)
        ensures
            model_ref(r) == self@.structured_output,
    {
        self.0.structured_output()
    }

    pub fn is_error(&self) -> (r: bool)
        ensures
            r == self@.is_error,
    {
        self.0.is_error()
    }
}

impl Clone for CompleteResponse {
    fn clone(&self) -> (r: CompleteResponse)
        ensures
            r@ == self@,
    {
        CompleteResponse(self.0.clone())
    }
}

impl ResponseModel {
    /// The event that a content block becomes.
    pub open spec fn of_block(block: ContentBlockModel) -> ResponseModel {
        match block {
            ContentBlockModel::Text(t) => ResponseModel::Text(t),
            ContentBlockModel::ToolUse(t) => ResponseModel::ToolUse(t),
            ContentBlockModel::ToolResult(t) => ResponseModel::ToolResult(t),
            ContentBlockModel::Thinking(t) => ResponseModel::Thinking(t),
        }
    }

    /// The events of the blocks of `blocks`, one for each, in their order.
    pub open spec fn of_blocks(blocks: Seq<ContentBlockModel>) -> Seq<ResponseModel> {
        Seq::new(blocks.len(), |i: int| Self::of_block(blocks[i]))
    }

    /// The events that a message decomposes into.
    ///
    /// A user message gives none.  An assistant message that carries an
    /// error gives that error alone; any other gives one event for each of
    /// its blocks, in their order.  A system message gives one event, and
    /// so does a result message: the terminal event.
    pub open spec fn of_message(msg: MessageModel) -> Seq<ResponseModel> {
        match msg {
            MessageModel::User(_) => Seq::empty(),
            MessageModel::Assistant(envelope) => match envelope.message.error {
                Some(e) => seq![ResponseModel::Error(ErrorResponseModel::Assistant(e))],
                None => Self::of_blocks(envelope.message.content),
            },
            MessageModel::System(SystemMessageModel::Init(init)) => seq![ResponseModel::Init(init)],
            MessageModel::System(SystemMessageModel::Error(err)) => seq![
                ResponseModel::Error(ErrorResponseModel::System(err.error)),
            ],
            MessageModel::Result(result) => seq![ResponseModel::Complete(result)],
        }
    }
}

impl Response {
    pub fn is_text(&self) -> (r: bool)
        ensures
            r == (self@ is Text),
    {
        match self {
            Response::Text(_) => true,
            _ => false,
        }
    }

    pub fn is_tool_use(&self) -> (r: bool)
        ensures
            r == (self@ is ToolUse),
    {
        match self {
            Response::ToolUse(_) => true,
            _ => false,
        }
    }

    pub fn is_tool_result(&self) -> (r: bool)
        ensures
            r == (self@ is ToolResult),
    {
        match self {
            Response::ToolResult(_) => true,
            _ => false,
        }
    }

    pub fn is_thinking(&self) -> (r: bool)
        ensures
            r == (self@ is Thinking),
    {
        match self {
            Response::Thinking(_) => true,
            _ => false,
        }
    }

    pub fn is_init(&self) -> (r: bool)
        ensures
            r == (self@ is Init),
    {
        match self {
            Response::Init(_) => true,
            _ => false,
        }
    }

    pub fn is_error(&self) -> (r: bool)
        ensures
            r == (self@ is Error),
    {
        match self {
            Response::Error(_) => true,
            _ => false,
        }
    }

    pub fn is_complete(&self) -> (r: bool)
        ensures
            r == (self@ is Complete),
    {
        match self {
            Response::Complete(_) => true,
            _ => false,
        }
    }

    pub fn as_text(&self) -> (r: Option<&TextResponse>)
        ensures
            match r {
                Some(t) => self@ == ResponseModel::Text(t@),
                None => !(self@ is Text),
            },
    {
        match self {
            Response::Text(t) => Some(t),
            _ => None,
        }
    }

    pub fn as_tool_use(&self) -> (r: Option<&ToolUseResponse>)
        ensures
            match r {
                Some(t) => self@ == ResponseModel::ToolUse(t@),
                None => !(self@ is ToolUse),
            },
    {
        match self {
            Response::ToolUse(t) => Some(t),
            _ => None,
        }
    }

    pub fn as_tool_result(&self) -> (r: Option<&ToolResultResponse>)
        ensures
            match r {
                Some(t) => self@ == ResponseModel::ToolResult(t@),
                None => !(self@ is ToolResult),
            },
    {
        match self {
            Response::ToolResult(t) => Some(t),
            _ => None,
        }
    }

    pub fn as_thinking(&self) -> (r: Option<&ThinkingResponse>)
        ensures
            match r {
                Some(t) => self@ == ResponseModel::Thinking(t@),
                None => !(self@ is Thinking),
            },
    {
        match self {
            Response::Thinking(t) => Some(t),
            _ => None,
        }
    }

    pub fn as_init(&self) -> (r: Option<&InitResponse>)
        ensures
            match r {
                Some(i) => self@ == ResponseModel::Init(i@),
                None => !(self@ is Init),
            },
    {
        match self {
            Response::Init(i) => Some(i),
            _ => None,
        }
    }

    pub fn as_error(&self) -> (r: Option<&ErrorResponse>)
        ensures
            match r {
                Some(e) => self@ == ResponseModel::Error(e@),
                None => !(self@ is Error),
            },
    {
        match self {
            Response::Error(e) => Some(e),
            _ => None,
        }
    }

    pub fn as_complete(&self) -> (r: Option<&CompleteResponse>)
        ensures
            match r {
                Some(c) => self@ == ResponseModel::Complete(c@),
                None => !(self@ is Complete),
            },
    {
        match self {
            Response::Complete(c) => Some(c),
            _ => None,
        }
    }

    pub fn into_text(self) -> (r: Option<TextResponse>)
        ensures
            match r {
                Some(t) => self@ == ResponseModel::Text(t@),
                None => !(self@ is Text),
            },
    {
        match self {
            Response::Text(t) => Some(t),
            _ => None,
        }
    }

    pub fn into_tool_use(self) -> (r: Option<ToolUseResponse>)
        ensures
            match r {
                Some(t) => self@ == ResponseModel::ToolUse(t@),
                None => !(self@ is ToolUse),
            },
    {
        match self {
            Response::ToolUse(t) => Some(t),
            _ => None,
        }
    }

    pub fn into_tool_result(self) -> (r: Option<ToolResultResponse>)
        ensures
            match r {
                Some(t) => self@ == ResponseModel::ToolResult(t@),
                None => !(self@ is ToolResult),
            },
    {
        match self {
            Response::ToolResult(t) => Some(t),
            _ => None,
        }
    }

    pub fn into_thinking(self) -> (r: Option<ThinkingResponse>)
        ensures
            match r {
                Some(t) => self@ == ResponseModel::Thinking(t@),
                None => !(self@ is Thinking),
            },
    {
        match self {
            Response::Thinking(t) => Some(t),
            _ => None,
        }
    }

    pub fn into_init(self) -> (r: Option<InitResponse>)
        ensures
            match r {
                Some(i) => self@ == ResponseModel::Init(i@),
                None => !(self@ is Init),
            },
    {
        match self {
            Response::Init(i) => Some(i),
            _ => None,
        }
    }

    pub fn into_error(self) -> (r: Option<ErrorResponse>)
        ensures
            match r {
                Some(e) => self@ == ResponseModel::Error(e@),
                None => !(self@ is Error),
            },
    {
        match self {
            Response::Error(e) => Some(e),
            _ => None,
        }
    }

    pub fn into_complete(self) -> (r: Option<CompleteResponse>)
        ensures
            match r {
                Some(c) => self@ == ResponseModel::Complete(c@),
                None => !(self@ is Complete),
            },
    {
        match self {
            Response::Complete(c) => Some(c),
            _ => None,
        }
    }

    /// The event that the block `block` becomes.
    pub fn from_block(block: &ContentBlock) -> (r: Response)
        ensures
            r@ == ResponseModel::of_block(block@),
    {
        match block {
            ContentBlock::Text(t) => Response::Text(TextResponse(t.clone())),
            ContentBlock::ToolUse(t) => Response::ToolUse(ToolUseResponse(t.clone())),
            ContentBlock::ToolResult(t) => Response::ToolResult(ToolResultResponse(t.clone())),
            ContentBlock::Thinking(t) => Response::Thinking(ThinkingResponse(t.clone())),
        }
    }

    /// The events that the message `msg` decomposes into.
    pub fn from_message(msg: &Message) -> (r: Vec<Response>)
        ensures
            models(r@) == ResponseModel::of_message(msg@),
    {
        let mut out: Vec<Response> = Vec::new();
        match msg {
            Message::User(_) => {},
            Message::Assistant(envelope) => {
                match envelope.message().error() {
                    Some(err) => {
                        out.push(Response::Error(ErrorResponse::Assistant(err)));
                    },
                    None => {
                        let blocks = envelope.message().content();
                        let mut i: usize = 0;
                        while i < blocks.len()
                            invariant
                                i <= blocks.len(),
                                out.len() == i,
                                forall|k: int|
                                    0 <= k < i ==> out[k]@ == ResponseModel::of_block(blocks[k]@),
                            decreases blocks.len() - i,
                        {
                            out.push(Response::from_block(&blocks[i]));
                            i = i + 1;
                        }
                    },
                }
            },
            Message::System(sys) => match sys {
                SystemMessage::Init(init) => {
                    out.push(Response::Init(InitResponse(init.clone())));
                },
                SystemMessage::Error(err) => {
                    out.push(Response::Error(ErrorResponse::System(err.error().to_owned())));
                },
            },
            Message::Result(result) => {
                out.push(Response::Complete(CompleteResponse(result.clone())));
            },
        }
        proof {
            assert(models(out@) =~= ResponseModel::of_message(msg@));
        }
        out
    }
}

impl Clone for Response {
    fn clone(&self) -> (r: Response)
        ensures
            r@ == self@,
    {
        match self {
            Response::Text(t) => Response::Text(t.clone()),
            Response::ToolUse(t) => Response::ToolUse(t.clone()),
            Response::ToolResult(t) => Response::ToolResult(t.clone()),
            Response::Thinking(t) => Response::Thinking(t.clone()),
            Response::Init(i) => Response::Init(i.clone()),
            Response::Error(e) => Response::Error(e.clone()),
            Response::Complete(c) => Response::Complete(c.clone()),
        }
    }
}


/// The Text event that `e` is, if it is one.
pub open spec fn text_in(e: ResponseModel) -> Option<TextModel> {
    match e {
        ResponseModel::Text(t) => Some(t),
        _ => None,
    }
}

/// The ToolUse event that `e` is, if it is one.
pub open spec fn tool_use_in(e: ResponseModel) -> Option<ToolUseModel> {
    match e {
        ResponseModel::ToolUse(t) => Some(t),
        _ => None,
    }
}

/// The ToolResult event that `e` is, if it is one.
pub open spec fn tool_result_in(e: ResponseModel) -> Option<ToolResultModel> {
    match e {
        ResponseModel::ToolResult(t) => Some(t),
        _ => None,
    }
}

/// The Thinking event that `e` is, if it is one.
pub open spec fn thinking_in(e: ResponseModel) -> Option<ThinkingModel> {
    match e {
        ResponseModel::Thinking(t) => Some(t),
        _ => None,
    }
}

/// The Init event that `e` is, if it is one.
pub open spec fn init_in(e: ResponseModel) -> Option<InitMessageModel> {
    match e {
        ResponseModel::Init(t) => Some(t),
        _ => None,
    }
}

/// The Error event that `e` is, if it is one.
pub open spec fn error_in(e: ResponseModel) -> Option<ErrorResponseModel> {
    match e {
        ResponseModel::Error(t) => Some(t),
        _ => None,
    }
}

/// The Complete event that `e` is, if it is one.
pub open spec fn complete_in(e: ResponseModel) -> Option<ResultMessageModel> {
    match e {
        ResponseModel::Complete(t) => Some(t),
        _ => None,
    }
}

/// The tool-use event for the tool `name` that `e` is, if it is one.
pub open spec fn tool_use_named(e: ResponseModel, name: Seq<char>) -> Option<ToolUseModel> {
    match e {
        ResponseModel::ToolUse(t) => if t.name == name {
            Some(t)
        } else {
            None
        },
        _ => None,
    }
}

/// The characters of the text event that `e` is, if it is one.
pub open spec fn text_chars(e: ResponseModel) -> Option<Seq<char>> {
    match e {
        ResponseModel::Text(t) => Some(t.text),
        _ => None,
    }
}

/// The characters of the thinking event that `e` is, if it is one.
pub open spec fn thinking_chars(e: ResponseModel) -> Option<Seq<char>> {
    match e {
        ResponseModel::Thinking(t) => Some(t.thinking),
        _ => None,
    }
}

/// What `want` makes of the events of `events`, in order, leaving out those
/// of which it makes nothing.
pub open spec fn pick<T>(events: Seq<ResponseModel>, want: spec_fn(ResponseModel) -> Option<T>) -> Seq<T>
    decreases events.len(),
{
    if events.len() == 0 {
        Seq::empty()
    } else {
        match want(events.last()) {
            Some(t) => pick(events.drop_last(), want).push(t),
            None => pick(events.drop_last(), want),
        }
    }
}

/// Picking from one more event appends what is made of that event.
pub proof fn lemma_pick_step<T>(
    events: Seq<ResponseModel>,
    want: spec_fn(ResponseModel) -> Option<T>,
    n: int,
)
    requires
        0 <= n < events.len(),
    ensures
        pick(events.take(n + 1), want) == (match want(events[n]) {
            Some(t) => pick(events.take(n), want).push(t),
            None => pick(events.take(n), want),
        }),
{
    let next = events.take(n + 1);
    assert(next.drop_last() =~= events.take(n));
    assert(next.last() == events[n]);
}

/// The texts of `parts`, one after another.
pub open spec fn concat(parts: Seq<Seq<char>>) -> Seq<char>
    decreases parts.len(),
{
    if parts.len() == 0 {
        Seq::empty()
    } else {
        concat(parts.drop_last()) + parts.last()
    }
}

/// The first element of `s`, if it has one.
pub open spec fn first_of<T>(s: Seq<T>) -> Option<T> {
    if s.len() > 0 {
        Some(s[0])
    } else {
        None
    }
}

/// The last element of `s`, if it has one.
pub open spec fn last_of<T>(s: Seq<T>) -> Option<T> {
    if s.len() > 0 {
        Some(s.last())
    } else {
        None
    }
}

/// The events of a run, in the order in which they came.
#[derive(Debug)]
pub struct Responses(pub Vec<Response>);

impl View for Responses {
    type V = Seq<ResponseModel>;

    open spec fn view(&self) -> Seq<ResponseModel> {
        models(self.0@)
    }
}

impl Responses {
    /// The collection without events.
    pub fn new() -> (r: Responses)
        ensures
            r@ == Seq::<ResponseModel>::empty(),
    {
        let r = Responses(Vec::new());
        proof {
            assert(r@ =~= Seq::<ResponseModel>::empty());
        }
        r
    }

    /// The events themselves.
    pub fn into_inner(self) -> (r: Vec<Response>)
        ensures
            models(r@) == self@,
    {
        self.0
    }

    /// The events, borrowed.
    pub fn as_slice(&self) -> (r: &[Response])
        ensures
            models(r@) == self@,
    {
        self.0.as_slice()
    }

    /// Appends `response`.
    pub fn push(&mut self, response: Response)
        ensures
            final(self)@ == old(self)@.push(response@),
    {
        proof {
            lemma_models_push(self.0@, response);
        }
        self.0.push(response);
    }

    /// The events, in order, behind references.
    pub fn iter(&self) -> (r: Vec<&Response>)
        ensures
            models(r@) == self@,
    {
        let mut out: Vec<&Response> = Vec::new();
        let mut i: usize = 0;
        while i < self.0.len()
            invariant
                i <= self.0.len(),
                out.len() == i,
                forall|k: int| 0 <= k < i ==> out[k]@ == self.0[k]@,
            decreases self.0.len() - i,
        {
            out.push(&self.0[i]);
            i = i + 1;
        }
        proof {
            assert(models(out@) =~= self@);
        }
        out
    }

    /// The event at `index`, if there is one.
    pub fn get(&self, index: usize) -> (r: Option<&Response>)
        ensures
            match r {
                Some(e) => index < self@.len() && e@ == self@[index as int],
                None => index >= self@.len(),
            },
    {
        if index < self.0.len() {
            Some(&self.0[index])
        } else {
            None
        }
    }

    pub fn len(&self) -> (r: usize)
        ensures
            r == self@.len(),
    {
        self.0.len()
    }

    pub fn is_empty(&self) -> (r: bool)
        ensures
            r == (self@.len() == 0),
    {
        self.0.len() == 0
    }

    /// The text of all text events, one after another.
    pub fn text_content(&self) -> (r: String)
        ensures
            r@ == concat(pick(self@, |e: ResponseModel| text_chars(e))),
    {
        let ghost want = |e: ResponseModel| text_chars(e);
        let mut out = String::new();
        let mut i: usize = 0;
        proof {
            assert(self@.take(0) =~= Seq::empty());
            assert(out@ =~= Seq::<char>::empty());
        }
        while i < self.0.len()
            invariant
                i <= self.0.len(),
                want == (|e: ResponseModel| text_chars(e)),
                out@ == concat(pick(self@.take(i as int), want)),
            decreases self.0.len() - i,
        {
            proof {
                lemma_pick_step(self@, want, i as int);
                let before = pick(self@.take(i as int), want);
                match want(self@[i as int]) {
                    Some(t) => {
                        assert(before.push(t).drop_last() =~= before);
                    },
                    None => {},
                }
            }
            match &self.0[i] {
                Response::Text(t) => {
                    out.append(t.content());
                },
                _ => {},
            }
            i = i + 1;
        }
        proof {
            assert(self@.take(self.0.len() as int) =~= self@);
        }
        out
    }

    /// The text of all thinking events, one after another.
    pub fn thinking_content(&self) -> (r: String)
        ensures
            r@ == concat(pick(self@, |e: ResponseModel| thinking_chars(e))),
    {
        let ghost want = |e: ResponseModel| thinking_chars(e);
        let mut out = String::new();
        let mut i: usize = 0;
        proof {
            assert(self@.take(0) =~= Seq::empty());
            assert(out@ =~= Seq::<char>::empty());
        }
        while i < self.0.len()
            invariant
                i <= self.0.len(),
                want == (|e: ResponseModel| thinking_chars(e)),
                out@ == concat(pick(self@.take(i as int), want)),
            decreases self.0.len() - i,
        {
            proof {
                lemma_pick_step(self@, want, i as int);
                let before = pick(self@.take(i as int), want);
                match want(self@[i as int]) {
                    Some(t) => {
                        assert(before.push(t).drop_last() =~= before);
                    },
                    None => {},
                }
            }
            match &self.0[i] {
                Response::Thinking(t) => {
                    out.append(t.content());
                },
                _ => {},
            }
            i = i + 1;
        }
        proof {
            assert(self@.take(self.0.len() as int) =~= self@);
        }
        out
    }

    /// The text events, in order.
    pub fn texts(&self) -> (r: Vec<&TextResponse>)
        ensures
            models(r@) == pick(self@, |e: ResponseModel| text_in(e)),
    {
        let ghost want = |e: ResponseModel| text_in(e);
        let mut out: Vec<&TextResponse> = Vec::new();
        let mut i: usize = 0;
        proof {
            assert(self@.take(0) =~= Seq::empty());
            assert(models(out@) =~= Seq::empty());
        }
        while i < self.0.len()
            invariant
                i <= self.0.len(),
                want == (|e: ResponseModel| text_in(e)),
                models(out@) == pick(self@.take(i as int), want),
            decreases self.0.len() - i,
        {
            proof {
                lemma_pick_step(self@, want, i as int);
            }
            match &self.0[i] {
                Response::Text(t) => {
                    proof {
                        lemma_models_push(out@, t);
                    }
                    out.push(t);
                },
                _ => {},
            }
            i = i + 1;
        }
        proof {
            assert(self@.take(self.0.len() as int) =~= self@);
        }
        out
    }

    /// The tool-use events, in order.
    pub fn tool_uses(&self) -> (r: Vec<&ToolUseResponse>)
        ensures
            models(r@) == pick(self@, |e: ResponseModel| tool_use_in(e)),
    {
        let ghost want = |e: ResponseModel| tool_use_in(e);
        let mut out: Vec<&ToolUseResponse> = Vec::new();
        let mut i: usize = 0;
        proof {
            assert(self@.take(0) =~= Seq::empty());
            assert(models(out@) =~= Seq::empty());
        }
        while i < self.0.len()
            invariant
                i <= self.0.len(),
                want == (|e: ResponseModel| tool_use_in(e)),
                models(out@) == pick(self@.take(i as int), want),
            decreases self.0.len() - i,
        {
            proof {
                lemma_pick_step(self@, want, i as int);
            }
            match &self.0[i] {
                Response::ToolUse(t) => {
                    proof {
                        lemma_models_push(out@, t);
                    }
                    out.push(t);
                },
                _ => {},
            }
            i = i + 1;
        }
        proof {
            assert(self@.take(self.0.len() as int) =~= self@);
        }
        out
    }

    /// The tool-result events, in order.
    pub fn tool_results(&self) -> (r: Vec<&ToolResultResponse>)
        ensures
            models(r@) == pick(self@, |e: ResponseModel| tool_result_in(e)),
    {
        let ghost want = |e: ResponseModel| tool_result_in(e);
        let mut out: Vec<&ToolResultResponse> = Vec::new();
        let mut i: usize = 0;
        proof {
            assert(self@.take(0) =~= Seq::empty());
            assert(models(out@) =~= Seq::empty());
        }
        while i < self.0.len()
            invariant
                i <= self.0.len(),
                want == (|e: ResponseModel| tool_result_in(e)),
                models(out@) == pick(self@.take(i as int), want),
            decreases self.0.len() - i,
        {
            proof {
                lemma_pick_step(self@, want, i as int);
            }
            match &self.0[i] {
                Response::ToolResult(t) => {
                    proof {
                        lemma_models_push(out@, t);
                    }
                    out.push(t);
                },
                _ => {},
            }
            i = i + 1;
        }
        proof {
            assert(self@.take(self.0.len() as int) =~= self@);
        }
        out
    }

    /// The thinking events, in order.
    pub fn thinkings(&self) -> (r: Vec<&ThinkingResponse>)
        ensures
            models(r@) == pick(self@, |e: ResponseModel| thinking_in(e)),
    {
        let ghost want = |e: ResponseModel| thinking_in(e);
        let mut out: Vec<&ThinkingResponse> = Vec::new();
        let mut i: usize = 0;
        proof {
            assert(self@.take(0) =~= Seq::empty());
            assert(models(out@) =~= Seq::empty());
        }
        while i < self.0.len()
            invariant
                i <= self.0.len(),
                want == (|e: ResponseModel| thinking_in(e)),
                models(out@) == pick(self@.take(i as int), want),
            decreases self.0.len() - i,
        {
            proof {
                lemma_pick_step(self@, want, i as int);
            }
            match &self.0[i] {
                Response::Thinking(t) => {
                    proof {
                        lemma_models_push(out@, t);
                    }
                    out.push(t);
                },
                _ => {},
            }
            i = i + 1;
        }
        proof {
            assert(self@.take(self.0.len() as int) =~= self@);
        }
        out
    }

    /// The error events, in order.
    pub fn errors(&self) -> (r: Vec<&ErrorResponse>)
        ensures
            models(r@) == pick(self@, |e: ResponseModel| error_in(e)),
    {
        let ghost want = |e: ResponseModel| error_in(e);
        let mut out: Vec<&ErrorResponse> = Vec::new();
        let mut i: usize = 0;
        proof {
            assert(self@.take(0) =~= Seq::empty());
            assert(models(out@) =~= Seq::empty());
        }
        while i < self.0.len()
            invariant
                i <= self.0.len(),
                want == (|e: ResponseModel| error_in(e)),
                models(out@) == pick(self@.take(i as int), want),
            decreases self.0.len() - i,
        {
            proof {
                lemma_pick_step(self@, want, i as int);
            }
            match &self.0[i] {
                Response::Error(t) => {
                    proof {
                        lemma_models_push(out@, t);
                    }
                    out.push(t);
                },
                _ => {},
            }
            i = i + 1;
        }
        proof {
            assert(self@.take(self.0.len() as int) =~= self@);
        }
        out
    }

    /// The terminal events, in order.
    fn completions(&self) -> (r: Vec<&CompleteResponse>)
        ensures
            models(r@) == pick(self@, |e: ResponseModel| complete_in(e)),
    {
        let ghost want = |e: ResponseModel| complete_in(e);
        let mut out: Vec<&CompleteResponse> = Vec::new();
        let mut i: usize = 0;
        proof {
            assert(self@.take(0) =~= Seq::empty());
            assert(models(out@) =~= Seq::empty());
        }
        while i < self.0.len()
            invariant
                i <= self.0.len(),
                want == (|e: ResponseModel| complete_in(e)),
                models(out@) == pick(self@.take(i as int), want),
            decreases self.0.len() - i,
        {
            proof {
                lemma_pick_step(self@, want, i as int);
            }
            match &self.0[i] {
                Response::Complete(t) => {
                    proof {
                        lemma_models_push(out@, t);
                    }
                    out.push(t);
                },
                _ => {},
            }
            i = i + 1;
        }
        proof {
            assert(self@.take(self.0.len() as int) =~= self@);
        }
        out
    }

    /// The init events, in order.
    fn inits(&self) -> (r: Vec<&InitResponse>)
        ensures
            models(r@) == pick(self@, |e: ResponseModel| init_in(e)),
    {
        let ghost want = |e: ResponseModel| init_in(e);
        let mut out: Vec<&InitResponse> = Vec::new();
        let mut i: usize = 0;
        proof {
            assert(self@.take(0) =~= Seq::empty());
            assert(models(out@) =~= Seq::empty());
        }
        while i < self.0.len()
            invariant
                i <= self.0.len(),
                want == (|e: ResponseModel| init_in(e)),
                models(out@) == pick(self@.take(i as int), want),
            decreases self.0.len() - i,
        {
            proof {
                lemma_pick_step(self@, want, i as int);
            }
            match &self.0[i] {
                Response::Init(t) => {
                    proof {
                        lemma_models_push(out@, t);
                    }
                    out.push(t);
                },
                _ => {},
            }
            i = i + 1;
        }
        proof {
            assert(self@.take(self.0.len() as int) =~= self@);
        }
        out
    }

    /// The tool-use events for the tool `name`, in order.
    pub fn tool_uses_by_name(&self, name: &str) -> (r: Vec<&ToolUseResponse>)
        ensures
            models(r@) == pick(self@, |e: ResponseModel| tool_use_named(e, name@)),
    {
        let ghost want = |e: ResponseModel| tool_use_named(e, name@);
        let mut out: Vec<&ToolUseResponse> = Vec::new();
        let mut i: usize = 0;
        proof {
            assert(self@.take(0) =~= Seq::empty());
            assert(models(out@) =~= Seq::empty());
        }
        while i < self.0.len()
            invariant
                i <= self.0.len(),
                want == (|e: ResponseModel| tool_use_named(e, name@)),
                models(out@) == pick(self@.take(i as int), want),
            decreases self.0.len() - i,
        {
            proof {
                lemma_pick_step(self@, want, i as int);
            }
            match &self.0[i] {
                Response::ToolUse(t) => if same(t.name(), name) {
                    proof {
                        lemma_models_push(out@, t);
                    }
                    out.push(t);
                },
                _ => {},
            }
            i = i + 1;
        }
        proof {
            assert(self@.take(self.0.len() as int) =~= self@);
        }
        out
    }

    /// The first tool-use event for the tool `name`.
    pub fn tool_use_by_name(&self, name: &str) -> (r: Option<&ToolUseResponse>)
        ensures
            model_ref(r) == first_of(pick(self@, |e: ResponseModel| tool_use_named(e, name@))),
    {
        let all = self.tool_uses_by_name(name);
        if all.len() > 0 {
            Some(all[0])
        } else {
            None
        }
    }

    /// The last terminal event.
    pub fn completion(&self) -> (r: Option<&CompleteResponse>)
        ensures
            model_ref(r) == last_of(pick(self@, |e: ResponseModel| complete_in(e))),
    {
        let all = self.completions();
        if all.len() > 0 {
            Some(all[all.len() - 1])
        } else {
            None
        }
    }

    /// The first init event.
    pub fn init(&self) -> (r: Option<&InitResponse>)
        ensures
            model_ref(r) == first_of(pick(self@, |e: ResponseModel| init_in(e))),
    {
        let all = self.inits();
        if all.len() > 0 {
            Some(all[0])
        } else {
            None
        }
    }

    /// Whether one of the events is an error.
    pub fn has_error(&self) -> (r: bool)
        ensures
            r == (exists|i: int| 0 <= i < self@.len() && self@[i] is Error),
    {
        let mut i: usize = 0;
        while i < self.0.len()
            invariant
                i <= self.0.len(),
                forall|k: int| 0 <= k < i ==> !(self@[k] is Error),
            decreases self.0.len() - i,
        {
            if self.0[i].is_error() {
                assert(self@[i as int] is Error);
                return true;
            }
            i = i + 1;
        }
        false
    }

    /// The first error event.
    pub fn first_error(&self) -> (r: Option<&ErrorResponse>)
        ensures
            model_ref(r) == first_of(pick(self@, |e: ResponseModel| error_in(e))),
    {
        let all = self.errors();
        if all.len() > 0 {
            Some(all[0])
        } else {
            None
        }
    }
}

impl Clone for Responses {
    fn clone(&self) -> (r: Responses)
        ensures
            r@ == self@,
    {
        let mut out: Vec<Response> = Vec::new();
        let mut i: usize = 0;
        while i < self.0.len()
            invariant
                i <= self.0.len(),
                out.len() == i,
                forall|k: int| 0 <= k < i ==> out[k]@ == self.0[k]@,
            decreases self.0.len() - i,
        {
            out.push(self.0[i].clone());
            i = i + 1;
        }
        proof {
            assert(models(out@) =~= self@);
        }
        Responses(out)
    }
}

impl Default for Responses {
    fn default() -> (r: Responses)
        ensures
            r@ == Seq::<ResponseModel>::empty(),
    {
        Responses::new()
    }
}

/// A message decomposes into as many events as it has blocks, in block
/// order, unless it carries an error.
pub proof fn lemma_one_event_per_block(msg: MessageModel)
    requires
        msg is Assistant,
        msg->Assistant_0.message.error is None,
    ensures
        ResponseModel::of_message(msg).len() == msg->Assistant_0.message.content.len(),
        forall|i: int|
            0 <= i < msg->Assistant_0.message.content.len() ==> #[trigger] ResponseModel::of_message(
                msg,
            )[i] == ResponseModel::of_block(msg->Assistant_0.message.content[i]),
{
}

/// A terminal event, if a message gives one, is the last of its events, and
/// only a result message gives one.
pub proof fn lemma_terminal_event_is_last(msg: MessageModel, i: int)
    requires
        0 <= i < ResponseModel::of_message(msg).len(),
        ResponseModel::of_message(msg)[i] is Complete,
    ensures
        msg is Result,
        i == ResponseModel::of_message(msg).len() - 1,
{
}

} // verus!
