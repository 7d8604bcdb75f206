//! Turns: a prompt, the events that answer it, and the record of both.

use crate::error::{Error, ErrorModel};
use crate::json::{Json, JsonModel};
use crate::proto::message::{OutgoingUserMessage, OutgoingUserMessageModel, UserContentModel};
use crate::response::{
    complete_in, concat, last_of, pick, text_chars, Response, ResponseModel, Responses,
    ToolUseResponse,
};
use crate::views::{lemma_models_push, model_ref, models};
use vstd::prelude::*;

verus! {

/// One turn: the prompt that was sent, and the events that were kept of its
/// answer.
#[derive(Debug)]
pub struct Turn {
    pub prompt: String,
    pub responses: Responses,
}

pub struct TurnModel {
    pub prompt: Seq<char>,
    pub responses: Seq<ResponseModel>,
}

impl View for Turn {
    type V = TurnModel;

    open spec fn view(&self) -> TurnModel {
        TurnModel { prompt: self.prompt@, responses: self.responses@ }
    }
}

impl Turn {
    /// The text of the turn's answer: the text of its text events, one
    /// after another.
    pub fn text(&self) -> (r: String)
        ensures
            r@ == concat(pick(self@.responses, |e: ResponseModel| text_chars(e))),
    {
        self.responses.text_content()
    }
}

impl Clone for Turn {
    fn clone(&self) -> (r: Turn)
        ensures
            r@ == self@,
    {
        Turn { prompt: self.prompt.clone(), responses: self.responses.clone() }
    }
}

/// Takes the chunks of text of a turn as they come.
pub trait OnText {
    fn call(&self, chunk: &str);
}

/// Takes the tool uses of a turn as they come.
pub trait OnToolUse {
    fn call(&self, tool_use: &ToolUseResponse);
}

/// A callback for chunks of text.
pub struct TextCallback {
    pub hook: Box<dyn OnText>,
}

impl TextCallback {
    /// Wraps `hook`.
    pub fn new(hook: Box<dyn OnText>) -> TextCallback {
        TextCallback { hook }
    }

    pub fn call(&self, chunk: &str) {
        self.hook.call(chunk)
    }
}

/// A callback for tool uses.
pub struct ToolUseCallback {
    pub hook: Box<dyn OnToolUse>,
}

impl ToolUseCallback {
    /// Wraps `hook`.
    pub fn new(hook: Box<dyn OnToolUse>) -> ToolUseCallback {
        ToolUseCallback { hook }
    }

    pub fn call(&self, tool_use: &ToolUseResponse) {
        self.hook.call(tool_use)
    }
}

/// The record of the turns of a session, kept for the host.  The child's
/// own record of the session is another, and is not touched from here.
pub struct Conversation {
    pub history: Vec<Turn>,
}

impl View for Conversation {
    type V = Seq<TurnModel>;

    open spec fn view(&self) -> Seq<TurnModel> {
        models(self.history@)
    }
}

/// A turn that is being prepared or is under way: its prompt, the callbacks
/// for what comes, whether the events are kept, and the events kept so far.
pub struct TurnBuilder {
    pub prompt: String,
    pub on_text: Option<TextCallback>,
    pub on_thinking: Option<TextCallback>,
    pub on_tool_use: Option<ToolUseCallback>,
    pub collect: bool,
    pub responses: Responses,
}

pub struct TurnBuilderModel {
    pub prompt: Seq<char>,
    pub collect: bool,
    pub responses: Seq<ResponseModel>,
}

impl View for TurnBuilder {
    type V = TurnBuilderModel;

    open spec fn view(&self) -> TurnBuilderModel {
        TurnBuilderModel { prompt: self.prompt@, collect: self.collect, responses: self.responses@ }
    }
}

impl Conversation {
    /// The record without turns.
    pub fn new() -> (r: Conversation)
        ensures
            r@ == Seq::<TurnModel>::empty(),
    {
        let r = Conversation { history: Vec::new() };
        proof {
            assert(r@ =~= Seq::<TurnModel>::empty());
        }
        r
    }

    /// A turn with the prompt `prompt`: no callbacks, and the events are
    /// kept.
    pub fn turn(&self, prompt: &str) -> (r: TurnBuilder)
        ensures
            r@ == (TurnBuilderModel { prompt: prompt@, collect: true, responses: Seq::empty() }),
            r.on_text is None,
            r.on_thinking is None,
            r.on_tool_use is None,
    {
        TurnBuilder {
            prompt: prompt.to_owned(),
            on_text: None,
            on_thinking: None,
            on_tool_use: None,
            collect: true,
            responses: Responses::new(),
        }
    }

    /// A turn with the prompt `prompt` of which the text is wanted: as
    /// `turn`, to be finished with `send_text`.
    pub fn say(&self, prompt: &str) -> (r: TurnBuilder)
        ensures
            r@ == (TurnBuilderModel { prompt: prompt@, collect: true, responses: Seq::empty() }),
            r.on_text is None,
            r.on_thinking is None,
            r.on_tool_use is None,
    {
        self.turn(prompt)
    }

    /// The turns so far, oldest first.
    pub fn history(&self) -> (r: &Vec<Turn>)
        ensures
            models(r@) == self@,
    {
        &self.history
    }

    /// The newest turn.
    pub fn last(&self) -> (r: Option<&Turn>)
        ensures
            model_ref(r) == last_of(self@),
    {
        if self.history.len() > 0 {
            Some(&self.history[self.history.len() - 1])
        } else {
            None
        }
    }

    /// Forgets the turns so far.
    pub fn clear_history(&mut self)
        ensures
            final(self)@ == Seq::<TurnModel>::empty(),
    {
        self.history.clear();
        proof {
            assert(self@ =~= Seq::<TurnModel>::empty());
        }
    }
}

impl Default for Conversation {
    fn default() -> (r: Conversation)
        ensures
            r@ == Seq::<TurnModel>::empty(),
    {
        Conversation::new()
    }
}

/// The structured output of a run: that of its last terminal event.  A run
/// without a terminal event, and one whose terminal event carries no
/// structured output, is a protocol error.
pub open spec fn structured_output_of(responses: Seq<ResponseModel>) -> Result<JsonModel, ErrorModel> {
    match last_of(pick(responses, |e: ResponseModel| complete_in(e))) {
        None => Err(ErrorModel::ProtocolError("no completion response"@)),
        Some(completion) => match completion.structured_output {
            None => Err(ErrorModel::ProtocolError("no structured output in response"@)),
            Some(output) => Ok(output),
        },
    }
}

/// The model of a structured output or of the error in its place.
pub open spec fn output_view(r: Result<Json, Error>) -> Result<JsonModel, ErrorModel> {
    match r {
        Ok(j) => Ok(j@),
        Err(e) => Err(e@),
    }
}

/// The structured output of the run with the events `responses`.
pub fn structured_output(responses: &Responses) -> (r: Result<Json, Error>)
    ensures
        output_view(r) == structured_output_of(responses@),
{
    match responses.completion() {
        None => Err(Error::ProtocolError("no completion response".to_owned())),
        Some(completion) => match completion.structured_output() {
            None => Err(Error::ProtocolError("no structured output in response".to_owned())),
            Some(output) => Ok(output.clone()),
        },
    }
}

impl TurnBuilder {
    /// Sets the callback for chunks of text.
    pub fn on_text(self, callback: TextCallback) -> (r: TurnBuilder)
        ensures
            r@ == self@,
            r.on_text == Some(callback),
            r.on_thinking == self.on_thinking,
            r.on_tool_use == self.on_tool_use,
    {
        let mut b = self;
        b.on_text = Some(callback);
        b
    }

    /// Sets the callback for chunks of reasoning.
    pub fn on_thinking(self, callback: TextCallback) -> (r: TurnBuilder)
        ensures
            r@ == self@,
            r.on_thinking == Some(callback),
            r.on_text == self.on_text,
            r.on_tool_use == self.on_tool_use,
    {
        let mut b = self;
        b.on_thinking = Some(callback);
        b
    }

    /// Sets the callback for tool uses.
    pub fn on_tool_use(self, callback: ToolUseCallback) -> (r: TurnBuilder)
        ensures
            r@ == self@,
            r.on_tool_use == Some(callback),
            r.on_text == self.on_text,
            r.on_thinking == self.on_thinking,
    {
        let mut b = self;
        b.on_tool_use = Some(callback);
        b
    }

    /// Says whether the events are kept.  The callbacks are called either
    /// way.
    pub fn collect(self, collect: bool) -> (r: TurnBuilder)
        ensures
            r@ == (TurnBuilderModel { collect, ..self@ }),
            r.on_text == self.on_text,
            r.on_thinking == self.on_thinking,
            r.on_tool_use == self.on_tool_use,
    {
        let mut b = self;
        b.collect = collect;
        b
    }

    /// The message that carries the prompt, to be written to the child
    /// before the events are read.
    pub fn request(&self) -> (r: OutgoingUserMessage)
        ensures
            r@ == OutgoingUserMessageModel::user(UserContentModel::Text(self@.prompt)),
    {
        OutgoingUserMessage::text(self.prompt.as_str())
    }

    /// Takes one event of the answer.  The callback for its kind is called
    /// first; then the event is kept, if events are kept.
    pub fn observe(&mut self, response: Response)
        ensures
            final(self)@ == (TurnBuilderModel {
                responses: if old(self)@.collect {
                    old(self)@.responses.push(response@)
                } else {
                    old(self)@.responses
                },
                ..old(self)@
            }),
            final(self).on_text == old(self).on_text,
            final(self).on_thinking == old(self).on_thinking,
            final(self).on_tool_use == old(self).on_tool_use,
    {
        match &response {
            Response::Text(text) => match &self.on_text {
                Some(cb) => cb.call(text.content()),
                None => {},
            },
            Response::Thinking(thinking) => match &self.on_thinking {
                Some(cb) => cb.call(thinking.content()),
                None => {},
            },
            Response::ToolUse(tool_use) => match &self.on_tool_use {
                Some(cb) => cb.call(tool_use),
                None => {},
            },
            _ => {},
        }
        if self.collect {
            self.responses.push(response);
        }
    }

    /// Ends the turn: the prompt and the events kept go on record in
    /// `conversation`, and the events are handed out.
    pub fn send(self, conversation: &mut Conversation) -> (r: Responses)
        ensures
            r@ == self@.responses,
            final(conversation)@ == old(conversation)@.push(
                TurnModel { prompt: self@.prompt, responses: self@.responses },
            ),
    {
        let turn = Turn { prompt: self.prompt, responses: self.responses.clone() };
        proof {
            lemma_models_push(conversation.history@, turn);
        }
        conversation.history.push(turn);
        self.responses
    }

    /// Ends the turn as `send` does, and hands out the text of the answer.
    pub fn send_text(self, conversation: &mut Conversation) -> (r: String)
        ensures
            r@ == concat(pick(self@.responses, |e: ResponseModel| text_chars(e))),
            final(conversation)@ == old(conversation)@.push(
                TurnModel { prompt: self@.prompt, responses: self@.responses },
            ),
    {
        let responses = self.send(conversation);
        responses.text_content()
    }

    /// Ends the turn as `send` does, and hands out the structured output of
    /// the answer.
    pub fn send_as(self, conversation: &mut Conversation) -> (r: Result<Json, Error>)
        ensures
            output_view(r) == structured_output_of(self@.responses),
            final(conversation)@ == old(conversation)@.push(
                TurnModel { prompt: self@.prompt, responses: self@.responses },
            ),
    {
        let responses = self.send(conversation);
        structured_output(&responses)
    }
}

} // verus!
