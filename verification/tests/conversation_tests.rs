use clauders::codec::parse;
use clauders::conversation::{
    structured_output, Conversation, OnText, OnToolUse, TextCallback, ToolUseCallback, Turn,
};
use clauders::error::Error;
use clauders::json::Json;
use clauders::proto::content_block::{Text, Thinking, ToolUse};
use clauders::proto::message::ResultMessage;
use clauders::response::{
    CompleteResponse, Response, Responses, TextResponse, ThinkingResponse, ToolUseResponse,
};
use std::cell::RefCell;
use std::rc::Rc;

struct Record(Rc<RefCell<Vec<String>>>);

impl OnText for Record {
    fn call(&self, chunk: &str) {
        self.0.borrow_mut().push(chunk.to_string());
    }
}

struct RecordTools(Rc<RefCell<Vec<String>>>);

impl OnToolUse for RecordTools {
    fn call(&self, tool_use: &ToolUseResponse) {
        self.0.borrow_mut().push(format!("tool:{}", tool_use.name()));
    }
}

fn text(s: &str) -> Response {
    Response::Text(TextResponse(Text::new(s)))
}

#[test]
fn test_turn_text() {
    let turn = Turn { prompt: "Hello".to_string(), responses: Responses::new() };
    assert_eq!(turn.text(), "");
    assert_eq!(turn.prompt, "Hello");
}

#[test]
fn a_turn_calls_back_in_order_and_goes_on_record() {
    let seen = Rc::new(RefCell::new(Vec::new()));
    let mut conversation = Conversation::new();
    assert!(conversation.last().is_none());
    let mut turn = conversation
        .turn("Explain")
        .on_text(TextCallback::new(Box::new(Record(seen.clone()))))
        .on_thinking(TextCallback::new(Box::new(Record(seen.clone()))))
        .on_tool_use(ToolUseCallback::new(Box::new(RecordTools(seen.clone()))));
    let request = clauders::codec::render(&turn.request().to_json()).unwrap();
    assert_eq!(request, "{\"message\":{\"content\":\"Explain\",\"role\":\"user\"},\"type\":\"user\"}");

    turn.observe(Response::Thinking(ThinkingResponse(Thinking::new("hm", "sig"))));
    turn.observe(text("ab"));
    turn.observe(Response::ToolUse(ToolUseResponse(ToolUse::new("t1", "Read", Json::empty_object()))));
    turn.observe(text("cd"));
    turn.observe(Response::Complete(CompleteResponse(ResultMessage::new("success", "s"))));
    assert_eq!(*seen.borrow(), vec!["hm", "ab", "tool:Read", "cd"]);

    let responses = turn.send(&mut conversation);
    assert_eq!(responses.len(), 5);
    assert_eq!(responses.text_content(), "abcd");
    assert_eq!(conversation.history().len(), 1);
    let last = conversation.last().unwrap();
    assert_eq!(last.prompt, "Explain");
    assert_eq!(last.text(), "abcd");
    assert_eq!(last.responses.len(), 5);

    conversation.clear_history();
    assert!(conversation.history().is_empty());
}

#[test]
fn a_turn_that_keeps_nothing_still_calls_back() {
    let seen = Rc::new(RefCell::new(Vec::new()));
    let mut conversation = Conversation::new();
    let mut turn = conversation
        .say("Hi")
        .on_text(TextCallback::new(Box::new(Record(seen.clone()))))
        .collect(false);
    turn.observe(text("one"));
    turn.observe(text("two"));
    let said = turn.send_text(&mut conversation);
    assert_eq!(said, "");
    assert_eq!(*seen.borrow(), vec!["one", "two"]);
    assert_eq!(conversation.history().len(), 1);
    assert!(conversation.history()[0].responses.is_empty());
}

#[test]
fn structured_output_comes_from_the_last_terminal_event() {
    let mut responses = Responses::new();
    assert!(matches!(structured_output(&responses), Err(Error::ProtocolError(m)) if m == "no completion response"));
    responses.push(text("x"));
    responses.push(Response::Complete(CompleteResponse(ResultMessage::new("success", "s"))));
    assert!(
        matches!(structured_output(&responses), Err(Error::ProtocolError(m)) if m == "no structured output in response")
    );
    let output = parse("{\"score\": 3}").unwrap();
    responses.push(Response::Complete(CompleteResponse(
        ResultMessage::new("success", "s").with_structured_output(output.clone()),
    )));
    assert_eq!(structured_output(&responses).unwrap(), output);

    let mut conversation = Conversation::new();
    let mut turn = conversation.turn("Analyze");
    turn.observe(Response::Complete(CompleteResponse(
        ResultMessage::new("success", "s").with_structured_output(output.clone()),
    )));
    assert_eq!(turn.send_as(&mut conversation).unwrap(), output);
}
