use clauders::handler::{dispatch, DefaultHandler, Handler, ResponseKind};
use clauders::json::Json;
use clauders::proto::content_block::{ContentBlock, Text, Thinking, ToolResult, ToolUse};
use clauders::proto::message::{
    AssistantEnvelope, AssistantError, AssistantMessageInner, ErrorMessage, InitMessage, Message,
    ResultMessage, SystemMessage, UserContent, UserEnvelope, UserMessageInner,
};
use clauders::response::{
    CompleteResponse, ErrorResponse, InitResponse, Response, Responses, TextResponse,
    ThinkingResponse, ToolResultResponse, ToolUseResponse,
};
use std::cell::RefCell;

fn sample() -> Responses {
    let mut responses = Responses::new();
    responses.push(Response::Init(InitResponse(InitMessage::new().with_session_id("s").with_model("m").with_cwd("/w"))));
    responses.push(Response::Thinking(ThinkingResponse(Thinking::new("t1", "g"))));
    responses.push(Response::Text(TextResponse(Text::new("ab"))));
    responses.push(Response::ToolUse(ToolUseResponse(ToolUse::new("u1", "Read", Json::null()))));
    responses.push(Response::ToolResult(ToolResultResponse(ToolResult::new("u1"))));
    responses.push(Response::ToolUse(ToolUseResponse(ToolUse::new("u2", "Write", Json::null()))));
    responses.push(Response::Thinking(ThinkingResponse(Thinking::new("t2", "g"))));
    responses.push(Response::ToolUse(ToolUseResponse(ToolUse::new("u3", "Read", Json::null()))));
    responses.push(Response::Error(ErrorResponse::System("first".to_string())));
    responses.push(Response::Text(TextResponse(Text::new("cd"))));
    responses.push(Response::Error(ErrorResponse::Assistant(AssistantError::BillingError)));
    responses.push(Response::Complete(CompleteResponse(ResultMessage::new("one", "s"))));
    responses.push(Response::Complete(CompleteResponse(ResultMessage::new("two", "s"))));
    responses
}

#[test]
fn a_collection_answers_by_kind() {
    let responses = sample();
    assert_eq!(responses.len(), 13);
    assert!(!responses.is_empty());
    assert_eq!(responses.as_slice().len(), 13);
    assert_eq!(responses.iter().len(), 13);
    assert!(responses.get(12).is_some() && responses.get(13).is_none());
    assert_eq!(responses.text_content(), "abcd");
    assert_eq!(responses.thinking_content(), "t1t2");
    assert_eq!(responses.texts().iter().map(|t| t.content()).collect::<Vec<_>>(), vec!["ab", "cd"]);
    assert_eq!(responses.tool_uses().iter().map(|t| t.id()).collect::<Vec<_>>(), vec!["u1", "u2", "u3"]);
    assert_eq!(responses.tool_results().len(), 1);
    assert_eq!(responses.thinkings().len(), 2);
    assert_eq!(responses.errors().len(), 2);
    assert_eq!(responses.tool_use_by_name("Read").unwrap().id(), "u1");
    assert_eq!(responses.tool_use_by_name("Write").unwrap().id(), "u2");
    assert!(responses.tool_use_by_name("Bash").is_none());
    assert_eq!(responses.tool_uses_by_name("Read").iter().map(|t| t.id()).collect::<Vec<_>>(), vec!["u1", "u3"]);
    assert_eq!(responses.completion().unwrap().subtype(), "two");
    assert_eq!(responses.init().unwrap().session_id(), Some("s"));
    assert_eq!(responses.init().unwrap().model(), Some("m"));
    assert_eq!(responses.init().unwrap().cwd(), Some("/w"));
    assert!(responses.has_error());
    assert_eq!(responses.first_error().unwrap().as_system(), Some("first"));
    assert_eq!(responses.clone().into_inner().len(), 13);

    let empty = Responses::default();
    assert!(empty.is_empty());
    assert_eq!(empty.text_content(), "");
    assert!(empty.completion().is_none() && empty.init().is_none() && empty.first_error().is_none());
    assert!(!empty.has_error());
}

#[test]
fn an_event_is_of_one_kind() {
    let responses = sample().into_inner();
    let kinds: Vec<[bool; 7]> = responses
        .iter()
        .map(|r| [r.is_text(), r.is_tool_use(), r.is_tool_result(), r.is_thinking(), r.is_init(), r.is_error(), r.is_complete()])
        .collect();
    for (response, kind) in responses.iter().zip(&kinds) {
        assert_eq!(kind.iter().filter(|k| **k).count(), 1);
        assert_eq!(
            [
                response.as_text().is_some(),
                response.as_tool_use().is_some(),
                response.as_tool_result().is_some(),
                response.as_thinking().is_some(),
                response.as_init().is_some(),
                response.as_error().is_some(),
                response.as_complete().is_some(),
            ],
            *kind
        );
        assert_eq!(
            [
                response.clone().into_text().is_some(),
                response.clone().into_tool_use().is_some(),
                response.clone().into_tool_result().is_some(),
                response.clone().into_thinking().is_some(),
                response.clone().into_init().is_some(),
                response.clone().into_error().is_some(),
                response.clone().into_complete().is_some(),
            ],
            *kind
        );
    }
    let error = ErrorResponse::Assistant(AssistantError::AuthenticationFailed);
    assert!(error.is_assistant() && !error.is_system() && error.is_authentication_failed());
    assert!(!error.is_rate_limit() && !error.is_billing_error());
    assert_eq!(error.as_assistant(), Some(&AssistantError::AuthenticationFailed));
    assert_eq!(error.as_system(), None);
    assert_eq!(error.message(), "authentication failed");
    let system = ErrorResponse::System("down".to_string());
    assert!(system.is_system() && !system.is_assistant() && system.as_assistant().is_none());
    assert_eq!(system.message(), "down");
    assert!(ErrorResponse::Assistant(AssistantError::BillingError).is_billing_error());
    assert!(ErrorResponse::Assistant(AssistantError::RateLimit).is_rate_limit());
}

#[test]
fn a_message_gives_its_events() {
    let blocks = vec![ContentBlock::text("a"), ContentBlock::thinking("b", "c"), ContentBlock::tool_use("d", "e", Json::null()), ContentBlock::tool_result("d")];
    let message = Message::Assistant(AssistantEnvelope::new(AssistantMessageInner::new(blocks.clone(), "m")));
    let events = Response::from_message(&message);
    assert_eq!(events.len(), 4);
    assert!(events[0].is_text() && events[1].is_thinking() && events[2].is_tool_use() && events[3].is_tool_result());
    for (block, event) in blocks.iter().zip(&events) {
        assert_eq!(format!("{:?}", Response::from_block(block)), format!("{:?}", event));
    }
    let failed = Message::Assistant(AssistantEnvelope::new(AssistantMessageInner::new(blocks, "m").with_error(AssistantError::Unknown)));
    let events = Response::from_message(&failed);
    assert_eq!(events.len(), 1);
    assert_eq!(events[0].as_error().unwrap().as_assistant(), Some(&AssistantError::Unknown));
    assert!(Response::from_message(&Message::User(UserEnvelope::new(UserMessageInner::new(UserContent::Text("x".to_string()))))).is_empty());
    assert!(Response::from_message(&Message::Assistant(AssistantEnvelope::new(AssistantMessageInner::new(vec![], "m")))).is_empty());
    let events = Response::from_message(&Message::System(SystemMessage::Init(InitMessage::new())));
    assert!(events.len() == 1 && events[0].is_init());
    let events = Response::from_message(&Message::System(SystemMessage::Error(ErrorMessage::new("e"))));
    assert!(events.len() == 1 && events[0].as_error().unwrap().as_system() == Some("e"));
    let events = Response::from_message(&Message::Result(ResultMessage::new("success", "s").with_num_turns(2)));
    assert!(events.len() == 1 && events[0].as_complete().unwrap().num_turns() == 2);
    assert_eq!(events[0].as_complete().unwrap().total_cost_usd(), None);
    assert_eq!(events[0].as_complete().unwrap().result_text(), None);
    assert_eq!(events[0].as_complete().unwrap().structured_output(), None);
    assert!(events[0].as_complete().unwrap().usage().is_none());
}

struct Count(RefCell<Vec<&'static str>>);

impl Handler for Count {
    fn on_text(&self, _text: &TextResponse) {
        self.0.borrow_mut().push("text");
    }

    fn on_complete(&self, _complete: &CompleteResponse) {
        self.0.borrow_mut().push("complete");
    }
}

#[test]
fn an_event_goes_to_the_method_for_its_kind() {
    let handler = Count(RefCell::new(Vec::new()));
    let kinds: Vec<ResponseKind> = sample().into_inner().iter().map(|r| dispatch(&handler, r)).collect();
    assert_eq!(*handler.0.borrow(), vec!["text", "text", "complete", "complete"]);
    assert_eq!(kinds[0], ResponseKind::Init);
    assert_eq!(kinds[1], ResponseKind::Thinking);
    assert_eq!(kinds[2], ResponseKind::Text);
    assert_eq!(kinds[3], ResponseKind::ToolUse);
    assert_eq!(kinds[4], ResponseKind::ToolResult);
    assert_eq!(kinds[8], ResponseKind::Error);
    assert_eq!(kinds[12], ResponseKind::Complete);
    let boxed: Box<dyn Handler> = Box::new(DefaultHandler);
    assert_eq!(dispatch(boxed.as_ref(), &Response::Text(TextResponse(Text::new("x")))), ResponseKind::Text);
}
