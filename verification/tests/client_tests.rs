use clauders::client::{Client, HookCallbackEntry, HookRouter, Received};
use clauders::codec::{parse, render};
use clauders::error::Error;
use clauders::hooks::{
    Hooks, OnPostToolUse, OnPreToolUse, OnStop, OnUserPromptSubmit, PostToolUseCallback,
    PostToolUseInput, PostToolUseOutput, PreToolUseCallback, PreToolUseInput, PreToolUseOutput,
    StopCallback, StopInput, StopOutput, UserPromptSubmitCallback, UserPromptSubmitInput,
    UserPromptSubmitOutput,
};
use clauders::json::Json;
use clauders::mcp_server::McpServer;
use clauders::options::Options;
use clauders::proto::control::PermissionMode;
use clauders::proto::incoming::Incoming;
use clauders::response::Response;
use clauders::tool::{Tool, ToolError, ToolHandler, ToolInput};
use clauders::transport::{decode_line, encode_request, encode_response};
use std::cell::RefCell;
use std::rc::Rc;

struct Deny;

impl OnPreToolUse for Deny {
    fn call(&self, input: PreToolUseInput) -> PreToolUseOutput {
        PreToolUseOutput::deny(&format!("no {} in {}", input.tool_name(), input.session_id()))
    }
}

struct Context;

impl OnPostToolUse for Context {
    fn call(&self, input: PostToolUseInput) -> PostToolUseOutput {
        PostToolUseOutput::continue_with_context(&format!("ran {}", input.tool_name()))
    }
}

struct BlockPrompt;

impl OnUserPromptSubmit for BlockPrompt {
    fn call(&self, input: UserPromptSubmitInput) -> UserPromptSubmitOutput {
        UserPromptSubmitOutput::block(&format!("not '{}'", input.prompt()))
    }
}

struct StopSeen(Rc<RefCell<Vec<bool>>>);

impl OnStop for StopSeen {
    fn call(&self, input: StopInput) -> StopOutput {
        self.0.borrow_mut().push(input.stop_hook_active());
        StopOutput::pass()
    }
}

struct Fails(Rc<RefCell<u32>>);

impl ToolHandler for Fails {
    fn handle(&self, _input: ToolInput) -> Result<Json, ToolError> {
        *self.0.borrow_mut() += 1;
        Err(ToolError::execution_failed("boom"))
    }
}

fn hooks(stops: Rc<RefCell<Vec<bool>>>) -> Hooks {
    Hooks::new()
        .on_pre_tool_use(Some("Bash"), PreToolUseCallback::new(Box::new(Deny)))
        .on_pre_tool_use(None, PreToolUseCallback::new(Box::new(Deny)))
        .on_post_tool_use(Some("Write"), PostToolUseCallback::new(Box::new(Context)))
        .on_user_prompt_submit(UserPromptSubmitCallback::new(Box::new(BlockPrompt)))
        .on_user_prompt_submit(UserPromptSubmitCallback::new(Box::new(BlockPrompt)))
        .on_stop(StopCallback::new(Box::new(StopSeen(stops))))
}

fn drive(client: &mut Client, lines: &[&str]) -> (Vec<Response>, Vec<String>, Option<Error>, usize) {
    let mut events = Vec::new();
    let mut written = Vec::new();
    let mut read = 0;
    for line in lines {
        read += 1;
        match client.receive_line(line) {
            Ok(Received::Reply(envelope)) => written.push(encode_response(&envelope).unwrap()),
            Ok(Received::Responses { responses, complete }) => {
                events.extend(responses);
                if complete {
                    return (events, written, None, read);
                }
            }
            Ok(Received::Ignored) => {}
            Err(e) => return (events, written, Some(e), read),
        }
    }
    (events, written, None, read)
}

#[test]
fn a_tool_use_is_answered_once() {
    let mut client = Client::new(Options::new());
    let content = parse("[{\"type\":\"text\",\"text\":\"done\"}]").unwrap();
    let first = client.respond_to_tool("toolu_1", content.clone(), false).unwrap();
    assert_eq!(
        render(&first.to_json()).unwrap(),
        "{\"message\":{\"content\":[{\"content\":[{\"text\":\"done\",\"type\":\"text\"}],\"is_error\":false,\"tool_use_id\":\"toolu_1\",\"type\":\"tool_result\"}],\"role\":\"user\"},\"type\":\"user\"}"
    );
    client.tool_response_sent("toolu_1");
    let mut writes = 1;
    for _ in 0..5 {
        if client.respond_to_tool("toolu_1", content.clone(), true).is_some() {
            writes += 1;
        }
    }
    assert_eq!(writes, 1);
    assert!(client.respond_to_tool("toolu_2", content.clone(), true).is_some());
}

#[test]
fn a_tool_use_that_was_not_written_is_still_owed() {
    let client = Client::new(Options::new());
    assert!(client.respond_to_tool("t", Json::null(), false).is_some());
    assert!(client.respond_to_tool("t", Json::null(), false).is_some());
}

#[test]
fn clearing_the_tracking_allows_one_new_answer() {
    let mut client = Client::new(Options::new());
    assert!(client.respond_to_tool("t", Json::null(), false).is_some());
    client.tool_response_sent("t");
    assert!(client.respond_to_tool("t", Json::null(), false).is_none());
    client.clear_tool_response_tracking();
    let mut writes = 0;
    for _ in 0..3 {
        if client.respond_to_tool("t", Json::null(), false).is_some() {
            client.tool_response_sent("t");
            writes += 1;
        }
    }
    assert_eq!(writes, 1);
}

#[test]
fn init_text_and_result_are_three_events_and_an_identity() {
    let mut client = Client::new(Options::new());
    assert_eq!(client.session_id(), None);
    let (events, written, error, read) = drive(
        &mut client,
        &[
            "{\"type\":\"system\",\"subtype\":\"init\",\"session_id\":\"abc\"}",
            "{\"type\":\"assistant\",\"message\":{\"content\":[{\"type\":\"text\",\"text\":\"hi\"}],\"model\":\"m\"}}",
            "{\"type\":\"result\",\"subtype\":\"success\",\"duration_ms\":12,\"duration_api_ms\":7,\"is_error\":false,\"num_turns\":1,\"session_id\":\"abc\"}",
            "{\"type\":\"assistant\",\"message\":{\"content\":[{\"type\":\"text\",\"text\":\"late\"}],\"model\":\"m\"}}",
        ],
    );
    assert!(error.is_none());
    assert!(written.is_empty());
    assert_eq!(read, 3);
    assert_eq!(events.len(), 3);
    assert_eq!(events[0].as_init().unwrap().session_id(), Some("abc"));
    assert_eq!(events[1].as_text().unwrap().content(), "hi");
    let complete = events[2].as_complete().unwrap();
    assert_eq!(complete.num_turns(), 1);
    assert_eq!(complete.duration_ms(), 12);
    assert_eq!(complete.duration_api_ms(), 7);
    assert!(!complete.is_error());
    assert_eq!(complete.subtype(), "success");
    assert_eq!(complete.session_id(), "abc");
    assert_eq!(client.session_id(), Some("abc".to_string()));
}

#[test]
fn two_text_blocks_are_two_events_and_a_clean_end() {
    let mut client = Client::new(Options::new());
    let (events, written, error, read) = drive(
        &mut client,
        &["{\"type\":\"assistant\",\"message\":{\"content\":[{\"type\":\"text\",\"text\":\"ab\"},{\"type\":\"text\",\"text\":\"cd\"}],\"model\":\"m\"}}"],
    );
    assert!(error.is_none());
    assert!(written.is_empty());
    assert_eq!(read, 1);
    assert_eq!(events.len(), 2);
    assert_eq!(events[0].as_text().unwrap().content(), "ab");
    assert_eq!(events[1].as_text().unwrap().content(), "cd");
    assert!(events.iter().all(|e| !e.is_complete()));
    assert_eq!(client.session_id(), None);
}

#[test]
fn every_block_is_one_event_in_block_order() {
    let mut client = Client::new(Options::new());
    let (events, _, error, _) = drive(
        &mut client,
        &[
            "{\"type\":\"user\",\"message\":{\"content\":\"echo\"}}",
            "{\"type\":\"assistant\",\"message\":{\"content\":[{\"type\":\"thinking\",\"thinking\":\"t\",\"signature\":\"s\"},{\"type\":\"tool_use\",\"id\":\"u1\",\"name\":\"Read\",\"input\":{\"p\":1}},{\"type\":\"tool_result\",\"tool_use_id\":\"u1\",\"is_error\":true},{\"type\":\"text\",\"text\":\"x\"}],\"model\":\"m\"}}",
            "{\"type\":\"assistant\",\"message\":{\"content\":[],\"model\":\"m\"}}",
            "{\"type\":\"assistant\",\"message\":{\"content\":[{\"type\":\"text\",\"text\":\"dropped\"}],\"model\":\"m\",\"error\":\"rate_limit\"}}",
            "{\"type\":\"system\",\"subtype\":\"error\",\"error\":\"broken\"}",
        ],
    );
    assert!(error.is_none());
    assert_eq!(events.len(), 6);
    assert_eq!(events[0].as_thinking().unwrap().content(), "t");
    assert_eq!(events[0].as_thinking().unwrap().signature(), "s");
    assert_eq!(events[1].as_tool_use().unwrap().id(), "u1");
    assert_eq!(events[1].as_tool_use().unwrap().name(), "Read");
    assert_eq!(events[1].as_tool_use().unwrap().input().get("p").and_then(|v| v.as_i64()), Some(1));
    assert_eq!(events[2].as_tool_result().unwrap().tool_use_id(), "u1");
    assert!(events[2].as_tool_result().unwrap().is_error());
    assert!(events[2].as_tool_result().unwrap().content().is_none());
    assert_eq!(events[3].as_text().unwrap().content(), "x");
    assert!(events[4].as_error().unwrap().is_rate_limit());
    assert_eq!(events[4].as_error().unwrap().message(), "rate limit exceeded");
    assert_eq!(events[5].as_error().unwrap().as_system(), Some("broken"));
}

#[test]
fn a_line_that_is_no_value_of_the_protocol_is_a_protocol_error() {
    let mut client = Client::new(Options::new());
    let (events, _, error, read) = drive(
        &mut client,
        &[
            "{\"type\":\"assistant\",\"message\":{\"content\":[{\"type\":\"text\",\"text\":\"a\"}],\"model\":\"m\"}}",
            "{\"type\":\"mystery\"}",
            "{\"type\":\"assistant\",\"message\":{\"content\":[],\"model\":\"m\"}}",
        ],
    );
    assert_eq!(events.len(), 1);
    assert_eq!(read, 2);
    assert!(matches!(error, Some(Error::ProtocolError(m)) if m.starts_with("failed to parse: ")));
    let mut client = Client::new(Options::new());
    assert!(matches!(client.receive_line("not json"), Err(Error::ProtocolError(_))));
    assert!(matches!(
        client.receive_line("{\"type\":\"result\",\"subtype\":\"success\"}"),
        Err(Error::ProtocolError(_))
    ));
    assert_eq!(client.session_id(), None);
}

#[test]
fn a_message_for_an_endpoint_that_is_not_there_is_answered_with_success() {
    let mut client = Client::new(Options::new());
    let (events, written, error, _) = drive(
        &mut client,
        &["{\"type\":\"control_request\",\"request_id\":\"r7\",\"request\":{\"subtype\":\"mcp_message\",\"server_name\":\"calc\",\"message\":{\"jsonrpc\":\"2.0\",\"id\":4,\"method\":\"tools/list\"}}}"],
    );
    assert!(error.is_none());
    assert!(events.is_empty());
    assert_eq!(
        written,
        vec!["{\"response\":{\"request_id\":\"r7\",\"response\":{\"mcp_response\":{\"error\":{\"code\":-32601,\"message\":\"MCP server 'calc' not found\"},\"id\":null,\"jsonrpc\":\"2.0\"}},\"subtype\":\"success\"},\"type\":\"control_response\"}\n"]
    );
}

#[test]
fn a_message_for_an_endpoint_is_answered_by_the_endpoint() {
    let calls = Rc::new(RefCell::new(0));
    let server = McpServer::new(
        "calc",
        vec![Tool::new("fail", "Always fails", Json::empty_object(), None, Box::new(Fails(calls.clone())))],
    );
    let mut client = Client::new(Options::new().with_mcp_server("calc", server));
    let (_, written, error, _) = drive(
        &mut client,
        &[
            "{\"type\":\"control_request\",\"request_id\":\"r1\",\"request\":{\"subtype\":\"mcp_message\",\"server_name\":\"calc\",\"message\":{\"jsonrpc\":\"2.0\",\"id\":1,\"method\":\"tools/call\",\"params\":{\"name\":\"nope\"}}}}",
            "{\"type\":\"control_request\",\"request_id\":\"r2\",\"request\":{\"subtype\":\"mcp_message\",\"server_name\":\"calc\",\"message\":{\"jsonrpc\":\"2.0\",\"id\":2,\"method\":\"tools/call\",\"params\":{\"name\":\"fail\",\"arguments\":{}}}}}",
        ],
    );
    assert!(error.is_none());
    assert_eq!(written.len(), 2);
    assert_eq!(
        written[0],
        "{\"response\":{\"request_id\":\"r1\",\"response\":{\"mcp_response\":{\"error\":{\"code\":-32601,\"message\":\"tool 'nope' not found\"},\"id\":1,\"jsonrpc\":\"2.0\"}},\"subtype\":\"success\"},\"type\":\"control_response\"}\n"
    );
    assert_eq!(
        written[1],
        "{\"response\":{\"request_id\":\"r2\",\"response\":{\"mcp_response\":{\"id\":2,\"jsonrpc\":\"2.0\",\"result\":{\"content\":[{\"text\":\"execution failed: boom\",\"type\":\"text\"}],\"isError\":true}}},\"subtype\":\"success\"},\"type\":\"control_response\"}\n"
    );
    assert_eq!(*calls.borrow(), 1);
}

#[test]
fn other_control_traffic_is_passed_over() {
    let mut client = Client::new(Options::new());
    let (events, written, error, read) = drive(
        &mut client,
        &[
            "{\"type\":\"control_request\",\"request_id\":\"r1\",\"request\":{\"subtype\":\"interrupt\"}}",
            "{\"type\":\"control_request\",\"request_id\":\"r2\",\"request\":{\"subtype\":\"can_use_tool\",\"tool_name\":\"Bash\",\"input\":{}}}",
            "{\"type\":\"control_response\",\"response\":{\"subtype\":\"success\",\"request_id\":\"r3\"}}",
            "{\"type\":\"control_response\",\"response\":{\"subtype\":\"error\",\"request_id\":\"r4\",\"error\":{\"code\":1,\"message\":\"m\"}}}",
        ],
    );
    assert!(error.is_none());
    assert!(events.is_empty());
    assert!(written.is_empty());
    assert_eq!(read, 4);
}

#[test]
fn hook_identifiers_resolve_by_the_counts_of_the_lists() {
    let router = HookRouter::new(Some(hooks(Rc::new(RefCell::new(Vec::new())))));
    assert_eq!(router.resolve("hook_0"), Some(HookCallbackEntry::PreToolUse(0)));
    assert_eq!(router.resolve("hook_1"), Some(HookCallbackEntry::PreToolUse(1)));
    assert_eq!(router.resolve("hook_2"), Some(HookCallbackEntry::PostToolUse(0)));
    assert_eq!(router.resolve("hook_3"), Some(HookCallbackEntry::UserPromptSubmit(0)));
    assert_eq!(router.resolve("hook_4"), Some(HookCallbackEntry::UserPromptSubmit(1)));
    assert_eq!(router.resolve("hook_5"), Some(HookCallbackEntry::Stop(0)));
    assert_eq!(router.resolve("hook_6"), None);
    assert_eq!(router.resolve("hook_03"), None);
    assert_eq!(router.resolve("hook_"), None);
    assert_eq!(router.resolve("3"), None);
    assert_eq!(HookRouter::new(None).resolve("hook_0"), None);
    assert_eq!(HookRouter::new(Some(Hooks::new())).resolve("hook_0"), None);
    assert_eq!(clauders::client::hook_id_of(12), "hook_12");
    assert_eq!(clauders::client::hook_id_of(0), "hook_0");
}

#[test]
fn hooks_are_called_and_their_answers_wrapped() {
    let stops = Rc::new(RefCell::new(Vec::new()));
    let mut client = Client::new(Options::new().hooks(hooks(stops.clone())));
    let (events, written, error, _) = drive(
        &mut client,
        &[
            "{\"type\":\"control_request\",\"request_id\":\"a\",\"request\":{\"subtype\":\"hook_callback\",\"callback_id\":\"hook_1\",\"input\":{\"session_id\":\"s1\",\"transcript_path\":\"/t\",\"tool_name\":\"Bash\",\"tool_input\":{\"command\":\"ls\"}}}}",
            "{\"type\":\"control_request\",\"request_id\":\"b\",\"request\":{\"subtype\":\"hook_callback\",\"callback_id\":\"hook_2\",\"input\":{\"tool_name\":\"Write\",\"tool_response\":\"ok\"},\"tool_use_id\":\"u\"}}",
            "{\"type\":\"control_request\",\"request_id\":\"c\",\"request\":{\"subtype\":\"hook_callback\",\"callback_id\":\"hook_4\",\"input\":{\"prompt\":\"hello\"}}}",
            "{\"type\":\"control_request\",\"request_id\":\"d\",\"request\":{\"subtype\":\"hook_callback\",\"callback_id\":\"hook_5\",\"input\":{\"stop_hook_active\":true}}}",
            "{\"type\":\"control_request\",\"request_id\":\"e\",\"request\":{\"subtype\":\"hook_callback\",\"callback_id\":\"hook_9\",\"input\":{}}}",
        ],
    );
    assert!(error.is_none());
    assert!(events.is_empty());
    assert_eq!(written.len(), 5);
    assert_eq!(
        written[0],
        "{\"response\":{\"request_id\":\"a\",\"response\":{\"hookSpecificOutput\":{\"hookEventName\":\"PreToolUse\",\"permissionDecision\":\"deny\",\"permissionDecisionReason\":\"no Bash in s1\"}},\"subtype\":\"success\"},\"type\":\"control_response\"}\n"
    );
    assert_eq!(
        written[1],
        "{\"response\":{\"request_id\":\"b\",\"response\":{\"hookSpecificOutput\":{\"additionalContext\":\"ran Write\",\"hookEventName\":\"PostToolUse\"}},\"subtype\":\"success\"},\"type\":\"control_response\"}\n"
    );
    assert_eq!(
        written[2],
        "{\"response\":{\"request_id\":\"c\",\"response\":{\"decision\":\"block\",\"hookSpecificOutput\":{\"hookEventName\":\"UserPromptSubmit\"},\"reason\":\"not 'hello'\"},\"subtype\":\"success\"},\"type\":\"control_response\"}\n"
    );
    assert_eq!(
        written[3],
        "{\"response\":{\"request_id\":\"d\",\"response\":{\"hookSpecificOutput\":{\"hookEventName\":\"Stop\"}},\"subtype\":\"success\"},\"type\":\"control_response\"}\n"
    );
    assert_eq!(
        written[4],
        "{\"response\":{\"request_id\":\"e\",\"response\":{},\"subtype\":\"success\"},\"type\":\"control_response\"}\n"
    );
    assert_eq!(*stops.borrow(), vec![true]);
}

#[test]
fn the_first_request_tells_the_child_the_hooks() {
    let client = Client::new(Options::new().hooks(hooks(Rc::new(RefCell::new(Vec::new())))));
    assert_eq!(
        render(&client.build_hook_callback_ids()).unwrap(),
        "{\"PostToolUse\":[{\"callbackIds\":[\"hook_2\"],\"matcher\":\"Write\"}],\"PreToolUse\":[{\"callbackIds\":[\"hook_0\"],\"matcher\":\"Bash\"},{\"callbackIds\":[\"hook_1\"],\"matcher\":null}],\"Stop\":[\"hook_5\"],\"UserPromptSubmit\":[\"hook_3\",\"hook_4\"]}"
    );
    let first = client.initialize();
    assert_eq!(first.msg_type(), "control_request");
    assert_eq!(first.request_id().len(), 36);
    let line = encode_request(&first).unwrap();
    let expected = format!(
        "{{\"request\":{{\"hooks\":{{\"hookCallbackIds\":{}}},\"subtype\":\"initialize\"}},\"request_id\":\"{}\",\"type\":\"control_request\"}}\n",
        render(&client.build_hook_callback_ids()).unwrap(),
        first.request_id()
    );
    assert_eq!(line, expected);

    let plain = Client::new(Options::new());
    assert!(plain.build_hook_callback_ids().is_null());
    let first = plain.initialize();
    assert_eq!(
        encode_request(&first).unwrap(),
        format!("{{\"request\":{{\"subtype\":\"initialize\"}},\"request_id\":\"{}\",\"type\":\"control_request\"}}\n", first.request_id())
    );
    let only_stop = Client::new(Options::new().hooks(Hooks::new().on_stop(StopCallback::new(Box::new(StopSeen(Rc::new(RefCell::new(Vec::new()))))))));
    assert_eq!(render(&only_stop.build_hook_callback_ids()).unwrap(), "{\"Stop\":[\"hook_0\"]}");
    let none = Client::new(Options::new().hooks(Hooks::new()));
    assert_eq!(render(&none.build_hook_callback_ids()).unwrap(), "{}");
}

#[test]
fn fresh_requests_have_fresh_identifiers() {
    let client = Client::new(Options::new());
    let a = client.set_model("opus");
    let b = client.set_model("opus");
    assert_ne!(a.request_id(), b.request_id());
    assert!(a.request_id() < b.request_id());
    assert_eq!(
        encode_request(&a).unwrap(),
        format!("{{\"request\":{{\"model\":\"opus\",\"subtype\":\"set_model\"}},\"request_id\":\"{}\",\"type\":\"control_request\"}}\n", a.request_id())
    );
    let mode = client.set_permission_mode(PermissionMode::AcceptEdits);
    assert_eq!(
        encode_request(&mode).unwrap(),
        format!("{{\"request\":{{\"mode\":\"acceptEdits\",\"subtype\":\"set_permission_mode\"}},\"request_id\":\"{}\",\"type\":\"control_request\"}}\n", mode.request_id())
    );
    assert_eq!(
        encode_request(&client.interrupt()).unwrap(),
        "{\"request\":{\"subtype\":\"interrupt\"},\"request_id\":\"\",\"type\":\"control_request\"}\n"
    );
    let info = client.get_server_info();
    assert_eq!(
        encode_request(&info).unwrap(),
        format!("{{\"request\":{{\"subtype\":\"get_server_info\"}},\"request_id\":\"{}\",\"type\":\"control_request\"}}\n", info.request_id())
    );
    assert_eq!(
        render(&client.query("Hello").to_json()).unwrap(),
        "{\"message\":{\"content\":\"Hello\",\"role\":\"user\"},\"type\":\"user\"}"
    );
}

fn incoming(line: &str) -> Incoming {
    decode_line(line).unwrap()
}

#[test]
fn the_wait_for_the_server_information_ends_with_a_control_response() {
    assert!(matches!(Client::server_info_response(None), Some(Err(Error::ConnectionError(m))) if m == "stream ended"));
    let text = incoming("{\"type\":\"assistant\",\"message\":{\"content\":[],\"model\":\"m\"}}");
    assert!(Client::server_info_response(Some(&text)).is_none());
    let request = incoming("{\"type\":\"control_request\",\"request_id\":\"r\",\"request\":{\"subtype\":\"interrupt\"}}");
    assert!(Client::server_info_response(Some(&request)).is_none());
    let ok = incoming("{\"type\":\"control_response\",\"response\":{\"subtype\":\"success\",\"request_id\":\"r\",\"response\":{\"version\":\"2.1\",\"commands\":[\"a\",\"b\"],\"outputStyles\":[\"plain\"]}}}");
    let info = Client::server_info_response(Some(&ok)).unwrap().unwrap();
    assert_eq!(info.version(), "2.1");
    assert!(info.capabilities().is_empty());
    assert_eq!(info.commands(), &vec!["a".to_string(), "b".to_string()]);
    assert_eq!(info.output_styles(), &vec!["plain".to_string()]);
    let empty = incoming("{\"type\":\"control_response\",\"response\":{\"subtype\":\"success\",\"request_id\":\"r\"}}");
    assert!(matches!(Client::server_info_response(Some(&empty)), Some(Err(Error::ProtocolError(m))) if m == "empty response"));
    let odd = incoming("{\"type\":\"control_response\",\"response\":{\"subtype\":\"success\",\"request_id\":\"r\",\"response\":{\"commands\":7}}}");
    assert!(matches!(Client::server_info_response(Some(&odd)), Some(Err(Error::ProtocolError(_)))));
    let bare = incoming("{\"type\":\"control_response\",\"response\":{\"subtype\":\"success\",\"request_id\":\"r\",\"response\":{}}}");
    assert!(matches!(
        Client::server_info_response(Some(&bare)),
        Some(Err(Error::ProtocolError(m))) if m == "the server information lacks its members"
    ));
    let failed = incoming("{\"type\":\"control_response\",\"response\":{\"subtype\":\"error\",\"request_id\":\"r9\",\"error\":{\"code\":-32603,\"message\":\"no\"}}}");
    assert!(matches!(
        Client::server_info_response(Some(&failed)),
        Some(Err(Error::ControlError { request_id, message })) if request_id == "r9" && message == "no"
    ));
}

#[test]
fn a_run_over_lines_ends_with_the_first_result() {
    let stops = Rc::new(RefCell::new(Vec::new()));
    let mut client = Client::new(Options::new().hooks(hooks(stops.clone())));
    let lines: Vec<String> = [
        "{\"type\":\"system\",\"subtype\":\"init\",\"session_id\":\"abc\"}",
        "{\"type\":\"control_request\",\"request_id\":\"d\",\"request\":{\"subtype\":\"hook_callback\",\"callback_id\":\"hook_5\",\"input\":{}}}",
        "{\"type\":\"control_request\",\"request_id\":\"x\",\"request\":{\"subtype\":\"interrupt\"}}",
        "{\"type\":\"assistant\",\"message\":{\"content\":[{\"type\":\"text\",\"text\":\"hi\"}],\"model\":\"m\"}}",
        "{\"type\":\"system\",\"subtype\":\"init\",\"session_id\":\"def\"}",
        "{\"type\":\"result\",\"subtype\":\"success\",\"duration_ms\":1,\"duration_api_ms\":1,\"is_error\":false,\"num_turns\":1,\"session_id\":\"def\"}",
        "{\"type\":\"assistant\",\"message\":{\"content\":[{\"type\":\"text\",\"text\":\"late\"}],\"model\":\"m\"}}",
        "not read",
    ]
    .iter()
    .map(|l| l.to_string())
    .collect();
    let run = client.receive_all(&lines);
    assert!(run.error.is_none());
    assert_eq!(run.read, 6);
    assert_eq!(run.responses.len(), 4);
    assert!(run.responses[0].is_init() && run.responses[1].is_text() && run.responses[2].is_init());
    assert_eq!(run.responses[3].as_complete().unwrap().num_turns(), 1);
    assert_eq!(run.replies.len(), 1);
    assert_eq!(
        encode_response(&run.replies[0]).unwrap(),
        "{\"response\":{\"request_id\":\"d\",\"response\":{\"hookSpecificOutput\":{\"hookEventName\":\"Stop\"}},\"subtype\":\"success\"},\"type\":\"control_response\"}\n"
    );
    assert_eq!(client.session_id(), Some("def".to_string()));
    assert_eq!(*stops.borrow(), vec![false]);

    let rest = lines[6..].to_vec();
    let run = client.receive_all(&rest);
    assert_eq!((run.read, run.responses.len(), run.replies.len()), (2, 1, 0));
    assert!(matches!(run.error, Some(Error::ProtocolError(_))));
    assert_eq!(client.session_id(), Some("def".to_string()));

    let run = client.receive_all(&vec![]);
    assert_eq!((run.read, run.responses.len(), run.replies.len()), (0, 0, 0));
    assert!(run.error.is_none());
    let run = client.receive_all(&rest[..1].to_vec());
    assert_eq!((run.read, run.responses.len()), (1, 1));
    assert!(run.error.is_none());
}
