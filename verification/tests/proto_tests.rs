use clauders::codec::{parse, render};
use clauders::json::Json;
use clauders::proto::content_block::{ContentBlock, Text, Thinking, ToolResult, ToolUse};
use clauders::proto::control::{
    ErrorCode, ErrorDetail, ErrorResponse, HookCallbackRequest, InitializeRequest,
    McpMessageRequest, PermissionMode, PermissionRequest, PermissionUpdate, Request,
    RequestEnvelope, Response, ResponseEnvelope, ServerInfo, SetModelRequest,
    SetPermissionModeRequest, SuccessResponse,
};
use clauders::proto::incoming::{ControlRequestEnvelope, ControlResponseEnvelope, Incoming};
use clauders::proto::message::{
    AssistantEnvelope, AssistantError, AssistantMessageInner, ErrorMessage, InitMessage, Message,
    OutgoingUserInner, OutgoingUserMessage, ResultMessage, SystemMessage, Usage, UserContent,
    UserEnvelope, UserMessageInner,
};

fn text_of(j: &Json) -> String {
    render(j).unwrap()
}

#[test]
fn blocks_go_to_the_wire_and_come_back() {
    let blocks = vec![
        ContentBlock::text("hi"),
        ContentBlock::tool_use("u1", "Read", parse("{\"path\":\"/a\"}").unwrap()),
        ContentBlock::tool_result("u1"),
        ContentBlock::ToolResult(ToolResult::new("u2").with_content(Json::text("out")).with_error(true)),
        ContentBlock::thinking("hm", "sig"),
    ];
    let wire = ContentBlock::all_to_json(&blocks);
    assert_eq!(text_of(&wire[0]), "{\"text\":\"hi\",\"type\":\"text\"}");
    assert_eq!(text_of(&wire[1]), "{\"id\":\"u1\",\"input\":{\"path\":\"/a\"},\"name\":\"Read\",\"type\":\"tool_use\"}");
    assert_eq!(text_of(&wire[2]), "{\"tool_use_id\":\"u1\",\"type\":\"tool_result\"}");
    assert_eq!(text_of(&wire[3]), "{\"content\":\"out\",\"is_error\":true,\"tool_use_id\":\"u2\",\"type\":\"tool_result\"}");
    assert_eq!(text_of(&wire[4]), "{\"signature\":\"sig\",\"thinking\":\"hm\",\"type\":\"thinking\"}");
    let back = ContentBlock::all_from_json(&wire).unwrap();
    assert_eq!(back.len(), 5);
    assert_eq!(text_of(&Json::array(ContentBlock::all_to_json(&back))), text_of(&Json::array(wire)));
    assert!(matches!(&back[3], ContentBlock::ToolResult(r) if r.is_error() == Some(true) && r.content() == Some(&Json::text("out"))));
    assert_eq!(ContentBlock::clone_all(&back).len(), 5);

    assert!(ContentBlock::from_json(&parse("{\"type\":\"text\"}").unwrap()).is_none());
    assert!(ContentBlock::from_json(&parse("{\"type\":\"text\",\"text\":1}").unwrap()).is_none());
    assert!(ContentBlock::from_json(&parse("{\"text\":\"x\"}").unwrap()).is_none());
    assert!(ContentBlock::from_json(&parse("{\"type\":\"tool_use\",\"id\":\"a\",\"name\":\"b\"}").unwrap()).is_none());
    assert!(ContentBlock::from_json(&parse("{\"type\":\"tool_result\",\"tool_use_id\":\"a\",\"is_error\":\"yes\"}").unwrap()).is_none());
    assert!(ContentBlock::from_json(&parse("{\"type\":\"tool_result\",\"tool_use_id\":\"a\",\"is_error\":null,\"content\":null}").unwrap()).is_some());
    assert!(ContentBlock::from_json(&parse("{\"type\":\"thinking\",\"thinking\":\"a\"}").unwrap()).is_none());
    assert!(ContentBlock::all_from_json(&vec![parse("{\"type\":\"text\",\"text\":\"a\"}").unwrap(), Json::null()]).is_none());
    assert_eq!(ContentBlock::all_from_json(&vec![]).unwrap().len(), 0);
}

#[test]
fn blocks_are_set_and_read() {
    let mut text = Text::new("a").with_text("b");
    text.set_text("c");
    assert_eq!(text.text(), "c");
    let mut tool_use = ToolUse::new("i", "n", Json::null()).with_id("i2").with_name("n2").with_input(Json::integer(1));
    assert_eq!((tool_use.id(), tool_use.name(), tool_use.input()), ("i2", "n2", &Json::Int(1)));
    tool_use.set_id("i3");
    tool_use.set_name("n3");
    tool_use.set_input(Json::boolean(true));
    assert_eq!((tool_use.id(), tool_use.name(), tool_use.input()), ("i3", "n3", &Json::Bool(true)));
    let mut result = ToolResult::new("t").with_tool_use_id("t2");
    assert_eq!((result.tool_use_id(), result.content(), result.is_error()), ("t2", None, None));
    result.set_tool_use_id("t3");
    result.set_content(Some(Json::null()));
    result.set_is_error(Some(false));
    assert_eq!((result.tool_use_id(), result.content(), result.is_error()), ("t3", Some(&Json::Null), Some(false)));
    let mut thinking = Thinking::new("a", "b").with_thinking("c").with_signature("d");
    assert_eq!((thinking.thinking(), thinking.signature()), ("c", "d"));
    thinking.set_thinking("e");
    thinking.set_signature("f");
    assert_eq!((thinking.thinking(), thinking.signature()), ("e", "f"));
}

#[test]
fn outgoing_messages_have_their_shape() {
    assert_eq!(
        text_of(&OutgoingUserMessage::text("Hello").to_json()),
        "{\"message\":{\"content\":\"Hello\",\"role\":\"user\"},\"type\":\"user\"}"
    );
    let blocks = OutgoingUserMessage::blocks(vec![ContentBlock::text("a")]);
    assert_eq!(
        text_of(&blocks.to_json()),
        "{\"message\":{\"content\":[{\"text\":\"a\",\"type\":\"text\"}],\"role\":\"user\"},\"type\":\"user\"}"
    );
    assert_eq!(blocks.msg_type(), "user");
    assert_eq!(blocks.message().role(), "user");
    let mut other = blocks.with_msg_type("x").with_message(OutgoingUserInner::new("r", UserContent::Text("t".to_string())).with_role("r2").with_content(UserContent::Text("u".to_string())));
    assert_eq!(text_of(&other.to_json()), "{\"message\":{\"content\":\"u\",\"role\":\"r2\"},\"type\":\"x\"}");
    other.set_msg_type("user");
    let mut inner = OutgoingUserInner::new("user", UserContent::Text("v".to_string()));
    inner.set_role("assistant");
    inner.set_content(UserContent::Blocks(vec![]));
    assert!(matches!(inner.content(), UserContent::Blocks(b) if b.is_empty()));
    other.set_message(inner);
    assert_eq!(text_of(&other.to_json()), "{\"message\":{\"content\":[],\"role\":\"assistant\"},\"type\":\"user\"}");
}

#[test]
fn requests_go_to_the_wire_and_come_back() {
    let requests = vec![
        (Request::Interrupt, "{\"subtype\":\"interrupt\"}"),
        (
            Request::CanUseTool(
                PermissionRequest::new("Bash", parse("{\"c\":1}").unwrap())
                    .with_permission_suggestions(vec![PermissionUpdate::new("Bash").with_rule("ls"), PermissionUpdate::new("Read")])
                    .with_blocked_path("/etc"),
            ),
            "{\"blocked_path\":\"/etc\",\"input\":{\"c\":1},\"permission_suggestions\":[{\"rule\":\"ls\",\"tool_name\":\"Bash\"},{\"tool_name\":\"Read\"}],\"subtype\":\"can_use_tool\",\"tool_name\":\"Bash\"}",
        ),
        (Request::Initialize(InitializeRequest::new()), "{\"subtype\":\"initialize\"}"),
        (
            Request::Initialize(InitializeRequest::new().with_hooks(vec![("hookCallbackIds".to_string(), Json::empty_object())])),
            "{\"hooks\":{\"hookCallbackIds\":{}},\"subtype\":\"initialize\"}",
        ),
        (
            Request::SetPermissionMode(SetPermissionModeRequest::new(PermissionMode::Plan)),
            "{\"mode\":\"plan\",\"subtype\":\"set_permission_mode\"}",
        ),
        (
            Request::HookCallback(HookCallbackRequest::new("hook_1", Json::empty_object()).with_tool_use_id("u")),
            "{\"callback_id\":\"hook_1\",\"input\":{},\"subtype\":\"hook_callback\",\"tool_use_id\":\"u\"}",
        ),
        (
            Request::McpMessage(McpMessageRequest::new("calc", parse("{\"method\":\"initialize\"}").unwrap())),
            "{\"message\":{\"method\":\"initialize\"},\"server_name\":\"calc\",\"subtype\":\"mcp_message\"}",
        ),
        (Request::SetModel(SetModelRequest::new("opus")), "{\"model\":\"opus\",\"subtype\":\"set_model\"}"),
        (Request::GetServerInfo, "{\"subtype\":\"get_server_info\"}"),
    ];
    for (request, wire) in requests {
        let json = request.to_json();
        assert_eq!(text_of(&json), wire);
        let back = Request::from_json(&json).unwrap();
        assert_eq!(text_of(&back.to_json()), wire);
        assert_eq!(back.subtype(), request.subtype());
    }
    assert!(Request::from_json(&parse("{\"subtype\":\"unknown\"}").unwrap()).is_none());
    assert!(Request::from_json(&parse("{\"subtype\":\"set_model\"}").unwrap()).is_none());
    assert!(Request::from_json(&parse("{\"subtype\":\"initialize\",\"hooks\":[]}").unwrap()).is_none());
    assert!(Request::from_json(&parse("{\"subtype\":\"can_use_tool\",\"tool_name\":\"t\",\"input\":1,\"permission_suggestions\":[{}]}").unwrap()).is_none());
    assert!(Request::from_json(&Json::null()).is_none());
}

#[test]
fn envelopes_have_their_shape() {
    let request = RequestEnvelope::new_with("id-1", Request::SetModel(SetModelRequest::new("haiku")));
    assert_eq!(
        text_of(&request.to_json()),
        "{\"request\":{\"model\":\"haiku\",\"subtype\":\"set_model\"},\"request_id\":\"id-1\",\"type\":\"control_request\"}"
    );
    assert_eq!((request.msg_type(), request.request_id()), ("control_request", "id-1"));
    assert!(matches!(request.request(), Request::SetModel(m) if m.model() == "haiku"));
    let mut request = request.with_msg_type("t").with_request_id("id-2").with_request(Request::Interrupt);
    request.set_msg_type("control_request");
    request.set_request_id("id-3");
    request.set_request(Request::GetServerInfo);
    assert_eq!(text_of(&request.to_json()), "{\"request\":{\"subtype\":\"get_server_info\"},\"request_id\":\"id-3\",\"type\":\"control_request\"}");
    assert_eq!(RequestEnvelope::interrupt("x").request_id(), "x");
    let fresh = RequestEnvelope::new(Request::Interrupt);
    assert_eq!(fresh.request_id().len(), 36);
    assert_eq!(fresh.request_id().matches('-').count(), 4);

    let success = ResponseEnvelope::success("r1", Some(parse("{\"k\":1}").unwrap()));
    assert_eq!(
        text_of(&success.to_json()),
        "{\"response\":{\"request_id\":\"r1\",\"response\":{\"k\":1},\"subtype\":\"success\"},\"type\":\"control_response\"}"
    );
    assert_eq!(
        text_of(&ResponseEnvelope::success("r1", None).to_json()),
        "{\"response\":{\"request_id\":\"r1\",\"subtype\":\"success\"},\"type\":\"control_response\"}"
    );
    let error = ResponseEnvelope::error("r2", ErrorCode::InvalidParams, "bad");
    assert_eq!(
        text_of(&error.to_json()),
        "{\"response\":{\"error\":{\"code\":-32602,\"message\":\"bad\"},\"request_id\":\"r2\",\"subtype\":\"error\"},\"type\":\"control_response\"}"
    );
    assert_eq!(error.msg_type(), "control_response");
    assert!(matches!(error.response(), Response::Error(e) if e.request_id() == "r2" && e.error().code() == -32602));
    let mut changed = error.with_msg_type("m").with_response(Response::Success(SuccessResponse::new("r3").with_response(Json::null()).with_request_id("r4")));
    changed.set_msg_type("control_response");
    assert_eq!(text_of(&changed.to_json()), "{\"response\":{\"request_id\":\"r4\",\"response\":null,\"subtype\":\"success\"},\"type\":\"control_response\"}");
    changed.set_response(Response::Error(ErrorResponse::new("r5", ErrorDetail::new(1, "m").with_data(Json::integer(2)).with_code(3).with_message("n")).with_request_id("r6")));
    assert_eq!(text_of(&changed.to_json()), "{\"response\":{\"error\":{\"code\":3,\"data\":2,\"message\":\"n\"},\"request_id\":\"r6\",\"subtype\":\"error\"},\"type\":\"control_response\"}");
    let back = Response::from_json(&changed.response().to_json()).unwrap();
    assert!(matches!(back, Response::Error(e) if e.error().data() == Some(&Json::Int(2)) && e.error().message() == "n"));
    assert!(Response::from_json(&parse("{\"subtype\":\"error\",\"request_id\":\"r\",\"error\":{\"code\":4294967296,\"message\":\"m\"}}").unwrap()).is_none());
}

#[test]
fn control_payloads_are_set_and_read() {
    let mut update = PermissionUpdate::new("a").with_tool_name("b");
    update.set_tool_name("c");
    update.set_rule(Some("r".to_string()));
    assert_eq!((update.tool_name(), update.rule()), ("c", Some("r")));
    let mut permission = PermissionRequest::new("t", Json::null()).with_tool_name("u").with_input(Json::integer(1));
    permission.set_tool_name("v");
    permission.set_input(Json::integer(2));
    permission.set_permission_suggestions(Some(vec![update]));
    permission.set_blocked_path(Some("/p".to_string()));
    assert_eq!((permission.tool_name(), permission.input(), permission.blocked_path()), ("v", &Json::Int(2), Some("/p")));
    assert_eq!(permission.permission_suggestions().unwrap().len(), 1);
    let mut init = InitializeRequest::default();
    assert!(init.hooks().is_none());
    init.set_hooks(Some(vec![]));
    assert!(init.hooks().unwrap().is_empty());
    let mut mode = SetPermissionModeRequest::new(PermissionMode::Default).with_mode(PermissionMode::Plan);
    mode.set_mode(PermissionMode::AcceptEdits);
    assert_eq!(mode.mode(), PermissionMode::AcceptEdits);
    let mut hook = HookCallbackRequest::new("a", Json::null()).with_callback_id("b").with_input(Json::integer(1));
    hook.set_callback_id("c");
    hook.set_input(Json::integer(2));
    hook.set_tool_use_id(Some("u".to_string()));
    assert_eq!((hook.callback_id(), hook.input(), hook.tool_use_id()), ("c", &Json::Int(2), Some("u")));
    let mut mcp = McpMessageRequest::new("a", Json::null()).with_server_name("b").with_message(Json::integer(1));
    mcp.set_server_name("c");
    mcp.set_message(Json::integer(2));
    assert_eq!((mcp.server_name(), mcp.message()), ("c", &Json::Int(2)));
    let mut model = SetModelRequest::new("a").with_model("b");
    model.set_model("c");
    assert_eq!(model.model(), "c");
    let mut success = SuccessResponse::new("a");
    success.set_request_id("b");
    success.set_response(Some(Json::null()));
    assert_eq!((success.request_id(), success.response()), ("b", Some(&Json::Null)));
    let mut error = ErrorResponse::new("a", ErrorDetail::new(1, "m")).with_error(ErrorDetail::new(2, "n"));
    error.set_request_id("b");
    error.set_error(ErrorDetail::new(3, "o"));
    assert_eq!((error.request_id(), error.error().code()), ("b", 3));
    let mut detail = ErrorDetail::new(1, "m");
    detail.set_code(2);
    detail.set_message("n");
    detail.set_data(Some(Json::null()));
    assert_eq!((detail.code(), detail.message(), detail.data()), (2, "n", Some(&Json::Null)));
    let mut info = ServerInfo::new("1").with_version("2").with_capabilities(vec!["c".to_string()]).with_commands(vec!["d".to_string()]).with_output_styles(vec!["e".to_string()]);
    assert_eq!((info.version(), info.capabilities().len(), info.commands().len(), info.output_styles().len()), ("2", 1, 1, 1));
    info.set_version("3");
    info.set_capabilities(vec![]);
    info.set_commands(vec![]);
    info.set_output_styles(vec![]);
    assert_eq!((info.version(), info.capabilities().len(), info.commands().len(), info.output_styles().len()), ("3", 0, 0, 0));
    assert!(ServerInfo::from_json(&parse("{\"version\":\"1\",\"capabilities\":[1]}").unwrap()).is_none());
    assert!(ServerInfo::from_json(&parse("{\"capabilities\":[]}").unwrap()).is_none());
}

#[test]
fn incoming_values_are_set_and_read() {
    let mut request = ControlRequestEnvelope::new("a", Request::Interrupt).with_request_id("b").with_request(Request::GetServerInfo);
    request.set_request_id("c");
    request.set_request(Request::Interrupt);
    assert_eq!(request.request_id(), "c");
    assert!(matches!(request.request(), Request::Interrupt));
    let mut response = ControlResponseEnvelope::new(Response::Success(SuccessResponse::new("a"))).with_response(Response::Success(SuccessResponse::new("b")));
    response.set_response(Response::Success(SuccessResponse::new("c")));
    assert!(matches!(response.response(), Response::Success(s) if s.request_id() == "c"));
    let incoming = Incoming::ControlRequest(request);
    assert!(incoming.as_control_request().is_some());
    assert!(incoming.as_control_response().is_none());
    assert!(incoming.to_message().is_none());
    let incoming = Incoming::ControlResponse(response);
    assert!(incoming.as_control_request().is_none());
    assert!(incoming.as_control_response().is_some());
    assert!(incoming.to_message().is_none());
    let incoming = Incoming::System(SystemMessage::Error(ErrorMessage::new("e")));
    assert!(matches!(incoming.to_message(), Some(Message::System(SystemMessage::Error(e))) if e.error() == "e"));
    let incoming = Incoming::User(UserEnvelope::new(UserMessageInner::new(UserContent::Text("t".to_string()))));
    assert!(matches!(incoming.to_message(), Some(Message::User(u)) if matches!(u.message().content(), UserContent::Text(t) if t == "t")));
}

#[test]
fn messages_are_set_and_read() {
    let mut inner = AssistantMessageInner::new(vec![ContentBlock::text("a")], "m").with_model("n").with_content(vec![]).with_error(AssistantError::ServerError);
    assert_eq!((inner.content().len(), inner.model(), inner.error()), (0, "n", Some(AssistantError::ServerError)));
    inner.set_content(vec![ContentBlock::text("b")]);
    inner.set_model("o");
    inner.set_error(None);
    assert_eq!((inner.content().len(), inner.model(), inner.error()), (1, "o", None));
    let mut envelope = AssistantEnvelope::new(inner.clone()).with_message(inner.clone());
    envelope.set_message(inner);
    assert_eq!(envelope.message().model(), "o");
    let mut user = UserMessageInner::new(UserContent::Text("a".to_string())).with_content(UserContent::Text("b".to_string()));
    user.set_content(UserContent::Blocks(vec![]));
    let mut user_envelope = UserEnvelope::new(user.clone()).with_message(user.clone());
    user_envelope.set_message(user);
    assert!(matches!(user_envelope.message().content(), UserContent::Blocks(_)));
    let mut init = InitMessage::new().with_session_id("s").with_model("m").with_cwd("/w");
    assert_eq!((init.session_id(), init.model(), init.cwd()), (Some("s"), Some("m"), Some("/w")));
    init.set_session_id(None);
    init.set_model(None);
    init.set_cwd(None);
    assert_eq!((init.session_id(), init.model(), init.cwd()), (None, None, None));
    assert_eq!(InitMessage::default().session_id(), None);
    let mut error = ErrorMessage::new("a").with_error("b");
    error.set_error("c");
    assert_eq!(error.error(), "c");
    let mut usage = Usage::new().with_input_tokens(1).with_output_tokens(2).with_total_tokens(3).with_cache_creation_input_tokens(4).with_cache_read_input_tokens(5);
    assert_eq!(
        (usage.input_tokens(), usage.output_tokens(), usage.total_tokens(), usage.cache_creation_input_tokens(), usage.cache_read_input_tokens()),
        (Some(1), Some(2), Some(3), Some(4), Some(5))
    );
    usage.set_input_tokens(None);
    usage.set_output_tokens(None);
    usage.set_total_tokens(None);
    usage.set_cache_creation_input_tokens(None);
    usage.set_cache_read_input_tokens(None);
    assert_eq!(
        (usage.input_tokens(), usage.output_tokens(), usage.total_tokens(), usage.cache_creation_input_tokens(), usage.cache_read_input_tokens()),
        (None, None, None, None, None)
    );
    assert!(Usage::default().extra().is_empty());
    usage.set_total_tokens(Some(9));
    assert!(Usage::from_json(&Json::empty_object()).is_some());
    assert!(Usage::from_json(&Json::integer(1)).is_none());
    assert!(Usage::from_json(&parse("{\"input_tokens\":\"1\"}").unwrap()).is_none());
    let mut result = ResultMessage::new("success", "s")
        .with_subtype("a")
        .with_duration_ms(1)
        .with_duration_api_ms(2)
        .with_is_error(true)
        .with_num_turns(3)
        .with_session_id("t")
        .with_usage(usage.clone())
        .with_total_cost_usd(Json::Real("0.5".to_string()))
        .with_result("r")
        .with_structured_output(Json::null());
    assert_eq!((result.subtype(), result.duration_ms(), result.duration_api_ms(), result.is_error(), result.num_turns(), result.session_id()), ("a", 1, 2, true, 3, "t"));
    assert_eq!(result.usage().unwrap().total_tokens(), Some(9));
    assert_eq!((result.result(), result.structured_output(), result.total_cost_usd()), (Some("r"), Some(&Json::Null), Some(&Json::Real("0.5".to_string()))));
    result.set_subtype("b");
    result.set_duration_ms(4);
    result.set_duration_api_ms(5);
    result.set_is_error(false);
    result.set_num_turns(6);
    result.set_session_id("u");
    result.set_usage(None);
    result.set_total_cost_usd(None);
    result.set_result(None);
    result.set_structured_output(None);
    assert_eq!((result.subtype(), result.duration_ms(), result.duration_api_ms(), result.is_error(), result.num_turns(), result.session_id()), ("b", 4, 5, false, 6, "u"));
    assert!(result.usage().is_none() && result.total_cost_usd().is_none());
    assert_eq!((result.result(), result.structured_output()), (None, None));
}

#[test]
fn members_that_are_not_known_are_kept() {
    let block = ContentBlock::from_json(&parse("{\"type\":\"text\",\"z\":1,\"text\":\"x\",\"a\":[true]}").unwrap()).unwrap();
    match &block {
        ContentBlock::Text(t) => {
            assert_eq!(t.text(), "x");
            assert_eq!(t.extra(), &vec![("a".to_string(), parse("[true]").unwrap()), ("z".to_string(), Json::Int(1))]);
        }
        other => panic!("not a text block: {:?}", other),
    }
    assert_eq!(text_of(&block.to_json()), "{\"a\":[true],\"text\":\"x\",\"type\":\"text\",\"z\":1}");
    let text = Text::new("y").with_extra(vec![("k".to_string(), Json::null())]);
    assert_eq!(text_of(&text.to_json()), "{\"k\":null,\"text\":\"y\",\"type\":\"text\"}");
    assert_eq!(text.clone().extra().len(), 1);
    let mut tool_use = ToolUse::new("i", "n", Json::null());
    tool_use.set_extra(vec![("cache".to_string(), Json::boolean(true))]);
    assert_eq!(text_of(&tool_use.to_json()), "{\"cache\":true,\"id\":\"i\",\"input\":null,\"name\":\"n\",\"type\":\"tool_use\"}");
    assert!(ToolResult::new("t").extra().is_empty() && Thinking::new("a", "b").extra().is_empty());

    let request = Request::from_json(&parse("{\"subtype\":\"set_model\",\"model\":\"m\",\"why\":\"x\"}").unwrap()).unwrap();
    assert!(matches!(&request, Request::SetModel(m) if m.extra() == &vec![("why".to_string(), Json::text("x"))]));
    assert_eq!(text_of(&request.to_json()), "{\"model\":\"m\",\"subtype\":\"set_model\",\"why\":\"x\"}");
    let hook = HookCallbackRequest::from_json(&parse("{\"subtype\":\"hook_callback\",\"callback_id\":\"c\",\"input\":1,\"tool_use_id\":null,\"n\":2}").unwrap()).unwrap();
    assert_eq!(hook.extra(), &vec![("n".to_string(), Json::Int(2))]);
    let response = Response::from_json(&parse("{\"subtype\":\"success\",\"request_id\":\"r\",\"took\":3}").unwrap()).unwrap();
    assert!(matches!(&response, Response::Success(s) if s.extra().len() == 1));
    assert_eq!(text_of(&response.to_json()), "{\"request_id\":\"r\",\"subtype\":\"success\",\"took\":3}");
    let info = ServerInfo::from_json(&parse("{\"version\":\"1\",\"pid\":7}").unwrap()).unwrap();
    assert_eq!(info.extra(), &vec![("pid".to_string(), Json::Int(7))]);
    assert!(ServerInfo::new("1").with_extra(vec![]).extra().is_empty());

    let line = "{\"type\":\"system\",\"subtype\":\"init\",\"session_id\":\"s\",\"tools\":[\"Read\"],\"apiKeySource\":\"none\"}";
    match clauders::transport::decode_line(line).unwrap() {
        Incoming::System(SystemMessage::Init(init)) => {
            assert_eq!(init.session_id(), Some("s"));
            assert_eq!(
                init.extra(),
                &vec![("apiKeySource".to_string(), Json::text("none")), ("tools".to_string(), parse("[\"Read\"]").unwrap())]
            );
        }
        other => panic!("not an init message: {:?}", other),
    }
    let line = "{\"type\":\"control_request\",\"request_id\":\"r\",\"request\":{\"subtype\":\"interrupt\"},\"seq\":4}";
    match clauders::transport::decode_line(line).unwrap() {
        Incoming::ControlRequest(envelope) => assert_eq!(envelope.extra(), &vec![("seq".to_string(), Json::Int(4))]),
        other => panic!("not a control request: {:?}", other),
    }
    let line = "{\"type\":\"assistant\",\"message\":{\"content\":[],\"model\":\"m\",\"id\":\"msg_1\",\"usage\":{\"input_tokens\":1,\"tier\":\"x\"}},\"parent_tool_use_id\":null}";
    match clauders::transport::decode_line(line).unwrap() {
        Incoming::Assistant(envelope) => {
            assert_eq!(envelope.message().extra().len(), 2);
            assert_eq!(envelope.message().extra()[0], ("id".to_string(), Json::text("msg_1")));
        }
        other => panic!("not an assistant message: {:?}", other),
    }
}
