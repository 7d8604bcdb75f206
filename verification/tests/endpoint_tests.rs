use clauders::codec::{parse, render};
use clauders::json::Json;
use clauders::mcp_server::{McpServer, Plan};
use clauders::tool::{Tool, ToolError, ToolHandler, ToolInput};
use std::cell::RefCell;
use std::rc::Rc;

struct Counting {
    calls: Rc<RefCell<u32>>,
    fail: bool,
}

impl ToolHandler for Counting {
    fn handle(&self, input: ToolInput) -> Result<Json, ToolError> {
        *self.calls.borrow_mut() += 1;
        if self.fail {
            Err(ToolError::invalid_parameter("x", "bad"))
        } else {
            Ok(Tool::text_result(&format!("got {}", input.keys().len())))
        }
    }
}

fn server(calls: &Rc<RefCell<u32>>) -> McpServer {
    let schema = parse("{\"type\":\"object\"}").unwrap();
    McpServer::with_version(
        "calc",
        "2.3.4",
        vec![
            Tool::new("ok", "Works", schema.clone(), None, Box::new(Counting { calls: calls.clone(), fail: false })),
            Tool::new("bad", "Fails", schema, None, Box::new(Counting { calls: calls.clone(), fail: true })),
        ],
    )
}

fn answer(server: &McpServer, message: &str) -> String {
    render(&server.handle_json_message(&parse(message).unwrap())).unwrap()
}

#[test]
fn the_endpoint_says_what_it_is() {
    let calls = Rc::new(RefCell::new(0));
    let s = server(&calls);
    assert_eq!(s.name(), "calc");
    assert_eq!(s.version(), "2.3.4");
    assert_eq!(s.tools().len(), 2);
    assert_eq!(McpServer::new("n", vec![]).version(), "1.0.0");
    assert_eq!(
        answer(&s, "{\"jsonrpc\":\"2.0\",\"id\":1,\"method\":\"initialize\",\"params\":{}}"),
        "{\"id\":1,\"jsonrpc\":\"2.0\",\"result\":{\"capabilities\":{\"tools\":{}},\"protocolVersion\":\"2024-11-05\",\"serverInfo\":{\"name\":\"calc\",\"version\":\"2.3.4\"}}}"
    );
    assert_eq!(
        answer(&s, "{\"jsonrpc\":\"2.0\",\"id\":\"x\",\"method\":\"tools/list\"}"),
        "{\"id\":\"x\",\"jsonrpc\":\"2.0\",\"result\":{\"tools\":[{\"description\":\"Works\",\"inputSchema\":{\"type\":\"object\"},\"name\":\"ok\"},{\"description\":\"Fails\",\"inputSchema\":{\"type\":\"object\"},\"name\":\"bad\"}]}}"
    );
    assert_eq!(
        answer(&s, "{\"jsonrpc\":\"2.0\",\"method\":\"notifications/initialized\"}"),
        "{\"jsonrpc\":\"2.0\",\"result\":{}}"
    );
    assert_eq!(*calls.borrow(), 0);
}

#[test]
fn an_unknown_method_is_an_error() {
    let calls = Rc::new(RefCell::new(0));
    let s = server(&calls);
    assert_eq!(
        answer(&s, "{\"jsonrpc\":\"2.0\",\"id\":2,\"method\":\"resources/list\"}"),
        "{\"error\":{\"code\":-32601,\"message\":\"method 'resources/list' not found\"},\"id\":2,\"jsonrpc\":\"2.0\"}"
    );
    assert_eq!(
        answer(&s, "{\"jsonrpc\":\"2.0\"}"),
        "{\"error\":{\"code\":-32601,\"message\":\"method '' not found\"},\"id\":null,\"jsonrpc\":\"2.0\"}"
    );
    assert_eq!(
        answer(&s, "[1,2]"),
        "{\"error\":{\"code\":-32601,\"message\":\"method '' not found\"},\"id\":null,\"jsonrpc\":\"2.0\"}"
    );
}

#[test]
fn a_call_of_a_tool_that_is_not_registered_is_an_error_and_calls_nothing() {
    let calls = Rc::new(RefCell::new(0));
    let s = server(&calls);
    assert_eq!(
        answer(&s, "{\"jsonrpc\":\"2.0\",\"id\":3,\"method\":\"tools/call\",\"params\":{\"name\":\"nope\",\"arguments\":{}}}"),
        "{\"error\":{\"code\":-32601,\"message\":\"tool 'nope' not found\"},\"id\":3,\"jsonrpc\":\"2.0\"}"
    );
    assert_eq!(
        answer(&s, "{\"jsonrpc\":\"2.0\",\"id\":4,\"method\":\"tools/call\",\"params\":{\"arguments\":{}}}"),
        "{\"error\":{\"code\":-32602,\"message\":\"missing 'name' parameter\"},\"id\":4,\"jsonrpc\":\"2.0\"}"
    );
    assert_eq!(
        answer(&s, "{\"jsonrpc\":\"2.0\",\"id\":5,\"method\":\"tools/call\",\"params\":{\"name\":7}}"),
        "{\"error\":{\"code\":-32602,\"message\":\"missing 'name' parameter\"},\"id\":5,\"jsonrpc\":\"2.0\"}"
    );
    assert_eq!(
        answer(&s, "{\"jsonrpc\":\"2.0\",\"id\":6,\"method\":\"tools/call\"}"),
        "{\"error\":{\"code\":-32602,\"message\":\"missing 'name' parameter\"},\"id\":6,\"jsonrpc\":\"2.0\"}"
    );
    assert_eq!(*calls.borrow(), 0);
    let plan = s.plan(&parse("{\"id\":3,\"method\":\"tools/call\",\"params\":{\"name\":\"nope\"}}").unwrap());
    assert!(matches!(plan, Plan::Reply(_)));
}

#[test]
fn a_call_wraps_what_the_handler_returns() {
    let calls = Rc::new(RefCell::new(0));
    let s = server(&calls);
    assert_eq!(
        answer(&s, "{\"jsonrpc\":\"2.0\",\"id\":7,\"method\":\"tools/call\",\"params\":{\"name\":\"ok\",\"arguments\":{\"a\":1,\"b\":2}}}"),
        "{\"id\":7,\"jsonrpc\":\"2.0\",\"result\":{\"content\":[{\"text\":\"got 2\",\"type\":\"text\"}]}}"
    );
    assert_eq!(
        answer(&s, "{\"jsonrpc\":\"2.0\",\"id\":8,\"method\":\"tools/call\",\"params\":{\"name\":\"ok\"}}"),
        "{\"id\":8,\"jsonrpc\":\"2.0\",\"result\":{\"content\":[{\"text\":\"got 0\",\"type\":\"text\"}]}}"
    );
    assert_eq!(*calls.borrow(), 2);
    let plan = s.plan(&parse("{\"id\":9,\"method\":\"tools/call\",\"params\":{\"name\":\"bad\",\"arguments\":{\"k\":true}}}").unwrap());
    match plan {
        Plan::Call { index, input, id } => {
            assert_eq!(index, 1);
            assert_eq!(input.get_bool("k"), Some(true));
            assert_eq!(id, Json::Int(9));
        }
        Plan::Reply(_) => panic!("a registered tool is called"),
    }
    assert_eq!(*calls.borrow(), 2);
}

#[test]
fn a_handler_that_fails_gives_a_result_marked_as_an_error() {
    let calls = Rc::new(RefCell::new(0));
    let s = server(&calls);
    let reply = s.handle_json_message(
        &parse("{\"jsonrpc\":\"2.0\",\"id\":10,\"method\":\"tools/call\",\"params\":{\"name\":\"bad\",\"arguments\":{}}}").unwrap(),
    );
    assert!(reply.get("error").is_none());
    let result = reply.get("result").unwrap();
    assert_eq!(result.get("isError").and_then(|v| v.as_bool()), Some(true));
    let content = result.get("content").and_then(|v| v.as_array()).unwrap();
    assert_eq!(content.len(), 1);
    assert_eq!(content[0].get("text").and_then(|v| v.as_str()), Some("invalid parameter 'x': bad"));
    assert_eq!(*calls.borrow(), 1);
    assert_eq!(
        render(&McpServer::tool_reply(&Json::Int(1), Err(ToolError::not_found("f")))).unwrap(),
        "{\"id\":1,\"jsonrpc\":\"2.0\",\"result\":{\"content\":[{\"text\":\"not found: f\",\"type\":\"text\"}],\"isError\":true}}"
    );
    assert_eq!(
        render(&McpServer::tool_reply(&Json::Null, Ok(Json::text("raw")))).unwrap(),
        "{\"id\":null,\"jsonrpc\":\"2.0\",\"result\":{\"content\":\"raw\"}}"
    );
}

#[test]
fn the_last_tool_of_a_name_is_the_one_that_is_called() {
    let first = Rc::new(RefCell::new(0));
    let second = Rc::new(RefCell::new(0));
    let s = McpServer::new(
        "twice",
        vec![
            Tool::new("t", "first", Json::empty_object(), None, Box::new(Counting { calls: first.clone(), fail: false })),
            Tool::new("t", "second", Json::empty_object(), None, Box::new(Counting { calls: second.clone(), fail: false })),
        ],
    );
    answer(&s, "{\"id\":1,\"method\":\"tools/call\",\"params\":{\"name\":\"t\"}}");
    assert_eq!(*first.borrow(), 0);
    assert_eq!(*second.borrow(), 1);
}
