use clauders::agent::Agent;
use clauders::codec::parse;
use clauders::error::Error;
use clauders::json::Json;
use clauders::mcp_server::McpServer;
use clauders::model::Model;
use clauders::options::Options;
use clauders::proto::control::PermissionMode;
use clauders::proto::incoming::Incoming;
use clauders::tool::{Tool, ToolError, ToolHandler, ToolInput};
use clauders::transport::{
    build_command, build_env, decode_line, encode_line, interrupt_request, TransportOptions,
};

struct Nothing;

impl ToolHandler for Nothing {
    fn handle(&self, _input: ToolInput) -> Result<Json, ToolError> {
        Ok(Json::null())
    }
}

fn tool(name: &str) -> Tool {
    Tool::new(name, "", Json::empty_object(), None, Box::new(Nothing))
}

#[test]
fn plain_options_give_the_fixed_flags() {
    let cmd = build_command(&TransportOptions::new());
    assert_eq!(cmd, vec!["--output-format", "stream-json", "--verbose", "--input-format", "stream-json"]);
    assert_eq!(
        build_env(&TransportOptions::new()),
        vec![("CLAUDE_CODE_ENTRYPOINT".to_string(), "sdk-rust".to_string())]
    );
}

#[test]
fn every_option_gives_its_flag_in_order() {
    let mut options = TransportOptions::new();
    options.debug = true;
    options.system_prompt = Some("be brief".to_string());
    options.append_system_prompt = Some("really".to_string());
    options.allowed_tools = vec!["Read".to_string(), "Grep".to_string()];
    options.disallowed_tools = vec!["Bash".to_string()];
    options.model = Some("opus".to_string());
    options.fallback_model = Some("haiku".to_string());
    options.permission_mode = Some("plan".to_string());
    options.max_budget_usd = Some("1.5".to_string());
    options.json_schema = Some("{}".to_string());
    options.mcp_server_names = vec!["b".to_string(), "a".to_string()];
    options.env = vec![("K".to_string(), "V".to_string())];
    let cmd = build_command(&options);
    assert_eq!(
        cmd,
        vec![
            "--output-format",
            "stream-json",
            "--verbose",
            "--debug",
            "--system-prompt",
            "be brief",
            "--append-system-prompt",
            "really",
            "--allowedTools",
            "Read,Grep",
            "--disallowedTools",
            "Bash",
            "--model",
            "opus",
            "--fallback-model",
            "haiku",
            "--permission-mode",
            "plan",
            "--max-budget-usd",
            "1.5",
            "--json-schema",
            "{}",
            "--mcp-config",
            "{\"mcpServers\":{\"a\":{\"name\":\"a\",\"type\":\"sdk\"},\"b\":{\"name\":\"b\",\"type\":\"sdk\"}}}",
            "--input-format",
            "stream-json",
        ]
    );
    assert_eq!(
        build_env(&options),
        vec![
            ("CLAUDE_CODE_ENTRYPOINT".to_string(), "sdk-rust".to_string()),
            ("K".to_string(), "V".to_string()),
        ]
    );
    assert_eq!(options.model(), Some("opus"));
    assert_eq!(options.max_budget_usd(), Some("1.5"));
    assert!(options.debug());
    assert_eq!(options.cwd(), None);
}

#[test]
fn the_configuration_allows_the_tools_of_its_endpoints() {
    let options = Options::new()
        .allowed_tool("Read")
        .disallowed_tools(vec!["Bash".to_string()])
        .model(Model::from_name("sonnet-4-5"))
        .fallback_model(Model::from_name("my-model"))
        .permission_mode(PermissionMode::BypassPermissions)
        .system_prompt("sys")
        .append_system_prompt("more")
        .cwd("/work")
        .env(vec![("A".to_string(), "1".to_string())])
        .max_budget_usd("2.5")
        .with_json_schema("{\"type\":\"object\"}")
        .debug(true)
        .with_agent("rev", Agent::new("Reviews", "You review"))
        .with_mcp_server("calc", McpServer::new("calc", vec![tool("add"), tool("sub")]))
        .with_mcp_server("fs", McpServer::new("fs", vec![tool("ls")]))
        .with_mcp_server("calc", McpServer::new("calc", vec![tool("mul")]));
    assert_eq!(options.json_schema(), Some("{\"type\":\"object\"}"));
    assert_eq!(options.mcp_servers().len(), 2);
    assert_eq!(options.mcp_servers().entries()[0].0, "calc");
    assert_eq!(options.mcp_servers().get("calc").unwrap().tools()[0].name(), "mul");
    assert_eq!(options.mcp_servers().get("fs").unwrap().tools().len(), 1);
    assert!(options.mcp_servers().get("none").is_none());
    assert_eq!(options.agents.len(), 1);
    let transport = options.to_transport_options();
    assert_eq!(transport.allowed_tools(), &vec!["Read".to_string(), "mcp__calc__mul".to_string(), "mcp__fs__ls".to_string()]);
    assert_eq!(transport.disallowed_tools(), &vec!["Bash".to_string()]);
    assert_eq!(transport.mcp_server_names(), &vec!["calc".to_string(), "fs".to_string()]);
    assert_eq!(transport.model(), Some("sonnet"));
    assert_eq!(transport.fallback_model(), Some("my-model"));
    assert_eq!(transport.permission_mode(), Some("bypassPermissions"));
    assert_eq!(transport.system_prompt(), Some("sys"));
    assert_eq!(transport.append_system_prompt(), Some("more"));
    assert_eq!(transport.cwd(), Some("/work"));
    assert_eq!(transport.env(), &vec![("A".to_string(), "1".to_string())]);
    assert_eq!(transport.max_budget_usd(), Some("2.5"));
    assert_eq!(transport.json_schema(), Some("{\"type\":\"object\"}"));
    assert!(!transport.debug());
}

#[test]
fn thinking_tokens_are_at_least_one() {
    assert_eq!(Options::new().max_thinking_tokens, 8000);
    assert_eq!(Options::new().max_thinking_tokens(0).max_thinking_tokens, 1);
    assert_eq!(Options::new().max_thinking_tokens(-5).max_thinking_tokens, 1);
    assert_eq!(Options::new().max_thinking_tokens(1).max_thinking_tokens, 1);
    assert_eq!(Options::new().max_thinking_tokens(4096).max_thinking_tokens, 4096);
    let mut options = Options::new().with_allowed_tools(vec!["A".to_string()]).allowed_tools(vec!["B".to_string()]);
    assert_eq!(options.allowed_tools, vec!["B"]);
    options = options.disallowed_tool("X").with_disallowed_tools(vec![]).disallowed_tool("Y");
    assert_eq!(options.disallowed_tools, vec!["Y"]);
    assert!(options.take_hooks().is_none());
}

#[test]
fn a_line_is_one_value_and_a_newline() {
    let value = parse("{ \"b\": [1, 2.5, \"x\\ny\"], \"a\": null }").unwrap();
    assert_eq!(encode_line(&value).unwrap(), "{\"a\":null,\"b\":[1,2.5,\"x\\ny\"]}\n");
    assert_eq!(encode_line(&Json::Real("18446744073709551615".to_string())).unwrap(), "18446744073709551615\n");
    assert_eq!(encode_line(&Json::Real("not a number".to_string())).unwrap(), "null\n");
    let twice = Json::object(vec![("k".to_string(), Json::integer(1)), ("k".to_string(), Json::integer(2))]);
    assert_eq!(encode_line(&twice).unwrap(), "{\"k\":2}\n");
    assert_eq!(interrupt_request().request_id(), "");
}

#[test]
fn a_line_is_read_by_its_type() {
    assert!(matches!(decode_line("{\"type\":\"user\",\"message\":{\"content\":[{\"type\":\"text\",\"text\":\"x\"}]}}"), Ok(Incoming::User(_))));
    assert!(matches!(decode_line("{\"type\":\"assistant\",\"message\":{\"content\":[],\"model\":\"m\"}}\n"), Ok(Incoming::Assistant(_))));
    assert!(matches!(decode_line("{\"type\":\"system\",\"subtype\":\"init\"}"), Ok(Incoming::System(_))));
    assert!(matches!(decode_line("{\"type\":\"control_response\",\"response\":{\"subtype\":\"success\",\"request_id\":\"r\"}}"), Ok(Incoming::ControlResponse(_))));
    for bad in [
        "",
        "{",
        "[]",
        "{\"type\":7}",
        "{\"type\":\"assistant\"}",
        "{\"type\":\"assistant\",\"message\":{\"content\":[{\"type\":\"image\"}],\"model\":\"m\"}}",
        "{\"type\":\"assistant\",\"message\":{\"content\":[],\"model\":\"m\",\"error\":\"odd\"}}",
        "{\"type\":\"system\",\"subtype\":\"other\"}",
        "{\"type\":\"system\",\"subtype\":\"init\",\"session_id\":5}",
        "{\"type\":\"control_request\",\"request\":{\"subtype\":\"interrupt\"}}",
        "{\"type\":\"control_request\",\"request_id\":\"r\",\"request\":{\"subtype\":\"set_permission_mode\",\"mode\":\"yolo\"}}",
        "{\"type\":\"control_response\",\"response\":{\"subtype\":\"maybe\",\"request_id\":\"r\"}}",
        "{\"type\":\"result\",\"subtype\":\"success\",\"duration_ms\":1,\"duration_api_ms\":1,\"is_error\":false,\"num_turns\":4294967296,\"session_id\":\"s\"}",
    ] {
        assert!(matches!(decode_line(bad), Err(Error::ProtocolError(m)) if m.starts_with("failed to parse: ")), "{}", bad);
    }
}

#[test]
fn a_result_message_keeps_what_the_child_sent() {
    let line = "{\"type\":\"result\",\"subtype\":\"error_max_turns\",\"duration_ms\":120,\"duration_api_ms\":80,\"is_error\":true,\"num_turns\":3,\"session_id\":\"s\",\"total_cost_usd\":0.25,\"usage\":{\"input_tokens\":10,\"output_tokens\":20,\"cache_read_input_tokens\":5},\"result\":\"partial\",\"structured_output\":{\"k\":[1]},\"more\":1}";
    match decode_line(line).unwrap() {
        Incoming::Result(result) => {
            assert_eq!(result.subtype(), "error_max_turns");
            assert_eq!(result.duration_ms(), 120);
            assert_eq!(result.duration_api_ms(), 80);
            assert!(result.is_error());
            assert_eq!(result.num_turns(), 3);
            assert_eq!(result.session_id(), "s");
            assert_eq!(result.total_cost_usd(), Some(&Json::Real("0.25".to_string())));
            let usage = result.usage().unwrap();
            assert_eq!(usage.input_tokens(), Some(10));
            assert_eq!(usage.output_tokens(), Some(20));
            assert_eq!(usage.total_tokens(), None);
            assert_eq!(usage.total_tokens_or(30), 30);
            assert_eq!(usage.input_tokens_or(0), 10);
            assert_eq!(usage.output_tokens_or(0), 20);
            assert_eq!(usage.cache_creation_input_tokens(), None);
            assert_eq!(usage.cache_read_input_tokens(), Some(5));
            assert_eq!(result.result(), Some("partial"));
            assert_eq!(result.structured_output(), Some(&parse("{\"k\":[1]}").unwrap()));
            assert_eq!(result.extra(), &vec![("more".to_string(), Json::Int(1))]);
            assert!(usage.extra().is_empty());
        }
        other => panic!("not a result: {:?}", other),
    }
}
