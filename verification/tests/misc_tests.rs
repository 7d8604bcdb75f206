use clauders::agent::Agent;
use clauders::codec::parse;
use clauders::error::Error;
use clauders::json::Json;
use clauders::model::Model;
use clauders::named::Named;
use clauders::permissions::{
    default_allow, default_deny, Decision, PermissionContext, PermissionMode, PermissionRule,
};
use clauders::proto::control::ErrorCode;
use clauders::proto::message::AssistantError;
use clauders::strings::{clone_strings, concat2, concat3, find, join, upsert};
use clauders::tool::ToolInput;
use clauders::util::{is_metadata_key, strip_schema_metadata};

#[test]
fn an_agent_keeps_what_it_is_given() {
    let agent = Agent::new("Reviews code for issues", "You read code with care");
    assert_eq!(agent.description(), "Reviews code for issues");
    assert_eq!(agent.prompt(), "You read code with care");
    assert!(agent.model().is_none());
    assert!(agent.tools().is_empty());
    let mut agent = agent.with_model(Model::Sonnet).with_tools(vec!["Read".to_string(), "Grep".to_string()]);
    assert!(matches!(agent.model(), Some(Model::Sonnet)));
    assert_eq!(agent.tools(), &vec!["Read".to_string(), "Grep".to_string()]);
    agent.set_model(Model::from_name("mine"));
    agent.set_tools(vec![]);
    assert_eq!(agent.model().unwrap().as_str(), "mine");
    assert!(agent.tools().is_empty());
    let copy = agent.clone();
    assert_eq!(copy.description(), agent.description());
    assert_eq!(copy.model().unwrap().as_str(), "mine");
}

#[test]
fn a_model_is_known_by_its_names() {
    assert_eq!(Model::Sonnet.as_str(), "sonnet");
    assert_eq!(Model::Opus.as_str(), "opus");
    assert_eq!(Model::Haiku.as_str(), "haiku");
    assert_eq!(Model::Inherit.as_str(), "inherit");
    assert_eq!(Model::Custom("x-1".to_string()).as_str(), "x-1");
    assert_eq!(Model::Opus.name(), "opus");
    assert!(matches!(Model::from_name("sonnet"), Model::Sonnet));
    assert!(matches!(Model::from_name("sonnet-4-5"), Model::Sonnet));
    assert!(matches!(Model::from_name("opus"), Model::Opus));
    assert!(matches!(Model::from_name("opus-4-5"), Model::Opus));
    assert!(matches!(Model::from_name("haiku"), Model::Haiku));
    assert!(matches!(Model::from_name("haiku-4-5"), Model::Haiku));
    assert!(matches!(Model::from_name("inherit"), Model::Inherit));
    assert!(matches!(Model::from_name("Sonnet"), Model::Custom(s) if s == "Sonnet"));
    assert!(matches!(Model::from_name(""), Model::Custom(s) if s.is_empty()));
    assert!(matches!(Model::from_name("gpt").clone(), Model::Custom(s) if s == "gpt"));
}

#[test]
fn permission_rules_and_decisions() {
    let mut rule = PermissionRule::new("Bash");
    assert_eq!(rule.tool_name(), "Bash");
    assert_eq!(rule.rule(), None);
    rule.set_rule(Some("ls *".to_string()));
    rule.set_tool_name("Shell");
    assert_eq!(rule.rule(), Some("ls *"));
    assert_eq!(rule.tool_name(), "Shell");
    let rule = rule.with_tool_name("Read").with_rule("*.rs");
    assert_eq!(rule.tool_name(), "Read");
    assert_eq!(rule.clone().rule(), Some("*.rs"));

    let mut ctx = PermissionContext::new("Write", ToolInput::empty(), vec![rule]);
    assert_eq!(ctx.tool_name(), "Write");
    assert!(ctx.input().is_empty());
    assert_eq!(ctx.suggested_rules().len(), 1);
    ctx.set_tool_name("Edit");
    ctx.set_input(ToolInput::empty().set_bool("x", true));
    ctx.set_suggested_rules(vec![]);
    let ctx = ctx.with_tool_name("Bash").with_input(ToolInput::empty()).with_suggested_rules(vec![PermissionRule::new("a")]);
    assert_eq!(ctx.suggested_rules()[0].tool_name(), "a");

    assert!(matches!(Decision::allow(), Decision::Allow { updated_input: None }));
    assert!(matches!(Decision::allow_with_input(ToolInput::empty()), Decision::Allow { updated_input: Some(_) }));
    assert!(matches!(Decision::deny("no"), Decision::Deny { message, interrupt: false } if message == "no"));
    assert!(matches!(Decision::deny_and_interrupt("stop"), Decision::Deny { message, interrupt: true } if message == "stop"));
    assert!(matches!(default_deny(ctx), Decision::Deny { message, interrupt: false } if message == "Tool 'Bash' not allowed"));
    assert!(matches!(default_allow(PermissionContext::new("t", ToolInput::empty(), vec![])), Decision::Allow { updated_input: None }));

    assert_eq!(PermissionMode::Default.as_str(), "default");
    assert_eq!(PermissionMode::AcceptEdits.as_str(), "acceptEdits");
    assert_eq!(PermissionMode::Plan.as_str(), "plan");
    assert_eq!(PermissionMode::BypassPermissions.as_str(), "bypassPermissions");
    assert_eq!(PermissionMode::from_name("plan"), Some(PermissionMode::Plan));
    assert_eq!(PermissionMode::from_name("acceptedits"), None);
}

#[test]
fn every_failure_has_its_words() {
    assert_eq!(Error::CliNotFound("x".to_string()).message(), "agent executable not found: x");
    assert_eq!(Error::ConnectionError("x".to_string()).message(), "connection error: x");
    assert_eq!(
        Error::ControlError { request_id: "r1".to_string(), message: "bad".to_string() }.message(),
        "control error (request_id=r1): bad"
    );
    assert_eq!(
        Error::HookError { callback_id: "hook_0".to_string(), message: "bad".to_string() }.message(),
        "hook error (callback_id=hook_0): bad"
    );
    assert_eq!(Error::Io("x".to_string()).message(), "I/O error: x");
    assert_eq!(Error::Json("x".to_string()).message(), "JSON error: x");
    assert_eq!(Error::NoSchemaConfigured.message(), "no output schema configured");
    assert_eq!(
        Error::PermissionDenied { tool_name: "Bash".to_string(), message: "no".to_string() }.message(),
        "permission denied for tool 'Bash': no"
    );
    assert_eq!(Error::ProcessError("x".to_string()).message(), "process error: x");
    assert_eq!(Error::ProtocolError("x".to_string()).message(), "protocol error: x");
    assert_eq!(
        Error::SchemaMismatch { expected: "a".to_string(), configured: "b".to_string() }.message(),
        "schema mismatch: configured schema does not match requested type"
    );
    assert_eq!(Error::Timeout("x".to_string()).message(), "timeout: x");
}

#[test]
fn error_codes_and_their_numbers() {
    assert_eq!(ErrorCode::ParseError.to_i32(), -32700);
    assert_eq!(ErrorCode::InvalidRequest.to_i32(), -32600);
    assert_eq!(ErrorCode::MethodNotFound.to_i32(), -32601);
    assert_eq!(ErrorCode::InvalidParams.to_i32(), -32602);
    assert_eq!(ErrorCode::InternalError.to_i32(), -32603);
    assert_eq!(ErrorCode::Custom(7).to_i32(), 7);
    assert_eq!(ErrorCode::from_i32(-32700), ErrorCode::ParseError);
    assert_eq!(ErrorCode::from_i32(-32600), ErrorCode::InvalidRequest);
    assert_eq!(ErrorCode::from_i32(-32601), ErrorCode::MethodNotFound);
    assert_eq!(ErrorCode::from_i32(-32602), ErrorCode::InvalidParams);
    assert_eq!(ErrorCode::from_i32(-32603), ErrorCode::InternalError);
    assert_eq!(ErrorCode::from_i32(0), ErrorCode::Custom(0));
    for code in [-32700, -32604, 1, i32::MIN, i32::MAX] {
        assert_eq!(ErrorCode::from_i32(code).to_i32(), code);
    }
}

#[test]
fn assistant_errors_and_their_names() {
    let all = [
        (AssistantError::AuthenticationFailed, "authentication_failed", "authentication failed"),
        (AssistantError::BillingError, "billing_error", "billing error"),
        (AssistantError::RateLimit, "rate_limit", "rate limit exceeded"),
        (AssistantError::InvalidRequest, "invalid_request", "invalid request"),
        (AssistantError::ServerError, "server_error", "server error"),
        (AssistantError::Unknown, "unknown", "unknown error"),
    ];
    for (error, name, words) in all {
        assert_eq!(error.wire_name(), name);
        assert_eq!(error.message(), words);
        assert_eq!(AssistantError::from_name(name), Some(error));
    }
    assert_eq!(AssistantError::from_name("rate limit"), None);
}

#[test]
fn strings_are_joined_and_found() {
    assert_eq!(join(&vec![], ","), "");
    assert_eq!(join(&vec!["a".to_string()], ","), "a");
    assert_eq!(join(&vec!["a".to_string(), "".to_string(), "c".to_string()], ", "), "a, , c");
    assert_eq!(concat2("ab", "cd"), "abcd");
    assert_eq!(concat3("a", "", "b"), "ab");
    assert_eq!(clone_strings(&vec!["x".to_string(), "y".to_string()]), vec!["x", "y"]);
    let mut entries = vec![("a".to_string(), 1), ("b".to_string(), 2), ("a".to_string(), 3)];
    assert_eq!(find(&entries, "a"), Some(0));
    assert_eq!(find(&entries, "b"), Some(1));
    assert_eq!(find(&entries, "c"), None);
    assert_eq!(find(&entries, "A"), None);
    upsert(&mut entries, "a".to_string(), 9);
    upsert(&mut entries, "c".to_string(), 4);
    assert_eq!(entries, vec![("a".to_string(), 9), ("b".to_string(), 2), ("a".to_string(), 3), ("c".to_string(), 4)]);
}

#[test]
fn a_schema_loses_what_only_describes_it() {
    let schema = parse(
        "{\"$schema\":\"http://json-schema.org/draft-07/schema#\",\"title\":\"Analysis\",\"type\":\"object\",\"properties\":{\"summary\":{\"type\":\"string\",\"description\":\"short\"},\"score\":{\"type\":\"integer\",\"format\":\"int32\"},\"tags\":{\"type\":\"array\",\"items\":[{\"title\":\"t\",\"type\":\"string\"},7]}},\"required\":[\"summary\",\"score\"]}",
    )
    .unwrap();
    let expected = parse(
        "{\"type\":\"object\",\"properties\":{\"summary\":{\"type\":\"string\"},\"score\":{\"type\":\"integer\"},\"tags\":{\"type\":\"array\",\"items\":[{\"type\":\"string\"},7]}},\"required\":[\"summary\",\"score\"]}",
    )
    .unwrap();
    assert_eq!(strip_schema_metadata(&schema), expected);
    assert_eq!(strip_schema_metadata(&Json::text("title")), Json::text("title"));
    assert_eq!(strip_schema_metadata(&Json::empty_object()), Json::empty_object());
    assert!(is_metadata_key("title") && is_metadata_key("description") && is_metadata_key("$schema") && is_metadata_key("format"));
    assert!(!is_metadata_key("type") && !is_metadata_key("Title"));
}

#[test]
fn a_name_holds_one_value() {
    let named: Named<Json> = Named::new();
    assert!(named.is_empty());
    let named = named.with("a", Json::integer(1)).with("b", Json::integer(2)).with("a", Json::integer(3));
    assert_eq!(named.len(), 2);
    assert_eq!(named.get("a"), Some(&Json::Int(3)));
    assert_eq!(named.get("b"), Some(&Json::Int(2)));
    assert_eq!(named.get("c"), None);
    assert_eq!(named.entries(), &vec![("a".to_string(), Json::Int(3)), ("b".to_string(), Json::Int(2))]);
}
