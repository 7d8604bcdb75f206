use clauders::codec::{parse, render};
use clauders::json::Json;
use clauders::tool::{Tool, ToolError, ToolHandler, ToolInput};

struct Add;

impl ToolHandler for Add {
    fn handle(&self, input: ToolInput) -> Result<Json, ToolError> {
        let a = input.get_i64("a").ok_or_else(|| ToolError::missing_parameter("a"))?;
        let b = input.get_i64("b").ok_or_else(|| ToolError::missing_parameter("b"))?;
        Ok(Tool::text_result(&format!("{}", a + b)))
    }
}

#[test]
fn test_tool_error_variants() {
    let err = ToolError::missing_parameter("name");
    assert!(err.message().contains("name"));

    let err = ToolError::invalid_parameter("age", "must be positive");
    assert!(err.message().contains("age"));
    assert!(err.message().contains("must be positive"));

    let err = ToolError::execution_failed("timeout");
    assert!(err.message().contains("timeout"));

    let err = ToolError::not_found("file.txt");
    assert!(err.message().contains("file.txt"));

    let err = ToolError::permission_denied("read access");
    assert!(err.message().contains("read access"));
}

#[test]
fn tool_error_messages_are_exact() {
    assert_eq!(ToolError::missing_parameter("name").message(), "missing required parameter: name");
    assert_eq!(
        ToolError::invalid_parameter("age", "must be positive").message(),
        "invalid parameter 'age': must be positive"
    );
    assert_eq!(ToolError::execution_failed("timeout").message(), "execution failed: timeout");
    assert_eq!(ToolError::not_found("file.txt").message(), "not found: file.txt");
    assert_eq!(ToolError::permission_denied("read access").message(), "permission denied: read access");
    assert_eq!(
        ToolError::deserialization_failed("missing field").message(),
        "deserialization failed: missing field"
    );
    assert_eq!(ToolError::other("disk full").message(), "disk full");
    assert_eq!(ToolError::msg("plain").message(), "plain");
}

#[test]
fn test_text_result_format() {
    let result = Tool::text_result("Hello");
    let arr = result.as_array().unwrap();
    assert_eq!(arr.len(), 1);

    let item = &arr[0];
    assert_eq!(item.get("type").and_then(|v| v.as_str()), Some("text"));
    assert_eq!(item.get("text").and_then(|v| v.as_str()), Some("Hello"));
    assert!(item.get("is_error").is_none());
}

#[test]
fn test_error_result_format() {
    let result = Tool::error_result("Something went wrong");
    let arr = result.as_array().unwrap();
    assert_eq!(arr.len(), 1);

    let item = &arr[0];
    assert_eq!(item.get("type").and_then(|v| v.as_str()), Some("text"));
    assert_eq!(item.get("text").and_then(|v| v.as_str()), Some("Something went wrong"));
    assert_eq!(item.get("is_error").and_then(|v| v.as_bool()), Some(true));
}

#[test]
fn tool_keeps_what_it_is_told_and_calls_its_handler() {
    let schema = parse("{\"type\":\"object\"}").unwrap();
    let tool = Tool::new("add", "Add two numbers", schema, None, Box::new(Add));
    assert_eq!(tool.name(), "add");
    assert_eq!(tool.description(), "Add two numbers");
    assert_eq!(tool.input_schema().get("type").and_then(|v| v.as_str()), Some("object"));
    assert!(tool.output_schema().is_none());

    let input = ToolInput::new(parse("{\"a\": 5, \"b\": 3}").unwrap());
    let result = tool.call(input).unwrap();
    let text = result.as_array().and_then(|a| a.first()).and_then(|v| v.get("text")).and_then(|v| v.as_str());
    assert_eq!(text, Some("8"));

    let failed = tool.call(ToolInput::empty());
    assert!(matches!(failed, Err(ToolError::MissingParameter(_))));
    assert_eq!(
        render(&tool.listing()).unwrap(),
        "{\"description\":\"Add two numbers\",\"inputSchema\":{\"type\":\"object\"},\"name\":\"add\"}"
    );
}

#[test]
fn tool_input_reads_and_sets_arguments() {
    let input = ToolInput::new(parse("{\"s\":\"x\",\"n\":-4,\"b\":true,\"l\":[\"p\",\"q\"],\"m\":[1]}").unwrap());
    assert_eq!(input.get_string("s"), Some("x"));
    assert_eq!(input.get_string("n"), None);
    assert_eq!(input.get_i64("n"), Some(-4));
    assert_eq!(input.get_bool("b"), Some(true));
    assert_eq!(input.get_string_list("l"), Some(vec!["p".to_string(), "q".to_string()]));
    assert_eq!(input.get_string_list("m"), None);
    assert_eq!(input.get_string_list("missing"), None);
    assert!(input.get("m").is_some());
    assert!(!input.is_empty());

    let empty = ToolInput::empty();
    assert!(empty.is_empty());
    assert!(empty.keys().is_empty());
    let set = empty.set_string("k", "v").set_i64("n", 7).set_bool("f", false).set_string("k", "w");
    assert_eq!(set.keys(), vec!["k", "n", "f"]);
    assert_eq!(set.get_string("k"), Some("w"));
    assert_eq!(set.get_i64("n"), Some(7));
    assert_eq!(set.get_bool("f"), Some(false));

    let no_object = ToolInput::new(Json::integer(3)).set_string("k", "v");
    assert_eq!(no_object.as_value(), &Json::Int(3));
    assert!(no_object.is_empty());
    assert!(ToolInput::default().as_json().is_null());

    let pairs = vec![("a".to_string(), "1".to_string()), ("b".to_string(), "2".to_string()), ("a".to_string(), "3".to_string())];
    let from_pairs = ToolInput::from_pairs(&pairs);
    assert_eq!(from_pairs.keys(), vec!["a", "b"]);
    assert_eq!(from_pairs.get_string("a"), Some("3"));
    assert_eq!(ToolInput::from_value(Json::null()).into_value(), Json::Null);
    assert_eq!(from_pairs.clone().into_json(), from_pairs.into_value());
}
