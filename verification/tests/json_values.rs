use clauders::codec::{parse, render};
use clauders::json::Json;

#[test]
fn parse_reads_members_and_numbers() {
    let j = parse("{\"a\": 1, \"b\": [true, null, \"x\"], \"c\": 1.5}").unwrap();
    assert_eq!(j.get("a").and_then(|v| v.as_i64()), Some(1));
    let b = j.get("b").and_then(|v| v.as_array()).unwrap();
    assert_eq!(b.len(), 3);
    assert_eq!(b[0].as_bool(), Some(true));
    assert!(b[1].is_null());
    assert_eq!(b[2].as_str(), Some("x"));
    assert!(matches!(j.get("c"), Some(Json::Real(s)) if s == "1.5"));
    assert!(j.get("missing").is_none());
}

#[test]
fn parse_rejects_broken_text() {
    assert!(parse("{\"a\": ").is_err());
    assert!(parse("").is_err());
}

#[test]
fn render_writes_compact_text() {
    let j = parse("{ \"k\" : [ 1 , \"two\" , 2.5 ] }").unwrap();
    assert_eq!(render(&j).unwrap(), "{\"k\":[1,\"two\",2.5]}");
    assert_eq!(render(&Json::text("a\"b")).unwrap(), "\"a\\\"b\"");
}
