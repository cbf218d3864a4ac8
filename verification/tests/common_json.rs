use alfred::json::{json_text, Json};

fn s(x: &str) -> Json {
    Json::Str(x.to_string())
}

fn obj(m: Vec<(&str, Json)>) -> Json {
    Json::Object(m.into_iter().map(|(k, v)| (k.to_string(), v)).collect())
}

#[test]
fn get_finds_members_and_misses() {
    let j = obj(vec![("a", s("x")), ("b", Json::Number("7".to_string()))]);
    assert!(matches!(j.get("a"), Some(Json::Str(v)) if v == "x"));
    assert!(j.get("zzz").is_none());
    assert!(s("not an object").get("a").is_none());
}

#[test]
fn as_u64_reads_plain_integers_only() {
    assert_eq!(Json::Number("3600".to_string()).as_u64(), Some(3600));
    assert_eq!(Json::Number("18446744073709551615".to_string()).as_u64(), Some(u64::MAX));
    assert_eq!(Json::Number("18446744073709551616".to_string()).as_u64(), None);
    assert_eq!(Json::Number("-5".to_string()).as_u64(), None);
    assert_eq!(Json::Number("3600.0".to_string()).as_u64(), None);
    assert_eq!(s("3600").as_u64(), None);
}

#[test]
fn json_text_is_compact() {
    let j = obj(vec![
        ("a", Json::Array(vec![Json::Number("1".to_string()), Json::Bool(true), Json::Null])),
        ("b", s("q\"x")),
    ]);
    assert_eq!(json_text(&j), "{\"a\":[1,true,null],\"b\":\"q\\\"x\"}");
    assert_eq!(json_text(&Json::Array(vec![])), "[]");
}

#[test]
fn deep_clone_copies_everything() {
    let j = obj(vec![("a", Json::Array(vec![s("x"), obj(vec![("k", Json::Bool(false))])]))]);
    let c = j.deep_clone();
    assert_eq!(json_text(&c), json_text(&j));
}

#[test]
fn strings_are_escaped_as_json() {
    let t = Json::Str("a\"b\\\n\t\r\u{8}\u{c}\u{1}\u{1f} é/".to_string());
    assert_eq!(json_text(&t), "\"a\\\"b\\\\\\n\\t\\r\\b\\f\\u0001\\u001f é/\"");
}
