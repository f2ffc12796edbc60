//! JSON documents: parsing and the three ways to look into one.

use tg_ai_companion::json::Json;

fn text(s: &str) -> Json {
    Json::String(s.to_string())
}

#[test]
fn parse_reads_nested_members() {
    let parsed = Json::parse(br#"{"choices":[{"message":{"content":"Hi back!"}}]}"#).unwrap();
    let content = parsed
        .get("choices")
        .and_then(|c| c.at(0))
        .and_then(|c| c.get("message"))
        .and_then(|m| m.get("content"))
        .and_then(|c| c.as_str());
    assert_eq!(content, Some("Hi back!"));
}

#[test]
fn parse_refuses_what_is_not_json() {
    assert_eq!(Json::parse(b"{not json"), None);
    assert_eq!(Json::parse(b""), None);
    assert_eq!(Json::parse(b"{} {}"), None);
    assert_eq!(Json::parse(b"[1,]"), None);
    assert_eq!(Json::parse(b"'single'"), None);
}

#[test]
fn parse_gives_each_kind_of_document() {
    assert_eq!(Json::parse(b"null"), Some(Json::Null));
    assert_eq!(Json::parse(b" true "), Some(Json::Bool(true)));
    assert_eq!(Json::parse(b"false"), Some(Json::Bool(false)));
    assert_eq!(Json::parse(b"987654321"), Some(Json::Number("987654321".to_string())));
    assert_eq!(Json::parse(b"-12"), Some(Json::Number("-12".to_string())));
    assert_eq!(Json::parse(b"1.5"), Some(Json::Number("1.5".to_string())));
    assert_eq!(Json::parse(br#""a\nb""#), Some(text("a\nb")));
    assert_eq!(Json::parse(b"[]"), Some(Json::Array(vec![])));
    assert_eq!(Json::parse(b"{}"), Some(Json::Object(vec![])));
    assert_eq!(
        Json::parse(br#"[null, "x", [true]]"#),
        Some(Json::Array(vec![Json::Null, text("x"), Json::Array(vec![Json::Bool(true)])]))
    );
    assert_eq!(
        Json::parse(br#"{"a": {"b": "c"}}"#),
        Some(Json::Object(vec![(
            "a".to_string(),
            Json::Object(vec![("b".to_string(), text("c"))])
        )]))
    );
}

#[test]
fn parse_keeps_every_member_once() {
    let parsed = Json::parse(br#"{"b":"1","a":"2","b":"3"}"#).unwrap();
    assert_eq!(parsed.get("a"), Some(&text("2")));
    assert_eq!(parsed.get("b"), Some(&text("3")));
    match parsed {
        Json::Object(members) => assert_eq!(members.len(), 2),
        other => panic!("not an object: {:?}", other),
    }
}

#[test]
fn get_finds_members_of_objects_only() {
    let object = Json::Object(vec![
        ("first".to_string(), text("1")),
        ("second".to_string(), Json::Null),
    ]);
    assert_eq!(object.get("first"), Some(&text("1")));
    assert_eq!(object.get("second"), Some(&Json::Null));
    assert_eq!(object.get("third"), None);
    assert_eq!(object.get("First"), None);
    assert_eq!(object.get(""), None);
    assert_eq!(Json::Array(vec![text("first")]).get("first"), None);
    assert_eq!(text("first").get("first"), None);
    assert_eq!(Json::Null.get("first"), None);
}

#[test]
fn get_takes_the_first_of_equal_keys() {
    let object = Json::Object(vec![("k".to_string(), text("1")), ("k".to_string(), text("2"))]);
    assert_eq!(object.get("k"), Some(&text("1")));
}

#[test]
fn at_finds_elements_of_arrays_only() {
    let array = Json::Array(vec![text("zero"), text("one")]);
    assert_eq!(array.at(0), Some(&text("zero")));
    assert_eq!(array.at(1), Some(&text("one")));
    assert_eq!(array.at(2), None);
    assert_eq!(array.at(usize::MAX), None);
    assert_eq!(Json::Array(vec![]).at(0), None);
    assert_eq!(Json::Object(vec![("0".to_string(), text("zero"))]).at(0), None);
    assert_eq!(text("zero").at(0), None);
}

#[test]
fn as_str_reads_strings_only() {
    assert_eq!(text("Hi").as_str(), Some("Hi"));
    assert_eq!(text("").as_str(), Some(""));
    assert_eq!(Json::Number("1".to_string()).as_str(), None);
    assert_eq!(Json::Null.as_str(), None);
    assert_eq!(Json::Bool(true).as_str(), None);
    assert_eq!(Json::Array(vec![text("Hi")]).as_str(), None);
}
