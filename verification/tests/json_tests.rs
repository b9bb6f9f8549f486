use sunk::json::Json;

fn text(s: &str) -> Json {
    Json::Text(s.to_string())
}

fn number(n: u64) -> Json {
    Json::Number(Some(n), n.to_string())
}

fn object(members: Vec<(&str, Json)>) -> Json {
    Json::Object(members.into_iter().map(|(k, v)| (k.to_string(), v)).collect())
}

#[test]
fn decode_reads_every_kind_of_value() {
    assert_eq!(Json::decode(b"null"), Some(Json::Null));
    assert_eq!(Json::decode(b"true"), Some(Json::Bool(true)));
    assert_eq!(Json::decode(b"false"), Some(Json::Bool(false)));
    assert_eq!(Json::decode(b"\"ok\""), Some(text("ok")));
    assert_eq!(Json::decode(b"5661"), Some(number(5661)));
    assert_eq!(
        Json::decode(b"[1, \"a\", [], {}]"),
        Some(Json::Array(vec![number(1), text("a"), Json::Array(vec![]), object(vec![])]))
    );
    assert_eq!(
        Json::decode(b" {\"scanning\": false, \"count\": 5661} "),
        Some(object(vec![("count", number(5661)), ("scanning", Json::Bool(false))]))
    );
}

#[test]
fn decode_keeps_the_text_of_a_number() {
    assert_eq!(
        Json::decode(b"18446744073709551615"),
        Some(Json::Number(Some(u64::MAX), "18446744073709551615".to_string()))
    );
    assert_eq!(Json::decode(b"-40"), Some(Json::Number(None, "-40".to_string())));
    assert_eq!(Json::decode(b"1.5"), Some(Json::Number(None, "1.5".to_string())));
    assert_eq!(Json::decode(b"0"), Some(Json::Number(Some(0), "0".to_string())));
}

#[test]
fn decode_refuses_what_is_no_json() {
    assert_eq!(Json::decode(b""), None);
    assert_eq!(Json::decode(b"ID3\x03\x00\x00"), None);
    assert_eq!(Json::decode(b"{\"a\": 1"), None);
    assert_eq!(Json::decode(b"{\"a\": 1} x"), None);
    assert_eq!(Json::decode(b"<subsonic-response status=\"ok\"/>"), None);
    assert_eq!(Json::decode(&[0xff, 0xfe, 0x00]), None);
    assert_eq!(Json::decode(b"\"\xff\""), None);
}

#[test]
fn decode_keeps_the_last_of_two_members_with_one_key() {
    assert_eq!(Json::decode(b"{\"a\": 1, \"a\": 2}"), Some(object(vec![("a", number(2))])));
}

#[test]
fn get_finds_the_first_member_with_the_key() {
    let doc = object(vec![("a", number(1)), ("b", number(2)), ("a", number(3))]);
    assert_eq!(doc.get("a"), Some(&number(1)));
    assert_eq!(doc.get("b"), Some(&number(2)));
    assert_eq!(doc.get("c"), None);
    assert_eq!(doc.get(""), None);
    assert_eq!(object(vec![]).get("a"), None);
}

#[test]
fn get_finds_nothing_in_what_is_no_object() {
    assert_eq!(Json::Null.get("a"), None);
    assert_eq!(text("a").get("a"), None);
    assert_eq!(Json::Array(vec![object(vec![("a", number(1))])]).get("a"), None);
}

#[test]
fn into_member_takes_the_first_member_with_the_key() {
    let doc = object(vec![("a", number(1)), ("b", text("x")), ("a", number(3))]);
    assert_eq!(doc.into_member("a"), Some(number(1)));
    let doc = object(vec![("a", number(1)), ("b", text("x"))]);
    assert_eq!(doc.into_member("b"), Some(text("x")));
    let doc = object(vec![("a", number(1))]);
    assert_eq!(doc.into_member("c"), None);
    assert_eq!(Json::Bool(true).into_member("a"), None);
}

#[test]
fn values_are_read_by_kind() {
    assert_eq!(text("ok").as_str(), Some("ok"));
    assert_eq!(number(1).as_str(), None);
    assert_eq!(number(40).as_u64(), Some(40));
    assert_eq!(Json::Number(None, "-1".to_string()).as_u64(), None);
    assert_eq!(text("40").as_u64(), None);
    assert_eq!(Json::Bool(false).as_bool(), Some(false));
    assert_eq!(Json::Bool(true).as_bool(), Some(true));
    assert_eq!(Json::Null.as_bool(), None);
    assert_eq!(text("true").as_bool(), None);
}
