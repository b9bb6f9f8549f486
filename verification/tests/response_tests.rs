use sunk::error::{Error, ProtocolViolation};
use sunk::json::Json;
use sunk::response::{
    api_error, interpret, interpret_reply, payload_of, scan_report, status_is_success,
};

fn text(s: &str) -> Json {
    Json::Text(s.to_string())
}

fn number(n: u64) -> Json {
    Json::Number(Some(n), n.to_string())
}

fn object(members: Vec<(&str, Json)>) -> Json {
    Json::Object(members.into_iter().map(|(k, v)| (k.to_string(), v)).collect())
}

fn reply(envelope: Json) -> Json {
    object(vec![("subsonic-response", envelope)])
}

#[test]
fn success_is_200_to_299() {
    assert!(status_is_success(200));
    assert!(status_is_success(204));
    assert!(status_is_success(299));
    assert!(!status_is_success(199));
    assert!(!status_is_success(300));
    assert!(!status_is_success(404));
    assert!(!status_is_success(0));
    assert!(!status_is_success(u16::MAX));
}

#[test]
fn payload_is_the_value_of_the_payload_member() {
    let envelope = object(vec![
        ("status", text("ok")),
        ("version", text("1.14.0")),
        ("scanStatus", object(vec![("scanning", Json::Bool(true))])),
    ]);
    assert_eq!(payload_of(envelope), object(vec![("scanning", Json::Bool(true))]));
    let envelope = object(vec![
        ("error", Json::Null),
        ("license", object(vec![("valid", Json::Bool(true))])),
        ("status", text("ok")),
        ("version", text("1.14.0")),
    ]);
    assert_eq!(payload_of(envelope), object(vec![("valid", Json::Bool(true))]));
}

#[test]
fn payload_may_be_of_any_kind() {
    for value in [
        Json::Bool(false),
        number(7),
        text("x"),
        Json::Array(vec![number(1), number(2)]),
        Json::Null,
    ] {
        let envelope = object(vec![("status", text("ok")), ("answer", object(vec![]))]);
        assert_eq!(payload_of(envelope), object(vec![]));
        let envelope = object(vec![("status", text("ok")), ("answer", Json::Bool(true))]);
        assert_eq!(payload_of(envelope), Json::Bool(true));
        let expected = match &value {
            Json::Bool(b) => Json::Bool(*b),
            Json::Number(n, t) => Json::Number(*n, t.clone()),
            Json::Text(t) => Json::Text(t.clone()),
            Json::Array(_) => Json::Array(vec![number(1), number(2)]),
            _ => Json::Null,
        };
        let envelope = object(vec![("status", text("ok")), ("answer", value)]);
        assert_eq!(payload_of(envelope), expected);
    }
}

#[test]
fn payload_of_an_envelope_without_a_payload_member_is_null() {
    assert_eq!(
        payload_of(object(vec![("status", text("ok")), ("version", text("1.14.0"))])),
        Json::Null
    );
    assert_eq!(payload_of(object(vec![])), Json::Null);
    assert_eq!(payload_of(text("ok")), Json::Null);
    assert_eq!(payload_of(Json::Array(vec![object(vec![("a", number(1))])])), Json::Null);
}

#[test]
fn payload_of_several_members_is_the_first() {
    let envelope = object(vec![
        ("status", text("ok")),
        ("albums", number(1)),
        ("version", text("1.14.0")),
        ("artists", number(2)),
    ]);
    assert_eq!(payload_of(envelope), number(1));
}

#[test]
fn api_error_needs_a_numeric_code_and_a_textual_message() {
    let full = object(vec![(
        "error",
        object(vec![("code", number(40)), ("message", text("Wrong username or password."))]),
    )]);
    assert_eq!(api_error(&full), Some((40, "Wrong username or password.".to_string())));
    assert_eq!(api_error(&object(vec![])), None);
    assert_eq!(api_error(&object(vec![("error", text("x"))])), None);
    assert_eq!(api_error(&object(vec![("error", object(vec![("code", number(40))]))])), None);
    assert_eq!(
        api_error(&object(vec![("error", object(vec![("message", text("m"))]))])),
        None
    );
    assert_eq!(
        api_error(&object(vec![(
            "error",
            object(vec![("code", text("40")), ("message", text("m"))])
        )])),
        None
    );
    assert_eq!(
        api_error(&object(vec![(
            "error",
            object(vec![("code", number(40)), ("message", number(1))])
        )])),
        None
    );
}

#[test]
fn ok_reply_gives_its_payload() {
    let doc = reply(object(vec![
        ("status", text("ok")),
        ("version", text("1.14.0")),
        ("scanStatus", object(vec![("scanning", Json::Bool(false)), ("count", number(5661))])),
    ]));
    assert_eq!(
        interpret_reply(doc),
        Ok(object(vec![("scanning", Json::Bool(false)), ("count", number(5661))]))
    );
    let doc = reply(object(vec![("status", text("ok")), ("version", text("1.14.0"))]));
    assert_eq!(interpret_reply(doc), Ok(Json::Null));
}

#[test]
fn failed_reply_gives_the_failure() {
    let doc = reply(object(vec![
        ("status", text("failed")),
        ("version", text("1.14.0")),
        (
            "error",
            object(vec![("code", number(40)), ("message", text("Wrong username or password."))]),
        ),
    ]));
    assert_eq!(
        interpret_reply(doc),
        Err(Error::Api(40, "Wrong username or password.".to_string()))
    );
}

#[test]
fn failed_reply_without_a_proper_error_departs_from_the_protocol() {
    let doc = reply(object(vec![("status", text("failed"))]));
    assert_eq!(interpret_reply(doc), Err(Error::Protocol(ProtocolViolation::BadError)));
    let doc = reply(object(vec![
        ("status", text("failed")),
        ("error", object(vec![("code", text("forty")), ("message", text("m"))])),
    ]));
    assert_eq!(interpret_reply(doc), Err(Error::Protocol(ProtocolViolation::BadError)));
}

#[test]
fn reply_without_an_envelope_departs_from_the_protocol() {
    assert_eq!(
        interpret_reply(object(vec![("status", text("ok"))])),
        Err(Error::Protocol(ProtocolViolation::MissingEnvelope))
    );
    assert_eq!(
        interpret_reply(Json::Array(vec![])),
        Err(Error::Protocol(ProtocolViolation::MissingEnvelope))
    );
    assert_eq!(
        interpret_reply(Json::Null),
        Err(Error::Protocol(ProtocolViolation::MissingEnvelope))
    );
}

#[test]
fn reply_with_another_status_departs_from_the_protocol() {
    for envelope in [
        object(vec![]),
        object(vec![("status", text("OK"))]),
        object(vec![("status", text(""))]),
        object(vec![("status", text("pending"))]),
        object(vec![("status", Json::Bool(true))]),
        object(vec![("status", Json::Null)]),
        object(vec![("Status", text("ok"))]),
        Json::Array(vec![text("ok")]),
        text("ok"),
    ] {
        assert_eq!(
            interpret_reply(reply(envelope)),
            Err(Error::Protocol(ProtocolViolation::BadStatus))
        );
    }
}

#[test]
fn status_is_looked_at_before_the_body() {
    let ok = reply(object(vec![("status", text("ok"))]));
    assert_eq!(interpret(404, Some(ok)), Err(Error::Transport(404)));
    assert_eq!(interpret(404, None), Err(Error::Transport(404)));
    assert_eq!(interpret(500, None), Err(Error::Transport(500)));
    assert_eq!(interpret(199, None), Err(Error::Transport(199)));
    assert_eq!(interpret(300, None), Err(Error::Transport(300)));
}

#[test]
fn body_that_did_not_decode_is_a_decode_error() {
    assert_eq!(interpret(200, None), Err(Error::Decode));
    assert_eq!(interpret(299, None), Err(Error::Decode));
}

#[test]
fn decoded_body_under_success_is_interpreted() {
    let ok = reply(object(vec![("status", text("ok")), ("x", number(1))]));
    assert_eq!(interpret(200, Some(ok)), Ok(number(1)));
    assert_eq!(
        interpret(200, Some(Json::Null)),
        Err(Error::Protocol(ProtocolViolation::MissingEnvelope))
    );
}

#[test]
fn scan_report_reads_scanning_and_count() {
    let payload = object(vec![("scanning", Json::Bool(true)), ("count", number(12))]);
    assert_eq!(scan_report(&payload), Ok((true, 12)));
    let payload = object(vec![
        ("count", number(5661)),
        ("folderCount", number(3)),
        ("scanning", Json::Bool(false)),
    ]);
    assert_eq!(scan_report(&payload), Ok((false, 5661)));
}

#[test]
fn scan_report_asks_for_both_fields_in_their_kind() {
    let bad = Err(Error::Protocol(ProtocolViolation::BadPayload));
    assert_eq!(scan_report(&object(vec![])), bad);
    assert_eq!(scan_report(&Json::Null), bad);
    assert_eq!(
        scan_report(&object(vec![(
            "scanStatus",
            object(vec![("scanning", Json::Bool(true)), ("count", number(12))])
        )])),
        bad
    );
    assert_eq!(scan_report(&object(vec![("count", number(12))])), bad);
    assert_eq!(scan_report(&object(vec![("scanning", Json::Bool(true))])), bad);
    assert_eq!(
        scan_report(&object(vec![("scanning", text("true")), ("count", number(12))])),
        bad
    );
    assert_eq!(
        scan_report(&object(vec![
            ("scanning", Json::Bool(true)),
            ("count", Json::Number(None, "-1".to_string()))
        ])),
        bad
    );
    assert_eq!(
        scan_report(&object(vec![
            ("scanning", Json::Bool(true)),
            ("count", Json::Number(None, "1.5".to_string()))
        ])),
        bad
    );
}
