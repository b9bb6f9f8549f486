use vstd::prelude::*;
use crate::error::{plain_outcome, Error, ErrorView, ProtocolViolation};
use crate::json::{
    bool_of, decoded_view, lemma_object_view, member, members_view, text_of, u64_of, Json,
    JsonValue,
};
use crate::text::str_eq;

verus! {

/// Whether an HTTP status reports success: 200 to 299.
pub open spec fn is_success(status: u16) -> bool {
    200 <= status < 300
}

/// Whether `key` names a field of the envelope itself rather than of the payload.
pub open spec fn is_envelope_key(key: Seq<char>) -> bool {
    key == "status"@ || key == "version"@ || key == "error"@
}

/// The value of the first member at or after `from` that is not the envelope's own,
/// and null where there is none.
pub open spec fn payload_from(members: Seq<(Seq<char>, JsonValue)>, from: int) -> JsonValue
    decreases members.len() - from,
{
    if from < 0 || from >= members.len() {
        JsonValue::Null
    } else if !is_envelope_key(members[from].0) {
        members[from].1
    } else {
        payload_from(members, from + 1)
    }
}

/// The payload of an envelope: the value of its payload member, which is the member
/// whose key is none of `status`, `version` and `error`. An envelope without such a
/// member, as the reply to a ping is, has the payload null; of several such members
/// the first counts.
pub open spec fn payload_value(envelope: JsonValue) -> JsonValue {
    match envelope {
        JsonValue::Object(members) => payload_from(members, 0),
        _ => JsonValue::Null,
    }
}

/// The text under `status` in an envelope.
pub open spec fn status_of(envelope: JsonValue) -> Option<Seq<char>> {
    match member(envelope, "status"@) {
        Some(s) => text_of(s),
        None => None,
    }
}

/// The failure that an envelope reports under `error`: a numeric `code` and a textual
/// `message`.
pub open spec fn api_error_of(envelope: JsonValue) -> Option<(u64, Seq<char>)> {
    match member(envelope, "error"@) {
        Some(error) => match (member(error, "code"@), member(error, "message"@)) {
            (Some(code), Some(message)) => match (u64_of(code), text_of(message)) {
                (Some(c), Some(m)) => Some((c, m)),
                _ => None,
            },
            _ => None,
        },
        None => None,
    }
}

/// What a decoded reply means. An envelope with status "ok" gives its payload, one with
/// status "failed" the failure it reports; everything else departs from the protocol.
pub open spec fn reply_outcome(doc: JsonValue) -> Result<JsonValue, ErrorView> {
    match member(doc, "subsonic-response"@) {
        None => Err(ErrorView::Protocol(ProtocolViolation::MissingEnvelope)),
        Some(envelope) => if status_of(envelope) == Some("ok"@) {
            Ok(payload_value(envelope))
        } else if status_of(envelope) == Some("failed"@) {
            match api_error_of(envelope) {
                Some((code, message)) => Err(ErrorView::Api(code, message)),
                None => Err(ErrorView::Protocol(ProtocolViolation::BadError)),
            }
        } else {
            Err(ErrorView::Protocol(ProtocolViolation::BadStatus))
        },
    }
}

/// What a response means, given its HTTP status and what its body decoded to. The
/// status is looked at first: without success the body does not matter.
pub open spec fn response_outcome(status: u16, decoded: Option<JsonValue>) -> Result<
    JsonValue,
    ErrorView,
> {
    if !is_success(status) {
        Err(ErrorView::Transport(status))
    } else {
        match decoded {
            None => Err(ErrorView::Decode),
            Some(doc) => reply_outcome(doc),
        }
    }
}

/// What a payload that is a scan report says under `scanning` and `count`: whether a
/// scan is running, and how many items it has found.
pub open spec fn scan_report_of(payload: JsonValue) -> Option<(bool, u64)> {
    match (member(payload, "scanning"@), member(payload, "count"@)) {
        (Some(scanning), Some(count)) => match (bool_of(scanning), u64_of(count)) {
            (Some(s), Some(c)) => Some((s, c)),
            _ => None,
        },
        _ => None,
    }
}

/// What reading the scan report off a payload gives.
pub open spec fn scan_report_outcome(payload: JsonValue) -> Result<(bool, u64), ErrorView> {
    match scan_report_of(payload) {
        Some(report) => Ok(report),
        None => Err(ErrorView::Protocol(ProtocolViolation::BadPayload)),
    }
}

/// The mathematical value of an outcome that carries a payload.
pub open spec fn outcome_view(r: Result<Json, Error>) -> Result<JsonValue, ErrorView> {
    match r {
        Ok(payload) => Ok(payload@),
        Err(e) => Err(e@),
    }
}

/// Without a status of success the body does not matter: the outcome is the status.
pub proof fn lemma_failure_status_decides(
    status: u16,
    decoded: Option<JsonValue>,
    other: Option<JsonValue>,
)
    requires
        !is_success(status),
    ensures
        response_outcome(status, decoded) == Err::<JsonValue, _>(ErrorView::Transport(status)),
        response_outcome(status, decoded) == response_outcome(status, other),
{
}

/// The payload is the value of the first member that is not the envelope's own.
pub proof fn lemma_payload_member(members: Seq<(Seq<char>, JsonValue)>, i: int)
    requires
        0 <= i < members.len(),
        !is_envelope_key(members[i].0),
        forall|j: int| 0 <= j < i ==> is_envelope_key(#[trigger] members[j].0),
    ensures
        payload_value(JsonValue::Object(members)) == members[i].1,
{
    lemma_payload_from(members, i, 0);
}

/// An envelope with no member but its own has the payload null.
pub proof fn lemma_payload_absent(members: Seq<(Seq<char>, JsonValue)>)
    requires
        forall|j: int| 0 <= j < members.len() ==> is_envelope_key(#[trigger] members[j].0),
    ensures
        payload_value(JsonValue::Object(members)) == JsonValue::Null,
{
    lemma_payload_from(members, members.len() as int, 0);
}

/// A reply whose envelope has status "ok" gives the value of the envelope's payload
/// member, whatever kind of value that is.
pub proof fn lemma_ok_reply_gives_payload(
    doc: JsonValue,
    members: Seq<(Seq<char>, JsonValue)>,
    i: int,
)
    requires
        member(doc, "subsonic-response"@) == Some(JsonValue::Object(members)),
        status_of(JsonValue::Object(members)) == Some("ok"@),
        0 <= i < members.len(),
        !is_envelope_key(members[i].0),
        forall|j: int| 0 <= j < i ==> is_envelope_key(#[trigger] members[j].0),
    ensures
        reply_outcome(doc) == Ok::<_, ErrorView>(members[i].1),
{
    lemma_payload_member(members, i);
}

// The search for the payload member passes over the envelope's own members.
proof fn lemma_payload_from(members: Seq<(Seq<char>, JsonValue)>, i: int, from: int)
    requires
        0 <= from <= i <= members.len(),
        forall|j: int| from <= j < i ==> is_envelope_key(#[trigger] members[j].0),
        i < members.len() ==> !is_envelope_key(members[i].0),
    ensures
        payload_from(members, from) == if i < members.len() {
            members[i].1
        } else {
            JsonValue::Null
        },
    decreases i - from,
{
    if from < i {
        lemma_payload_from(members, i, from + 1);
    }
}

/// Whether an HTTP status reports success.
pub fn status_is_success(status: u16) -> (r: bool)
    ensures
        r == is_success(status),
{
    200 <= status && status < 300
}

fn envelope_key(key: &str) -> (r: bool)
    ensures
        r == is_envelope_key(key@),
{
    str_eq(key, "status") || str_eq(key, "version") || str_eq(key, "error")
}

/// Takes the payload out of an envelope.
pub fn payload_of(envelope: Json) -> (r: Json)
    ensures
        r@ == payload_value(envelope@),
{
    let ghost wanted = payload_value(envelope@);
    match envelope {
        Json::Object(members) => {
            proof {
                lemma_object_view(members);
            }
            let ghost all = members_view(members@);
            for m in it: members
                invariant
                    it.seq() == members@,
                    all == members_view(members@),
                    wanted == payload_value(envelope@),
                    wanted == payload_from(all, it.index() as int),
            {
                if !envelope_key(m.0.as_str()) {
                    return m.1;
                }
            }
            Json::Null
        },
        _ => Json::Null,
    }
}

/// Reads the failure that an envelope reports.
pub fn api_error(envelope: &Json) -> (r: Option<(u64, String)>)
    ensures
        match r {
            Some((code, message)) => api_error_of(envelope@) == Some((code, message@)),
            None => api_error_of(envelope@) is None,
        },
{
    match envelope.get("error") {
        Some(error) => match (error.get("code"), error.get("message")) {
            (Some(code), Some(message)) => match (code.as_u64(), message.as_str()) {
                (Some(c), Some(m)) => Some((c, m.to_owned())),
                _ => None,
            },
            _ => None,
        },
        None => None,
    }
}

/// Says what a decoded reply means.
pub fn interpret_reply(doc: Json) -> (r: Result<Json, Error>)
    ensures
        outcome_view(r) == reply_outcome(doc@),
{
    match doc.into_member("subsonic-response") {
        None => Err(Error::Protocol(ProtocolViolation::MissingEnvelope)),
        Some(envelope) => {
            let (ok, failed) = match envelope.get("status") {
                Some(s) => match s.as_str() {
                    Some(text) => (str_eq(text, "ok"), str_eq(text, "failed")),
                    None => (false, false),
                },
                None => (false, false),
            };
            if ok {
                Ok(payload_of(envelope))
            } else if failed {
                match api_error(&envelope) {
                    Some((code, message)) => Err(Error::Api(code, message)),
                    None => Err(Error::Protocol(ProtocolViolation::BadError)),
                }
            } else {
                Err(Error::Protocol(ProtocolViolation::BadStatus))
            }
        },
    }
}

/// Says what a response means, given its HTTP status and what its body decoded to.
pub fn interpret(status: u16, decoded: Option<Json>) -> (r: Result<Json, Error>)
    ensures
        outcome_view(r) == response_outcome(status, decoded_view(decoded)),
{
    if !status_is_success(status) {
        Err(Error::Transport(status))
    } else {
        match decoded {
            None => Err(Error::Decode),
            Some(doc) => interpret_reply(doc),
        }
    }
}

/// Reads the scan report out of a payload.
pub fn scan_report(payload: &Json) -> (r: Result<(bool, u64), Error>)
    ensures
        plain_outcome(r) == scan_report_outcome(payload@),
{
    let found = match (payload.get("scanning"), payload.get("count")) {
        (Some(scanning), Some(count)) => match (scanning.as_bool(), count.as_u64()) {
            (Some(s), Some(c)) => Some((s, c)),
            _ => None,
        },
        _ => None,
    };
    match found {
        Some(report) => Ok(report),
        None => Err(Error::Protocol(ProtocolViolation::BadPayload)),
    }
}

} // verus!
