//! Validation of the newline-delimited JSON frames of the wire protocol.
//!
//! A connection's first frame is a handshake naming a method and a topic;
//! every later frame on a publisher connection must be a JSON object with a
//! `message` field. JSON itself is parsed by `serde_json` behind the trusted
//! items of this module; the validation rules over the parsed outcome are
//! verified.

use vstd::prelude::*;
use vstd::string::StringSliceAdditionalSpecFns;

verus! {

/// Whether the bytes are one valid JSON value: the named outcome of
/// `serde_json::from_slice::<Value>` on them.
pub uninterp spec fn json_parses(bytes: Seq<u8>) -> bool;

/// The string value of the top-level field `key` of the JSON value the bytes
/// parse to: `None` when the bytes do not parse, the field is absent, or its
/// value is not a JSON string.
pub uninterp spec fn json_field_str(bytes: Seq<u8>, key: Seq<char>) -> Option<Seq<char>>;

/// The JSON rendering of the top-level field `key` of the JSON value the
/// bytes parse to: `None` exactly when the bytes do not parse or the field is
/// absent.
pub uninterp spec fn json_field_text(bytes: Seq<u8>, key: Seq<char>) -> Option<Seq<char>>;

/// Relies on `serde_json::from_slice::<Value>`: reports whether the bytes are
/// one valid JSON value.
#[verifier::external_body]
fn json_parse_ok(buf: &Vec<u8>) -> (r: bool)
    ensures
        r == json_parses(buf@),
{
    serde_json::from_slice::<serde_json::Value>(buf.as_slice()).is_ok()
}

/// Relies on `serde_json::from_slice::<Value>`, `Value::get` and
/// `Value::as_str`: hands back the string value of a top-level field, when
/// the bytes parse and that field holds a JSON string.
#[verifier::external_body]
fn json_get_str(buf: &Vec<u8>, key: &str) -> (r: Option<String>)
    ensures
        match r {
            Some(s) => json_field_str(buf@, key@) == Some(s@) && json_parses(buf@),
            None => json_field_str(buf@, key@) is None,
        },
{
    match serde_json::from_slice::<serde_json::Value>(buf.as_slice()) {
        Ok(v) => match v.get(key) {
            Some(field) => match field.as_str() {
                Some(s) => Some(s.to_owned()),
                None => None,
            },
            None => None,
        },
        Err(_) => None,
    }
}

/// Relies on `serde_json::from_slice::<Value>`, `Value::get` and
/// `Value::to_string`: hands back the rendering of a top-level field, when
/// the bytes parse and that field is present.
#[verifier::external_body]
fn json_get_text(buf: &Vec<u8>, key: &str) -> (r: Option<String>)
    ensures
        match r {
            Some(s) => json_field_text(buf@, key@) == Some(s@) && json_parses(buf@),
            None => json_field_text(buf@, key@) is None,
        },
{
    match serde_json::from_slice::<serde_json::Value>(buf.as_slice()) {
        Ok(v) => match v.get(key) {
            Some(field) => Some(field.to_string()),
            None => None,
        },
        Err(_) => None,
    }
}

/// What the broker does with a connection after reading its handshake frame.
pub enum HandshakeOutcome {
    /// Route the connection to publisher ingestion on this topic.
    Publish { topic: String },
    /// Route the connection to subscriber fan-out on this topic.
    Subscribe { topic: String },
    /// Method present but neither `"publish"` nor `"subscribe"`: close the
    /// connection silently, with no error frame.
    Ignore,
    /// Not JSON, or missing `method`, or missing `topic`: write the error
    /// frame, then close the connection.
    Reject,
}

/// The mathematical shape of a handshake decision.
pub enum HandshakeClass {
    Publish { topic: Seq<char> },
    Subscribe { topic: Seq<char> },
    Ignore,
    Reject,
}

impl View for HandshakeOutcome {
    type V = HandshakeClass;

    open spec fn view(&self) -> HandshakeClass {
        match self {
            HandshakeOutcome::Publish { topic } => HandshakeClass::Publish { topic: topic@ },
            HandshakeOutcome::Subscribe { topic } => HandshakeClass::Subscribe { topic: topic@ },
            HandshakeOutcome::Ignore => HandshakeClass::Ignore,
            HandshakeOutcome::Reject => HandshakeClass::Reject,
        }
    }
}

/// The handshake decision for one frame: reject anything that is not JSON or
/// lacks `method` or `topic`; route on `method == "publish"` or
/// `"subscribe"`; silently drop any other method. The topic name is the JSON
/// rendering of the `topic` field, taken verbatim: no normalization, so
/// names that differ in case are distinct topics.
pub open spec fn spec_classify_handshake(bytes: Seq<u8>) -> HandshakeClass {
    if !json_parses(bytes) {
        HandshakeClass::Reject
    } else if json_field_text(bytes, "method"@) is None {
        HandshakeClass::Reject
    } else if json_field_text(bytes, "topic"@) is None {
        HandshakeClass::Reject
    } else if json_field_str(bytes, "method"@) == Some("publish"@) {
        HandshakeClass::Publish { topic: json_field_text(bytes, "topic"@)->0 }
    } else if json_field_str(bytes, "method"@) == Some("subscribe"@) {
        HandshakeClass::Subscribe { topic: json_field_text(bytes, "topic"@)->0 }
    } else {
        HandshakeClass::Ignore
    }
}

/// Classify one handshake frame (the line bytes without their trailing
/// newline).
pub fn classify_handshake(buf: &Vec<u8>) -> (r: HandshakeOutcome)
    ensures
        r@ == spec_classify_handshake(buf@),
{
    if !json_parse_ok(buf) {
        return HandshakeOutcome::Reject;
    }
    if json_get_text(buf, "method").is_none() {
        return HandshakeOutcome::Reject;
    }
    let topic = match json_get_text(buf, "topic") {
        Some(t) => t,
        None => {
            return HandshakeOutcome::Reject;
        },
    };
    match json_get_str(buf, "method") {
        Some(m) => {
            let publish_word: String = "publish".to_owned();
            let subscribe_word: String = "subscribe".to_owned();
            if m == publish_word {
                HandshakeOutcome::Publish { topic }
            } else if m == subscribe_word {
                HandshakeOutcome::Subscribe { topic }
            } else {
                HandshakeOutcome::Ignore
            }
        },
        None => HandshakeOutcome::Ignore,
    }
}

/// A publisher frame is acceptable when it is one JSON value that carries a
/// top-level `message` field.
pub open spec fn publish_frame_ok(line: Seq<u8>) -> bool {
    json_parses(line) && json_field_text(line, "message"@) is Some
}

/// Validate one publisher frame (the line bytes without their trailing
/// newline). On an acceptable frame, hand back the exact bytes to fan out:
/// the raw line, extra fields included, with the newline delimiter restored.
/// On anything else hand back `None`: the caller writes the error frame and
/// closes the publisher's connection.
pub fn ingest_frame(line: &Vec<u8>) -> (r: Option<Vec<u8>>)
    ensures
        r is Some <==> publish_frame_ok(line@),
        r is Some ==> r->0@ == line@.push(10u8),
{
    if !json_parse_ok(line) {
        return None;
    }
    if json_get_text(line, "message").is_none() {
        return None;
    }
    let mut frame = line.clone();
    frame.push(10u8);
    proof {
        assert(frame@ =~= line@.push(10u8));
    }
    Some(frame)
}

/// The exact bytes of the error frame sent on any validation failure.
pub open spec fn error_frame_bytes() -> Seq<u8> {
    "{\"error\": \"received not valid json\"}".spec_bytes()
}

/// Build the error frame written to a client before its connection closes.
pub fn error_frame() -> (r: Vec<u8>)
    ensures
        r@ == error_frame_bytes(),
{
    let s: &str = "{\"error\": \"received not valid json\"}";
    let b: &[u8] = s.as_bytes();
    vstd::slice::slice_to_vec(b)
}

} // verus!
