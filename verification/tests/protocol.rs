use kafka::protocol::{classify_handshake, error_frame, ingest_frame, HandshakeOutcome};

fn bytes(s: &str) -> Vec<u8> {
    s.as_bytes().to_vec()
}

#[test]
fn handshake_publish_routes() {
    let r = classify_handshake(&bytes("{\"method\": \"publish\", \"topic\": \"orders\"}"));
    match r {
        HandshakeOutcome::Publish { topic } => assert_eq!(topic, "\"orders\""),
        _ => panic!("expected a publish route"),
    }
}

#[test]
fn handshake_subscribe_routes() {
    let r = classify_handshake(&bytes("{\"method\": \"subscribe\", \"topic\": \"orders\"}"));
    match r {
        HandshakeOutcome::Subscribe { topic } => assert_eq!(topic, "\"orders\""),
        _ => panic!("expected a subscribe route"),
    }
}

#[test]
fn handshake_not_json_rejected() {
    let r = classify_handshake(&bytes("not-json"));
    assert!(matches!(r, HandshakeOutcome::Reject));
}

#[test]
fn handshake_missing_method_rejected() {
    let r = classify_handshake(&bytes("{\"topic\": \"orders\"}"));
    assert!(matches!(r, HandshakeOutcome::Reject));
}

#[test]
fn handshake_missing_topic_rejected() {
    let r = classify_handshake(&bytes("{\"method\": \"publish\"}"));
    assert!(matches!(r, HandshakeOutcome::Reject));
}

#[test]
fn handshake_unknown_method_ignored() {
    let r = classify_handshake(&bytes("{\"method\": \"peek\", \"topic\": \"orders\"}"));
    assert!(matches!(r, HandshakeOutcome::Ignore));
}

#[test]
fn handshake_non_string_method_ignored() {
    let r = classify_handshake(&bytes("{\"method\": 5, \"topic\": \"orders\"}"));
    assert!(matches!(r, HandshakeOutcome::Ignore));
}

#[test]
fn handshake_non_string_topic_accepted() {
    let r = classify_handshake(&bytes("{\"method\": \"subscribe\", \"topic\": 7}"));
    match r {
        HandshakeOutcome::Subscribe { topic } => assert_eq!(topic, "7"),
        _ => panic!("expected a subscribe route"),
    }
}

#[test]
fn error_frame_exact_bytes() {
    assert_eq!(error_frame(), bytes("{\"error\": \"received not valid json\"}"));
}

#[test]
fn ingest_valid_frame_forwarded_verbatim() {
    let line = bytes("{\"message\": \"hello\", \"extra\": [1, 2]}");
    let r = ingest_frame(&line);
    let mut expected = line.clone();
    expected.push(b'\n');
    assert_eq!(r, Some(expected));
}

#[test]
fn ingest_missing_message_rejected() {
    assert_eq!(ingest_frame(&bytes("{\"x\":1}")), None);
}

#[test]
fn ingest_not_json_rejected() {
    assert_eq!(ingest_frame(&bytes("not-json")), None);
}

#[test]
fn ingest_non_object_rejected() {
    assert_eq!(ingest_frame(&bytes("42")), None);
}

#[test]
fn ingest_empty_line_rejected() {
    assert_eq!(ingest_frame(&Vec::new()), None);
}
