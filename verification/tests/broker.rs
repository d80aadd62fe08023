use kafka::broker::{admit_connection, Route};
use kafka::channel::{RecvOutcome, CHANNEL_CAPACITY};
use kafka::protocol::ingest_frame;
use kafka::registry::Registry;

fn bytes(s: &str) -> Vec<u8> {
    s.as_bytes().to_vec()
}

fn expect_frame(r: RecvOutcome) -> Vec<u8> {
    match r {
        RecvOutcome::Frame(f) => f,
        _ => panic!("expected a frame"),
    }
}

#[test]
fn end_to_end_single_publisher_single_subscriber() {
    let mut reg = Registry::new();
    let route = admit_connection(
        &mut reg,
        &bytes("{\"method\": \"subscribe\", \"topic\": \"orders\"}"),
    );
    let (sub_idx, cursor) = match route {
        Route::Subscriber { topic_idx, cursor } => (topic_idx, cursor),
        _ => panic!("expected a subscriber route"),
    };

    let route = admit_connection(
        &mut reg,
        &bytes("{\"method\": \"publish\", \"topic\": \"orders\"}"),
    );
    let pub_idx = match route {
        Route::Publisher { topic_idx } => topic_idx,
        _ => panic!("expected a publisher route"),
    };
    assert_eq!(pub_idx, sub_idx);

    let frame = ingest_frame(&bytes("{\"message\":\"hello\"}")).unwrap();
    assert!(reg.can_publish_to(pub_idx));
    reg.publish_to(pub_idx, frame);

    let got = expect_frame(reg.recv_from(sub_idx, cursor));
    assert_eq!(got, bytes("{\"message\":\"hello\"}\n"));
    assert!(matches!(reg.recv_from(sub_idx, cursor), RecvOutcome::Empty));
}

#[test]
fn malformed_handshake_is_refused_at_admission() {
    let mut reg = Registry::new();
    assert!(matches!(
        admit_connection(&mut reg, &bytes("not-json")),
        Route::Reject
    ));
    assert!(matches!(
        admit_connection(&mut reg, &bytes("{\"topic\": \"orders\"}")),
        Route::Reject
    ));
    assert!(matches!(
        admit_connection(&mut reg, &bytes("{\"method\": \"peek\", \"topic\": \"t\"}")),
        Route::Ignore
    ));
    // None of the refused handshakes created a topic: the next topic gets
    // the first position.
    assert!(matches!(
        admit_connection(&mut reg, &bytes("{\"method\": \"publish\", \"topic\": \"t\"}")),
        Route::Publisher { topic_idx: 0 }
    ));
}

#[test]
fn late_subscriber_sees_no_history() {
    let mut reg = Registry::new();
    let idx = reg.resolve(&String::from("orders"));
    reg.publish_to(idx, bytes("early\n"));
    let cursor = reg.subscribe_to(idx);
    assert!(matches!(reg.recv_from(idx, cursor), RecvOutcome::Empty));
    reg.publish_to(idx, bytes("late\n"));
    assert_eq!(expect_frame(reg.recv_from(idx, cursor)), bytes("late\n"));
    assert!(matches!(reg.recv_from(idx, cursor), RecvOutcome::Empty));
}

#[test]
fn topics_are_case_sensitive() {
    let mut reg = Registry::new();
    let lower = reg.resolve(&String::from("orders"));
    let upper = reg.resolve(&String::from("Orders"));
    assert_ne!(lower, upper);
    let cursor = reg.subscribe_to(upper);
    reg.publish_to(lower, bytes("only-lower\n"));
    assert!(matches!(reg.recv_from(upper, cursor), RecvOutcome::Empty));
}

#[test]
fn resolve_is_get_or_create() {
    let mut reg = Registry::new();
    let a = reg.resolve(&String::from("orders"));
    let b = reg.resolve(&String::from("billing"));
    let c = reg.resolve(&String::from("orders"));
    assert_eq!(a, c);
    assert_ne!(a, b);
}

#[test]
fn one_publisher_order_preserved_under_interleaving() {
    let mut reg = Registry::new();
    let idx = reg.resolve(&String::from("orders"));
    let cursor = reg.subscribe_to(idx);
    reg.publish_to(idx, bytes("a1\n"));
    reg.publish_to(idx, bytes("b1\n"));
    reg.publish_to(idx, bytes("a2\n"));
    reg.publish_to(idx, bytes("b2\n"));
    assert_eq!(expect_frame(reg.recv_from(idx, cursor)), bytes("a1\n"));
    assert_eq!(expect_frame(reg.recv_from(idx, cursor)), bytes("b1\n"));
    assert_eq!(expect_frame(reg.recv_from(idx, cursor)), bytes("a2\n"));
    assert_eq!(expect_frame(reg.recv_from(idx, cursor)), bytes("b2\n"));
}

#[test]
fn two_publishers_same_topic_each_keep_their_own_order() {
    let mut reg = Registry::new();
    let first = reg.resolve(&String::from("orders"));
    let second = reg.resolve(&String::from("orders"));
    assert_eq!(first, second);
    let cursor = reg.subscribe_to(first);
    // The two publisher connections interleave arbitrarily; each one's own
    // frames keep their send order at the subscriber.
    reg.publish_to(first, bytes("a1\n"));
    reg.publish_to(second, bytes("b1\n"));
    reg.publish_to(first, bytes("a2\n"));
    reg.publish_to(second, bytes("b2\n"));
    let mut from_a: Vec<Vec<u8>> = Vec::new();
    let mut from_b: Vec<Vec<u8>> = Vec::new();
    while let RecvOutcome::Frame(f) = reg.recv_from(first, cursor) {
        if f.starts_with(b"a") {
            from_a.push(f);
        } else {
            from_b.push(f);
        }
    }
    assert_eq!(from_a, vec![bytes("a1\n"), bytes("a2\n")]);
    assert_eq!(from_b, vec![bytes("b1\n"), bytes("b2\n")]);
}

#[test]
fn two_subscribers_receive_identical_independent_copies() {
    let mut reg = Registry::new();
    let idx = reg.resolve(&String::from("orders"));
    let first = reg.subscribe_to(idx);
    let second = reg.subscribe_to(idx);
    reg.publish_to(idx, bytes("one\n"));
    reg.publish_to(idx, bytes("two\n"));
    assert_eq!(expect_frame(reg.recv_from(idx, first)), bytes("one\n"));
    assert_eq!(expect_frame(reg.recv_from(idx, first)), bytes("two\n"));
    assert_eq!(expect_frame(reg.recv_from(idx, second)), bytes("one\n"));
    assert_eq!(expect_frame(reg.recv_from(idx, second)), bytes("two\n"));
    assert!(matches!(reg.recv_from(idx, first), RecvOutcome::Empty));
    assert!(matches!(reg.recv_from(idx, second), RecvOutcome::Empty));
}

#[test]
fn rejected_publisher_frame_affects_no_other_connection() {
    let mut reg = Registry::new();
    let idx = reg.resolve(&String::from("orders"));
    let cursor = reg.subscribe_to(idx);
    // One publisher sends a frame without "message": it is rejected and that
    // publisher closes; the topic and every other connection go on as before.
    assert_eq!(ingest_frame(&bytes("{\"x\":1}")), None);
    let frame = ingest_frame(&bytes("{\"message\": 2}")).unwrap();
    reg.publish_to(idx, frame);
    assert_eq!(expect_frame(reg.recv_from(idx, cursor)), bytes("{\"message\": 2}\n"));
}

#[test]
fn slow_subscriber_lags_after_eviction() {
    let mut reg = Registry::new();
    let idx = reg.resolve(&String::from("orders"));
    let slow = reg.subscribe_to(idx);
    for i in 0..(CHANNEL_CAPACITY + 1) {
        reg.publish_to(idx, bytes(&format!("{}\n", i)));
    }
    // The first frame was evicted before the slow cursor read it.
    assert!(matches!(reg.recv_from(idx, slow), RecvOutcome::Lagged));
    // A fresh subscriber is unaffected and fully caught up.
    let fresh = reg.subscribe_to(idx);
    assert!(matches!(reg.recv_from(idx, fresh), RecvOutcome::Empty));
    reg.publish_to(idx, bytes("after\n"));
    assert_eq!(expect_frame(reg.recv_from(idx, fresh)), bytes("after\n"));
}

#[test]
fn publisher_never_blocked_by_full_window() {
    let mut reg = Registry::new();
    let idx = reg.resolve(&String::from("orders"));
    for i in 0..(CHANNEL_CAPACITY + 10) {
        assert!(reg.can_publish_to(idx));
        reg.publish_to(idx, bytes(&format!("{}\n", i)));
    }
}
