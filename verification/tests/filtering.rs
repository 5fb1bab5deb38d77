use event_relay::filter::Classification;
use event_relay::filter::RawMessage;
use event_relay::filter::classify;

fn is_suppressed(body: &[u8]) -> bool {
    matches!(
        classify(RawMessage::Text(body.to_vec())),
        Classification::Suppressed
    )
}

#[test]
fn ready_is_suppressed() {
    assert!(is_suppressed(b"{\"t\":\"READY\",\"s\":1,\"op\":0,\"d\":{}}"));
}

#[test]
fn resumed_is_suppressed() {
    assert!(is_suppressed(b"{\"t\":\"RESUMED\",\"s\":2,\"op\":0,\"d\":{}}"));
}

#[test]
fn null_event_type_is_suppressed() {
    assert!(is_suppressed(b"{\"t\":null,\"s\":null,\"op\":11,\"d\":null}"));
}

#[test]
fn bare_null_envelope_is_suppressed() {
    assert!(is_suppressed(b"{\"t\":null}"));
}

#[test]
fn absent_event_type_is_suppressed() {
    assert!(is_suppressed(b"{\"op\":10,\"d\":{\"heartbeat_interval\":41250}}"));
}

#[test]
fn empty_body_is_suppressed() {
    assert!(is_suppressed(b""));
}

#[test]
fn close_is_suppressed() {
    assert!(matches!(classify(RawMessage::Close), Classification::Suppressed));
}

#[test]
fn message_create_is_forwardable() {
    let body = b"{\"t\":\"MESSAGE_CREATE\",\"s\":3,\"op\":0,\"d\":{\"content\":\"hi\"}}";
    match classify(RawMessage::Text(body.to_vec())) {
        Classification::Forwardable(out) => assert_eq!(out, body.to_vec()),
        Classification::Suppressed => panic!("MESSAGE_CREATE must be forwarded"),
    }
}

#[test]
fn forwarded_body_passes_through_byte_for_byte() {
    let body = b"{\"t\":\"GUILD_CREATE\",\"s\":4,\"op\":0,\"d\":{\"id\":\"17\"}}".to_vec();
    match classify(RawMessage::Text(body.clone())) {
        Classification::Forwardable(out) => assert_eq!(out, body),
        Classification::Suppressed => panic!("GUILD_CREATE must be forwarded"),
    }
}

#[test]
fn event_type_is_matched_whole_not_by_prefix() {
    // A prefix match on `{"t":"READY` would wrongly swallow this one.
    let body = b"{\"t\":\"READY_EXTRA\",\"s\":1,\"op\":0,\"d\":{}}";
    assert!(!is_suppressed(body));
}

#[test]
fn unterminated_event_type_is_suppressed() {
    assert!(is_suppressed(b"{\"t\":\"READ"));
}
