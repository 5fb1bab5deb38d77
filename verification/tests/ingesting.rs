use event_relay::filter::RawMessage;
use event_relay::ingest::GatewayItem;
use event_relay::ingest::IngestAction;
use event_relay::ingest::ingest_step;
use event_relay::ingest::plan_forwards;

fn text(body: &[u8]) -> GatewayItem {
    GatewayItem::Message(RawMessage::Text(body.to_vec()))
}

#[test]
fn stream_error_is_skipped() {
    assert!(matches!(ingest_step(GatewayItem::StreamError), IngestAction::Skip));
}

#[test]
fn close_frame_is_skipped() {
    assert!(matches!(
        ingest_step(GatewayItem::Message(RawMessage::Close)),
        IngestAction::Skip
    ));
}

#[test]
fn ready_spawns_nothing() {
    assert!(matches!(
        ingest_step(text(b"{\"t\":\"READY\",\"s\":1,\"op\":0,\"d\":{}}")),
        IngestAction::Skip
    ));
}

#[test]
fn forwardable_event_spawns_its_task() {
    let body = b"{\"t\":\"MESSAGE_CREATE\",\"s\":3,\"op\":0,\"d\":{}}";
    match ingest_step(text(body)) {
        IngestAction::Spawn(spawned) => assert_eq!(spawned, body.to_vec()),
        IngestAction::Skip => panic!("a forwardable event must spawn a task"),
    }
}

#[test]
fn each_forwardable_event_gets_one_task_in_order() {
    let first = b"{\"t\":\"MESSAGE_CREATE\",\"s\":3,\"op\":0,\"d\":{\"n\":1}}";
    let second = b"{\"t\":\"MESSAGE_REACTION_ADD\",\"s\":4,\"op\":0,\"d\":{\"n\":2}}";
    let plan = plan_forwards(vec![
        GatewayItem::StreamError,
        GatewayItem::Message(RawMessage::Close),
        text(b"{\"t\":\"READY\",\"s\":1,\"op\":0,\"d\":{}}"),
        text(first),
        text(b"{\"t\":null,\"s\":null,\"op\":11,\"d\":null}"),
        text(second),
        text(b"{\"t\":\"RESUMED\",\"s\":5,\"op\":0,\"d\":{}}"),
    ]);
    assert_eq!(plan, vec![first.to_vec(), second.to_vec()]);
}

#[test]
fn a_run_of_noise_spawns_nothing() {
    let plan = plan_forwards(vec![
        GatewayItem::StreamError,
        text(b"{\"t\":null,\"s\":null,\"op\":11,\"d\":null}"),
        GatewayItem::Message(RawMessage::Close),
    ]);
    assert!(plan.is_empty());
}
