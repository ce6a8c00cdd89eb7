use tungstenite::Message as WireMessage;
use ws_handle::{Delivery, InboundActor, InboundStep, OutboundActor, RawMessage};

fn text(s: &str) -> RawMessage {
    RawMessage::Text(s.to_string())
}

#[test]
fn concurrent_receives_get_messages_in_order() {
    let mut actor = InboundActor::new();
    assert_eq!(actor.next_step(), InboundStep::AwaitRequest);
    assert_eq!(actor.accept_request(), Some(0));
    assert_eq!(actor.accept_request(), Some(1));
    assert_eq!(actor.next_step(), InboundStep::ReadStream);
    assert_eq!(actor.serving_next(), 0);
    let first = actor.on_read(Some(WireMessage::Text("a".to_string())), true);
    assert_eq!(first, Delivery::Deliver(0, Some(text("a"))));
    assert_eq!(actor.serving_next(), 1);
    let second = actor.on_read(Some(WireMessage::Text("b".to_string())), true);
    assert_eq!(second, Delivery::Deliver(1, Some(text("b"))));
    assert_eq!(actor.next_step(), InboundStep::AwaitRequest);
}

#[test]
fn three_sends_are_written_in_order() {
    let mut actor = OutboundActor::new();
    assert!(!actor.has_pending());
    actor.enqueue(text("hi"));
    actor.enqueue(text("hi"));
    actor.enqueue(text("hi"));
    assert!(actor.has_pending());
    let mut log = Vec::new();
    while let Some(w) = actor.next_write() {
        log.push(w);
    }
    assert_eq!(
        log,
        vec![
            WireMessage::Text("hi".to_string()),
            WireMessage::Text("hi".to_string()),
            WireMessage::Text("hi".to_string())
        ]
    );
    assert_eq!(actor.next_write(), None);
}

#[test]
fn sends_keep_their_order_and_kind() {
    let mut actor = OutboundActor::new();
    actor.enqueue(text("one"));
    actor.enqueue(RawMessage::Binary(vec![1, 2]));
    assert_eq!(actor.next_write(), Some(WireMessage::Text("one".to_string())));
    actor.enqueue(RawMessage::Ping(vec![9]));
    assert_eq!(actor.next_write(), Some(WireMessage::Binary(vec![1, 2])));
    assert_eq!(actor.next_write(), Some(WireMessage::Ping(vec![9])));
    assert_eq!(actor.next_write(), None);
}

#[test]
fn receive_after_end_of_stream_is_none() {
    let mut actor = InboundActor::new();
    assert_eq!(actor.accept_request(), Some(0));
    assert_eq!(actor.next_step(), InboundStep::ReadStream);
    assert_eq!(actor.on_read(None, true), Delivery::Deliver(0, None));
    assert_eq!(actor.next_step(), InboundStep::AwaitRequest);
    assert_eq!(actor.accept_request(), Some(1));
    assert_eq!(actor.next_step(), InboundStep::AnswerEnded);
    assert_eq!(actor.answer_ended(true), Delivery::Deliver(1, None));
    assert_eq!(actor.accept_request(), Some(2));
    assert_eq!(actor.next_step(), InboundStep::AnswerEnded);
}

#[test]
fn requests_waiting_at_end_of_stream_get_none() {
    let mut actor = InboundActor::new();
    actor.accept_request();
    actor.accept_request();
    actor.accept_request();
    assert_eq!(actor.on_read(Some(WireMessage::Text("x".to_string())), true), Delivery::Deliver(0, Some(text("x"))));
    assert_eq!(actor.on_read(None, true), Delivery::Deliver(1, None));
    assert_eq!(actor.next_step(), InboundStep::AnswerEnded);
    assert_eq!(actor.answer_ended(true), Delivery::Deliver(2, None));
    assert_eq!(actor.next_step(), InboundStep::AwaitRequest);
}

#[test]
fn abandoned_request_is_discarded_and_others_served() {
    let mut actor = InboundActor::new();
    actor.accept_request();
    actor.accept_request();
    assert_eq!(actor.on_read(Some(WireMessage::Text("a".to_string())), false), Delivery::Discard(0));
    assert!(!actor.is_stopped());
    assert_eq!(actor.next_step(), InboundStep::ReadStream);
    assert_eq!(actor.on_read(Some(WireMessage::Text("b".to_string())), true), Delivery::Deliver(1, Some(text("b"))));
}

#[test]
fn abandoned_request_after_end_is_discarded() {
    let mut actor = InboundActor::new();
    actor.accept_request();
    actor.accept_request();
    assert_eq!(actor.on_read(None, true), Delivery::Deliver(0, None));
    assert_eq!(actor.answer_ended(false), Delivery::Discard(1));
    assert_eq!(actor.next_step(), InboundStep::AwaitRequest);
}

#[test]
fn failed_read_stops_the_inbound_actor() {
    let mut actor = InboundActor::new();
    actor.accept_request();
    actor.read_failed();
    assert!(actor.is_stopped());
    assert_eq!(actor.next_step(), InboundStep::Stopped);
}

#[test]
fn failed_write_stops_and_later_sends_vanish() {
    let mut actor = OutboundActor::new();
    actor.enqueue(text("lost"));
    actor.write_failed();
    assert!(actor.is_stopped());
    assert!(!actor.has_pending());
    actor.enqueue(text("also lost"));
    assert!(!actor.has_pending());
    assert_eq!(actor.next_write(), None);
}

#[test]
fn inbound_reads_control_frames_too() {
    let mut actor = InboundActor::new();
    actor.accept_request();
    actor.accept_request();
    assert_eq!(actor.on_read(Some(WireMessage::Ping(vec![1])), true), Delivery::Deliver(0, Some(RawMessage::Ping(vec![1]))));
    assert_eq!(actor.on_read(Some(WireMessage::Pong(vec![2])), true), Delivery::Deliver(1, Some(RawMessage::Pong(vec![2]))));
}
