use std::borrow::Cow;
use tungstenite::protocol::frame::coding::CloseCode as WireCloseCode;
use tungstenite::protocol::CloseFrame as WireCloseFrame;
use tungstenite::Message as WireMessage;
use ws_handle::{CloseCode, CloseFrame, Message, RawMessage};

fn all_codes() -> Vec<CloseCode> {
    vec![
        CloseCode::Normal,
        CloseCode::Away,
        CloseCode::Protocol,
        CloseCode::Unsupported,
        CloseCode::Status,
        CloseCode::Abnormal,
        CloseCode::Invalid,
        CloseCode::Policy,
        CloseCode::Size,
        CloseCode::Extension,
        CloseCode::Error,
        CloseCode::Restart,
        CloseCode::Again,
        CloseCode::Tls,
        CloseCode::Reserved(1016),
        CloseCode::Iana(3000),
        CloseCode::Library(4000),
        CloseCode::Bad(999),
    ]
}

#[test]
fn close_codes_round_trip() {
    for code in all_codes() {
        let wire: WireCloseCode = code.into();
        let back: CloseCode = wire.into();
        assert_eq!(back, code);
    }
}

#[test]
fn close_codes_map_variant_for_variant() {
    assert_eq!(WireCloseCode::from(CloseCode::Normal), WireCloseCode::Normal);
    assert_eq!(WireCloseCode::from(CloseCode::Tls), WireCloseCode::Tls);
    assert_eq!(WireCloseCode::from(CloseCode::Library(4001)), WireCloseCode::Library(4001));
    assert_eq!(CloseCode::from(WireCloseCode::Away), CloseCode::Away);
    assert_eq!(CloseCode::from(WireCloseCode::Bad(5)), CloseCode::Bad(5));
    assert_eq!(u16::from(WireCloseCode::from(CloseCode::Normal)), 1000);
    assert_eq!(CloseCode::from(WireCloseCode::from(1001u16)), CloseCode::Away);
}

#[test]
fn close_frame_round_trips() {
    let frame = CloseFrame { code: CloseCode::Policy, reason: "too chatty".to_string() };
    let wire: WireCloseFrame<'static> = frame.clone().into();
    assert_eq!(wire.code, WireCloseCode::Policy);
    assert_eq!(wire.reason, "too chatty");
    let back: CloseFrame = wire.into();
    assert_eq!(back, frame);
}

#[test]
fn borrowed_close_reason_is_copied() {
    let wire = WireCloseFrame { code: WireCloseCode::Away, reason: Cow::Borrowed("bye") };
    let frame = CloseFrame::from(wire);
    assert_eq!(frame, CloseFrame { code: CloseCode::Away, reason: "bye".to_string() });
}

#[test]
fn raw_messages_round_trip() {
    let samples = vec![
        RawMessage::Text("hello".to_string()),
        RawMessage::Binary(vec![0, 255, 7]),
        RawMessage::Ping(vec![1]),
        RawMessage::Pong(vec![]),
        RawMessage::Close(None),
        RawMessage::Close(Some(CloseFrame { code: CloseCode::Iana(3001), reason: "x".to_string() })),
    ];
    for m in samples {
        let wire: WireMessage = m.clone().into();
        assert_eq!(RawMessage::from_wire(wire), m);
    }
}

#[test]
fn raw_message_to_wire_keeps_kind() {
    assert_eq!(WireMessage::from(RawMessage::Text("t".to_string())), WireMessage::Text("t".to_string()));
    assert_eq!(WireMessage::from(RawMessage::Pong(vec![3])), WireMessage::Pong(vec![3]));
    assert_eq!(
        WireMessage::from(RawMessage::Close(Some(CloseFrame { code: CloseCode::Normal, reason: "done".to_string() }))),
        WireMessage::Close(Some(WireCloseFrame { code: WireCloseCode::Normal, reason: Cow::Owned("done".to_string()) }))
    );
}

#[test]
fn wire_messages_become_raw_messages() {
    assert_eq!(RawMessage::from_wire(WireMessage::Binary(vec![4, 5])), RawMessage::Binary(vec![4, 5]));
    assert_eq!(RawMessage::from_wire(WireMessage::Ping(vec![6])), RawMessage::Ping(vec![6]));
    assert_eq!(
        RawMessage::from_wire(WireMessage::Close(Some(WireCloseFrame { code: WireCloseCode::Size, reason: Cow::Borrowed("big") }))),
        RawMessage::Close(Some(CloseFrame { code: CloseCode::Size, reason: "big".to_string() }))
    );
}

#[test]
fn caller_messages_become_raw_messages() {
    assert_eq!(RawMessage::from(Message::Text("q".to_string())), RawMessage::Text("q".to_string()));
    assert_eq!(RawMessage::from(Message::Binary(vec![8])), RawMessage::Binary(vec![8]));
    let frame = CloseFrame { code: CloseCode::Again, reason: String::new() };
    assert_eq!(RawMessage::from(Message::Close(Some(frame.clone()))), RawMessage::Close(Some(frame)));
}

#[test]
fn caller_messages_become_wire_messages() {
    assert_eq!(WireMessage::from(Message::Text("q".to_string())), WireMessage::Text("q".to_string()));
    assert_eq!(WireMessage::from(Message::Binary(vec![8])), WireMessage::Binary(vec![8]));
    assert_eq!(WireMessage::from(Message::Close(None)), WireMessage::Close(None));
    assert_eq!(
        WireMessage::from(Message::Close(Some(CloseFrame { code: CloseCode::Reserved(1015), reason: "r".to_string() }))),
        WireMessage::Close(Some(WireCloseFrame { code: WireCloseCode::Reserved(1015), reason: Cow::Owned("r".to_string()) }))
    );
}
