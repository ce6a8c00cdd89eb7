use vstd::prelude::*;

use std::borrow::Cow;
use tungstenite::protocol::frame::coding::CloseCode as WireCloseCode;
use tungstenite::protocol::CloseFrame as WireCloseFrame;
use tungstenite::Message as WireMessage;

verus! {

/// tungstenite's status code (`protocol::frame::coding::CloseCode`), declared
/// with its variants so that verified code builds and matches them; it relies
/// on the enum having the public variants that its source shows.
#[verifier::external_type_specification]
pub struct ExWireCloseCode(WireCloseCode);

/// tungstenite's close frame (`protocol::CloseFrame`), declared with its two
/// public fields, `code` and `reason`.
#[verifier::external_type_specification]
pub struct ExWireCloseFrame<'t>(WireCloseFrame<'t>);

/// tungstenite's raw frame (`protocol::frame::Frame`), opaque: this library
/// never looks inside one.
#[verifier::external_type_specification]
#[verifier::external_body]
pub struct ExWireFrame(tungstenite::protocol::frame::Frame);

/// tungstenite's message (`Message`), declared with its public variants.
#[verifier::external_type_specification]
pub struct ExWireMessage(WireMessage);

/// Why a connection is being closed: the WebSocket status-code space.
#[derive(Debug, Clone, Copy, PartialEq, Eq, Structural)]
pub enum CloseCode {
    /// The purpose for which the connection was established has been fulfilled.
    Normal,
    /// An endpoint is going away (a server going down, a page navigated away from).
    Away,
    /// An endpoint is terminating the connection due to a protocol error.
    Protocol,
    /// An endpoint received a type of data it cannot accept.
    Unsupported,
    /// No status code was included in a closing frame.
    Status,
    /// The connection was dropped without a closing frame.
    Abnormal,
    /// An endpoint received data inconsistent with the message type.
    Invalid,
    /// An endpoint received a message that violates its policy.
    Policy,
    /// An endpoint received a message too big for it to process.
    Size,
    /// A client expected the server to negotiate an extension it did not.
    Extension,
    /// A server met an unexpected condition.
    Error,
    /// The server is restarting.
    Restart,
    /// The server is overloaded; try again later.
    Again,
    /// The TLS handshake failed.
    Tls,
    /// A code in a reserved range.
    Reserved(u16),
    /// A code registered with IANA.
    Iana(u16),
    /// A code for private use by libraries and applications.
    Library(u16),
    /// A code outside every valid range.
    Bad(u16),
}

/// A status code together with a human-readable reason.
#[derive(Debug, Clone, PartialEq, Eq)]
pub struct CloseFrame {
    pub code: CloseCode,
    pub reason: String,
}

/// A message as it travels over the connection, control frames included.
#[derive(Debug, Clone, PartialEq, Eq)]
pub enum RawMessage {
    Text(String),
    Binary(Vec<u8>),
    Ping(Vec<u8>),
    Pong(Vec<u8>),
    Close(Option<CloseFrame>),
}

/// The messages a caller builds: no ping or pong.
#[derive(Debug, Clone, PartialEq, Eq)]
pub enum Message {
    Text(String),
    Binary(Vec<u8>),
    Close(Option<CloseFrame>),
}

/// The mathematical content of a message: its kind and payload.
pub ghost enum MessageView {
    Text(Seq<char>),
    Binary(Seq<u8>),
    Ping(Seq<u8>),
    Pong(Seq<u8>),
    Close(Option<(CloseCode, Seq<char>)>),
}

pub open spec fn frame_view(f: Option<CloseFrame>) -> Option<(CloseCode, Seq<char>)> {
    match f {
        Some(f) => Some((f.code, f.reason@)),
        None => None,
    }
}

impl View for RawMessage {
    type V = MessageView;

    open spec fn view(&self) -> MessageView {
        match self {
            RawMessage::Text(t) => MessageView::Text(t@),
            RawMessage::Binary(b) => MessageView::Binary(b@),
            RawMessage::Ping(b) => MessageView::Ping(b@),
            RawMessage::Pong(b) => MessageView::Pong(b@),
            RawMessage::Close(f) => MessageView::Close(frame_view(*f)),
        }
    }
}

impl View for Message {
    type V = MessageView;

    open spec fn view(&self) -> MessageView {
        match self {
            Message::Text(t) => MessageView::Text(t@),
            Message::Binary(b) => MessageView::Binary(b@),
            Message::Close(f) => MessageView::Close(frame_view(*f)),
        }
    }
}

/// tungstenite's status code for a library code: variant for variant.
pub open spec fn close_code_to_wire(c: CloseCode) -> WireCloseCode {
    match c {
        CloseCode::Normal => WireCloseCode::Normal,
        CloseCode::Away => WireCloseCode::Away,
        CloseCode::Protocol => WireCloseCode::Protocol,
        CloseCode::Unsupported => WireCloseCode::Unsupported,
        CloseCode::Status => WireCloseCode::Status,
        CloseCode::Abnormal => WireCloseCode::Abnormal,
        CloseCode::Invalid => WireCloseCode::Invalid,
        CloseCode::Policy => WireCloseCode::Policy,
        CloseCode::Size => WireCloseCode::Size,
        CloseCode::Extension => WireCloseCode::Extension,
        CloseCode::Error => WireCloseCode::Error,
        CloseCode::Restart => WireCloseCode::Restart,
        CloseCode::Again => WireCloseCode::Again,
        CloseCode::Tls => WireCloseCode::Tls,
        CloseCode::Reserved(v) => WireCloseCode::Reserved(v),
        CloseCode::Iana(v) => WireCloseCode::Iana(v),
        CloseCode::Library(v) => WireCloseCode::Library(v),
        CloseCode::Bad(v) => WireCloseCode::Bad(v),
    }
}

/// The library's status code for a tungstenite code: variant for variant.
pub open spec fn close_code_from_wire(c: WireCloseCode) -> CloseCode {
    match c {
        WireCloseCode::Normal => CloseCode::Normal,
        WireCloseCode::Away => CloseCode::Away,
        WireCloseCode::Protocol => CloseCode::Protocol,
        WireCloseCode::Unsupported => CloseCode::Unsupported,
        WireCloseCode::Status => CloseCode::Status,
        WireCloseCode::Abnormal => CloseCode::Abnormal,
        WireCloseCode::Invalid => CloseCode::Invalid,
        WireCloseCode::Policy => CloseCode::Policy,
        WireCloseCode::Size => CloseCode::Size,
        WireCloseCode::Extension => CloseCode::Extension,
        WireCloseCode::Error => CloseCode::Error,
        WireCloseCode::Restart => CloseCode::Restart,
        WireCloseCode::Again => CloseCode::Again,
        WireCloseCode::Tls => CloseCode::Tls,
        WireCloseCode::Reserved(v) => CloseCode::Reserved(v),
        WireCloseCode::Iana(v) => CloseCode::Iana(v),
        WireCloseCode::Library(v) => CloseCode::Library(v),
        WireCloseCode::Bad(v) => CloseCode::Bad(v),
    }
}

/// The content of a tungstenite close frame, in the library's terms.
pub open spec fn wire_frame_view(f: Option<WireCloseFrame<'static>>) -> Option<(CloseCode, Seq<char>)> {
    match f {
        Some(f) => Some((close_code_from_wire(f.code), f.reason@)),
        None => None,
    }
}

/// The content of a tungstenite message; none for a raw frame, which carries
/// no message of its own.
pub open spec fn wire_view(m: WireMessage) -> Option<MessageView> {
    match m {
        WireMessage::Text(t) => Some(MessageView::Text(t@)),
        WireMessage::Binary(b) => Some(MessageView::Binary(b@)),
        WireMessage::Ping(b) => Some(MessageView::Ping(b@)),
        WireMessage::Pong(b) => Some(MessageView::Pong(b@)),
        WireMessage::Close(f) => Some(MessageView::Close(wire_frame_view(f))),
        WireMessage::Frame(_) => None,
    }
}

impl From<CloseCode> for WireCloseCode {
    fn from(code: CloseCode) -> (r: Self)
        ensures
            r == close_code_to_wire(code),
    {
        match code {
            CloseCode::Normal => WireCloseCode::Normal,
            CloseCode::Away => WireCloseCode::Away,
            CloseCode::Protocol => WireCloseCode::Protocol,
            CloseCode::Unsupported => WireCloseCode::Unsupported,
            CloseCode::Status => WireCloseCode::Status,
            CloseCode::Abnormal => WireCloseCode::Abnormal,
            CloseCode::Invalid => WireCloseCode::Invalid,
            CloseCode::Policy => WireCloseCode::Policy,
            CloseCode::Size => WireCloseCode::Size,
            CloseCode::Extension => WireCloseCode::Extension,
            CloseCode::Error => WireCloseCode::Error,
            CloseCode::Restart => WireCloseCode::Restart,
            CloseCode::Again => WireCloseCode::Again,
            CloseCode::Tls => WireCloseCode::Tls,
            CloseCode::Reserved(v) => WireCloseCode::Reserved(v),
            CloseCode::Iana(v) => WireCloseCode::Iana(v),
            CloseCode::Library(v) => WireCloseCode::Library(v),
            CloseCode::Bad(v) => WireCloseCode::Bad(v),
        }
    }
}

impl vstd::std_specs::convert::FromSpecImpl<CloseCode> for WireCloseCode {
    open spec fn obeys_from_spec() -> bool {
        true
    }

    open spec fn from_spec(code: CloseCode) -> Self {
        close_code_to_wire(code)
    }
}

impl From<WireCloseCode> for CloseCode {
    fn from(code: WireCloseCode) -> (r: Self)
        ensures
            r == close_code_from_wire(code),
    {
        match code {
            WireCloseCode::Normal => CloseCode::Normal,
            WireCloseCode::Away => CloseCode::Away,
            WireCloseCode::Protocol => CloseCode::Protocol,
            WireCloseCode::Unsupported => CloseCode::Unsupported,
            WireCloseCode::Status => CloseCode::Status,
            WireCloseCode::Abnormal => CloseCode::Abnormal,
            WireCloseCode::Invalid => CloseCode::Invalid,
            WireCloseCode::Policy => CloseCode::Policy,
            WireCloseCode::Size => CloseCode::Size,
            WireCloseCode::Extension => CloseCode::Extension,
            WireCloseCode::Error => CloseCode::Error,
            WireCloseCode::Restart => CloseCode::Restart,
            WireCloseCode::Again => CloseCode::Again,
            WireCloseCode::Tls => CloseCode::Tls,
            WireCloseCode::Reserved(v) => CloseCode::Reserved(v),
            WireCloseCode::Iana(v) => CloseCode::Iana(v),
            WireCloseCode::Library(v) => CloseCode::Library(v),
            WireCloseCode::Bad(v) => CloseCode::Bad(v),
        }
    }
}

impl vstd::std_specs::convert::FromSpecImpl<WireCloseCode> for CloseCode {
    open spec fn obeys_from_spec() -> bool {
        true
    }

    open spec fn from_spec(code: WireCloseCode) -> Self {
        close_code_from_wire(code)
    }
}

/// tungstenite's close frame for a library frame: the same code, the reason moved in.
pub open spec fn frame_to_wire<'t>(frame: CloseFrame) -> WireCloseFrame<'t> {
    WireCloseFrame { code: close_code_to_wire(frame.code), reason: Cow::Owned(frame.reason) }
}

/// tungstenite's message for a library message: the same kind, the payload moved in.
pub open spec fn raw_to_wire(message: RawMessage) -> WireMessage {
    match message {
        RawMessage::Text(t) => WireMessage::Text(t),
        RawMessage::Binary(b) => WireMessage::Binary(b),
        RawMessage::Ping(b) => WireMessage::Ping(b),
        RawMessage::Pong(b) => WireMessage::Pong(b),
        RawMessage::Close(Some(f)) => WireMessage::Close(Some(frame_to_wire(f))),
        RawMessage::Close(None) => WireMessage::Close(None),
    }
}

/// The raw message that carries a caller's message unchanged.
pub open spec fn message_to_raw(message: Message) -> RawMessage {
    match message {
        Message::Text(t) => RawMessage::Text(t),
        Message::Binary(b) => RawMessage::Binary(b),
        Message::Close(f) => RawMessage::Close(f),
    }
}

impl<'t> From<WireCloseFrame<'t>> for CloseFrame {
    fn from(frame: WireCloseFrame<'t>) -> (r: Self)
        ensures
            r.code == close_code_from_wire(frame.code),
            r.reason@ == frame.reason@,
    {
        let reason: String = match frame.reason {
            Cow::Borrowed(b) => b.to_owned(),
            Cow::Owned(o) => o,
        };
        CloseFrame { code: CloseCode::from(frame.code), reason }
    }
}

// A borrowed reason is copied into a new `String`, which no spec expression
// names; the contract of this conversion is the `ensures` of `from` above.
impl<'t> vstd::std_specs::convert::FromSpecImpl<WireCloseFrame<'t>> for CloseFrame {
    open spec fn obeys_from_spec() -> bool {
        false
    }

    open spec fn from_spec(frame: WireCloseFrame<'t>) -> Self {
        CloseFrame { code: close_code_from_wire(frame.code), reason: arbitrary() }
    }
}

impl<'t> From<CloseFrame> for WireCloseFrame<'t> {
    fn from(frame: CloseFrame) -> (r: Self)
        ensures
            r == frame_to_wire::<'t>(frame),
            wire_frame_view(Some(r)) == frame_view(Some(frame)),
    {
        WireCloseFrame { code: WireCloseCode::from(frame.code), reason: Cow::Owned(frame.reason) }
    }
}

impl<'t> vstd::std_specs::convert::FromSpecImpl<CloseFrame> for WireCloseFrame<'t> {
    open spec fn obeys_from_spec() -> bool {
        true
    }

    open spec fn from_spec(frame: CloseFrame) -> Self {
        frame_to_wire(frame)
    }
}

fn frame_option_to_wire(frame: Option<CloseFrame>) -> (r: Option<WireCloseFrame<'static>>)
    ensures
        r == (match frame {
            Some(f) => Some(frame_to_wire::<'static>(f)),
            None => None,
        }),
{
    match frame {
        Some(f) => Some(WireCloseFrame::from(f)),
        None => None,
    }
}

impl From<RawMessage> for WireMessage {
    fn from(message: RawMessage) -> (r: Self)
        ensures
            r == raw_to_wire(message),
            wire_view(r) == Some(message@),
    {
        proof {
            lemma_raw_round_trip(message);
        }
        match message {
            RawMessage::Text(t) => WireMessage::Text(t),
            RawMessage::Binary(b) => WireMessage::Binary(b),
            RawMessage::Ping(b) => WireMessage::Ping(b),
            RawMessage::Pong(b) => WireMessage::Pong(b),
            RawMessage::Close(f) => WireMessage::Close(frame_option_to_wire(f)),
        }
    }
}

impl vstd::std_specs::convert::FromSpecImpl<RawMessage> for WireMessage {
    open spec fn obeys_from_spec() -> bool {
        true
    }

    open spec fn from_spec(message: RawMessage) -> Self {
        raw_to_wire(message)
    }
}

impl From<Message> for RawMessage {
    fn from(message: Message) -> (r: Self)
        ensures
            r == message_to_raw(message),
            r@ == message@,
    {
        match message {
            Message::Text(t) => RawMessage::Text(t),
            Message::Binary(b) => RawMessage::Binary(b),
            Message::Close(f) => RawMessage::Close(f),
        }
    }
}

impl vstd::std_specs::convert::FromSpecImpl<Message> for RawMessage {
    open spec fn obeys_from_spec() -> bool {
        true
    }

    open spec fn from_spec(message: Message) -> Self {
        message_to_raw(message)
    }
}

impl From<Message> for WireMessage {
    fn from(message: Message) -> (r: Self)
        ensures
            r == raw_to_wire(message_to_raw(message)),
            wire_view(r) == Some(message@),
    {
        proof {
            lemma_raw_round_trip(message_to_raw(message));
        }
        match message {
            Message::Text(t) => WireMessage::Text(t),
            Message::Binary(b) => WireMessage::Binary(b),
            Message::Close(f) => WireMessage::Close(frame_option_to_wire(f)),
        }
    }
}

impl vstd::std_specs::convert::FromSpecImpl<Message> for WireMessage {
    open spec fn obeys_from_spec() -> bool {
        true
    }

    open spec fn from_spec(message: Message) -> Self {
        raw_to_wire(message_to_raw(message))
    }
}

fn frame_option_from_wire(frame: Option<WireCloseFrame<'static>>) -> (r: Option<CloseFrame>)
    ensures
        frame_view(r) == wire_frame_view(frame),
{
    match frame {
        Some(f) => Some(CloseFrame::from(f)),
        None => None,
    }
}

impl RawMessage {
    /// The library's message for a message read from tungstenite. A raw frame
    /// never reaches this layer, so it is excluded.
    pub fn from_wire(message: WireMessage) -> (r: RawMessage)
        requires
            !(message is Frame),
        ensures
            wire_view(message) == Some(r@),
    {
        match message {
            WireMessage::Text(t) => RawMessage::Text(t),
            WireMessage::Binary(b) => RawMessage::Binary(b),
            WireMessage::Ping(b) => RawMessage::Ping(b),
            WireMessage::Pong(b) => RawMessage::Pong(b),
            WireMessage::Close(f) => RawMessage::Close(frame_option_from_wire(f)),
            WireMessage::Frame(_) => unreached(),
        }
    }
}

/// A status code survives the trip to tungstenite's code and back, and a
/// tungstenite code survives the trip to the library's code and back.
pub proof fn lemma_close_code_round_trip(c: CloseCode, w: WireCloseCode)
    ensures
        close_code_from_wire(close_code_to_wire(c)) == c,
        close_code_to_wire(close_code_from_wire(w)) == w,
{
}

/// A close frame survives the trip to tungstenite's frame and back: code and
/// reason are unchanged.
pub proof fn lemma_frame_round_trip(frame: CloseFrame)
    ensures
        wire_frame_view(Some(frame_to_wire::<'static>(frame))) == frame_view(Some(frame)),
{
}

/// A raw message survives the trip to tungstenite's message and back: what
/// `RawMessage::from_wire` reads from the converted message has the view of
/// the original one.
pub proof fn lemma_raw_round_trip(message: RawMessage)
    ensures
        wire_view(raw_to_wire(message)) == Some(message@),
{
}

} // verus!
