//! A shareable handle over an exclusive-access duplex message channel: the
//! message model, its conversions to and from tungstenite's types, and the
//! decision logic of the two actors that own the channel's halves.
use vstd::prelude::*;

pub mod inbound;
pub mod message;
pub mod outbound;

pub use inbound::{Delivery, InboundActor, InboundStep};
pub use message::{CloseCode, CloseFrame, Message, RawMessage};
pub use outbound::OutboundActor;

verus! {

} // verus!
