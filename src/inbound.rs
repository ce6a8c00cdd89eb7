use vstd::prelude::*;

use crate::message::{wire_view, RawMessage};
use tungstenite::Message as WireMessage;

verus! {

/// What the inbound actor has seen and done. Requests are numbered in the
/// order they were accepted, from zero; request `i` is served `i`-th.
pub ghost struct InboundView {
    /// How many receive requests have been accepted.
    pub accepted: nat,
    /// The messages read from the stream, in order.
    pub messages: Seq<RawMessage>,
    /// The reply to each request served so far: `replies[i]` went to request `i`.
    pub replies: Seq<Option<RawMessage>>,
    /// The stream has reported its end.
    pub ended: bool,
    /// A read failed: the actor has stopped and serves nobody more.
    pub stopped: bool,
}

impl InboundView {
    pub open spec fn initial() -> InboundView {
        InboundView {
            accepted: 0,
            messages: Seq::empty(),
            replies: Seq::empty(),
            ended: false,
            stopped: false,
        }
    }

    /// The `i`-th request served got the `i`-th message read, and once the
    /// stream has ended every later request gets none.
    pub open spec fn wf(self) -> bool {
        &&& self.replies.len() <= self.accepted
        &&& self.messages.len() <= self.replies.len()
        &&& forall|i: int|
            0 <= i < self.replies.len() ==> #[trigger] self.replies[i] == (if i < self.messages.len() {
                Some(self.messages[i])
            } else {
                None
            })
        &&& !self.ended ==> self.messages.len() == self.replies.len()
    }

    /// Requests accepted and not yet served.
    pub open spec fn pending(self) -> nat {
        (self.accepted - self.replies.len()) as nat
    }

    /// The oldest waiting request is served by one read from the stream.
    pub open spec fn can_read(self) -> bool {
        !self.stopped && !self.ended && self.pending() > 0
    }

    /// The oldest waiting request is answered with the end of the stream.
    pub open spec fn can_answer_ended(self) -> bool {
        !self.stopped && self.ended && self.pending() > 0
    }

    /// A new receive request joins the queue.
    pub open spec fn accept(self) -> InboundView {
        InboundView { accepted: self.accepted + 1, ..self }
    }

    /// The oldest waiting request gets what one read produced: a message, or
    /// the end of the stream.
    pub open spec fn read(self, item: Option<RawMessage>) -> InboundView {
        match item {
            Some(m) => InboundView {
                messages: self.messages.push(m),
                replies: self.replies.push(Some(m)),
                ..self
            },
            None => InboundView { replies: self.replies.push(None), ended: true, ..self },
        }
    }

    /// The oldest waiting request is told that the stream has ended.
    pub open spec fn answer_ended(self) -> InboundView {
        InboundView { replies: self.replies.push(None), ..self }
    }

    /// A read failed: the actor stops, and the waiting requests are dropped.
    pub open spec fn fail(self) -> InboundView {
        InboundView { stopped: true, ..self }
    }

    /// The state after `n` more requests.
    pub open spec fn accept_n(self, n: nat) -> InboundView
        decreases n,
    {
        if n == 0 {
            self
        } else {
            self.accept().accept_n((n - 1) as nat)
        }
    }

    /// The state after one read of each of `ms`, in order.
    pub open spec fn read_all(self, ms: Seq<RawMessage>) -> InboundView
        decreases ms.len(),
    {
        if ms.len() == 0 {
            self
        } else {
            self.read(Some(ms[0])).read_all(ms.drop_first())
        }
    }
}

/// Whether a reply carries what a read from tungstenite produced: nothing at
/// the end of the stream, else the same message.
pub open spec fn reply_matches(reply: Option<RawMessage>, item: Option<WireMessage>) -> bool {
    match (reply, item) {
        (None, None) => true,
        (Some(m), Some(w)) => wire_view(w) == Some(m@),
        _ => false,
    }
}

/// What the actor does next.
#[derive(Debug, Clone, Copy, PartialEq, Eq, Structural)]
pub enum InboundStep {
    /// Nothing waits: take the next receive request.
    AwaitRequest,
    /// A request waits and the stream is open: read once from it.
    ReadStream,
    /// A request waits and the stream has ended: answer it with no message.
    AnswerEnded,
    /// The actor has stopped.
    Stopped,
}

/// What becomes of a reply.
#[derive(Debug, Clone, PartialEq, Eq)]
pub enum Delivery {
    /// Hand the reply to the request with this number.
    Deliver(u64, Option<RawMessage>),
    /// The request with this number was abandoned: drop the reply.
    Discard(u64),
}

/// The decisions of the actor that owns the receiving half of a connection:
/// which request each read serves, and what the end of the stream or a
/// failed read does.
pub struct InboundActor {
    accepted: u64,
    served: u64,
    ended: bool,
    stopped: bool,
    messages: Ghost<Seq<RawMessage>>,
    replies: Ghost<Seq<Option<RawMessage>>>,
}

impl View for InboundActor {
    type V = InboundView;

    closed spec fn view(&self) -> InboundView {
        InboundView {
            accepted: self.accepted as nat,
            messages: self.messages@,
            replies: self.replies@,
            ended: self.ended,
            stopped: self.stopped,
        }
    }
}

impl InboundActor {
    pub closed spec fn wf(&self) -> bool {
        &&& self@.wf()
        &&& self.served as nat == self.replies@.len()
    }

    pub fn new() -> (r: InboundActor)
        ensures
            r.wf(),
            r@ == InboundView::initial(),
    {
        InboundActor {
            accepted: 0,
            served: 0,
            ended: false,
            stopped: false,
            messages: Ghost(Seq::empty()),
            replies: Ghost(Seq::empty()),
        }
    }

    /// Accepts a receive request and returns its number; none, with nothing
    /// changed, once every number a `u64` holds has been given out.
    pub fn accept_request(&mut self) -> (r: Option<u64>)
        requires
            old(self).wf(),
        ensures
            final(self).wf(),
            old(self)@.accepted == u64::MAX ==> r is None && final(self)@ == old(self)@,
            old(self)@.accepted < u64::MAX ==> r == Some(old(self)@.accepted as u64)
                && final(self)@ == old(self)@.accept(),
    {
        if self.accepted == u64::MAX {
            return None;
        }
        let id = self.accepted;
        self.accepted = self.accepted + 1;
        Some(id)
    }

    /// What the actor does next: serve the oldest waiting request by a read
    /// while the stream is open, answer it with nothing once it has ended,
    /// or wait for a request.
    pub fn next_step(&self) -> (r: InboundStep)
        requires
            self.wf(),
        ensures
            self@.stopped <==> r == InboundStep::Stopped,
            !self@.stopped && self@.pending() == 0 <==> r == InboundStep::AwaitRequest,
            self@.can_read() <==> r == InboundStep::ReadStream,
            self@.can_answer_ended() <==> r == InboundStep::AnswerEnded,
    {
        if self.stopped {
            InboundStep::Stopped
        } else if self.served == self.accepted {
            InboundStep::AwaitRequest
        } else if self.ended {
            InboundStep::AnswerEnded
        } else {
            InboundStep::ReadStream
        }
    }

    /// Serves the oldest waiting request with what one read produced (`None`
    /// at the end of the stream). The reply is delivered when its requester
    /// still waits and dropped otherwise; either way the actor goes on.
    pub fn on_read(&mut self, item: Option<WireMessage>, waiting: bool) -> (r: Delivery)
        requires
            old(self).wf(),
            old(self)@.can_read(),
            match item {
                Some(w) => !(w is Frame),
                None => true,
            },
        ensures
            final(self).wf(),
            final(self)@.replies.len() == old(self)@.replies.len() + 1,
            reply_matches(final(self)@.replies.last(), item),
            final(self)@ == old(self)@.read(final(self)@.replies.last()),
            waiting ==> r == Delivery::Deliver(old(self)@.replies.len() as u64, final(self)@.replies.last()),
            !waiting ==> r == Delivery::Discard(old(self)@.replies.len() as u64),
    {
        let id = self.served;
        let reply: Option<RawMessage> = match item {
            Some(w) => Some(RawMessage::from_wire(w)),
            None => None,
        };
        proof {
            lemma_steps_keep_wf(old(self)@, reply);
        }
        match &reply {
            Some(m) => {
                self.messages = Ghost(self.messages@.push(*m));
            },
            None => {
                self.ended = true;
            },
        }
        self.replies = Ghost(self.replies@.push(reply));
        self.served = self.served + 1;
        if waiting {
            Delivery::Deliver(id, reply)
        } else {
            Delivery::Discard(id)
        }
    }

    /// Answers the oldest waiting request after the stream has ended: it gets
    /// no message, delivered when its requester still waits.
    pub fn answer_ended(&mut self, waiting: bool) -> (r: Delivery)
        requires
            old(self).wf(),
            old(self)@.can_answer_ended(),
        ensures
            final(self).wf(),
            final(self)@ == old(self)@.answer_ended(),
            waiting ==> r == Delivery::Deliver(old(self)@.replies.len() as u64, None),
            !waiting ==> r == Delivery::Discard(old(self)@.replies.len() as u64),
    {
        let id = self.served;
        proof {
            lemma_steps_keep_wf(old(self)@, None);
        }
        self.replies = Ghost(self.replies@.push(None));
        self.served = self.served + 1;
        if waiting {
            Delivery::Deliver(id, None)
        } else {
            Delivery::Discard(id)
        }
    }

    /// The number of the request that the next reply goes to.
    pub fn serving_next(&self) -> (r: u64)
        requires
            self.wf(),
        ensures
            r as nat == self@.replies.len(),
    {
        self.served
    }

    pub fn is_stopped(&self) -> (r: bool)
        ensures
            r == self@.stopped,
    {
        self.stopped
    }

    /// A read failed: the actor stops, and the waiting requests are dropped.
    pub fn read_failed(&mut self)
        requires
            old(self).wf(),
        ensures
            final(self).wf(),
            final(self)@ == old(self)@.fail(),
    {
        self.stopped = true;
    }
}

/// Each step of the actor keeps it well formed.
pub proof fn lemma_steps_keep_wf(v: InboundView, item: Option<RawMessage>)
    requires
        v.wf(),
    ensures
        v.accept().wf(),
        v.can_read() ==> v.read(item).wf(),
        v.can_answer_ended() ==> v.answer_ended().wf(),
        v.fail().wf(),
{
    if v.can_read() {
        let nv = v.read(item);
        assert forall|i: int| 0 <= i < nv.replies.len() implies #[trigger] nv.replies[i] == (if i
            < nv.messages.len() {
            Some(nv.messages[i])
        } else {
            None
        }) by {
            if i < v.replies.len() {
                assert(nv.replies[i] == v.replies[i]);
                if i < v.messages.len() {
                    assert(nv.messages[i] == v.messages[i]);
                }
            }
        }
    }
    if v.can_answer_ended() {
        let nv = v.answer_ended();
        assert forall|i: int| 0 <= i < nv.replies.len() implies #[trigger] nv.replies[i] == (if i
            < nv.messages.len() {
            Some(nv.messages[i])
        } else {
            None
        }) by {
            if i < v.replies.len() {
                assert(nv.replies[i] == v.replies[i]);
            }
        }
    }
}

/// Requests and reads pair up in order: in every well-formed state, the
/// request numbered `i` received the `i`-th message read from the stream,
/// whatever the interleaving of requests and reads that led there.
pub proof fn lemma_fifo_pairing(v: InboundView, i: int)
    requires
        v.wf(),
        0 <= i < v.messages.len(),
    ensures
        v.replies[i] == Some(v.messages[i]),
{
    assert(v.replies[i] == (if i < v.messages.len() {
        Some(v.messages[i])
    } else {
        None
    }));
}

/// `n` more requests leave everything but their count as it was.
pub proof fn lemma_accept_n(v: InboundView, n: nat)
    ensures
        v.accept_n(n) == (InboundView { accepted: v.accepted + n, ..v }),
    decreases n,
{
    if n > 0 {
        lemma_accept_n(v.accept(), (n - 1) as nat);
    }
}

/// Reading `ms` while the stream is open answers the oldest waiting
/// requests with `ms`, one message each, in order.
pub proof fn lemma_read_all(v: InboundView, ms: Seq<RawMessage>)
    requires
        !v.ended,
    ensures
        v.read_all(ms).replies == v.replies + ms.map_values(|m: RawMessage| Some(m)),
        v.read_all(ms).messages == v.messages + ms,
        v.read_all(ms).accepted == v.accepted,
        !v.read_all(ms).ended,
    decreases ms.len(),
{
    let f = |m: RawMessage| Some(m);
    if ms.len() > 0 {
        let w = v.read(Some(ms[0]));
        lemma_read_all(w, ms.drop_first());
        assert(v.replies.push(Some(ms[0])) + ms.drop_first().map_values(f) == v.replies
            + ms.map_values(f));
        assert(v.messages.push(ms[0]) + ms.drop_first() == v.messages + ms);
    } else {
        assert(v.replies + ms.map_values(f) == v.replies);
        assert(v.messages + ms == v.messages);
    }
}

/// Concurrent receive calls are served in the order they were issued:
/// starting from a fresh actor, `ms.len()` requests followed by one read of
/// each of `ms` give the request numbered `i` the message `ms[i]`.
pub proof fn lemma_requests_get_messages_in_order(ms: Seq<RawMessage>)
    ensures
        InboundView::initial().accept_n(ms.len()).read_all(ms).replies.len() == ms.len(),
        forall|i: int|
            0 <= i < ms.len() ==> #[trigger] InboundView::initial().accept_n(ms.len()).read_all(
                ms,
            ).replies[i] == Some(ms[i]),
{
    let v = InboundView::initial();
    lemma_accept_n(v, ms.len());
    let w = v.accept_n(ms.len());
    lemma_read_all(w, ms);
    assert(w.replies + ms.map_values(|m: RawMessage| Some(m)) == ms.map_values(
        |m: RawMessage| Some(m),
    ));
}

/// Once the stream has reported its end, every request served afterwards,
/// including those already waiting at that moment, is answered with no
/// message: the actor never reads again and the end stays.
pub proof fn lemma_shutdown_propagates(v: InboundView)
    requires
        v.wf(),
        v.ended,
    ensures
        forall|i: int| v.messages.len() <= i < v.replies.len() ==> #[trigger] v.replies[i] is None,
        !v.can_read(),
        v.accept().ended && v.accept().messages == v.messages,
        v.answer_ended().ended && v.answer_ended().messages == v.messages,
        v.answer_ended().replies.last() is None,
        !v.stopped && v.pending() > 0 ==> v.can_answer_ended(),
{
    assert forall|i: int| v.messages.len() <= i < v.replies.len() implies #[trigger] v.replies[i] is None by {
        assert(v.replies[i] == (if i < v.messages.len() {
            Some(v.messages[i])
        } else {
            None
        }));
    }
}

/// The end of the stream reported by a read is final: that request gets no
/// message, and so does every request served after it.
pub proof fn lemma_end_of_stream_is_final(v: InboundView)
    requires
        v.wf(),
        v.can_read(),
    ensures
        v.read(None).ended,
        v.read(None).replies.last() is None,
        v.read(None).wf(),
{
    lemma_steps_keep_wf(v, None);
}

/// Serving a request goes the same way whether or not its caller still
/// waits: the actor keeps running, earlier replies stand, and every later
/// request stays queued to be served next, in order.
pub proof fn lemma_abandonment_is_silent(v: InboundView, item: Option<RawMessage>)
    requires
        v.wf(),
        v.can_read(),
    ensures
        v.read(item).wf(),
        !v.read(item).stopped,
        v.read(item).accepted == v.accepted,
        v.read(item).replies.len() == v.replies.len() + 1,
        v.read(item).replies.take(v.replies.len() as int) == v.replies,
        v.read(item).pending() == v.pending() - 1,
{
    lemma_steps_keep_wf(v, item);
    assert(v.read(item).replies.take(v.replies.len() as int) == v.replies);
}

} // verus!
