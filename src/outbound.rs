use vstd::prelude::*;

use crate::message::{raw_to_wire, RawMessage};
use tungstenite::Message as WireMessage;

verus! {

/// What the outbound actor has seen and done, in order.
pub ghost struct OutboundView {
    /// Every message accepted for sending, in the order it was accepted.
    pub accepted: Seq<RawMessage>,
    /// The messages handed out to be written, in the order they were handed out.
    pub written: Seq<RawMessage>,
    /// The messages accepted and not yet handed out.
    pub pending: Seq<RawMessage>,
    /// A write failed: the actor has stopped and accepts nothing more.
    pub stopped: bool,
}

impl OutboundView {
    pub open spec fn initial() -> OutboundView {
        OutboundView { accepted: Seq::empty(), written: Seq::empty(), pending: Seq::empty(), stopped: false }
    }

    /// Writes are handed out in acceptance order, and nothing is lost while
    /// the actor runs.
    pub open spec fn wf(self) -> bool {
        &&& self.written.len() <= self.accepted.len()
        &&& self.written == self.accepted.take(self.written.len() as int)
        &&& !self.stopped ==> self.accepted == self.written + self.pending
        &&& self.stopped ==> self.pending.len() == 0
    }

    /// A handle sends `m`: it joins the end of the queue, or vanishes once the
    /// actor has stopped.
    pub open spec fn enqueue(self, m: RawMessage) -> OutboundView {
        if self.stopped {
            self
        } else {
            OutboundView { accepted: self.accepted.push(m), pending: self.pending.push(m), ..self }
        }
    }

    /// The oldest pending message is handed out to be written.
    pub open spec fn write_next(self) -> OutboundView
        recommends
            self.pending.len() > 0,
    {
        OutboundView { written: self.written.push(self.pending[0]), pending: self.pending.drop_first(), ..self }
    }

    /// A write failed: the actor stops and drops what is still queued.
    pub open spec fn fail(self) -> OutboundView {
        OutboundView { pending: Seq::empty(), stopped: true, ..self }
    }

    /// The state after sending each of `ms` in turn.
    pub open spec fn enqueue_all(self, ms: Seq<RawMessage>) -> OutboundView
        decreases ms.len(),
    {
        if ms.len() == 0 {
            self
        } else {
            self.enqueue(ms[0]).enqueue_all(ms.drop_first())
        }
    }

    /// The state after `n` writes.
    pub open spec fn write_n(self, n: nat) -> OutboundView
        decreases n,
    {
        if n == 0 {
            self
        } else {
            self.write_next().write_n((n - 1) as nat)
        }
    }
}

/// The decisions of the actor that owns the sending half of a connection:
/// which message goes out next, and what a failed write does.
pub struct OutboundActor {
    queue: Vec<RawMessage>,
    stopped: bool,
    accepted: Ghost<Seq<RawMessage>>,
    written: Ghost<Seq<RawMessage>>,
}

impl View for OutboundActor {
    type V = OutboundView;

    closed spec fn view(&self) -> OutboundView {
        OutboundView {
            accepted: self.accepted@,
            written: self.written@,
            pending: self.queue@,
            stopped: self.stopped,
        }
    }
}

impl OutboundActor {
    pub closed spec fn wf(&self) -> bool {
        self@.wf()
    }

    pub fn new() -> (r: OutboundActor)
        ensures
            r.wf(),
            r@ == OutboundView::initial(),
    {
        let r = OutboundActor {
            queue: Vec::new(),
            stopped: false,
            accepted: Ghost(Seq::empty()),
            written: Ghost(Seq::empty()),
        };
        proof {
            assert(r@.accepted == r@.written + r@.pending);
            assert(r@.accepted.take(0) == r@.written);
        }
        r
    }

    /// Accepts a message for sending; once the actor has stopped it is dropped.
    pub fn enqueue(&mut self, message: RawMessage)
        requires
            old(self).wf(),
        ensures
            final(self).wf(),
            final(self)@ == old(self)@.enqueue(message),
    {
        if !self.stopped {
            proof {
                lemma_steps_keep_wf(self@, message);
            }
            self.accepted = Ghost(self.accepted@.push(message));
            self.queue.push(message);
        }
    }

    /// Whether a message waits to be written.
    pub fn has_pending(&self) -> (r: bool)
        ensures
            r == (self@.pending.len() > 0),
    {
        self.queue.len() > 0
    }

    /// Hands out the oldest pending message, as tungstenite's message, to be
    /// written; none when nothing waits.
    pub fn next_write(&mut self) -> (r: Option<WireMessage>)
        requires
            old(self).wf(),
        ensures
            final(self).wf(),
            old(self)@.pending.len() == 0 ==> r is None && final(self)@ == old(self)@,
            old(self)@.pending.len() > 0 ==> r == Some(raw_to_wire(old(self)@.pending[0]))
                && final(self)@ == old(self)@.write_next(),
    {
        if self.queue.len() == 0 {
            return None;
        }
        let message = self.queue.remove(0);
        proof {
            lemma_steps_keep_wf(old(self)@, message);
        }
        self.written = Ghost(self.written@.push(message));
        proof {
            assert(self@.pending == old(self)@.pending.drop_first());
        }
        Some(WireMessage::from(message))
    }

    /// A write failed: the actor stops, and what is still queued is dropped.
    pub fn write_failed(&mut self)
        requires
            old(self).wf(),
        ensures
            final(self).wf(),
            final(self)@ == old(self)@.fail(),
    {
        self.queue = Vec::new();
        self.stopped = true;
    }

    pub fn is_stopped(&self) -> (r: bool)
        ensures
            r == self@.stopped,
    {
        self.stopped
    }
}

/// Sending a sequence of messages while the actor runs queues them behind
/// what is already pending, in the order they were sent.
pub proof fn lemma_enqueue_all(v: OutboundView, ms: Seq<RawMessage>)
    requires
        !v.stopped,
    ensures
        v.enqueue_all(ms).pending == v.pending + ms,
        v.enqueue_all(ms).accepted == v.accepted + ms,
        v.enqueue_all(ms).written == v.written,
        !v.enqueue_all(ms).stopped,
    decreases ms.len(),
{
    if ms.len() > 0 {
        let w = v.enqueue(ms[0]);
        lemma_enqueue_all(w, ms.drop_first());
        assert(v.pending.push(ms[0]) + ms.drop_first() == v.pending + ms);
        assert(v.accepted.push(ms[0]) + ms.drop_first() == v.accepted + ms);
    } else {
        assert(v.pending + ms == v.pending);
        assert(v.accepted + ms == v.accepted);
    }
}

/// `n` writes hand out the first `n` pending messages, oldest first.
pub proof fn lemma_write_n(v: OutboundView, n: nat)
    requires
        n <= v.pending.len(),
    ensures
        v.write_n(n).written == v.written + v.pending.take(n as int),
        v.write_n(n).pending == v.pending.skip(n as int),
        v.write_n(n).accepted == v.accepted,
        v.write_n(n).stopped == v.stopped,
    decreases n,
{
    if n > 0 {
        let w = v.write_next();
        lemma_write_n(w, (n - 1) as nat);
        assert(w.pending.take(n - 1) == v.pending.take(n as int).drop_first());
        assert(v.written.push(v.pending[0]) + v.pending.take(n as int).drop_first()
            == v.written + v.pending.take(n as int));
        assert(w.pending.skip(n - 1) == v.pending.skip(n as int));
    } else {
        assert(v.written + v.pending.take(0) == v.written);
        assert(v.pending.skip(0) == v.pending);
    }
}

/// Writes reach the channel in exactly the order in which messages were
/// sent: starting from a fresh actor, sending `ms` and then serving every
/// pending write hands out `ms` itself, in order, and leaves nothing queued.
pub proof fn lemma_send_order(ms: Seq<RawMessage>)
    ensures
        OutboundView::initial().enqueue_all(ms).write_n(ms.len()).written == ms,
        OutboundView::initial().enqueue_all(ms).write_n(ms.len()).pending.len() == 0,
{
    let v = OutboundView::initial();
    lemma_enqueue_all(v, ms);
    let w = v.enqueue_all(ms);
    assert(w.pending == ms);
    lemma_write_n(w, ms.len());
    assert(ms.take(ms.len() as int) == ms);
    assert(v.written + ms == ms);
}

/// In every well-formed state, the messages written so far are exactly the
/// oldest ones accepted, and a running actor loses none of the rest: they
/// wait, in order, to be written.
pub proof fn lemma_writes_follow_sends(v: OutboundView)
    requires
        v.wf(),
    ensures
        v.written == v.accepted.take(v.written.len() as int),
        !v.stopped ==> v.pending == v.accepted.skip(v.written.len() as int),
{
    if !v.stopped {
        assert(v.accepted.skip(v.written.len() as int) == v.pending);
    }
}

/// Each step of the actor keeps it well formed.
pub proof fn lemma_steps_keep_wf(v: OutboundView, m: RawMessage)
    requires
        v.wf(),
    ensures
        v.enqueue(m).wf(),
        v.pending.len() > 0 ==> v.write_next().wf(),
        v.fail().wf(),
{
    if !v.stopped {
        assert(v.accepted.push(m).take(v.written.len() as int) == v.accepted.take(v.written.len() as int));
        assert(v.accepted.push(m) == v.written + v.pending.push(m));
        if v.pending.len() > 0 {
            assert(v.accepted.take(v.written.len() + 1 as int) == v.written.push(v.pending[0]));
            assert(v.accepted == v.written.push(v.pending[0]) + v.pending.drop_first());
        }
    }
}

} // verus!
