//! The Update Broadcaster: a fan-out channel. One producer (the worker)
//! publishes every persisted state transition; each live subscriber sees
//! every message published after it joined, in publish order, and never a
//! message from before it joined.

use vstd::prelude::*;
use crate::job::{Job, JobView};

verus! {

/// A message on the update channel: a job record whose state just changed,
/// or a liveness ping.
pub enum WsMessage {
    JobStatusUpdate(Job),
    ServerHeartbeat,
}

/// Mathematical image of a message.
pub ghost enum MsgView {
    JobStatusUpdate(JobView),
    ServerHeartbeat,
}

impl View for WsMessage {
    type V = MsgView;

    open spec fn view(&self) -> MsgView {
        match self {
            WsMessage::JobStatusUpdate(j) => MsgView::JobStatusUpdate(j@),
            WsMessage::ServerHeartbeat => MsgView::ServerHeartbeat,
        }
    }
}

impl WsMessage {
    /// A field-for-field copy of the message.
    pub fn duplicate(&self) -> (r: WsMessage)
        ensures
            r@ == self@,
    {
        match self {
            WsMessage::JobStatusUpdate(j) => WsMessage::JobStatusUpdate(j.duplicate()),
            WsMessage::ServerHeartbeat => WsMessage::ServerHeartbeat,
        }
    }
}

/// The fan-out channel: the full ordered log of published messages. Each
/// subscriber is a cursor into this log, starting at its join point.
pub struct Broadcaster {
    log: Vec<WsMessage>,
}

impl View for Broadcaster {
    type V = Seq<MsgView>;

    closed spec fn view(&self) -> Seq<MsgView> {
        Seq::new(self.log@.len(), |i: int| self.log@[i]@)
    }
}

/// A live subscription: `joined` is the length the log had when the
/// subscriber joined, `cursor` the position of the next message it will
/// see, and `received` the (ghost) record of every message delivered to it.
pub struct Subscriber {
    pub joined: usize,
    pub cursor: usize,
    pub received: Ghost<Seq<MsgView>>,
}

impl Subscriber {
    /// The subscriber's consistency with a broadcaster log: the cursor sits
    /// between the join point and the end of the log, and what was
    /// delivered so far is exactly the log between the two.
    pub open spec fn wf(self, log: Seq<MsgView>) -> bool {
        &&& self.joined <= self.cursor <= log.len()
        &&& self.received@ == log.subrange(self.joined as int, self.cursor as int)
    }
}

impl Broadcaster {
    /// A channel with no messages published yet.
    pub fn new() -> (r: Broadcaster)
        ensures
            r@ == Seq::<MsgView>::empty(),
    {
        let r = Broadcaster { log: Vec::new() };
        proof {
            assert(r@ =~= Seq::<MsgView>::empty());
        }
        r
    }

    /// The number of messages published so far.
    pub fn len(&self) -> (n: usize)
        ensures
            n == self@.len(),
    {
        self.log.len()
    }

    /// Publishes a message: appends it to the log, so that every subscriber
    /// whose cursor has not yet reached it will see it, in order.
    pub fn publish(&mut self, m: WsMessage)
        ensures
            final(self)@ == old(self)@.push(m@),
    {
        let ghost s0 = self@;
        let ghost v = m@;
        self.log.push(m);
        proof {
            assert(self@ =~= s0.push(v));
        }
    }

    /// Joins the channel: the new subscriber starts at the current end of
    /// the log, so it will see exactly the messages published from now on.
    pub fn subscribe(&self) -> (s: Subscriber)
        ensures
            s.joined == self@.len(),
            s.cursor == self@.len(),
            s.received@ == Seq::<MsgView>::empty(),
            s.wf(self@),
    {
        let n = self.log.len();
        let s = Subscriber { joined: n, cursor: n, received: Ghost(Seq::empty()) };
        proof {
            assert(self@.subrange(n as int, n as int) =~= Seq::<MsgView>::empty());
        }
        s
    }

    /// Delivers the next message to the subscriber, or `None` when it has
    /// seen everything published so far.
    pub fn recv(&self, s: &mut Subscriber) -> (r: Option<WsMessage>)
        requires
            old(s).wf(self@),
        ensures
            final(s).wf(self@),
            final(s).joined == old(s).joined,
            old(s).cursor < self@.len() ==> {
                &&& r matches Some(m) && m@ == self@[old(s).cursor as int]
                &&& final(s).cursor == old(s).cursor + 1
                &&& final(s).received@ == old(s).received@.push(self@[old(s).cursor as int])
            },
            old(s).cursor >= self@.len() ==> r is None && *final(s) == *old(s),
    {
        if s.cursor < self.log.len() {
            let m = self.log[s.cursor].duplicate();
            let ghost c = s.cursor as int;
            s.cursor = s.cursor + 1;
            proof {
                s.received@ = s.received@.push(self@[c]);
                assert(self@.subrange(s.joined as int, c + 1) =~= self@.subrange(s.joined as int, c).push(self@[c]));
            }
            Option::Some(m)
        } else {
            Option::None
        }
    }
}

/// Publishing never disturbs an existing subscriber: a subscriber
/// consistent with the log stays consistent when a message is appended,
/// and what it has already received is unchanged.
pub proof fn lemma_wf_after_publish(s: Subscriber, log: Seq<MsgView>, m: MsgView)
    requires
        s.wf(log),
    ensures
        s.wf(log.push(m)),
{
    assert(log.push(m).subrange(s.joined as int, s.cursor as int) =~= log.subrange(
        s.joined as int,
        s.cursor as int,
    ));
}

/// Exact delivery law: everything a subscriber has received is the log
/// between its join point and its cursor — each message published after the
/// join is delivered in publish order, and no message published before the
/// join is ever delivered.
pub proof fn lemma_subscriber_delivery(s: Subscriber, log: Seq<MsgView>)
    requires
        s.wf(log),
    ensures
        s.received@ == log.subrange(s.joined as int, s.cursor as int),
        s.received@.len() == s.cursor - s.joined,
        forall|k: int| 0 <= k < s.received@.len() ==> s.received@[k] == log[s.joined + k],
{
}

} // verus!
