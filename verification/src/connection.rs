//! One connection's life in the relay.
//!
//! A connection is opened by registering its sender under the queue that
//! delivers to it. From then on it is *forwarding*: every message that arrives
//! from the sender is handed to whatever queue the receiver has at that
//! moment. The first message that finds no receiver is answered with an error
//! report into the sender's own queue, and the connection is *terminating*;
//! so is one whose inbound stream has ended or failed. A terminating
//! connection forwards nothing more. Closing it unregisters the sender.
//!
//! Waiting for a message and waiting for room in a queue are left to the
//! caller: `Connection::forward` takes what arrived and answers with what to
//! do about it.

use crate::failure::{build_unavailable, unavailable};
use crate::message::{ChannelMessage, ChannelMessageView};
use crate::registry::{
    lemma_unregister_undoes_register, registered, resolved, unregistered, Registry,
};
use vstd::prelude::*;

verus! {

/// How many messages a delivery queue holds before a sender has to wait.
pub const QUEUE_CAPACITY: usize = 32;

/// Where a connection stands.
#[derive(Debug, Clone, Copy, PartialEq, Eq, Structural)]
pub enum Phase {
    /// The sender is registered and its messages are being forwarded.
    Forwarding,
    /// Nothing more is forwarded; the connection waits to be closed.
    Terminating,
}

/// What the inbound stream of a connection yields.
#[derive(Debug, Clone, PartialEq, Eq)]
pub enum Inbound {
    /// A message from the sender.
    Message(ChannelMessage),
    /// The sender has closed its side.
    Closed,
    /// Reading or decoding failed.
    Failed,
}

/// The mathematical content of an `Inbound`.
pub enum InboundView {
    Message(ChannelMessageView),
    Closed,
    Failed,
}

impl View for Inbound {
    type V = InboundView;

    open spec fn view(&self) -> InboundView {
        match *self {
            Inbound::Message(message) => InboundView::Message(message@),
            Inbound::Closed => InboundView::Closed,
            Inbound::Failed => InboundView::Failed,
        }
    }
}

/// What is to be done about an inbound event.
#[derive(Debug, Clone, PartialEq, Eq)]
pub enum Action {
    /// Put `message` into the receiver's queue `queue`, then go on reading.
    Forward { queue: u64, message: ChannelMessage },
    /// Put the error report `message` into the sender's own queue `queue`,
    /// then stop reading.
    Bounce { queue: u64, message: ChannelMessage },
    /// Stop reading.
    Stop,
}

/// The mathematical content of an `Action`.
pub enum ActionView {
    Forward { queue: u64, message: ChannelMessageView },
    Bounce { queue: u64, message: ChannelMessageView },
    Stop,
}

impl View for Action {
    type V = ActionView;

    open spec fn view(&self) -> ActionView {
        match *self {
            Action::Forward { queue, message } => ActionView::Forward { queue, message: message@ },
            Action::Bounce { queue, message } => ActionView::Bounce { queue, message: message@ },
            Action::Stop => ActionView::Stop,
        }
    }
}

/// One inbound event together with the registry entries as they stood when
/// the event was handled. Other connections come and go between two events,
/// so each event sees entries of its own.
pub struct Arrival {
    pub entries: Map<Seq<char>, u64>,
    pub inbound: InboundView,
}

/// A connection: who sends, whom the messages are for, the sender's own
/// delivery queue, and where the connection stands.
#[derive(Debug)]
pub struct Connection {
    sender_id: String,
    receiver_id: String,
    queue: u64,
    phase: Phase,
}

/// The mathematical content of a `Connection`.
pub struct ConnectionView {
    pub sender_id: Seq<char>,
    pub receiver_id: Seq<char>,
    pub queue: u64,
    pub phase: Phase,
}

impl View for Connection {
    type V = ConnectionView;

    closed spec fn view(&self) -> ConnectionView {
        ConnectionView {
            sender_id: self.sender_id@,
            receiver_id: self.receiver_id@,
            queue: self.queue,
            phase: self.phase,
        }
    }
}

impl ConnectionView {
    /// A connection as it stands right after it was opened.
    pub open spec fn opened(sender_id: Seq<char>, receiver_id: Seq<char>, queue: u64) -> Self {
        ConnectionView { sender_id, receiver_id, queue, phase: Phase::Forwarding }
    }

    /// This connection, terminating.
    pub open spec fn terminating(self) -> Self {
        ConnectionView { phase: Phase::Terminating, ..self }
    }

    /// The connection after one inbound event, and what is to be done about
    /// the event, given the registry entries at that moment.
    pub open spec fn step(self, entries: Map<Seq<char>, u64>, inbound: InboundView) -> (
        Self,
        ActionView,
    ) {
        match self.phase {
            Phase::Terminating => (self, ActionView::Stop),
            Phase::Forwarding => match inbound {
                InboundView::Message(message) => match resolved(entries, self.receiver_id) {
                    Some(queue) => (self, ActionView::Forward { queue, message }),
                    None => (
                        self.terminating(),
                        ActionView::Bounce { queue: self.queue, message: unavailable(message.sid) },
                    ),
                },
                InboundView::Closed => (self.terminating(), ActionView::Stop),
                InboundView::Failed => (self.terminating(), ActionView::Stop),
            },
        }
    }

    /// The connection after a run of inbound events, and the actions that the
    /// events called for, in order.
    pub open spec fn run(self, arrivals: Seq<Arrival>) -> (Self, Seq<ActionView>)
        decreases arrivals.len(),
    {
        if arrivals.len() == 0 {
            (self, Seq::empty())
        } else {
            let (before, actions) = self.run(arrivals.drop_last());
            let (after, action) = before.step(arrivals.last().entries, arrivals.last().inbound);
            (after, actions.push(action))
        }
    }
}

impl Connection {
    /// Opens a connection: registers `sender_id` under `queue` and starts
    /// forwarding. A queue that was registered for `sender_id` before is
    /// replaced.
    pub fn open(registry: &mut Registry, sender_id: String, receiver_id: String, queue: u64) -> (conn:
        Connection)
        ensures
            final(registry)@ == registered(old(registry)@, sender_id@, queue),
            conn@ == ConnectionView::opened(sender_id@, receiver_id@, queue),
    {
        registry.register(sender_id.clone(), queue);
        Connection { sender_id, receiver_id, queue, phase: Phase::Forwarding }
    }

    /// Decides what to do about one inbound event.
    ///
    /// While forwarding, a message goes to the queue that the receiver has in
    /// `registry`, exactly as it came. If the receiver has none, the answer is
    /// an error report for the sender's own queue, with the sequence
    /// identifier of the message, and the connection is terminating from then
    /// on. The end of the stream and a failed read make it terminating too.
    /// A terminating connection answers every event with `Stop`.
    pub fn forward(&mut self, registry: &Registry, inbound: Inbound) -> (action: Action)
        ensures
            final(self)@ == old(self)@.step(registry@, inbound@).0,
            action@ == old(self)@.step(registry@, inbound@).1,
            action matches Action::Forward { message, .. } ==> inbound == Inbound::Message(message),
    {
        match self.phase {
            Phase::Terminating => Action::Stop,
            Phase::Forwarding => match inbound {
                Inbound::Message(message) => match registry.resolve(self.receiver_id.as_str()) {
                    Some(queue) => Action::Forward { queue, message },
                    None => {
                        self.phase = Phase::Terminating;
                        Action::Bounce { queue: self.queue, message: build_unavailable(message.sid) }
                    },
                },
                Inbound::Closed => {
                    self.phase = Phase::Terminating;
                    Action::Stop
                },
                Inbound::Failed => {
                    self.phase = Phase::Terminating;
                    Action::Stop
                },
            },
        }
    }

    /// Closes the connection: unregisters the sender, whatever queue is
    /// registered for it by now, and hands back the connection's own queue so
    /// that it can be released. Afterwards the sender resolves to nothing.
    pub fn close(self, registry: &mut Registry) -> (queue: u64)
        ensures
            final(registry)@ == unregistered(old(registry)@, self@.sender_id),
            resolved(final(registry)@, self@.sender_id) is None,
            queue == self@.queue,
    {
        registry.unregister(self.sender_id.as_str());
        self.queue
    }

    /// The identity of the sender.
    pub fn sender_id(&self) -> (id: &str)
        ensures
            id@ == self@.sender_id,
    {
        self.sender_id.as_str()
    }

    /// The identity of the peer that the messages are for.
    pub fn receiver_id(&self) -> (id: &str)
        ensures
            id@ == self@.receiver_id,
    {
        self.receiver_id.as_str()
    }

    /// The handle of the sender's own delivery queue.
    pub fn queue(&self) -> (queue: u64)
        ensures
            queue == self@.queue,
    {
        self.queue
    }

    /// Where the connection stands.
    pub fn phase(&self) -> (phase: Phase)
        ensures
            phase == self@.phase,
    {
        self.phase
    }
}

/// A run calls for one action per inbound event.
pub proof fn lemma_run_length(conn: ConnectionView, arrivals: Seq<Arrival>)
    ensures
        conn.run(arrivals).1.len() == arrivals.len(),
    decreases arrivals.len(),
{
    if arrivals.len() > 0 {
        lemma_run_length(conn, arrivals.drop_last());
    }
}

/// A terminating connection stays as it is and forwards nothing, whatever
/// arrives and whoever is registered.
pub proof fn lemma_terminating_forwards_nothing(conn: ConnectionView, arrivals: Seq<Arrival>)
    requires
        conn.phase == Phase::Terminating,
    ensures
        conn.run(arrivals).0 == conn,
        conn.run(arrivals).1.len() == arrivals.len(),
        forall|i: int| 0 <= i < arrivals.len() ==> conn.run(arrivals).1[i] == ActionView::Stop,
    decreases arrivals.len(),
{
    if arrivals.len() > 0 {
        lemma_terminating_forwards_nothing(conn, arrivals.drop_last());
    }
}

/// While the receiver is registered, every message of the sender is forwarded:
/// the actions are one `Forward` per message, in the order in which the
/// messages arrived, each with the message exactly as it came and with the
/// queue that the receiver had at that moment. The connection keeps
/// forwarding.
pub proof fn lemma_forwarding_preserves_order(conn: ConnectionView, arrivals: Seq<Arrival>)
    requires
        conn.phase == Phase::Forwarding,
        forall|i: int|
            0 <= i < arrivals.len() ==> (#[trigger] arrivals[i]).inbound is Message
                && arrivals[i].entries.contains_key(conn.receiver_id),
    ensures
        conn.run(arrivals).0 == conn,
        conn.run(arrivals).1.len() == arrivals.len(),
        forall|i: int|
            0 <= i < arrivals.len() ==> #[trigger] conn.run(arrivals).1[i] == (ActionView::Forward {
                queue: arrivals[i].entries[conn.receiver_id],
                message: arrivals[i].inbound->Message_0,
            }),
    decreases arrivals.len(),
{
    if arrivals.len() > 0 {
        let earlier = arrivals.drop_last();
        assert forall|i: int| 0 <= i < earlier.len() implies (#[trigger] earlier[i]).inbound is Message
            && earlier[i].entries.contains_key(conn.receiver_id) by {
            assert(earlier[i] == arrivals[i]);
        }
        lemma_forwarding_preserves_order(conn, earlier);
        let last = arrivals.last();
        assert(last == arrivals[arrivals.len() - 1]);
        assert forall|i: int| 0 <= i < arrivals.len() implies #[trigger] conn.run(arrivals).1[i] == (
        ActionView::Forward {
            queue: arrivals[i].entries[conn.receiver_id],
            message: arrivals[i].inbound->Message_0,
        }) by {
            if i < earlier.len() {
                assert(earlier[i] == arrivals[i]);
                assert(conn.run(arrivals).1[i] == conn.run(earlier).1[i]);
            }
        }
    }
}

/// When the first message of a connection finds its receiver unregistered,
/// the sender gets exactly one error report: it goes to the sender's own
/// queue and carries the sequence identifier of that first message. Nothing
/// that arrives afterwards is forwarded, whoever is registered by then, and
/// the connection ends up terminating.
pub proof fn lemma_unreachable_peer_bounces_once(conn: ConnectionView, arrivals: Seq<Arrival>)
    requires
        conn.phase == Phase::Forwarding,
        arrivals.len() > 0,
        arrivals[0].inbound is Message,
        !arrivals[0].entries.contains_key(conn.receiver_id),
    ensures
        conn.run(arrivals).0 == conn.terminating(),
        conn.run(arrivals).1.len() == arrivals.len(),
        conn.run(arrivals).1[0] == (ActionView::Bounce {
            queue: conn.queue,
            message: unavailable((arrivals[0].inbound->Message_0).sid),
        }),
        forall|i: int| 1 <= i < arrivals.len() ==> conn.run(arrivals).1[i] == ActionView::Stop,
    decreases arrivals.len(),
{
    let earlier = arrivals.drop_last();
    if earlier.len() == 0 {
        assert(conn.run(earlier).1 =~= Seq::<ActionView>::empty());
        assert(arrivals.last() == arrivals[0]);
    } else {
        assert(earlier[0] == arrivals[0]);
        lemma_unreachable_peer_bounces_once(conn, earlier);
        assert forall|i: int| 1 <= i < arrivals.len() implies conn.run(arrivals).1[i]
            == ActionView::Stop by {
            if i < earlier.len() {
                assert(conn.run(arrivals).1[i] == conn.run(earlier).1[i]);
            }
        }
    }
}

/// A connection whose stream ends is unregistered when it is closed: the end
/// of the stream makes it terminating without forwarding anything, and once
/// the sender is unregistered it resolves to nothing, while every other
/// identity is registered as before the connection was opened.
pub proof fn lemma_closed_stream_unregisters(
    entries: Map<Seq<char>, u64>,
    sender_id: Seq<char>,
    receiver_id: Seq<char>,
    queue: u64,
)
    ensures
        ({
            let conn = ConnectionView::opened(sender_id, receiver_id, queue);
            let during = registered(entries, sender_id, queue);
            let after = unregistered(during, sender_id);
            &&& resolved(during, sender_id) == Some(queue)
            &&& conn.step(during, InboundView::Closed) == (conn.terminating(), ActionView::Stop)
            &&& resolved(after, sender_id) is None
            &&& after == unregistered(entries, sender_id)
        }),
{
    lemma_unregister_undoes_register(entries, sender_id, queue);
}

} // verus!
