//! The broadcast hub: single owner of the session registry and the history
//! buffer. Every mutation — connect, disconnect, incoming message — runs to
//! completion before the next, and each returns the full list of delivery
//! instructions it gives rise to, so the transport layer can perform the
//! writes independently per recipient.

use crate::history::History;
use crate::message::ChatMessage;
use crate::message::MessageView;
use crate::message::joined_body;
use crate::message::left_body;
use crate::message::make_joined_body;
use crate::message::make_left_body;
use crate::message::system_author;
use crate::message::system_name;
use crate::registry::Registry;
use crate::registry::insert_id;
use crate::registry::remove_id;
use crate::registry::unique_ids;
use crate::stamp::Stamp;
use crate::stamp::StampView;
use vstd::prelude::*;

verus! {

/// A message event a session forwards to the hub: who sent it, its text, and
/// the author name it is to carry.
pub struct ClientEvent {
    pub session_id: String,
    pub text: String,
    pub author: String,
}

/// The mathematical value of a [`ClientEvent`].
pub ghost struct ClientEventView {
    pub session_id: Seq<char>,
    pub text: Seq<char>,
    pub author: Seq<char>,
}

impl View for ClientEvent {
    type V = ClientEventView;

    open spec fn view(&self) -> ClientEventView {
        ClientEventView {
            session_id: self.session_id@,
            text: self.text@,
            author: self.author@,
        }
    }
}

/// One delivery instruction: this message is owed to this session.
pub struct Delivery {
    pub target: String,
    pub message: ChatMessage,
}

/// The mathematical value of a [`Delivery`].
pub ghost struct DeliveryView {
    pub target: Seq<char>,
    pub message: MessageView,
}

impl View for Delivery {
    type V = DeliveryView;

    open spec fn view(&self) -> DeliveryView {
        DeliveryView { target: self.target@, message: self.message@ }
    }
}

/// The instruction values a sequence of deliveries stands for.
pub open spec fn deliveries_view(ds: Seq<Delivery>) -> Seq<DeliveryView> {
    ds.map_values(|d: Delivery| d@)
}

pub proof fn lemma_deliveries_view_push(ds: Seq<Delivery>, d: Delivery)
    ensures
        deliveries_view(ds.push(d)) == deliveries_view(ds).push(d@),
{
    assert(deliveries_view(ds.push(d)) =~= deliveries_view(ds).push(d@));
}

pub proof fn lemma_deliveries_view_add(a: Seq<Delivery>, b: Seq<Delivery>)
    ensures
        deliveries_view(a + b) == deliveries_view(a) + deliveries_view(b),
{
    assert(deliveries_view(a + b) =~= deliveries_view(a) + deliveries_view(b));
}

/// The mathematical value of a [`Hub`]: which sessions are registered, and
/// what has been broadcast so far.
pub ghost struct HubView {
    pub registry: Seq<Seq<char>>,
    pub history: Seq<MessageView>,
}

/// The hub before any session has connected.
pub open spec fn empty_hub() -> HubView {
    HubView { registry: Seq::empty(), history: Seq::empty() }
}

/// The join notice stamped with `st`.
pub open spec fn joined_notice(name: Seq<char>, st: StampView) -> MessageView {
    MessageView {
        id: st.id,
        username: system_name(),
        message: joined_body(name),
        timestamp: st.timestamp,
    }
}

/// The leave notice stamped with `st`.
pub open spec fn left_notice(name: Seq<char>, st: StampView) -> MessageView {
    MessageView {
        id: st.id,
        username: system_name(),
        message: left_body(name),
        timestamp: st.timestamp,
    }
}

/// A client message stamped with `st`.
pub open spec fn stamped_message(text: Seq<char>, author: Seq<char>, st: StampView) -> MessageView {
    MessageView { id: st.id, username: author, message: text, timestamp: st.timestamp }
}

/// One delivery of `m` to every id in `reg`, in registration order.
pub open spec fn fanout(reg: Seq<Seq<char>>, m: MessageView) -> Seq<DeliveryView> {
    reg.map_values(|id: Seq<char>| DeliveryView { target: id, message: m })
}

/// The whole of `hist`, in order, each message addressed to `target`.
pub open spec fn replay_to(target: Seq<char>, hist: Seq<MessageView>) -> Seq<DeliveryView> {
    hist.map_values(|m: MessageView| DeliveryView { target, message: m })
}

pub proof fn lemma_fanout_push(reg: Seq<Seq<char>>, x: Seq<char>, m: MessageView)
    ensures
        fanout(reg.push(x), m) == fanout(reg, m).push(DeliveryView { target: x, message: m }),
{
    assert(fanout(reg.push(x), m) =~= fanout(reg, m).push(
        DeliveryView { target: x, message: m },
    ));
}

pub proof fn lemma_replay_to_push(target: Seq<char>, hist: Seq<MessageView>, m: MessageView)
    ensures
        replay_to(target, hist.push(m)) == replay_to(target, hist).push(
            DeliveryView { target, message: m },
        ),
{
    assert(replay_to(target, hist.push(m)) =~= replay_to(target, hist).push(
        DeliveryView { target, message: m },
    ));
}

/// The messages a sequence of deliveries hands to one target, in order.
pub open spec fn messages_to(target: Seq<char>, ds: Seq<DeliveryView>) -> Seq<MessageView>
    decreases ds.len(),
{
    if ds.len() == 0 {
        Seq::empty()
    } else {
        let rest = messages_to(target, ds.drop_last());
        if ds.last().target == target {
            rest.push(ds.last().message)
        } else {
            rest
        }
    }
}

pub proof fn lemma_messages_to_add(t: Seq<char>, a: Seq<DeliveryView>, b: Seq<DeliveryView>)
    ensures
        messages_to(t, a + b) == messages_to(t, a) + messages_to(t, b),
    decreases b.len(),
{
    if b.len() == 0 {
        assert(a + b =~= a);
        assert(messages_to(t, a) + messages_to(t, b) =~= messages_to(t, a));
    } else {
        lemma_messages_to_add(t, a, b.drop_last());
        assert((a + b).drop_last() =~= a + b.drop_last());
        if b.last().target == t {
            assert(messages_to(t, a) + messages_to(t, b.drop_last()).push(b.last().message) =~= (
            messages_to(t, a) + messages_to(t, b.drop_last())).push(b.last().message));
        }
    }
}

/// A full replay addressed to `target` hands `target` the whole history.
pub proof fn lemma_messages_to_replay(t: Seq<char>, hist: Seq<MessageView>)
    ensures
        messages_to(t, replay_to(t, hist)) == hist,
    decreases hist.len(),
{
    let ds = replay_to(t, hist);
    if hist.len() == 0 {
        assert(messages_to(t, ds) =~= hist);
    } else {
        lemma_messages_to_replay(t, hist.drop_last());
        assert(ds.drop_last() =~= replay_to(t, hist.drop_last()));
        assert(ds.last() == DeliveryView { target: t, message: hist.last() });
        assert(hist.drop_last().push(hist.last()) =~= hist);
    }
}

/// A fan-out delivers nothing to a session that is not registered.
pub proof fn lemma_messages_to_fanout_absent(t: Seq<char>, reg: Seq<Seq<char>>, m: MessageView)
    requires
        !reg.contains(t),
    ensures
        messages_to(t, fanout(reg, m)) == Seq::<MessageView>::empty(),
    decreases reg.len(),
{
    let ds = fanout(reg, m);
    if reg.len() == 0 {
        assert(messages_to(t, ds) =~= Seq::<MessageView>::empty());
    } else {
        assert(!reg.drop_last().contains(t)) by {
            if reg.drop_last().contains(t) {
                let i = choose|i: int| 0 <= i < reg.drop_last().len() && reg.drop_last()[i] == t;
                assert(reg[i] == t);
            }
        }
        lemma_messages_to_fanout_absent(t, reg.drop_last(), m);
        assert(ds.drop_last() =~= fanout(reg.drop_last(), m));
        assert(reg.last() != t) by {
            assert(reg[reg.len() - 1] == reg.last());
        }
        assert(ds.last() == DeliveryView { target: reg.last(), message: m });
    }
}

/// A fan-out over a duplicate-free registry delivers the message to a
/// registered session exactly once.
pub proof fn lemma_messages_to_fanout(t: Seq<char>, reg: Seq<Seq<char>>, m: MessageView)
    requires
        unique_ids(reg),
        reg.contains(t),
    ensures
        messages_to(t, fanout(reg, m)) == seq![m],
    decreases reg.len(),
{
    let ds = fanout(reg, m);
    assert(ds.drop_last() =~= fanout(reg.drop_last(), m));
    assert(ds.last() == DeliveryView { target: reg.last(), message: m });
    if reg.last() == t {
        assert(!reg.drop_last().contains(t)) by {
            if reg.drop_last().contains(t) {
                let i = choose|i: int| 0 <= i < reg.drop_last().len() && reg.drop_last()[i] == t;
                assert(reg[i] == t);
                assert(reg[reg.len() - 1] == t);
            }
        }
        lemma_messages_to_fanout_absent(t, reg.drop_last(), m);
        assert(Seq::<MessageView>::empty().push(m) =~= seq![m]);
    } else {
        assert(reg.drop_last().contains(t)) by {
            let i = choose|i: int| 0 <= i < reg.len() && reg[i] == t;
            assert(reg[reg.len() - 1] == reg.last());
            assert(reg.drop_last()[i] == t);
        }
        assert(unique_ids(reg.drop_last())) by {
            assert forall|i: int, j: int|
                0 <= i < j < reg.drop_last().len() implies reg.drop_last()[i]
                != reg.drop_last()[j] by {
                assert(reg[i] == reg.drop_last()[i] && reg[j] == reg.drop_last()[j]);
            }
        }
        lemma_messages_to_fanout(t, reg.drop_last(), m);
    }
}

/// What a connect event does: register the id, replay the full history to it,
/// then append and broadcast a join notice to every registered session, the
/// newcomer included.
pub open spec fn connect_step(h: HubView, id: Seq<char>, name: Seq<char>, st: StampView) -> (
    HubView,
    Seq<DeliveryView>,
) {
    let notice = joined_notice(name, st);
    let reg = insert_id(h.registry, id);
    (
        HubView { registry: reg, history: h.history.push(notice) },
        replay_to(id, h.history) + fanout(reg, notice),
    )
}

/// What a disconnect event does: deregister the id if present, then append
/// and broadcast a leave notice to every remaining session.
pub open spec fn disconnect_step(h: HubView, id: Seq<char>, name: Seq<char>, st: StampView) -> (
    HubView,
    Seq<DeliveryView>,
) {
    let notice = left_notice(name, st);
    let reg = remove_id(h.registry, id);
    (HubView { registry: reg, history: h.history.push(notice) }, fanout(reg, notice))
}

/// What an incoming client message does: stamp it, append it to the history,
/// and broadcast it to every registered session, the sender included.
pub open spec fn message_step(h: HubView, text: Seq<char>, author: Seq<char>, st: StampView) -> (
    HubView,
    Seq<DeliveryView>,
) {
    let m = stamped_message(text, author, st);
    (HubView { registry: h.registry, history: h.history.push(m) }, fanout(h.registry, m))
}

/// Single authority over the registry and the history. Connect, disconnect
/// and incoming-message handling are serialized by exclusive ownership:
/// each takes `&mut self`, so no two mutations can interleave.
pub struct Hub {
    registry: Registry,
    history: History,
}

impl View for Hub {
    type V = HubView;

    closed spec fn view(&self) -> HubView {
        HubView { registry: self.registry@, history: self.history@ }
    }
}

impl Hub {
    /// Well-formed: no session id registered twice.
    pub open spec fn wf(&self) -> bool {
        unique_ids(self@.registry)
    }

    pub fn new() -> (r: Hub)
        ensures
            r@ == empty_hub(),
            r.wf(),
    {
        let r = Hub { registry: Registry::new(), history: History::new() };
        assert(r@.registry =~= empty_hub().registry);
        assert(r@.history =~= empty_hub().history);
        r
    }

    /// The registry, for read-only inspection.
    pub fn registry(&self) -> (r: &Registry)
        ensures
            r@ == self@.registry,
    {
        &self.registry
    }

    /// The history buffer, for read-only inspection.
    pub fn history(&self) -> (r: &History)
        ensures
            r@ == self@.history,
    {
        &self.history
    }

    /// One delivery instruction per registered session, in registration
    /// order, each carrying its own copy of the message. Failure to perform
    /// one of them cannot disturb the others: they share nothing.
    pub fn broadcast(&self, message: &ChatMessage) -> (r: Vec<Delivery>)
        ensures
            deliveries_view(r@) == fanout(self@.registry, message@),
    {
        let mut out: Vec<Delivery> = Vec::new();
        assert(deliveries_view(out@) =~= fanout(self@.registry.take(0), message@));
        let n = self.registry.len();
        let mut i: usize = 0;
        while i < n
            invariant
                i <= n,
                n == self@.registry.len(),
                deliveries_view(out@) == fanout(self@.registry.take(i as int), message@),
            decreases n - i,
        {
            let ghost out_before = out@;
            let ghost prefix = self@.registry.take(i as int);
            out.push(Delivery { target: self.registry.get(i).clone(), message: message.clone() });
            proof {
                lemma_deliveries_view_push(out_before, out@.last());
                lemma_fanout_push(prefix, self@.registry[i as int], message@);
                assert(self@.registry.take(i as int + 1) =~= prefix.push(
                    self@.registry[i as int],
                ));
            }
            i += 1;
        }
        assert(self@.registry.take(self@.registry.len() as int) =~= self@.registry);
        out
    }

    /// Connect handling with the stamp given by the caller: registers the
    /// session, replays the history to it, then appends and broadcasts the
    /// join notice.
    pub fn apply_connect(&mut self, session_id: String, username: &str, st: Stamp) -> (r: Vec<
        Delivery,
    >)
        requires
            old(self).wf(),
        ensures
            final(self).wf(),
            final(self)@ == connect_step(old(self)@, session_id@, username@, st@).0,
            deliveries_view(r@) == connect_step(old(self)@, session_id@, username@, st@).1,
    {
        let notice = ChatMessage {
            id: st.id,
            username: system_author(),
            message: make_joined_body(username),
            timestamp: st.timestamp,
        };
        let mut out: Vec<Delivery> = Vec::new();
        assert(deliveries_view(out@) =~= replay_to(session_id@, self@.history.take(0)));
        let n = self.history.len();
        let mut i: usize = 0;
        while i < n
            invariant
                i <= n,
                n == self@.history.len(),
                *self == *old(self),
                deliveries_view(out@) == replay_to(session_id@, self@.history.take(i as int)),
            decreases n - i,
        {
            let ghost out_before = out@;
            let ghost prefix = self@.history.take(i as int);
            out.push(Delivery { target: session_id.clone(), message: self.history.get(i).clone() });
            proof {
                lemma_deliveries_view_push(out_before, out@.last());
                lemma_replay_to_push(session_id@, prefix, self@.history[i as int]);
                assert(self@.history.take(i as int + 1) =~= prefix.push(self@.history[i as int]));
            }
            i += 1;
        }
        assert(self@.history.take(self@.history.len() as int) =~= self@.history);
        self.registry.insert(session_id);
        self.history.append(notice.clone());
        let mut fan = self.broadcast(&notice);
        let ghost replay_part = out@;
        let ghost fan_part = fan@;
        out.append(&mut fan);
        proof {
            lemma_deliveries_view_add(replay_part, fan_part);
        }
        out
    }

    /// Disconnect handling with the stamp given by the caller: deregisters
    /// the session (a no-op for an absent id), then appends and broadcasts
    /// the leave notice to the remaining sessions.
    pub fn apply_disconnect(&mut self, session_id: &String, username: &str, st: Stamp) -> (r: Vec<
        Delivery,
    >)
        requires
            old(self).wf(),
        ensures
            final(self).wf(),
            final(self)@ == disconnect_step(old(self)@, session_id@, username@, st@).0,
            deliveries_view(r@) == disconnect_step(old(self)@, session_id@, username@, st@).1,
    {
        self.registry.remove(session_id);
        let notice = ChatMessage {
            id: st.id,
            username: system_author(),
            message: make_left_body(username),
            timestamp: st.timestamp,
        };
        self.history.append(notice.clone());
        self.broadcast(&notice)
    }

    /// Incoming-message handling with the stamp given by the caller: builds
    /// the chat message, appends it to the history, and broadcasts it to
    /// every registered session, the sender included.
    pub fn apply_client_message(&mut self, event: ClientEvent, st: Stamp) -> (r: Vec<Delivery>)
        requires
            old(self).wf(),
        ensures
            final(self).wf(),
            final(self)@ == message_step(old(self)@, event.text@, event.author@, st@).0,
            deliveries_view(r@) == message_step(old(self)@, event.text@, event.author@, st@).1,
    {
        let m = ChatMessage {
            id: st.id,
            username: event.author,
            message: event.text,
            timestamp: st.timestamp,
        };
        self.history.append(m.clone());
        self.broadcast(&m)
    }

    /// Connect handling: draws a fresh stamp, then acts as
    /// [`Hub::apply_connect`].
    pub fn handle_connect(&mut self, session_id: String, username: &str) -> (r: Vec<Delivery>)
        requires
            old(self).wf(),
        ensures
            final(self).wf(),
            final(self)@.history.len() == old(self)@.history.len() + 1,
            ({
                let st = StampView {
                    id: final(self)@.history.last().id,
                    timestamp: final(self)@.history.last().timestamp,
                };
                &&& st.id.len() == 36
                &&& final(self)@ == connect_step(old(self)@, session_id@, username@, st).0
                &&& deliveries_view(r@) == connect_step(old(self)@, session_id@, username@, st).1
            }),
    {
        let st = Stamp::fresh();
        self.apply_connect(session_id, username, st)
    }

    /// Disconnect handling: draws a fresh stamp, then acts as
    /// [`Hub::apply_disconnect`].
    pub fn handle_disconnect(&mut self, session_id: &String, username: &str) -> (r: Vec<Delivery>)
        requires
            old(self).wf(),
        ensures
            final(self).wf(),
            final(self)@.history.len() == old(self)@.history.len() + 1,
            ({
                let st = StampView {
                    id: final(self)@.history.last().id,
                    timestamp: final(self)@.history.last().timestamp,
                };
                &&& st.id.len() == 36
                &&& final(self)@ == disconnect_step(old(self)@, session_id@, username@, st).0
                &&& deliveries_view(r@) == disconnect_step(old(self)@, session_id@, username@, st).1
            }),
    {
        let st = Stamp::fresh();
        self.apply_disconnect(session_id, username, st)
    }

    /// Incoming-message handling: draws a fresh stamp, then acts as
    /// [`Hub::apply_client_message`].
    pub fn handle_client_message(&mut self, event: ClientEvent) -> (r: Vec<Delivery>)
        requires
            old(self).wf(),
        ensures
            final(self).wf(),
            final(self)@.history.len() == old(self)@.history.len() + 1,
            ({
                let st = StampView {
                    id: final(self)@.history.last().id,
                    timestamp: final(self)@.history.last().timestamp,
                };
                &&& st.id.len() == 36
                &&& final(self)@ == message_step(old(self)@, event.text@, event.author@, st).0
                &&& deliveries_view(r@) == message_step(old(self)@, event.text@, event.author@, st).1
            }),
    {
        let st = Stamp::fresh();
        self.apply_client_message(event, st)
    }
}

} // verus!
