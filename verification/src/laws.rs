//! Laws of the hub, stated over whole event sequences and proved from the
//! step functions the executable handlers are verified against.

use crate::hub::DeliveryView;
use crate::hub::HubView;
use crate::hub::connect_step;
use crate::hub::disconnect_step;
use crate::hub::empty_hub;
use crate::hub::fanout;
use crate::hub::joined_notice;
use crate::hub::left_notice;
use crate::hub::lemma_messages_to_add;
use crate::hub::lemma_messages_to_fanout;
use crate::hub::lemma_messages_to_replay;
use crate::hub::message_step;
use crate::hub::messages_to;
use crate::hub::replay_to;
use crate::hub::stamped_message;
use crate::message::MessageView;
use crate::registry::insert_id;
use crate::registry::lemma_insert_id_contains;
use crate::registry::lemma_insert_id_unique;
use crate::registry::lemma_remove_id_absent;
use crate::registry::lemma_remove_id_contains;
use crate::registry::lemma_remove_id_unique;
use crate::registry::remove_id;
use crate::registry::unique_ids;
use crate::stamp::StampView;
use vstd::prelude::*;

verus! {

/// One hub event, as the laws quantify over event sequences.
pub ghost enum EventView {
    Connect { id: Seq<char>, username: Seq<char> },
    Disconnect { id: Seq<char>, username: Seq<char> },
    ClientMessage { id: Seq<char>, text: Seq<char>, username: Seq<char> },
}

/// What one event does to the hub, given the stamp drawn for it.
pub open spec fn hub_step(h: HubView, e: EventView, st: StampView) -> (HubView, Seq<DeliveryView>) {
    match e {
        EventView::Connect { id, username } => connect_step(h, id, username, st),
        EventView::Disconnect { id, username } => disconnect_step(h, id, username, st),
        EventView::ClientMessage { text, username, .. } => message_step(h, text, username, st),
    }
}

/// The hub state after a sequence of events processed in order from the
/// empty hub, the event at position `k` stamped with `stamps[k]`.
pub open spec fn run_events(events: Seq<EventView>, stamps: Seq<StampView>) -> HubView
    decreases events.len(),
{
    if events.len() == 0 {
        empty_hub()
    } else {
        hub_step(
            run_events(events.drop_last(), stamps),
            events.last(),
            stamps[events.len() - 1],
        ).0
    }
}

/// Whether a connect for `x` has been processed with no disconnect for `x`
/// after it.
pub open spec fn live_after(events: Seq<EventView>, x: Seq<char>) -> bool
    decreases events.len(),
{
    if events.len() == 0 {
        false
    } else {
        match events.last() {
            EventView::Connect { id, .. } => id == x || live_after(events.drop_last(), x),
            EventView::Disconnect { id, .. } => id != x && live_after(events.drop_last(), x),
            EventView::ClientMessage { .. } => live_after(events.drop_last(), x),
        }
    }
}

/// Registry uniqueness: after any sequence of events the registry holds at
/// most one entry per session id, and holds exactly the ids for which a
/// connect has been processed and no later disconnect has been.
pub proof fn lemma_registry_uniqueness(
    events: Seq<EventView>,
    stamps: Seq<StampView>,
    x: Seq<char>,
)
    ensures
        unique_ids(run_events(events, stamps).registry),
        run_events(events, stamps).registry.contains(x) <==> live_after(events, x),
    decreases events.len(),
{
    if events.len() > 0 {
        let prev = run_events(events.drop_last(), stamps);
        lemma_registry_uniqueness(events.drop_last(), stamps, x);
        match events.last() {
            EventView::Connect { id, .. } => {
                lemma_insert_id_unique(prev.registry, id);
                lemma_insert_id_contains(prev.registry, id, x);
            },
            EventView::Disconnect { id, .. } => {
                lemma_remove_id_unique(prev.registry, id);
                lemma_remove_id_contains(prev.registry, id, x);
            },
            EventView::ClientMessage { .. } => {},
        }
    }
}

/// What the history records of one event.
pub open spec fn records_event(e: EventView, st: StampView, m: MessageView) -> bool {
    match e {
        EventView::Connect { username, .. } => m == joined_notice(username, st),
        EventView::Disconnect { username, .. } => m == left_notice(username, st),
        EventView::ClientMessage { text, username, .. } => m == stamped_message(
            text,
            username,
            st,
        ),
    }
}

/// History completeness: every processed event appends exactly one entry, at
/// its own position, so each message broadcast for a client-message event
/// stands in the history exactly once and in processing order.
pub proof fn lemma_history_completeness(events: Seq<EventView>, stamps: Seq<StampView>)
    ensures
        run_events(events, stamps).history.len() == events.len(),
        forall|k: int|
            0 <= k < events.len() ==> records_event(
                events[k],
                stamps[k],
                #[trigger] run_events(events, stamps).history[k],
            ),
    decreases events.len(),
{
    if events.len() > 0 {
        lemma_history_completeness(events.drop_last(), stamps);
        let prev = run_events(events.drop_last(), stamps);
        let here = run_events(events, stamps);
        assert forall|k: int| 0 <= k < events.len() implies records_event(
            events[k],
            stamps[k],
            #[trigger] here.history[k],
        ) by {
            if k < events.len() - 1 {
                assert(here.history[k] == prev.history[k]);
                assert(events.drop_last()[k] == events[k]);
            }
        }
    }
}

/// Replay correctness: a session connecting when the history holds N
/// messages is owed exactly those N messages, in their original order, then
/// the join notice, and only then anything broadcast after its connect.
pub proof fn lemma_replay_correctness(
    h: HubView,
    id: Seq<char>,
    name: Seq<char>,
    st1: StampView,
    text: Seq<char>,
    author: Seq<char>,
    st2: StampView,
)
    requires
        unique_ids(h.registry),
    ensures
        ({
            let (h1, ds1) = connect_step(h, id, name, st1);
            let ds2 = message_step(h1, text, author, st2).1;
            messages_to(id, ds1 + ds2) == h.history + seq![
                joined_notice(name, st1),
                stamped_message(text, author, st2),
            ]
        }),
{
    let (h1, ds1) = connect_step(h, id, name, st1);
    let ds2 = message_step(h1, text, author, st2).1;
    let notice = joined_notice(name, st1);
    let m = stamped_message(text, author, st2);
    let reg1 = insert_id(h.registry, id);
    lemma_insert_id_unique(h.registry, id);
    lemma_insert_id_contains(h.registry, id, id);
    lemma_messages_to_add(id, ds1, ds2);
    lemma_messages_to_add(id, replay_to(id, h.history), fanout(reg1, notice));
    lemma_messages_to_replay(id, h.history);
    lemma_messages_to_fanout(id, reg1, notice);
    lemma_messages_to_fanout(id, reg1, m);
    assert((h.history + seq![notice]) + seq![m] =~= h.history + seq![notice, m]);
}

/// Idempotent disconnect: a disconnect for an id never registered leaves the
/// registry unchanged, and a second disconnect for the same id changes it no
/// further. The executable handling is total, so neither raises an error.
pub proof fn lemma_disconnect_idempotent(
    h: HubView,
    id: Seq<char>,
    name1: Seq<char>,
    name2: Seq<char>,
    st1: StampView,
    st2: StampView,
)
    ensures
        !h.registry.contains(id) ==> disconnect_step(h, id, name1, st1).0.registry == h.registry,
        disconnect_step(disconnect_step(h, id, name1, st1).0, id, name2, st2).0.registry
            == disconnect_step(h, id, name1, st1).0.registry,
{
    if !h.registry.contains(id) {
        lemma_remove_id_absent(h.registry, id);
    }
    let once = remove_id(h.registry, id);
    lemma_remove_id_contains(h.registry, id, id);
    lemma_remove_id_absent(once, id);
}

/// Isolation under partial failure: with three distinct sessions registered,
/// a broadcast owes each its own delivery instruction; the instructions to
/// two of them carry the message exactly once whatever becomes of the
/// third's, since the instructions share nothing.
pub proof fn lemma_broadcast_isolation(
    reg: Seq<Seq<char>>,
    m: MessageView,
    a: Seq<char>,
    b: Seq<char>,
    c: Seq<char>,
)
    requires
        unique_ids(reg),
        reg.contains(a),
        reg.contains(b),
        reg.contains(c),
        a != b,
        a != c,
    ensures
        messages_to(b, fanout(reg, m)) == seq![m],
        messages_to(c, fanout(reg, m)) == seq![m],
{
    lemma_messages_to_fanout(b, reg, m);
    lemma_messages_to_fanout(c, reg, m);
}

} // verus!
