use chat_hub::ClientEvent;
use chat_hub::Delivery;
use chat_hub::Hub;
use chat_hub::Stamp;

fn stamp(id: &str, t: u64) -> Stamp {
    Stamp { id: id.to_string(), timestamp: t }
}

fn event(session: &str, text: &str, author: &str) -> ClientEvent {
    ClientEvent {
        session_id: session.to_string(),
        text: text.to_string(),
        author: author.to_string(),
    }
}

fn to_target<'a>(deliveries: &'a [Delivery], target: &str) -> Vec<&'a Delivery> {
    deliveries.iter().filter(|d| d.target == target).collect()
}

#[test]
fn registry_uniqueness_over_events() {
    let mut hub = Hub::new();
    hub.apply_connect("a".to_string(), "alice", stamp("s1", 1));
    hub.apply_connect("b".to_string(), "bob", stamp("s2", 2));
    hub.apply_connect("a".to_string(), "alice", stamp("s3", 3));
    let ids = hub.registry().snapshot();
    assert_eq!(ids, vec!["a".to_string(), "b".to_string()]);

    hub.apply_disconnect(&"a".to_string(), "alice", stamp("s4", 4));
    let ids = hub.registry().snapshot();
    assert_eq!(ids, vec!["b".to_string()]);
    assert!(!hub.registry().contains(&"a".to_string()));
    assert!(hub.registry().contains(&"b".to_string()));
}

#[test]
fn history_completeness_in_order() {
    let mut hub = Hub::new();
    hub.apply_connect("a".to_string(), "alice", stamp("s1", 1));
    hub.apply_client_message(event("a", "first", "alice"), stamp("m1", 2));
    hub.apply_client_message(event("a", "second", "alice"), stamp("m2", 3));
    let history = hub.history().all();
    assert_eq!(history.len(), 3);
    assert_eq!(history[0].username, "sistema");
    assert_eq!(history[0].message, "alice entrou no chat");
    assert_eq!(history[1].message, "first");
    assert_eq!(history[1].username, "alice");
    assert_eq!(history[1].id, "m1");
    assert_eq!(history[1].timestamp, 2);
    assert_eq!(history[2].message, "second");
    assert_eq!(history[2].username, "alice");
}

#[test]
fn replay_in_original_order_before_later_messages() {
    let mut hub = Hub::new();
    hub.apply_connect("a".to_string(), "alice", stamp("s1", 1));
    hub.apply_client_message(event("a", "one", "alice"), stamp("m1", 2));
    hub.apply_client_message(event("a", "two", "alice"), stamp("m2", 3));
    hub.apply_client_message(event("a", "three", "alice"), stamp("m3", 4));

    // A late joiner is owed the full history, in order, before anything else.
    let ds = hub.apply_connect("b".to_string(), "bob", stamp("s2", 5));
    let to_b: Vec<_> = to_target(&ds, "b");
    assert_eq!(to_b.len(), 5);
    assert_eq!(to_b[0].message.message, "alice entrou no chat");
    assert_eq!(to_b[1].message.message, "one");
    assert_eq!(to_b[2].message.message, "two");
    assert_eq!(to_b[3].message.message, "three");
    assert_eq!(to_b[4].message.message, "bob entrou no chat");

    // Anything broadcast after the connect reaches the joiner after those.
    let ds = hub.apply_client_message(event("a", "four", "alice"), stamp("m4", 6));
    let to_b: Vec<_> = to_target(&ds, "b");
    assert_eq!(to_b.len(), 1);
    assert_eq!(to_b[0].message.message, "four");
}

#[test]
fn replay_of_empty_history_is_only_the_join_notice() {
    let mut hub = Hub::new();
    let ds = hub.apply_connect("a".to_string(), "alice", stamp("s1", 1));
    assert_eq!(ds.len(), 1);
    assert_eq!(ds[0].target, "a");
    assert_eq!(ds[0].message.username, "sistema");
    assert_eq!(ds[0].message.message, "alice entrou no chat");
}

#[test]
fn disconnect_is_idempotent() {
    let mut hub = Hub::new();
    hub.apply_connect("a".to_string(), "alice", stamp("s1", 1));
    hub.apply_connect("b".to_string(), "bob", stamp("s2", 2));

    hub.apply_disconnect(&"a".to_string(), "alice", stamp("s3", 3));
    let after_first = hub.registry().snapshot();
    hub.apply_disconnect(&"a".to_string(), "alice", stamp("s4", 4));
    assert_eq!(hub.registry().snapshot(), after_first);

    // An id never registered is a no-op too, and raises no error.
    hub.apply_disconnect(&"ghost-id".to_string(), "carol", stamp("s5", 5));
    assert_eq!(hub.registry().snapshot(), vec!["b".to_string()]);
}

#[test]
fn broadcast_isolated_per_recipient() {
    let mut hub = Hub::new();
    hub.apply_connect("a".to_string(), "alice", stamp("s1", 1));
    hub.apply_connect("b".to_string(), "bob", stamp("s2", 2));
    hub.apply_connect("c".to_string(), "carol", stamp("s3", 3));

    let ds = hub.apply_client_message(event("a", "hello", "alice"), stamp("m1", 4));

    // Simulate a transport where b's handle always fails: every other
    // delivery instruction still stands and still carries the message.
    let mut reached: Vec<&str> = Vec::new();
    for d in &ds {
        if d.target == "b" {
            continue; // the failed write; nothing else is affected
        }
        assert_eq!(d.message.message, "hello");
        reached.push(&d.target);
    }
    assert_eq!(reached, vec!["a", "c"]);
}

#[test]
fn echo_to_sender_is_kept() {
    let mut hub = Hub::new();
    hub.apply_connect("a".to_string(), "alice", stamp("s1", 1));
    let ds = hub.apply_client_message(event("a", "hi me", "alice"), stamp("m1", 2));
    let to_a: Vec<_> = to_target(&ds, "a");
    assert_eq!(to_a.len(), 1);
    assert_eq!(to_a[0].message.message, "hi me");
}

#[test]
fn connect_then_message_then_disconnect_scenario() {
    let mut hub = Hub::new();
    hub.apply_connect("alice-id".to_string(), "alice", stamp("s1", 1));
    hub.apply_connect("bob-id".to_string(), "bob", stamp("s2", 2));

    let ds = hub.apply_client_message(event("alice-id", "hi", "alice"), stamp("m1", 3));
    let to_bob: Vec<_> = to_target(&ds, "bob-id");
    assert_eq!(to_bob.len(), 1);
    assert_eq!(to_bob[0].message.username, "alice");
    assert_eq!(to_bob[0].message.message, "hi");

    let ds = hub.apply_disconnect(&"alice-id".to_string(), "alice", stamp("s3", 4));
    let to_bob: Vec<_> = to_target(&ds, "bob-id");
    assert_eq!(to_bob.len(), 1);
    assert_eq!(to_bob[0].message.username, "sistema");
    assert!(to_bob[0].message.message.contains("alice"));
    assert!(to_bob[0].message.message.contains("saiu"));

    assert_eq!(hub.registry().snapshot(), vec!["bob-id".to_string()]);
}

#[test]
fn rename_notice_flows_through_the_hub() {
    let mut hub = Hub::new();
    hub.apply_connect("a".to_string(), "alice", stamp("s1", 1));
    hub.apply_connect("b".to_string(), "bob", stamp("s2", 2));

    let mut session = chat_hub::Session::new("a".to_string(), "alice".to_string());
    let ev = session
        .on_text_frame("{\"action\":\"setUsername\",\"username\":\"alicia\"}")
        .unwrap();
    let ds = hub.apply_client_message(ev, stamp("m1", 3));

    let to_b: Vec<_> = to_target(&ds, "b");
    assert_eq!(to_b.len(), 1);
    assert_eq!(to_b[0].message.username, "sistema");
    assert_eq!(to_b[0].message.message, "alice agora é conhecido como alicia");
}

#[test]
fn handle_calls_stamp_with_fresh_uuid() {
    let mut hub = Hub::new();
    let ds = hub.handle_connect("a".to_string(), "alice");
    assert_eq!(ds.len(), 1);
    // the hyphenated uuid form
    assert_eq!(ds[0].message.id.len(), 36);
    assert_eq!(ds[0].message.id.matches('-').count(), 4);

    let ds2 = hub.handle_client_message(ClientEvent {
        session_id: "a".to_string(),
        text: "hi".to_string(),
        author: "alice".to_string(),
    });
    assert_eq!(ds2.len(), 1);
    assert_eq!(ds2[0].message.id.len(), 36);
    assert_ne!(ds2[0].message.id, ds[0].message.id);

    let ds3 = hub.handle_disconnect(&"a".to_string(), "alice");
    assert!(ds3.is_empty());
    assert_eq!(hub.registry().len(), 0);
    assert_eq!(hub.history().len(), 3);
}
