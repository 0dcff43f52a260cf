use chat_hub::Session;

fn session(id: &str, name: &str) -> Session {
    Session::new(id.to_string(), name.to_string())
}

#[test]
fn message_frame_forwards_text_under_display_name() {
    let mut s = session("s1", "alice");
    let ev = s.on_text_frame("{\"action\":\"message\",\"message\":\"hi\"}").unwrap();
    assert_eq!(ev.session_id, "s1");
    assert_eq!(ev.text, "hi");
    assert_eq!(ev.author, "alice");
    assert_eq!(s.username, "alice");
}

#[test]
fn message_frame_resolves_unset_name_to_anonymous() {
    let mut s = session("s1", "");
    let ev = s.on_text_frame("{\"action\":\"message\",\"message\":\"oi\"}").unwrap();
    assert_eq!(ev.author, "Anônimo");
    assert_eq!(s.username, "Anônimo");
}

#[test]
fn set_username_announces_a_real_rename() {
    let mut s = session("s1", "alice");
    let ev = s
        .on_text_frame("{\"action\":\"setUsername\",\"username\":\"alicia\"}")
        .unwrap();
    assert_eq!(s.username, "alicia");
    assert_eq!(ev.author, "sistema");
    assert_eq!(ev.text, "alice agora é conhecido como alicia");
}

#[test]
fn first_set_username_is_silent() {
    let mut s = session("s1", "");
    let r = s.on_text_frame("{\"action\":\"setUsername\",\"username\":\"alice\"}");
    assert!(r.is_none());
    assert_eq!(s.username, "alice");
}

#[test]
fn set_username_to_the_same_name_is_silent() {
    let mut s = session("s1", "alice");
    let r = s.on_text_frame("{\"action\":\"setUsername\",\"username\":\"alice\"}");
    assert!(r.is_none());
    assert_eq!(s.username, "alice");
}

#[test]
fn unknown_action_changes_nothing() {
    let mut s = session("s1", "alice");
    let r = s.on_text_frame("{\"action\":\"dance\",\"message\":\"x\"}");
    assert!(r.is_none());
    assert_eq!(s.username, "alice");
}

#[test]
fn malformed_payload_is_dropped() {
    let mut s = session("s1", "alice");
    assert!(s.on_text_frame("not json at all").is_none());
    assert!(s.on_text_frame("[1, 2, 3]").is_none());
    assert!(s.on_text_frame("{\"action\": 7}").is_none());
    assert_eq!(s.username, "alice");
}

#[test]
fn absent_fields_decode_to_empty_strings() {
    // an empty object carries the empty action, which is unknown: no event
    let mut s = session("s1", "alice");
    assert!(s.on_text_frame("{}").is_none());
    // a message frame without text forwards the empty text
    let ev = s.on_text_frame("{\"action\":\"message\"}").unwrap();
    assert_eq!(ev.text, "");
}
