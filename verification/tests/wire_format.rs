use chat_hub::ChatMessage;

#[test]
fn wire_text_encodes_all_four_fields() {
    let m = ChatMessage {
        id: "abc-123".to_string(),
        username: "alice".to_string(),
        message: "hello \"world\"".to_string(),
        timestamp: 1700000000,
    };
    let text = m.wire_text();
    let v: serde_json::Value = serde_json::from_str(&text).unwrap();
    assert_eq!(v.get("id").and_then(|x| x.as_str()), Some("abc-123"));
    assert_eq!(v.get("username").and_then(|x| x.as_str()), Some("alice"));
    assert_eq!(v.get("message").and_then(|x| x.as_str()), Some("hello \"world\""));
    assert_eq!(v.get("timestamp").and_then(|x| x.as_u64()), Some(1700000000));
}

#[test]
fn wire_text_round_trips_through_a_session_frame() {
    // hub-to-client and client-to-hub share the JSON object form: a frame
    // built the same way decodes to the fields that went in
    let mut s = chat_hub::Session::new("s1".to_string(), "bob".to_string());
    let m = ChatMessage {
        id: "x".to_string(),
        username: "ignored".to_string(),
        message: "ignored".to_string(),
        timestamp: 0,
    };
    let text = m.wire_text();
    // the encoded text is an object without an "action" field: dropped as unknown
    assert!(s.on_text_frame(&text).is_none());
    assert_eq!(s.username, "bob");
}
