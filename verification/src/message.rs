//! Chat messages and their wire encoding.

use vstd::prelude::*;

verus! {

/// One chat message, immutable once stamped by the hub.
pub struct ChatMessage {
    pub id: String,
    pub username: String,
    pub message: String,
    pub timestamp: u64,
}

/// The mathematical value of a [`ChatMessage`].
pub ghost struct MessageView {
    pub id: Seq<char>,
    pub username: Seq<char>,
    pub message: Seq<char>,
    pub timestamp: u64,
}

impl View for ChatMessage {
    type V = MessageView;

    open spec fn view(&self) -> MessageView {
        MessageView {
            id: self.id@,
            username: self.username@,
            message: self.message@,
            timestamp: self.timestamp,
        }
    }
}

impl Clone for ChatMessage {
    fn clone(&self) -> (r: Self)
        ensures
            r@ == self@,
    {
        ChatMessage {
            id: self.id.clone(),
            username: self.username.clone(),
            message: self.message.clone(),
            timestamp: self.timestamp,
        }
    }
}

/// The author name reserved for join, leave and rename notices.
pub open spec fn system_name() -> Seq<char> {
    "sistema"@
}

/// The display name a session falls back to on its first message.
pub open spec fn anonymous_name() -> Seq<char> {
    "Anônimo"@
}

/// Body of the notice broadcast when a session joins.
pub open spec fn joined_body(name: Seq<char>) -> Seq<char> {
    name + " entrou no chat"@
}

/// Body of the notice broadcast when a session leaves.
pub open spec fn left_body(name: Seq<char>) -> Seq<char> {
    name + " saiu do chat"@
}

/// Body of the notice broadcast when a session changes its display name.
pub open spec fn rename_body(old_name: Seq<char>, new_name: Seq<char>) -> Seq<char> {
    old_name + " agora é conhecido como "@ + new_name
}

/// The reserved system author, as a `String`.
pub fn system_author() -> (r: String)
    ensures
        r@ == system_name(),
{
    String::from_str("sistema")
}

/// The anonymous placeholder, as a `String`.
pub fn anonymous_author() -> (r: String)
    ensures
        r@ == anonymous_name(),
{
    String::from_str("Anônimo")
}

/// Builds the join-notice body for a display name.
pub fn make_joined_body(name: &str) -> (r: String)
    ensures
        r@ == joined_body(name@),
{
    let mut body = name.to_owned();
    body.append(" entrou no chat");
    body
}

/// Builds the leave-notice body for a display name.
pub fn make_left_body(name: &str) -> (r: String)
    ensures
        r@ == left_body(name@),
{
    let mut body = name.to_owned();
    body.append(" saiu do chat");
    body
}

/// Builds the rename-notice body for a pair of display names.
pub fn make_rename_body(old_name: &str, new_name: &str) -> (r: String)
    ensures
        r@ == rename_body(old_name@, new_name@),
{
    let mut body = old_name.to_owned();
    body.append(" agora é conhecido como ");
    body.append(new_name);
    body
}

/// What `serde_json` encodes a message's four fields to.
pub uninterp spec fn json_of_message(
    id: Seq<char>,
    username: Seq<char>,
    message: Seq<char>,
    timestamp: u64,
) -> Seq<char>;

/// Relies on serde_json::to_string: the encoding of a JSON object is a
/// function of its fields alone.
#[verifier::external_body]
fn encode_json(m: &ChatMessage) -> (r: String)
    ensures
        r@ == json_of_message(m.id@, m.username@, m.message@, m.timestamp),
{
    let mut obj = serde_json::Map::new();
    obj.insert("id".to_string(), serde_json::Value::String(m.id.clone()));
    obj.insert("username".to_string(), serde_json::Value::String(m.username.clone()));
    obj.insert("message".to_string(), serde_json::Value::String(m.message.clone()));
    obj.insert("timestamp".to_string(), serde_json::Value::from(m.timestamp));
    serde_json::to_string(&serde_json::Value::Object(obj)).unwrap_or_default()
}

impl ChatMessage {
    /// Serializes this message to the text a session writes to its transport.
    pub fn wire_text(&self) -> (r: String)
        ensures
            r@ == json_of_message(self.id@, self.username@, self.message@, self.timestamp),
    {
        encode_json(self)
    }
}

} // verus!
