//! One connected client: its identifier and display name, and the
//! translation of inbound text frames into hub events.

use crate::hub::ClientEvent;
use crate::hub::ClientEventView;
use crate::message::anonymous_author;
use crate::message::anonymous_name;
use crate::message::make_rename_body;
use crate::message::rename_body;
use crate::message::system_author;
use crate::message::system_name;
use vstd::prelude::*;

verus! {

/// One connected client. The transport handle stays with the connection
/// layer; the session here carries what the protocol logic reads and writes.
pub struct Session {
    pub id: String,
    pub username: String,
}

/// The mathematical value of a [`Session`].
pub ghost struct SessionView {
    pub id: Seq<char>,
    pub username: Seq<char>,
}

impl View for Session {
    type V = SessionView;

    open spec fn view(&self) -> SessionView {
        SessionView { id: self.id@, username: self.username@ }
    }
}

/// The fields of a decoded inbound frame: action, message text, username.
/// Absent fields decode to empty strings; a frame that is not a JSON object,
/// or carries one of the three fields with a non-string value, does not
/// decode at all.
pub uninterp spec fn frame_fields(s: Seq<char>) -> Option<(Seq<char>, Seq<char>, Seq<char>)>;

/// Relies on serde_json::from_str: whether a text decodes, and what its
/// fields are, depends on the text alone.
#[verifier::external_body]
fn parse_frame(text: &str) -> (r: Option<(String, String, String)>)
    ensures
        match r {
            Some(f) => frame_fields(text@) == Some((f.0@, f.1@, f.2@)),
            None => frame_fields(text@) is None,
        },
{
    let parsed: Result<serde_json::Value, serde_json::Error> = serde_json::from_str(text);
    let v = match parsed { Ok(w) => w, Err(_) => return None };
    if !v.is_object() {
        return None;
    }
    let mut fields: Vec<String> = Vec::new();
    for key in ["action", "message", "username"] {
        match v.get(key) {
            None => fields.push(String::new()),
            Some(serde_json::Value::String(s)) => fields.push(s.clone()),
            Some(_) => return None,
        }
    }
    Some((fields[0].clone(), fields[1].clone(), fields[2].clone()))
}

/// The hub event an `Option<ClientEvent>` stands for.
pub open spec fn event_view(r: Option<ClientEvent>) -> Option<ClientEventView> {
    match r {
        Some(e) => Some(e@),
        None => None,
    }
}

/// What one decoded frame does to a session, and the event it forwards.
///
/// A `"message"` action first resolves an unset display name to the
/// anonymous placeholder, then forwards the text under that name. A
/// `"setUsername"` action replaces the display name and, when a non-empty
/// old name actually changed, forwards a system rename notice. Any other
/// action changes nothing and forwards nothing.
pub open spec fn frame_step(
    s: SessionView,
    action: Seq<char>,
    message: Seq<char>,
    username: Seq<char>,
) -> (SessionView, Option<ClientEventView>) {
    if action == "message"@ {
        let name = if s.username.len() == 0 {
            anonymous_name()
        } else {
            s.username
        };
        (
            SessionView { id: s.id, username: name },
            Some(ClientEventView { session_id: s.id, text: message, author: name }),
        )
    } else if action == "setUsername"@ {
        let renamed = SessionView { id: s.id, username };
        if s.username.len() > 0 && s.username != username {
            (
                renamed,
                Some(
                    ClientEventView {
                        session_id: s.id,
                        text: rename_body(s.username, username),
                        author: system_name(),
                    },
                ),
            )
        } else {
            (renamed, None)
        }
    } else {
        (s, None)
    }
}

impl Session {
    pub fn new(id: String, username: String) -> (r: Session)
        ensures
            r@.id == id@,
            r@.username == username@,
    {
        Session { id, username }
    }

    /// Applies one decoded frame: updates the display name as the action
    /// demands and returns the event to forward to the hub, if any.
    pub fn apply_frame(&mut self, action: &String, message: String, username: String) -> (r:
        Option<ClientEvent>)
        ensures
            ({
                let (s2, ev) = frame_step(old(self)@, action@, message@, username@);
                &&& final(self)@ == s2
                &&& event_view(r) == ev
            }),
    {
        let message_action = String::from_str("message");
        let set_username_action = String::from_str("setUsername");
        if *action == message_action {
            if self.username.as_str().is_empty() {
                self.username = anonymous_author();
            }
            Some(
                ClientEvent {
                    session_id: self.id.clone(),
                    text: message,
                    author: self.username.clone(),
                },
            )
        } else if *action == set_username_action {
            let changed = !self.username.as_str().is_empty() && self.username != username;
            if changed {
                let body = make_rename_body(self.username.as_str(), username.as_str());
                self.username = username;
                Some(
                    ClientEvent {
                        session_id: self.id.clone(),
                        text: body,
                        author: system_author(),
                    },
                )
            } else {
                self.username = username;
                None
            }
        } else {
            None
        }
    }

    /// Handles one inbound text frame: a text that does not decode is
    /// dropped and changes nothing; a decoded one acts as [`frame_step`]
    /// says.
    pub fn on_text_frame(&mut self, text: &str) -> (r: Option<ClientEvent>)
        ensures
            match frame_fields(text@) {
                Some(f) => ({
                    let (s2, ev) = frame_step(old(self)@, f.0, f.1, f.2);
                    &&& final(self)@ == s2
                    &&& event_view(r) == ev
                }),
                None => *final(self) == *old(self) && r is None,
            },
    {
        match parse_frame(text) {
            Some((action, message, username)) => self.apply_frame(&action, message, username),
            None => None,
        }
    }
}

} // verus!
