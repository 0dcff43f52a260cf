//! A real-time chat broadcast hub.
//!
//! One in-process hub owns a registry of connected sessions and an
//! append-only history of every message it has broadcast. Sessions translate
//! wire frames into domain events; the hub processes events one at a time,
//! fans every stamped message out to all registered sessions, and replays the
//! full history to each late joiner. Delivery itself is message passing: the
//! hub returns delivery instructions, each naming a target session and the
//! message it is owed, and the transport layer performs the writes, so one
//! stalled or failed recipient can never affect the others.

pub mod history;
pub mod hub;
pub mod laws;
pub mod message;
pub mod registry;
pub mod session;
pub mod stamp;
pub mod task;

pub use history::History;
pub use hub::ClientEvent;
pub use hub::Delivery;
pub use hub::Hub;
pub use message::ChatMessage;
pub use registry::Registry;
pub use session::Session;
pub use stamp::Stamp;
pub use task::Task;
pub use task::TaskUpdate;
pub use task::default_priority;
