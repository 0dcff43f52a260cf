//! Metadata the hub stamps onto each message it broadcasts: a fresh
//! identifier and the current wall-clock time.

use vstd::prelude::*;

verus! {

/// A fresh message identifier together with the time it was drawn.
pub struct Stamp {
    pub id: String,
    pub timestamp: u64,
}

/// The mathematical value of a [`Stamp`].
pub ghost struct StampView {
    pub id: Seq<char>,
    pub timestamp: u64,
}

impl View for Stamp {
    type V = StampView;

    open spec fn view(&self) -> StampView {
        StampView { id: self.id@, timestamp: self.timestamp }
    }
}

/// Relies on uuid::Uuid::new_v4 and its Display impl: a random version-4
/// identifier rendered in the hyphenated form, which is 36 characters long.
#[verifier::external_body]
fn fresh_id() -> (r: String)
    ensures
        r@.len() == 36,
{
    uuid::Uuid::new_v4().to_string()
}

/// Relies on std::time::SystemTime::now and duration_since: seconds since the
/// epoch, or zero for a clock that reads before it. Nothing is promised of
/// the value.
#[verifier::external_body]
fn now_secs() -> u64 {
    match std::time::SystemTime::now().duration_since(std::time::UNIX_EPOCH) {
        Ok(d) => d.as_secs(),
        Err(_) => 0,
    }
}

impl Stamp {
    /// Draws a fresh identifier and reads the clock.
    pub fn fresh() -> (r: Stamp)
        ensures
            r@.id.len() == 36,
    {
        Stamp { id: fresh_id(), timestamp: now_secs() }
    }
}

} // verus!
