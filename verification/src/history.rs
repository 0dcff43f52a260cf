//! The history buffer: every message the hub has broadcast, in order,
//! append-only, replayed in full to each newly registered session.

use crate::message::ChatMessage;
use crate::message::MessageView;
use vstd::prelude::*;

verus! {

/// The message values a sequence of `ChatMessage`s stands for.
pub open spec fn views_of_messages(s: Seq<ChatMessage>) -> Seq<MessageView> {
    s.map_values(|m: ChatMessage| m@)
}

pub proof fn lemma_views_of_messages_push(s: Seq<ChatMessage>, m: ChatMessage)
    ensures
        views_of_messages(s.push(m)) == views_of_messages(s).push(m@),
{
    assert(views_of_messages(s.push(m)) =~= views_of_messages(s).push(m@));
}

pub struct History {
    messages: Vec<ChatMessage>,
}

impl View for History {
    type V = Seq<MessageView>;

    closed spec fn view(&self) -> Seq<MessageView> {
        views_of_messages(self.messages@)
    }
}

impl History {
    pub fn new() -> (r: History)
        ensures
            r@ =~= Seq::<MessageView>::empty(),
    {
        History { messages: Vec::new() }
    }

    pub fn len(&self) -> (r: usize)
        ensures
            r == self@.len(),
    {
        self.messages.len()
    }

    /// The message at an append position.
    pub fn get(&self, i: usize) -> (r: &ChatMessage)
        requires
            i < self@.len(),
        ensures
            r@ == self@[i as int],
    {
        &self.messages[i]
    }

    /// Appends one message; nothing is ever evicted.
    pub fn append(&mut self, m: ChatMessage)
        ensures
            final(self)@ == old(self)@.push(m@),
    {
        let ghost before = self.messages@;
        self.messages.push(m);
        proof {
            lemma_views_of_messages_push(before, self.messages@.last());
        }
    }

    /// The full ordered sequence, copied for replay.
    pub fn all(&self) -> (r: Vec<ChatMessage>)
        ensures
            views_of_messages(r@) == self@,
    {
        let mut out: Vec<ChatMessage> = Vec::new();
        assert(views_of_messages(out@) =~= self@.take(0));
        let mut i: usize = 0;
        while i < self.messages.len()
            invariant
                i <= self.messages.len(),
                self@.len() == self.messages@.len(),
                views_of_messages(out@) == self@.take(i as int),
            decreases self.messages.len() - i,
        {
            let ghost out_before = out@;
            out.push(self.messages[i].clone());
            proof {
                lemma_views_of_messages_push(out_before, out@.last());
                assert(views_of_messages(out@) =~= self@.take(i as int + 1));
            }
            i += 1;
        }
        assert(self@.take(self@.len() as int) =~= self@);
        out
    }
}

} // verus!
