//! The overlay message store: the notifications shown on the always-on-top
//! overlay, kept in arrival order until the frontend clears them.

use vstd::prelude::*;

verus! {

/// One message displayed on the overlay.
pub struct OverlayMessage {
    pub id: String,
    pub content: String,
    pub timestamp: u64,
}

/// The mathematical value of an `OverlayMessage`.
#[verifier::ext_equal]
pub ghost struct OverlayMessageV {
    pub id: Seq<char>,
    pub content: Seq<char>,
    pub timestamp: u64,
}

impl DeepView for OverlayMessage {
    type V = OverlayMessageV;

    open spec fn deep_view(&self) -> OverlayMessageV {
        OverlayMessageV { id: self.id@, content: self.content@, timestamp: self.timestamp }
    }
}

/// The messages currently on the overlay, oldest first.
pub struct OverlayState {
    messages: Vec<OverlayMessage>,
}

impl View for OverlayState {
    type V = Seq<OverlayMessageV>;

    closed spec fn view(&self) -> Seq<OverlayMessageV> {
        self.messages.deep_view()
    }
}

impl OverlayState {
    /// An empty overlay.
    pub fn new() -> (r: OverlayState)
        ensures
            r@ == Seq::<OverlayMessageV>::empty(),
    {
        let r = OverlayState { messages: Vec::new() };
        proof {
            assert(r@ =~~= Seq::<OverlayMessageV>::empty());
        }
        r
    }

    /// Appends a message.
    pub fn push_message(&mut self, m: OverlayMessage)
        ensures
            final(self)@ == old(self)@.push(m.deep_view()),
    {
        self.messages.push(m);
        proof {
            assert(self@ =~~= old(self)@.push(m.deep_view()));
        }
    }

    /// A copy of the current messages, oldest first.
    pub fn snapshot(&self) -> (r: Vec<OverlayMessage>)
        ensures
            r.deep_view() == self@,
    {
        let mut r: Vec<OverlayMessage> = Vec::new();
        let mut i: usize = 0;
        while i < self.messages.len()
            invariant
                i <= self.messages@.len(),
                r@.len() == i,
                forall|k: int| 0 <= k < i ==> r@[k].deep_view() == self.messages@[k].deep_view(),
            decreases self.messages@.len() - i,
        {
            let m = &self.messages[i];
            r.push(
                OverlayMessage {
                    id: m.id.clone(),
                    content: m.content.clone(),
                    timestamp: m.timestamp,
                },
            );
            i = i + 1;
        }
        proof {
            assert(r.deep_view() =~~= self@);
        }
        r
    }

    /// Removes every message.
    pub fn clear(&mut self)
        ensures
            final(self)@ == Seq::<OverlayMessageV>::empty(),
    {
        self.messages.clear();
        proof {
            assert(self@ =~~= Seq::<OverlayMessageV>::empty());
        }
    }
}

} // verus!
