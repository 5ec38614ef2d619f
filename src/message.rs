use vstd::prelude::*;

verus! {

/// A stored message: an identifier assigned by the store, and its text.
pub struct Message {
    pub id: u32,
    pub content: String,
}

/// The body a client submits to create a message.
pub struct CreateMessage {
    pub content: String,
}

/// The mathematical value of a message: its identifier and its text.
pub open spec fn record_of(m: Message) -> (u32, Seq<char>) {
    (m.id, m.content@)
}

/// The records held by a sequence of messages, in the same order.
pub open spec fn records_of(ms: Seq<Message>) -> Seq<(u32, Seq<char>)> {
    ms.map_values(|m: Message| record_of(m))
}

impl Message {
    /// Builds a message from its parts.
    pub fn new(id: u32, content: String) -> (r: Message)
        ensures
            r.id == id,
            r.content@ == content@,
    {
        Message { id, content }
    }

    /// A copy of this message with the same identifier and text.
    pub fn duplicate(&self) -> (r: Message)
        ensures
            record_of(r) == record_of(*self),
    {
        Message { id: self.id, content: self.content.clone() }
    }
}

impl CreateMessage {
    /// Builds a creation request for the given text.
    pub fn new(content: String) -> (r: CreateMessage)
        ensures
            r.content@ == content@,
    {
        CreateMessage { content }
    }
}

} // verus!
