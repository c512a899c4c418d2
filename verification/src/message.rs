//! The immutable message record: a conversational turn with a role, its
//! text, an optional link to the message it follows, and an identifier
//! that is attached only once the store has confirmed persistence.
use vstd::prelude::*;

verus! {

/// Role of a conversational turn: the human user or the assistant reply.
#[derive(Clone, Copy, PartialEq, Eq, Structural, Debug)]
pub enum Role {
    User,
    Assistant,
}

/// One immutable conversational turn. `parent` is `None` for the first
/// message of the chain; `id` is `None` while the message is in transit
/// and `Some` once the store has assigned its key.
#[derive(Debug, Clone)]
pub struct Message {
    pub role: Role,
    pub content: String,
    pub parent: Option<String>,
    pub id: Option<String>,
}

/// The view of an optional identifier: the character sequence it holds.
pub open spec fn opt_view(p: Option<String>) -> Option<Seq<char>> {
    match p {
        Some(s) => Some(s@),
        None => None,
    }
}

impl Message {
    /// Constructs an unstored message: no identifier until the store
    /// confirms persistence.
    pub fn new(role: Role, content: String, parent: Option<String>) -> (m: Message)
        ensures
            m.role == role,
            m.content == content,
            m.parent == parent,
            m.id is None,
    {
        Message { role, content, parent, id: None }
    }

    /// Returns a copy of the message bearing the given identifier, used
    /// once the store has confirmed persistence and returned the key.
    pub fn with_id(self, id: String) -> (m: Message)
        ensures
            m.role == self.role,
            m.content == self.content,
            m.parent == self.parent,
            m.id == Some(id),
    {
        Message { id: Some(id), ..self }
    }
}

/// Durable conversation metadata: the head pointer, `None` while the
/// conversation is empty.
#[derive(Debug, Clone)]
pub struct Chat {
    pub head: Option<String>,
}

} // verus!
