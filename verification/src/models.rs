use vstd::prelude::*;

verus! {

/// A row of the `users` table; `password` holds the bcrypt hash and `role` is
/// "Agent" or "Customer".
#[derive(Debug, Clone, PartialEq, Eq)]
pub struct User {
    pub id: String,
    pub name: String,
    pub email: String,
    pub password: String,
    pub role: String,
    pub created_at: String,
}

/// The body of a registration request.
#[derive(Debug, Clone, PartialEq, Eq)]
pub struct RegisterInput {
    pub name: String,
    pub email: String,
    pub password: String,
    pub role: String,
}

/// The body of a login request.
#[derive(Debug, Clone, PartialEq, Eq)]
pub struct LoginInput {
    pub email: String,
    pub password: String,
}

/// A row of the `tickets` table.
#[derive(Debug, Clone, PartialEq, Eq)]
pub struct Ticket {
    pub id: String,
    pub title: String,
    pub description: String,
    pub status: String,
    pub priority: String,
    pub customer_id: String,
    pub created_at: String,
    pub updated_at: String,
}

/// The body of a request that creates or edits a ticket.
#[derive(Debug, Clone, PartialEq, Eq)]
pub struct CreateTicketInput {
    pub title: String,
    pub description: String,
    pub priority: String,
}

/// A row of the `internal_notes` table: a note only agents see.
#[derive(Debug, Clone, PartialEq, Eq)]
pub struct InternalNote {
    pub id: String,
    pub ticket_id: String,
    pub content: String,
    pub created_at: String,
}

/// The body of a request that adds an internal note.
#[derive(Debug, Clone, PartialEq, Eq)]
pub struct CreateInternalNoteInput {
    pub ticket_id: String,
    pub content: String,
}

/// A row of the `public_notes` table: a note the customer sees too.
#[derive(Debug, Clone, PartialEq, Eq)]
pub struct PublicNote {
    pub id: String,
    pub ticket_id: String,
    pub author_id: String,
    pub content: String,
    pub created_at: String,
}

/// The body of a request that adds a public note.
#[derive(Debug, Clone, PartialEq, Eq)]
pub struct CreatePublicNoteInput {
    pub ticket_id: String,
    pub content: String,
}

/// A row of the `messages` table: one message on some channel.
#[derive(Debug, Clone, PartialEq, Eq)]
pub struct Message {
    pub id: String,
    pub channel: String,
    pub sender: String,
    pub recipient: String,
    pub content: String,
    pub timestamp: String,
    pub ticket_id: Option<String>,
}

/// The body of an agent's reply to a ticket.
#[derive(Debug, Clone, PartialEq, Eq)]
pub struct AgentReplyInput {
    pub message: String,
}

/// The body of a request that sets a ticket's status.
#[derive(Debug, Clone, PartialEq, Eq)]
pub struct UpdateStatusPayload {
    pub status: String,
}

} // verus!
