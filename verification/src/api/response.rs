use vstd::prelude::*;
use crate::jwt::Claims;
use crate::models::{InternalNote, Message, PublicNote, Ticket};
use crate::sql::DbError;

verus! {

pub const STATUS_OK: u16 = 200;
pub const STATUS_CREATED: u16 = 201;
pub const STATUS_UNAUTHORIZED: u16 = 401;
pub const STATUS_FORBIDDEN: u16 = 403;
pub const STATUS_NOT_FOUND: u16 = 404;
pub const STATUS_INTERNAL_ERROR: u16 = 500;

/// The JSON body of an answer.
#[derive(Debug, Clone, PartialEq, Eq)]
pub enum Body {
    /// `{"msg": text}`
    Msg(String),
    /// `{"msg": text, "ticket_id": id}`
    MsgWithTicketId(String, String),
    /// `{"msg": text, "id": id}`
    MsgWithId(String, String),
    /// `{"error": text}`
    Error(String),
    /// `{"message": text}`
    Notice(String),
    /// `{"token": token, "role": role, "id": id}`
    Session { token: String, role: String, id: String },
    /// A JSON array of tickets.
    Tickets(Vec<Ticket>),
    /// A JSON array of internal notes.
    InternalNotes(Vec<InternalNote>),
    /// A JSON array of public notes.
    PublicNotes(Vec<PublicNote>),
    /// A JSON array of messages.
    Messages(Vec<Message>),
    /// `{"total_tickets": total, "open_tickets": open, "closed_tickets": closed}`
    Stats { total: i64, open: i64, closed: i64 },
}

/// An HTTP status and a JSON body.
#[derive(Debug, Clone, PartialEq, Eq)]
pub struct ApiResponse {
    pub status: u16,
    pub body: Body,
}

/// `r` is an error answer with this status and text.
pub open spec fn is_error(r: ApiResponse, status: u16, text: Seq<char>) -> bool {
    r.status == status && (r.body matches Body::Error(e) && e@ == text)
}

/// `r` is a `msg` answer with this status and text.
pub open spec fn is_msg(r: ApiResponse, status: u16, text: Seq<char>) -> bool {
    r.status == status && (r.body matches Body::Msg(m) && m@ == text)
}

pub fn error_response(status: u16, text: &str) -> (r: ApiResponse)
    ensures
        is_error(r, status, text@),
{
    ApiResponse { status, body: Body::Error(text.to_string()) }
}

pub fn msg_response(status: u16, text: &str) -> (r: ApiResponse)
    ensures
        is_msg(r, status, text@),
{
    ApiResponse { status, body: Body::Msg(text.to_string()) }
}

/// `None` for an agent; for anyone else the 403 answer with `denial`.
pub fn agents_only(claims: &Claims, denial: &str) -> (r: Option<ApiResponse>)
    ensures
        claims.spec_is_agent() ==> r is None,
        !claims.spec_is_agent() ==> (r matches Some(resp) && is_error(resp, STATUS_FORBIDDEN, denial@)),
{
    if claims.is_agent() {
        None
    } else {
        Some(error_response(STATUS_FORBIDDEN, denial))
    }
}

/// The answer to a statement that writes: `success` on success, the 500 `failure` otherwise.
pub fn write_response(result: Result<(), DbError>, success: ApiResponse, failure: &str) -> (r: ApiResponse)
    ensures
        result is Ok ==> r == success,
        result is Err ==> is_error(r, STATUS_INTERNAL_ERROR, failure@),
{
    match result {
        Ok(()) => success,
        Err(_) => error_response(STATUS_INTERNAL_ERROR, failure),
    }
}

/// The answer to a ticket query: the rows with 200, or the 500 `failure`.
pub fn tickets_response(rows: Result<Vec<Ticket>, DbError>, failure: &str) -> (r: ApiResponse)
    ensures
        rows matches Ok(v) ==> r.status == STATUS_OK && r.body == Body::Tickets(v),
        rows is Err ==> is_error(r, STATUS_INTERNAL_ERROR, failure@),
{
    match rows {
        Ok(v) => ApiResponse { status: STATUS_OK, body: Body::Tickets(v) },
        Err(_) => error_response(STATUS_INTERNAL_ERROR, failure),
    }
}

/// The answer to an internal-note query: the rows with 200, or the 500 `failure`.
pub fn internal_notes_response(rows: Result<Vec<InternalNote>, DbError>, failure: &str) -> (r: ApiResponse)
    ensures
        rows matches Ok(v) ==> r.status == STATUS_OK && r.body == Body::InternalNotes(v),
        rows is Err ==> is_error(r, STATUS_INTERNAL_ERROR, failure@),
{
    match rows {
        Ok(v) => ApiResponse { status: STATUS_OK, body: Body::InternalNotes(v) },
        Err(_) => error_response(STATUS_INTERNAL_ERROR, failure),
    }
}

/// The answer to a public-note query: the rows with 200, or the 500 `failure`.
pub fn public_notes_response(rows: Result<Vec<PublicNote>, DbError>, failure: &str) -> (r: ApiResponse)
    ensures
        rows matches Ok(v) ==> r.status == STATUS_OK && r.body == Body::PublicNotes(v),
        rows is Err ==> is_error(r, STATUS_INTERNAL_ERROR, failure@),
{
    match rows {
        Ok(v) => ApiResponse { status: STATUS_OK, body: Body::PublicNotes(v) },
        Err(_) => error_response(STATUS_INTERNAL_ERROR, failure),
    }
}

/// The answer to a message query: the rows with 200, or the 500 `failure`.
pub fn messages_response(rows: Result<Vec<Message>, DbError>, failure: &str) -> (r: ApiResponse)
    ensures
        rows matches Ok(v) ==> r.status == STATUS_OK && r.body == Body::Messages(v),
        rows is Err ==> is_error(r, STATUS_INTERNAL_ERROR, failure@),
{
    match rows {
        Ok(v) => ApiResponse { status: STATUS_OK, body: Body::Messages(v) },
        Err(_) => error_response(STATUS_INTERNAL_ERROR, failure),
    }
}

} // verus!
