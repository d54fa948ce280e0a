use vstd::prelude::*;
use crate::api::response::{
    agents_only, error_response, is_error, ApiResponse, Body, STATUS_FORBIDDEN, STATUS_INTERNAL_ERROR,
    STATUS_NOT_FOUND, STATUS_OK,
};
use crate::jwt::Claims;
use crate::models::AgentReplyInput;
use crate::sql::{list1, statement, DbError, SqlStatement};
use crate::text::{join, owned};

verus! {

/// An email to send.
#[derive(Debug, Clone, PartialEq, Eq)]
pub struct OutgoingEmail {
    pub to: String,
    pub subject: String,
    pub body: String,
}

/// Looks up who opened ticket `ticket_id`, for agents only.
pub fn agent_reply_to_ticket(ticket_id: &str, claims: &Claims) -> (r: Result<SqlStatement, ApiResponse>)
    ensures
        claims.spec_is_agent() ==> (r matches Ok(s)
            && s@ == ("SELECT customer_id FROM tickets WHERE id = ?"@, seq![ticket_id@])),
        !claims.spec_is_agent() ==> (r matches Err(resp)
            && is_error(resp, STATUS_FORBIDDEN, "Only agents can reply to tickets"@)),
{
    if let Some(resp) = agents_only(claims, "Only agents can reply to tickets") {
        return Err(resp);
    }
    let id = owned(ticket_id);
    Ok(statement("SELECT customer_id FROM tickets WHERE id = ?", list1(&id)))
}

/// The subject of a reply to ticket `ticket_id`.
pub open spec fn reply_subject(ticket_id: Seq<char>) -> Seq<char> {
    "Reply to your ticket ["@ + ticket_id + "]"@
}

/// The reply email to the ticket's customer, once the lookup has run: the agent's message,
/// sent to the customer the ticket names. A ticket that is not found, or a lookup that
/// failed, is answered 404.
pub fn reply_email(ticket_id: &str, input: &AgentReplyInput, lookup: Result<Option<String>, DbError>) -> (r: Result<OutgoingEmail, ApiResponse>)
    ensures
        lookup matches Ok(Some(customer)) ==> (r matches Ok(e)
            && e.to@ == customer@
            && e.subject@ == reply_subject(ticket_id@)
            && e.body@ == input.message@),
        !(lookup matches Ok(Some(_))) ==> (r matches Err(resp)
            && is_error(resp, STATUS_NOT_FOUND, "Ticket not found"@)),
{
    match lookup {
        Ok(Some(customer)) => {
            let mut subject = join("Reply to your ticket [", ticket_id);
            subject.append("]");
            Ok(OutgoingEmail { to: customer, subject, body: input.message.clone() })
        },
        _ => Err(error_response(STATUS_NOT_FOUND, "Ticket not found")),
    }
}

/// The answer once the email has gone out, or failed to.
pub fn reply_sent_response(sent: Result<(), String>) -> (r: ApiResponse)
    ensures
        sent is Ok ==> r.status == STATUS_OK && (r.body matches Body::Notice(m) && m@ == "Reply sent to customer."@),
        sent is Err ==> is_error(r, STATUS_INTERNAL_ERROR, "Failed to send reply email"@),
{
    match sent {
        Ok(()) => ApiResponse { status: STATUS_OK, body: Body::Notice(owned("Reply sent to customer.")) },
        Err(_) => error_response(STATUS_INTERNAL_ERROR, "Failed to send reply email"),
    }
}

} // verus!
