use customer_support::api::note::internal_note_row;
use customer_support::api::public_note::public_note_row;
use customer_support::api::note::{add_internal_note, add_internal_note_response, get_internal_notes, get_internal_notes_response};
use customer_support::api::public_note::{add_public_note, add_public_note_response, get_public_notes, get_public_notes_response};
use customer_support::api::reply::{agent_reply_to_ticket, reply_email, reply_sent_response};
use customer_support::api::response::Body;
use customer_support::jwt::Claims;
use customer_support::models::{AgentReplyInput, CreateInternalNoteInput, CreatePublicNoteInput, PublicNote};
use customer_support::sql::DbError;

fn agent() -> Claims {
    Claims { sub: "agent-1".to_string(), role: "Agent".to_string(), exp: 0 }
}

fn customer() -> Claims {
    Claims { sub: "cust-1".to_string(), role: "Customer".to_string(), exp: 0 }
}

#[test]
fn internal_notes_are_added_by_agents() {
    let input = CreateInternalNoteInput { ticket_id: "t-1".to_string(), content: "call back".to_string() };
    let r = add_internal_note(&customer(), &input).unwrap_err();
    assert_eq!(r.status, 403);
    assert_eq!(r.body, Body::Error("Only agents can add internal notes.".to_string()));
    let s = add_internal_note(&agent(), &input).unwrap();
    assert_eq!(s.sql, "INSERT INTO internal_notes (id, ticket_id, content, created_at) VALUES (?, ?, ?, ?)");
    assert_eq!(s.params.len(), 4);
    assert_eq!(s.params[0].len(), 36);
    assert_eq!(&s.params[1..3], &["t-1", "call back"]);
    assert_eq!(add_internal_note_response(Ok(())).status, 201);
    assert_eq!(add_internal_note_response(Ok(())).body, Body::Msg("Note added".to_string()));
    assert_eq!(add_internal_note_response(Err(DbError)).body, Body::Error("Failed to add note".to_string()));
}

#[test]
fn internal_notes_are_read_by_agents() {
    let r = get_internal_notes(&customer(), Some("t-1")).unwrap_err();
    assert_eq!(r.body, Body::Error("Only agents can view internal notes.".to_string()));
    let s = get_internal_notes(&agent(), Some("t-1")).unwrap();
    assert_eq!(s.sql, "SELECT * FROM internal_notes WHERE ticket_id = ?");
    assert_eq!(s.params, vec!["t-1".to_string()]);
    let s = get_internal_notes(&agent(), None).unwrap();
    assert_eq!(s.params, vec![String::new()]);
    assert_eq!(get_internal_notes_response(Ok(vec![])).body, Body::InternalNotes(vec![]));
    assert_eq!(get_internal_notes_response(Err(DbError)).body, Body::Error("Failed to fetch notes".to_string()));
}

#[test]
fn public_notes_are_added_by_agents_as_authors() {
    let input = CreatePublicNoteInput { ticket_id: "t-1".to_string(), content: "fixed".to_string() };
    let r = add_public_note(&customer(), &input).unwrap_err();
    assert_eq!(r.status, 403);
    assert_eq!(r.body, Body::Error("Only agents can add public notes.".to_string()));
    let c = add_public_note(&agent(), &input).unwrap();
    assert_eq!(c.statement.params.len(), 5);
    assert_eq!(c.statement.params[0], c.id);
    assert_eq!(&c.statement.params[1..4], &["t-1", "agent-1", "fixed"]);
    let ok = add_public_note_response(Ok(()), &c.id);
    assert_eq!(ok.status, 201);
    assert_eq!(ok.body, Body::MsgWithId("Public note added".to_string(), c.id.clone()));
    assert_eq!(add_public_note_response(Err(DbError), "x").body, Body::Error("Failed to add public note".to_string()));
}

#[test]
fn public_notes_query_binds_nothing() {
    let s = get_public_notes("t-1");
    assert_eq!(s.sql, "SELECT * FROM public_notes WHERE ticket_id = ? ORDER BY created_at ASC");
    assert!(s.params.is_empty());
    let n = PublicNote {
        id: "n".to_string(),
        ticket_id: "t-1".to_string(),
        author_id: "a".to_string(),
        content: "c".to_string(),
        created_at: "d".to_string(),
    };
    assert_eq!(get_public_notes_response(Ok(vec![n.clone()])).body, Body::PublicNotes(vec![n]));
}

#[test]
fn replies_are_for_agents() {
    let r = agent_reply_to_ticket("t-1", &customer()).unwrap_err();
    assert_eq!(r.status, 403);
    assert_eq!(r.body, Body::Error("Only agents can reply to tickets".to_string()));
    let s = agent_reply_to_ticket("t-1", &agent()).unwrap();
    assert_eq!(s.sql, "SELECT customer_id FROM tickets WHERE id = ?");
    assert_eq!(s.params, vec!["t-1".to_string()]);
}

#[test]
fn reply_goes_to_the_ticket_customer() {
    let input = AgentReplyInput { message: "Try turning it off".to_string() };
    let e = reply_email("t-42", &input, Ok(Some("bob@example.com".to_string()))).unwrap();
    assert_eq!(e.to, "bob@example.com");
    assert_eq!(e.subject, "Reply to your ticket [t-42]");
    assert_eq!(e.body, "Try turning it off");
}

#[test]
fn reply_to_a_missing_ticket_is_not_found() {
    let input = AgentReplyInput { message: "x".to_string() };
    for lookup in [Ok(None), Err(DbError)] {
        let r = reply_email("t-42", &input, lookup).unwrap_err();
        assert_eq!(r.status, 404);
        assert_eq!(r.body, Body::Error("Ticket not found".to_string()));
    }
}

#[test]
fn reply_send_outcome() {
    let ok = reply_sent_response(Ok(()));
    assert_eq!(ok.status, 200);
    assert_eq!(ok.body, Body::Notice("Reply sent to customer.".to_string()));
    let err = reply_sent_response(Err("smtp down".to_string()));
    assert_eq!(err.status, 500);
    assert_eq!(err.body, Body::Error("Failed to send reply email".to_string()));
}

#[test]
fn note_rows_take_the_id_and_time_given() {
    let n = internal_note_row(
        &CreateInternalNoteInput { ticket_id: "t".to_string(), content: "c".to_string() },
        "ID".to_string(),
        "NOW".to_string(),
    );
    assert_eq!(n.params, vec!["ID", "t", "c", "NOW"]);
    let p = public_note_row(
        &agent(),
        &CreatePublicNoteInput { ticket_id: "t".to_string(), content: "c".to_string() },
        "ID".to_string(),
        "NOW".to_string(),
    );
    assert_eq!(p.id, "ID");
    assert_eq!(p.statement.params, vec!["ID", "t", "agent-1", "c", "NOW"]);
}
