use vstd::prelude::*;
use crate::api::response::{
    agents_only, internal_notes_response, is_error, is_msg, msg_response, write_response,
    ApiResponse, Body, STATUS_CREATED, STATUS_FORBIDDEN, STATUS_INTERNAL_ERROR, STATUS_OK,
};
use crate::ids::{is_utc_stamp, is_uuid_v4_text, new_id, now_text};
use crate::jwt::Claims;
use crate::models::{CreateInternalNoteInput, InternalNote};
use crate::sql::{
    bare, insert_shape, inserts, item_value, lemma_inserts_intro, lemma_no_placeholders, list1, list4, listed,
    placeholders_before, statement, texts, DbError, SqlStatement,
};
use crate::text::owned;

verus! {

pub open spec fn add_internal_note_sql() -> Seq<char> {
    "INSERT INTO internal_notes (id, ticket_id, content, created_at) VALUES (?, ?, ?, ?)"@
}

/// The columns the internal_notes insert lists, in order.
spec fn internal_note_columns() -> Seq<Seq<char>> {
    seq!["id"@, "ticket_id"@, "content"@, "created_at"@]
}

proof fn lemma_internal_note_columns_bare()
    ensures
        forall|k: int| 0 <= k < internal_note_columns().len() ==> bare(#[trigger] internal_note_columns()[k]),
        listed(internal_note_columns()) == "id, ticket_id, content, created_at"@,
{
    reveal_strlit("content");
    reveal_strlit("created_at");
    reveal_strlit("id");
    reveal_strlit("ticket_id");
    reveal_strlit(", ");
    reveal_strlit("id, ticket_id, content, created_at");
    reveal_with_fuel(listed, 5);
    assert(listed(internal_note_columns()) =~= "id, ticket_id, content, created_at"@);
}

/// The value list of the internal_notes insert.
spec fn internal_note_items() -> Seq<Seq<char>> {
    seq!["?"@, "?"@, "?"@, "?"@]
}

proof fn lemma_internal_note_items()
    ensures
        forall|k: int| 0 <= k < internal_note_items().len() ==> bare(#[trigger] internal_note_items()[k]),
        listed(internal_note_items()) == "?, ?, ?, ?"@,
        forall|params: Seq<Seq<char>>| params.len() == 4 ==> {
            &&& item_value(internal_note_items(), params, 0) == Some(params[0])
            &&& item_value(internal_note_items(), params, 1) == Some(params[1])
            &&& item_value(internal_note_items(), params, 2) == Some(params[2])
            &&& #[trigger] item_value(internal_note_items(), params, 3) == Some(params[3])
        },
{
    reveal_strlit("?");
    reveal_strlit(", ");
    reveal_strlit("?, ?, ?, ?");
    let items = internal_note_items();
    reveal_with_fuel(listed, 5);
    assert(listed(items) =~= "?, ?, ?, ?"@);
    reveal_with_fuel(placeholders_before, 5);
}

proof fn lemma_internal_note_text()
    ensures
        add_internal_note_sql() == insert_shape("INSERT INTO internal_notes "@, internal_note_columns(), " VALUES "@, internal_note_items()),
{
    lemma_internal_note_columns_bare();
    lemma_internal_note_items();
    reveal_strlit("INSERT INTO internal_notes ");
    reveal_strlit("(");
    reveal_strlit("id, ticket_id, content, created_at");
    reveal_strlit(")");
    reveal_strlit(" VALUES ");
    reveal_strlit("?, ?, ?, ?");
    reveal_strlit("INSERT INTO internal_notes (");
    reveal_strlit("INSERT INTO internal_notes (id, ticket_id, content, created_at");
    reveal_strlit("INSERT INTO internal_notes (id, ticket_id, content, created_at)");
    reveal_strlit("INSERT INTO internal_notes (id, ticket_id, content, created_at) VALUES ");
    reveal_strlit("INSERT INTO internal_notes (id, ticket_id, content, created_at) VALUES (");
    reveal_strlit("INSERT INTO internal_notes (id, ticket_id, content, created_at) VALUES (?, ?, ?, ?");
    reveal_strlit("INSERT INTO internal_notes (id, ticket_id, content, created_at) VALUES (?, ?, ?, ?)");
    assert("INSERT INTO internal_notes "@ + "("@ =~= "INSERT INTO internal_notes ("@);
    assert("INSERT INTO internal_notes ("@ + "id, ticket_id, content, created_at"@ =~= "INSERT INTO internal_notes (id, ticket_id, content, created_at"@);
    assert("INSERT INTO internal_notes (id, ticket_id, content, created_at"@ + ")"@ =~= "INSERT INTO internal_notes (id, ticket_id, content, created_at)"@);
    assert("INSERT INTO internal_notes (id, ticket_id, content, created_at)"@ + " VALUES "@ =~= "INSERT INTO internal_notes (id, ticket_id, content, created_at) VALUES "@);
    assert("INSERT INTO internal_notes (id, ticket_id, content, created_at) VALUES "@ + "("@ =~= "INSERT INTO internal_notes (id, ticket_id, content, created_at) VALUES ("@);
    assert("INSERT INTO internal_notes (id, ticket_id, content, created_at) VALUES ("@ + "?, ?, ?, ?"@ =~= "INSERT INTO internal_notes (id, ticket_id, content, created_at) VALUES (?, ?, ?, ?"@);
    assert("INSERT INTO internal_notes (id, ticket_id, content, created_at) VALUES (?, ?, ?, ?"@ + ")"@ =~= add_internal_note_sql());
}

/// The statement that adds an internal note stores the id, the ticket, the content as
/// `content` and `now` as the creation time.
pub proof fn lemma_internal_note_columns(id: Seq<char>, ticket: Seq<char>, content: Seq<char>, now: Seq<char>)
    ensures
        inserts((add_internal_note_sql(), seq![id, ticket, content, now]), "id"@, id),
        inserts((add_internal_note_sql(), seq![id, ticket, content, now]), "ticket_id"@, ticket),
        inserts((add_internal_note_sql(), seq![id, ticket, content, now]), "content"@, content),
        inserts((add_internal_note_sql(), seq![id, ticket, content, now]), "created_at"@, now),
{
    let params = seq![id, ticket, content, now];
    let stmt = (add_internal_note_sql(), params);
    let items = internal_note_items();
    let cols = internal_note_columns();
    lemma_internal_note_columns_bare();
    lemma_internal_note_items();
    lemma_internal_note_text();
    assert(item_value(items, params, 3) == Some(params[3]));
    reveal_strlit("INSERT INTO internal_notes ");
    lemma_no_placeholders("INSERT INTO internal_notes "@);
    reveal_strlit(" VALUES ");
    lemma_no_placeholders(" VALUES "@);
    lemma_inserts_intro(stmt, "INSERT INTO internal_notes "@, cols, " VALUES "@, items, 0, id);
    lemma_inserts_intro(stmt, "INSERT INTO internal_notes "@, cols, " VALUES "@, items, 1, ticket);
    lemma_inserts_intro(stmt, "INSERT INTO internal_notes "@, cols, " VALUES "@, items, 2, content);
    lemma_inserts_intro(stmt, "INSERT INTO internal_notes "@, cols, " VALUES "@, items, 3, now);
}

/// The row of an internal note with id `id`, created at `now`.
pub fn internal_note_row(payload: &CreateInternalNoteInput, id: String, now: String) -> (r: SqlStatement)
    ensures
        r@ == (add_internal_note_sql(), seq![id@, payload.ticket_id@, payload.content@, now@]),
        inserts(r@, "ticket_id"@, payload.ticket_id@),
        inserts(r@, "content"@, payload.content@),
{
    proof {
        lemma_internal_note_columns(id@, payload.ticket_id@, payload.content@, now@);
    }
    let params = list4(&id, &payload.ticket_id, &payload.content, &now);
    statement("INSERT INTO internal_notes (id, ticket_id, content, created_at) VALUES (?, ?, ?, ?)", params)
}

/// Adds an internal note to a ticket, for agents only: a fresh id and the current time.
pub fn add_internal_note(claims: &Claims, payload: &CreateInternalNoteInput) -> (r: Result<SqlStatement, ApiResponse>)
    ensures
        claims.spec_is_agent() ==> (r matches Ok(s)
            && s.sql@ == add_internal_note_sql()
            && is_uuid_v4_text(texts(s.params@)[0])
            && is_utc_stamp(texts(s.params@)[3])
            && texts(s.params@) == seq![
                texts(s.params@)[0], payload.ticket_id@, payload.content@, texts(s.params@)[3],
            ]
            && inserts(s@, "ticket_id"@, payload.ticket_id@)
            && inserts(s@, "content"@, payload.content@)),
        !claims.spec_is_agent() ==> (r matches Err(resp)
            && is_error(resp, STATUS_FORBIDDEN, "Only agents can add internal notes."@)),
{
    if let Some(resp) = agents_only(claims, "Only agents can add internal notes.") {
        return Err(resp);
    }
    let id = new_id();
    let now = now_text();
    Ok(internal_note_row(payload, id, now))
}

pub fn add_internal_note_response(result: Result<(), DbError>) -> (r: ApiResponse)
    ensures
        result is Ok ==> is_msg(r, STATUS_CREATED, "Note added"@),
        result is Err ==> is_error(r, STATUS_INTERNAL_ERROR, "Failed to add note"@),
{
    write_response(result, msg_response(STATUS_CREATED, "Note added"), "Failed to add note")
}

/// The ticket id a request names: the `ticket_id` field when it is a string, else empty.
pub open spec fn requested_ticket(ticket_id: Option<Seq<char>>) -> Seq<char> {
    match ticket_id {
        Some(t) => t,
        None => Seq::empty(),
    }
}

/// The internal notes of a ticket, for agents only. `ticket_id` is the request's
/// `ticket_id` field when that is a JSON string.
pub fn get_internal_notes(claims: &Claims, ticket_id: Option<&str>) -> (r: Result<SqlStatement, ApiResponse>)
    ensures
        claims.spec_is_agent() ==> (r matches Ok(s) && s@ == (
            "SELECT * FROM internal_notes WHERE ticket_id = ?"@,
            seq![requested_ticket(match ticket_id { Some(t) => Some(t@), None => None })],
        )),
        !claims.spec_is_agent() ==> (r matches Err(resp)
            && is_error(resp, STATUS_FORBIDDEN, "Only agents can view internal notes."@)),
{
    if let Some(resp) = agents_only(claims, "Only agents can view internal notes.") {
        return Err(resp);
    }
    let ticket = match ticket_id {
        Some(t) => owned(t),
        None => String::new(),
    };
    Ok(statement("SELECT * FROM internal_notes WHERE ticket_id = ?", list1(&ticket)))
}

pub fn get_internal_notes_response(rows: Result<Vec<InternalNote>, DbError>) -> (r: ApiResponse)
    ensures
        rows matches Ok(v) ==> r.status == STATUS_OK && r.body == Body::InternalNotes(v),
        rows is Err ==> is_error(r, STATUS_INTERNAL_ERROR, "Failed to fetch notes"@),
{
    internal_notes_response(rows, "Failed to fetch notes")
}

} // verus!
