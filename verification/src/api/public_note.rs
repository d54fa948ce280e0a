use vstd::prelude::*;
use crate::api::response::{
    agents_only, error_response, is_error, public_notes_response, ApiResponse, Body, STATUS_CREATED,
    STATUS_FORBIDDEN, STATUS_INTERNAL_ERROR, STATUS_OK,
};
use crate::api::ticket::Creation;
use crate::ids::{is_utc_stamp, is_uuid_v4_text, new_id, now_text};
use crate::jwt::Claims;
use crate::models::{CreatePublicNoteInput, PublicNote};
use crate::sql::{
    bare, insert_shape, inserts, item_value, lemma_inserts_intro, lemma_no_placeholders, list5, listed,
    placeholders_before, statement, texts, DbError, SqlStatement,
};
use crate::text::owned;

verus! {

pub open spec fn add_public_note_sql() -> Seq<char> {
    "INSERT INTO public_notes (id, ticket_id, author_id, content, created_at)\n         VALUES (?, ?, ?, ?, ?)"@
}

/// The columns the public_notes insert lists, in order.
spec fn public_note_columns() -> Seq<Seq<char>> {
    seq!["id"@, "ticket_id"@, "author_id"@, "content"@, "created_at"@]
}

proof fn lemma_public_note_columns_bare()
    ensures
        forall|k: int| 0 <= k < public_note_columns().len() ==> bare(#[trigger] public_note_columns()[k]),
        listed(public_note_columns()) == "id, ticket_id, author_id, content, created_at"@,
{
    reveal_strlit("author_id");
    reveal_strlit("content");
    reveal_strlit("created_at");
    reveal_strlit("id");
    reveal_strlit("ticket_id");
    reveal_strlit(", ");
    reveal_strlit("id, ticket_id, author_id, content, created_at");
    reveal_with_fuel(listed, 6);
    assert(listed(public_note_columns()) =~= "id, ticket_id, author_id, content, created_at"@);
}

/// The value list of the public_notes insert.
spec fn public_note_items() -> Seq<Seq<char>> {
    seq!["?"@, "?"@, "?"@, "?"@, "?"@]
}

proof fn lemma_public_note_items()
    ensures
        forall|k: int| 0 <= k < public_note_items().len() ==> bare(#[trigger] public_note_items()[k]),
        listed(public_note_items()) == "?, ?, ?, ?, ?"@,
        forall|params: Seq<Seq<char>>| params.len() == 5 ==> {
            &&& item_value(public_note_items(), params, 0) == Some(params[0])
            &&& item_value(public_note_items(), params, 1) == Some(params[1])
            &&& item_value(public_note_items(), params, 2) == Some(params[2])
            &&& item_value(public_note_items(), params, 3) == Some(params[3])
            &&& #[trigger] item_value(public_note_items(), params, 4) == Some(params[4])
        },
{
    reveal_strlit("?");
    reveal_strlit(", ");
    reveal_strlit("?, ?, ?, ?, ?");
    let items = public_note_items();
    reveal_with_fuel(listed, 6);
    assert(listed(items) =~= "?, ?, ?, ?, ?"@);
    reveal_with_fuel(placeholders_before, 6);
}

proof fn lemma_public_note_text()
    ensures
        add_public_note_sql() == insert_shape("INSERT INTO public_notes "@, public_note_columns(), "\n         VALUES "@, public_note_items()),
{
    lemma_public_note_columns_bare();
    lemma_public_note_items();
    reveal_strlit("INSERT INTO public_notes ");
    reveal_strlit("(");
    reveal_strlit("id, ticket_id, author_id, content, created_at");
    reveal_strlit(")");
    reveal_strlit("\n         VALUES ");
    reveal_strlit("?, ?, ?, ?, ?");
    reveal_strlit("INSERT INTO public_notes (");
    reveal_strlit("INSERT INTO public_notes (id, ticket_id, author_id, content, created_at");
    reveal_strlit("INSERT INTO public_notes (id, ticket_id, author_id, content, created_at)");
    reveal_strlit("INSERT INTO public_notes (id, ticket_id, author_id, content, created_at)\n         VALUES ");
    reveal_strlit("INSERT INTO public_notes (id, ticket_id, author_id, content, created_at)\n         VALUES (");
    reveal_strlit("INSERT INTO public_notes (id, ticket_id, author_id, content, created_at)\n         VALUES (?, ?, ?, ?, ?");
    reveal_strlit("INSERT INTO public_notes (id, ticket_id, author_id, content, created_at)\n         VALUES (?, ?, ?, ?, ?)");
    assert("INSERT INTO public_notes "@ + "("@ =~= "INSERT INTO public_notes ("@);
    assert("INSERT INTO public_notes ("@ + "id, ticket_id, author_id, content, created_at"@ =~= "INSERT INTO public_notes (id, ticket_id, author_id, content, created_at"@);
    assert("INSERT INTO public_notes (id, ticket_id, author_id, content, created_at"@ + ")"@ =~= "INSERT INTO public_notes (id, ticket_id, author_id, content, created_at)"@);
    assert("INSERT INTO public_notes (id, ticket_id, author_id, content, created_at)"@ + "\n         VALUES "@ =~= "INSERT INTO public_notes (id, ticket_id, author_id, content, created_at)\n         VALUES "@);
    assert("INSERT INTO public_notes (id, ticket_id, author_id, content, created_at)\n         VALUES "@ + "("@ =~= "INSERT INTO public_notes (id, ticket_id, author_id, content, created_at)\n         VALUES ("@);
    assert("INSERT INTO public_notes (id, ticket_id, author_id, content, created_at)\n         VALUES ("@ + "?, ?, ?, ?, ?"@ =~= "INSERT INTO public_notes (id, ticket_id, author_id, content, created_at)\n         VALUES (?, ?, ?, ?, ?"@);
    assert("INSERT INTO public_notes (id, ticket_id, author_id, content, created_at)\n         VALUES (?, ?, ?, ?, ?"@ + ")"@ =~= add_public_note_sql());
}

/// The statement that adds a public note stores the id, the ticket, the author as `author_id`,
/// the content as `content` and `now` as the creation time.
pub proof fn lemma_public_note_columns(
    id: Seq<char>,
    ticket: Seq<char>,
    author: Seq<char>,
    content: Seq<char>,
    now: Seq<char>,
)
    ensures
        inserts((add_public_note_sql(), seq![id, ticket, author, content, now]), "id"@, id),
        inserts((add_public_note_sql(), seq![id, ticket, author, content, now]), "ticket_id"@, ticket),
        inserts((add_public_note_sql(), seq![id, ticket, author, content, now]), "author_id"@, author),
        inserts((add_public_note_sql(), seq![id, ticket, author, content, now]), "content"@, content),
        inserts((add_public_note_sql(), seq![id, ticket, author, content, now]), "created_at"@, now),
{
    let params = seq![id, ticket, author, content, now];
    let stmt = (add_public_note_sql(), params);
    let items = public_note_items();
    let cols = public_note_columns();
    lemma_public_note_columns_bare();
    lemma_public_note_items();
    lemma_public_note_text();
    assert(item_value(items, params, 4) == Some(params[4]));
    reveal_strlit("INSERT INTO public_notes ");
    lemma_no_placeholders("INSERT INTO public_notes "@);
    reveal_strlit("\n         VALUES ");
    lemma_no_placeholders("\n         VALUES "@);
    lemma_inserts_intro(stmt, "INSERT INTO public_notes "@, cols, "\n         VALUES "@, items, 0, id);
    lemma_inserts_intro(stmt, "INSERT INTO public_notes "@, cols, "\n         VALUES "@, items, 1, ticket);
    lemma_inserts_intro(stmt, "INSERT INTO public_notes "@, cols, "\n         VALUES "@, items, 2, author);
    lemma_inserts_intro(stmt, "INSERT INTO public_notes "@, cols, "\n         VALUES "@, items, 3, content);
    lemma_inserts_intro(stmt, "INSERT INTO public_notes "@, cols, "\n         VALUES "@, items, 4, now);
}

/// The row of a public note with id `id` by the caller, created at `now`.
pub fn public_note_row(claims: &Claims, payload: &CreatePublicNoteInput, id: String, now: String) -> (r: Creation)
    ensures
        r.id@ == id@,
        r.statement@ == (add_public_note_sql(), seq![id@, payload.ticket_id@, claims.sub@, payload.content@, now@]),
        inserts(r.statement@, "ticket_id"@, payload.ticket_id@),
        inserts(r.statement@, "author_id"@, claims.sub@),
        inserts(r.statement@, "content"@, payload.content@),
{
    proof {
        lemma_public_note_columns(id@, payload.ticket_id@, claims.sub@, payload.content@, now@);
    }
    let params = list5(&id, &payload.ticket_id, &claims.sub, &payload.content, &now);
    let statement = statement(
        "INSERT INTO public_notes (id, ticket_id, author_id, content, created_at)\n         VALUES (?, ?, ?, ?, ?)",
        params,
    );
    Creation { statement, id }
}

/// Adds a public note to a ticket, for agents only, with the caller as author, a fresh
/// id and the current time.
pub fn add_public_note(claims: &Claims, payload: &CreatePublicNoteInput) -> (r: Result<Creation, ApiResponse>)
    ensures
        claims.spec_is_agent() ==> (r matches Ok(c)
            && is_uuid_v4_text(c.id@)
            && is_utc_stamp(texts(c.statement.params@)[4])
            && c.statement.sql@ == add_public_note_sql()
            && texts(c.statement.params@) == seq![
                c.id@, payload.ticket_id@, claims.sub@, payload.content@, texts(c.statement.params@)[4],
            ]
            && inserts(c.statement@, "ticket_id"@, payload.ticket_id@)
            && inserts(c.statement@, "author_id"@, claims.sub@)
            && inserts(c.statement@, "content"@, payload.content@)),
        !claims.spec_is_agent() ==> (r matches Err(resp)
            && is_error(resp, STATUS_FORBIDDEN, "Only agents can add public notes."@)),
{
    if let Some(resp) = agents_only(claims, "Only agents can add public notes.") {
        return Err(resp);
    }
    let id = new_id();
    let now = now_text();
    Ok(public_note_row(claims, payload, id, now))
}

/// 201 with the new note's id, or 500.
pub fn add_public_note_response(result: Result<(), DbError>, id: &str) -> (r: ApiResponse)
    ensures
        result is Ok ==> r.status == STATUS_CREATED && (r.body matches Body::MsgWithId(m, i)
            && m@ == "Public note added"@ && i@ == id@),
        result is Err ==> is_error(r, STATUS_INTERNAL_ERROR, "Failed to add public note"@),
{
    match result {
        Ok(()) => ApiResponse {
            status: STATUS_CREATED,
            body: Body::MsgWithId(owned("Public note added"), owned(id)),
        },
        Err(_) => error_response(STATUS_INTERNAL_ERROR, "Failed to add public note"),
    }
}

/// The public notes query for a ticket, oldest first (any caller). The statement has a
/// placeholder for the ticket but binds no value to it: the ticket id is not passed on.
pub fn get_public_notes(ticket_id: &str) -> (r: SqlStatement)
    ensures
        r@ == (
            "SELECT * FROM public_notes WHERE ticket_id = ? ORDER BY created_at ASC"@,
            Seq::<Seq<char>>::empty(),
        ),
{
    let s = statement("SELECT * FROM public_notes WHERE ticket_id = ? ORDER BY created_at ASC", Vec::new());
    assert(texts(s.params@) =~= Seq::<Seq<char>>::empty());
    s
}

pub fn get_public_notes_response(rows: Result<Vec<PublicNote>, DbError>) -> (r: ApiResponse)
    ensures
        rows matches Ok(v) ==> r.status == STATUS_OK && r.body == Body::PublicNotes(v),
        rows is Err ==> is_error(r, STATUS_INTERNAL_ERROR, "Failed to fetch notes"@),
{
    public_notes_response(rows, "Failed to fetch notes")
}

} // verus!
