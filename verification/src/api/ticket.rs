use vstd::prelude::*;
use crate::api::response::{
    agents_only, error_response, is_error, is_msg, msg_response, tickets_response, write_response, ApiResponse, Body,
    STATUS_CREATED, STATUS_FORBIDDEN, STATUS_INTERNAL_ERROR, STATUS_OK,
};
use crate::ids::{is_utc_stamp, is_uuid_v4_text, new_id, now_text};
use crate::jwt::Claims;
use crate::models::{CreateTicketInput, Ticket, UpdateStatusPayload};
use crate::sql::{
    bare, ends_with, insert_shape, inserts, item_value, keyed_by, lemma_inserts_intro, lemma_no_placeholders,
    lemma_placeholders_concat, lemma_listed_placeholders, lemma_sets_intro, list1, list2, list5, list6, list7,
    listed, placeholders, placeholders_before, sets, update_shape, statement, texts, DbError, SqlStatement,
};
use crate::text::{join, owned};

verus! {

/// A statement that inserts a new row, and the id it gives the row.
#[derive(Debug, Clone, PartialEq, Eq)]
pub struct Creation {
    pub statement: SqlStatement,
    pub id: String,
}

pub open spec fn create_ticket_sql() -> Seq<char> {
    "INSERT INTO tickets (id, title, description, status, priority, customer_id, created_at, updated_at)\n         VALUES (?, ?, ?, 'Open', ?, ?, ?, ?)"@
}

/// The value list of the tickets insert.
spec fn new_ticket_items() -> Seq<Seq<char>> {
    seq!["?"@, "?"@, "?"@, "'Open'"@, "?"@, "?"@, "?"@, "?"@]
}

proof fn lemma_new_ticket_items()
    ensures
        forall|k: int| 0 <= k < new_ticket_items().len() ==> bare(#[trigger] new_ticket_items()[k]),
        listed(new_ticket_items()) == "?, ?, ?, 'Open', ?, ?, ?, ?"@,
        forall|params: Seq<Seq<char>>| params.len() == 7 ==> {
            &&& item_value(new_ticket_items(), params, 0) == Some(params[0])
            &&& item_value(new_ticket_items(), params, 1) == Some(params[1])
            &&& item_value(new_ticket_items(), params, 2) == Some(params[2])
            &&& item_value(new_ticket_items(), params, 3) == Some("Open"@)
            &&& item_value(new_ticket_items(), params, 4) == Some(params[3])
            &&& item_value(new_ticket_items(), params, 5) == Some(params[4])
            &&& item_value(new_ticket_items(), params, 6) == Some(params[5])
            &&& #[trigger] item_value(new_ticket_items(), params, 7) == Some(params[6])
        },
{
    reveal_strlit("'Open'");
    reveal_strlit("Open");
    reveal_strlit("?");
    reveal_strlit(", ");
    reveal_strlit("?, ?, ?, 'Open', ?, ?, ?, ?");
    let items = new_ticket_items();
    reveal_with_fuel(listed, 9);
    assert(listed(items) =~= "?, ?, ?, 'Open', ?, ?, ?, ?"@);
    reveal_with_fuel(placeholders_before, 9);
    assert("Open"@ =~= items[3].subrange(1, items[3].len() - 1));
}

proof fn lemma_new_ticket_text()
    ensures
        create_ticket_sql() == insert_shape("INSERT INTO tickets "@, ticket_columns(), "\n         VALUES "@, new_ticket_items()),
{
    lemma_ticket_columns_bare();
    lemma_new_ticket_items();
    reveal_strlit("INSERT INTO tickets ");
    reveal_strlit("(");
    reveal_strlit("id, title, description, status, priority, customer_id, created_at, updated_at");
    reveal_strlit(")");
    reveal_strlit("\n         VALUES ");
    reveal_strlit("?, ?, ?, 'Open', ?, ?, ?, ?");
    reveal_strlit("INSERT INTO tickets (");
    reveal_strlit("INSERT INTO tickets (id, title, description, status, priority, customer_id, created_at, updated_at");
    reveal_strlit("INSERT INTO tickets (id, title, description, status, priority, customer_id, created_at, updated_at)");
    reveal_strlit("INSERT INTO tickets (id, title, description, status, priority, customer_id, created_at, updated_at)\n         VALUES ");
    reveal_strlit("INSERT INTO tickets (id, title, description, status, priority, customer_id, created_at, updated_at)\n         VALUES (");
    reveal_strlit("INSERT INTO tickets (id, title, description, status, priority, customer_id, created_at, updated_at)\n         VALUES (?, ?, ?, 'Open', ?, ?, ?, ?");
    reveal_strlit("INSERT INTO tickets (id, title, description, status, priority, customer_id, created_at, updated_at)\n         VALUES (?, ?, ?, 'Open', ?, ?, ?, ?)");
    assert("INSERT INTO tickets "@ + "("@ =~= "INSERT INTO tickets ("@);
    assert("INSERT INTO tickets ("@ + "id, title, description, status, priority, customer_id, created_at, updated_at"@ =~= "INSERT INTO tickets (id, title, description, status, priority, customer_id, created_at, updated_at"@);
    assert("INSERT INTO tickets (id, title, description, status, priority, customer_id, created_at, updated_at"@ + ")"@ =~= "INSERT INTO tickets (id, title, description, status, priority, customer_id, created_at, updated_at)"@);
    assert("INSERT INTO tickets (id, title, description, status, priority, customer_id, created_at, updated_at)"@ + "\n         VALUES "@ =~= "INSERT INTO tickets (id, title, description, status, priority, customer_id, created_at, updated_at)\n         VALUES "@);
    assert("INSERT INTO tickets (id, title, description, status, priority, customer_id, created_at, updated_at)\n         VALUES "@ + "("@ =~= "INSERT INTO tickets (id, title, description, status, priority, customer_id, created_at, updated_at)\n         VALUES ("@);
    assert("INSERT INTO tickets (id, title, description, status, priority, customer_id, created_at, updated_at)\n         VALUES ("@ + "?, ?, ?, 'Open', ?, ?, ?, ?"@ =~= "INSERT INTO tickets (id, title, description, status, priority, customer_id, created_at, updated_at)\n         VALUES (?, ?, ?, 'Open', ?, ?, ?, ?"@);
    assert("INSERT INTO tickets (id, title, description, status, priority, customer_id, created_at, updated_at)\n         VALUES (?, ?, ?, 'Open', ?, ?, ?, ?"@ + ")"@ =~= create_ticket_sql());
}

/// The statement that creates a ticket stores each value in its own column: the id, the title
/// as title, the description as description, status `Open`, the priority, the caller as
/// customer, and `now` as both times.
pub proof fn lemma_new_ticket_columns(
    id: Seq<char>,
    title: Seq<char>,
    description: Seq<char>,
    priority: Seq<char>,
    customer: Seq<char>,
    now: Seq<char>,
)
    ensures
        inserts((create_ticket_sql(), seq![id, title, description, priority, customer, now, now]), "id"@, id),
        inserts((create_ticket_sql(), seq![id, title, description, priority, customer, now, now]), "title"@, title),
        inserts((create_ticket_sql(), seq![id, title, description, priority, customer, now, now]), "description"@, description),
        inserts((create_ticket_sql(), seq![id, title, description, priority, customer, now, now]), "status"@, "Open"@),
        inserts((create_ticket_sql(), seq![id, title, description, priority, customer, now, now]), "priority"@, priority),
        inserts((create_ticket_sql(), seq![id, title, description, priority, customer, now, now]), "customer_id"@, customer),
        inserts((create_ticket_sql(), seq![id, title, description, priority, customer, now, now]), "created_at"@, now),
        inserts((create_ticket_sql(), seq![id, title, description, priority, customer, now, now]), "updated_at"@, now),
{
    let params = seq![id, title, description, priority, customer, now, now];
    let stmt = (create_ticket_sql(), params);
    let items = new_ticket_items();
    let cols = ticket_columns();
    lemma_ticket_columns_bare();
    lemma_new_ticket_items();
    lemma_new_ticket_text();
    assert(item_value(items, params, 7) == Some(params[6]));
    reveal_strlit("INSERT INTO tickets ");
    lemma_no_placeholders("INSERT INTO tickets "@);
    reveal_strlit("\n         VALUES ");
    lemma_no_placeholders("\n         VALUES "@);
    lemma_inserts_intro(stmt, "INSERT INTO tickets "@, cols, "\n         VALUES "@, items, 0, id);
    lemma_inserts_intro(stmt, "INSERT INTO tickets "@, cols, "\n         VALUES "@, items, 1, title);
    lemma_inserts_intro(stmt, "INSERT INTO tickets "@, cols, "\n         VALUES "@, items, 2, description);
    lemma_inserts_intro(stmt, "INSERT INTO tickets "@, cols, "\n         VALUES "@, items, 3, "Open"@);
    lemma_inserts_intro(stmt, "INSERT INTO tickets "@, cols, "\n         VALUES "@, items, 4, priority);
    lemma_inserts_intro(stmt, "INSERT INTO tickets "@, cols, "\n         VALUES "@, items, 5, customer);
    lemma_inserts_intro(stmt, "INSERT INTO tickets "@, cols, "\n         VALUES "@, items, 6, now);
    lemma_inserts_intro(stmt, "INSERT INTO tickets "@, cols, "\n         VALUES "@, items, 7, now);
}

/// The row of a new open ticket from the caller with id `id`, created and updated at `now`.
pub fn new_ticket_row(claims: &Claims, payload: &CreateTicketInput, id: String, now: String) -> (r: Creation)
    ensures
        r.id@ == id@,
        r.statement@ == (create_ticket_sql(), seq![
            id@, payload.title@, payload.description@, payload.priority@, claims.sub@, now@, now@,
        ]),
        inserts(r.statement@, "title"@, payload.title@),
        inserts(r.statement@, "description"@, payload.description@),
        inserts(r.statement@, "status"@, "Open"@),
        inserts(r.statement@, "priority"@, payload.priority@),
        inserts(r.statement@, "customer_id"@, claims.sub@),
{
    proof {
        lemma_new_ticket_columns(id@, payload.title@, payload.description@, payload.priority@, claims.sub@, now@);
    }
    let params = list7(&id, &payload.title, &payload.description, &payload.priority, &claims.sub, &now, &now);
    let statement = statement(
        "INSERT INTO tickets (id, title, description, status, priority, customer_id, created_at, updated_at)\n         VALUES (?, ?, ?, 'Open', ?, ?, ?, ?)",
        params,
    );
    Creation { statement, id }
}

/// A new open ticket from the caller: a fresh id, the caller as customer, and the
/// current time as both creation and update time.
pub fn create_ticket(claims: &Claims, payload: &CreateTicketInput) -> (r: Creation)
    ensures
        is_uuid_v4_text(r.id@),
        r.statement.sql@ == create_ticket_sql(),
        texts(r.statement.params@) == seq![
            r.id@, payload.title@, payload.description@, payload.priority@, claims.sub@,
            texts(r.statement.params@)[5], texts(r.statement.params@)[5],
        ],
        is_utc_stamp(texts(r.statement.params@)[5]),
        inserts(r.statement@, "title"@, payload.title@),
        inserts(r.statement@, "description"@, payload.description@),
        inserts(r.statement@, "status"@, "Open"@),
        inserts(r.statement@, "priority"@, payload.priority@),
        inserts(r.statement@, "customer_id"@, claims.sub@),
{
    let now = now_text();
    let id = new_id();
    new_ticket_row(claims, payload, id, now)
}

/// 201 with the new ticket's id, or 500.
pub fn create_ticket_response(result: Result<(), DbError>, id: &str) -> (r: ApiResponse)
    ensures
        result is Ok ==> r.status == STATUS_CREATED && (r.body matches Body::MsgWithTicketId(m, t)
            && m@ == "Ticket created"@ && t@ == id@),
        result is Err ==> is_error(r, STATUS_INTERNAL_ERROR, "Failed to create ticket"@),
{
    match result {
        Ok(()) => ApiResponse {
            status: STATUS_CREATED,
            body: Body::MsgWithTicketId(owned("Ticket created"), owned(id)),
        },
        Err(_) => error_response(STATUS_INTERNAL_ERROR, "Failed to create ticket"),
    }
}

pub open spec fn update_ticket_sql() -> Seq<char> {
    "UPDATE tickets SET title = ?, description = ?, priority = ?, updated_at = ? WHERE id = ?"@
}

/// The assignments of a ticket update, in order.
spec fn update_ticket_assignments() -> Seq<Seq<char>> {
    seq!["title = ?"@, "description = ?"@, "priority = ?"@, "updated_at = ?"@]
}

proof fn lemma_update_ticket_pieces()
    ensures
        placeholders("UPDATE tickets SET "@) == 0,
        ends_with("UPDATE tickets SET "@, "SET "@),
        placeholders(" WHERE id = ?"@) == 1,
        forall|k: int| 0 <= k < update_ticket_assignments().len()
            ==> bare(#[trigger] update_ticket_assignments()[k]) && placeholders(update_ticket_assignments()[k]) == 1,
        listed(update_ticket_assignments()) == "title = ?, description = ?, priority = ?, updated_at = ?"@,
{
    reveal_strlit("UPDATE tickets SET ");
    reveal_strlit("SET ");
    reveal_strlit(" WHERE id = ?");
    reveal_strlit("title = ?");
    reveal_strlit("description = ?");
    reveal_strlit("priority = ?");
    reveal_strlit("updated_at = ?");
    reveal_strlit(", ");
    reveal_strlit("title = ?, description = ?, priority = ?, updated_at = ?");
    let a = update_ticket_assignments();
    assert("UPDATE tickets SET "@.subrange(15, 19) =~= "SET "@);
    reveal_with_fuel(placeholders, 20);
    reveal_with_fuel(listed, 5);
    assert(listed(a) =~= "title = ?, description = ?, priority = ?, updated_at = ?"@);
}

proof fn lemma_update_ticket_text()
    ensures
        update_ticket_sql() == update_shape("UPDATE tickets SET "@, update_ticket_assignments(), " WHERE id = ?"@),
{
    lemma_update_ticket_pieces();
    reveal_strlit("UPDATE tickets SET ");
    reveal_strlit(" WHERE id = ?");
    reveal_strlit("title = ?, description = ?, priority = ?, updated_at = ?");
    reveal_strlit("UPDATE tickets SET title = ?, description = ?, priority = ?, updated_at = ?");
    reveal_strlit("UPDATE tickets SET title = ?, description = ?, priority = ?, updated_at = ? WHERE id = ?");
    assert("UPDATE tickets SET "@ + "title = ?, description = ?, priority = ?, updated_at = ?"@
        =~= "UPDATE tickets SET title = ?, description = ?, priority = ?, updated_at = ?"@);
    assert("UPDATE tickets SET title = ?, description = ?, priority = ?, updated_at = ?"@ + " WHERE id = ?"@
        =~= update_ticket_sql());
}

/// The statement that updates a ticket sets its title, description and priority to the
/// given ones and its update time to `now`, and acts on the ticket whose id is `id`.
pub proof fn lemma_update_ticket_columns(
    title: Seq<char>,
    description: Seq<char>,
    priority: Seq<char>,
    now: Seq<char>,
    id: Seq<char>,
)
    ensures
        sets((update_ticket_sql(), seq![title, description, priority, now, id]), "title"@, title),
        sets((update_ticket_sql(), seq![title, description, priority, now, id]), "description"@, description),
        sets((update_ticket_sql(), seq![title, description, priority, now, id]), "priority"@, priority),
        sets((update_ticket_sql(), seq![title, description, priority, now, id]), "updated_at"@, now),
        keyed_by((update_ticket_sql(), seq![title, description, priority, now, id]), "id"@, id),
{
    let params = seq![title, description, priority, now, id];
    let stmt = (update_ticket_sql(), params);
    let head = "UPDATE tickets SET "@;
    let rest = " WHERE id = ?"@;
    let a = update_ticket_assignments();
    lemma_update_ticket_pieces();
    lemma_update_ticket_text();
    reveal_strlit("title");
    reveal_strlit("description");
    reveal_strlit("priority");
    reveal_strlit("updated_at");
    reveal_strlit(" = ?");
    reveal_strlit("title = ?");
    reveal_strlit("description = ?");
    reveal_strlit("priority = ?");
    reveal_strlit("updated_at = ?");
    assert(a[0] =~= "title"@ + " = ?"@);
    assert(a[1] =~= "description"@ + " = ?"@);
    assert(a[2] =~= "priority"@ + " = ?"@);
    assert(a[3] =~= "updated_at"@ + " = ?"@);
    lemma_sets_intro(stmt, head, a, rest, 0, "title"@);
    lemma_sets_intro(stmt, head, a, rest, 1, "description"@);
    lemma_sets_intro(stmt, head, a, rest, 2, "priority"@);
    lemma_sets_intro(stmt, head, a, rest, 3, "updated_at"@);
    lemma_listed_placeholders(a);
    lemma_placeholders_concat(head, listed(a));
    lemma_placeholders_concat(head + listed(a), rest);
    reveal_strlit(" WHERE ");
    reveal_strlit("id");
    reveal_strlit(" WHERE id = ?");
    assert(" WHERE "@ + "id"@ + " = ?"@ =~= rest);
    assert(stmt.0.subrange(stmt.0.len() - rest.len(), stmt.0.len() as int) =~= rest);
}

/// The update of ticket `id` to the payload's title, description and priority, stamped `now`.
pub fn ticket_update_row(id: &str, payload: &CreateTicketInput, now: String) -> (r: SqlStatement)
    ensures
        r@ == (update_ticket_sql(), seq![payload.title@, payload.description@, payload.priority@, now@, id@]),
        sets(r@, "title"@, payload.title@),
        sets(r@, "description"@, payload.description@),
        sets(r@, "priority"@, payload.priority@),
        keyed_by(r@, "id"@, id@),
{
    proof {
        lemma_update_ticket_columns(payload.title@, payload.description@, payload.priority@, now@, id@);
    }
    let id = owned(id);
    let params = list5(&payload.title, &payload.description, &payload.priority, &now, &id);
    statement("UPDATE tickets SET title = ?, description = ?, priority = ?, updated_at = ? WHERE id = ?", params)
}

/// Overwrites the title, description and priority of ticket `id` and stamps the update time.
pub fn update_ticket(id: &str, payload: &CreateTicketInput) -> (r: SqlStatement)
    ensures
        r.sql@ == update_ticket_sql(),
        texts(r.params@) == seq![
            payload.title@, payload.description@, payload.priority@, texts(r.params@)[3], id@,
        ],
        is_utc_stamp(texts(r.params@)[3]),
        sets(r@, "title"@, payload.title@),
        sets(r@, "description"@, payload.description@),
        sets(r@, "priority"@, payload.priority@),
        keyed_by(r@, "id"@, id@),
{
    let now = now_text();
    ticket_update_row(id, payload, now)
}

/// 200 or 500.
pub fn update_ticket_response(result: Result<(), DbError>) -> (r: ApiResponse)
    ensures
        result is Ok ==> is_msg(r, STATUS_OK, "Ticket updated"@),
        result is Err ==> is_error(r, STATUS_INTERNAL_ERROR, "Failed to update ticket"@),
{
    write_response(result, msg_response(STATUS_OK, "Ticket updated"), "Failed to update ticket")
}

/// Every ticket, for agents only.
pub fn get_all_tickets(claims: &Claims) -> (r: Result<SqlStatement, ApiResponse>)
    ensures
        claims.spec_is_agent() ==> (r matches Ok(s) && s@ == ("SELECT * FROM tickets"@, Seq::<Seq<char>>::empty())),
        !claims.spec_is_agent() ==> (r matches Err(resp) && is_error(resp, STATUS_FORBIDDEN, "Access denied: Agents only."@)),
{
    if let Some(resp) = agents_only(claims, "Access denied: Agents only.") {
        return Err(resp);
    }
    let s = statement("SELECT * FROM tickets", Vec::new());
    assert(texts(s.params@) =~= Seq::<Seq<char>>::empty());
    Ok(s)
}

pub fn get_all_tickets_response(rows: Result<Vec<Ticket>, DbError>) -> (r: ApiResponse)
    ensures
        rows matches Ok(v) ==> r.status == STATUS_OK && r.body == Body::Tickets(v),
        rows is Err ==> is_error(r, STATUS_INTERNAL_ERROR, "Failed to fetch tickets"@),
{
    tickets_response(rows, "Failed to fetch tickets")
}

/// The caller's own tickets, for customers only.
pub fn get_my_tickets(claims: &Claims) -> (r: Result<SqlStatement, ApiResponse>)
    ensures
        claims.spec_is_customer() ==> (r matches Ok(s)
            && s@ == ("SELECT * FROM tickets WHERE customer_id = ?"@, seq![claims.sub@])),
        !claims.spec_is_customer() ==> (r matches Err(resp)
            && is_error(resp, STATUS_FORBIDDEN, "Only customers can view their own tickets."@)),
{
    if !claims.is_customer() {
        return Err(error_response(STATUS_FORBIDDEN, "Only customers can view their own tickets."));
    }
    Ok(statement("SELECT * FROM tickets WHERE customer_id = ?", list1(&claims.sub)))
}

pub fn get_my_tickets_response(rows: Result<Vec<Ticket>, DbError>) -> (r: ApiResponse)
    ensures
        rows matches Ok(v) ==> r.status == STATUS_OK && r.body == Body::Tickets(v),
        rows is Err ==> is_error(r, STATUS_INTERNAL_ERROR, "Failed to fetch your tickets"@),
{
    tickets_response(rows, "Failed to fetch your tickets")
}

/// The filters of a ticket search, as given in the query string.
#[derive(Debug, Clone, PartialEq, Eq)]
pub struct SearchFilters {
    pub priority: Option<String>,
    pub status: Option<String>,
    pub keyword: Option<String>,
}

/// The text of an optional string.
pub open spec fn opt_text(o: Option<String>) -> Option<Seq<char>> {
    match o {
        Some(s) => Some(s@),
        None => None,
    }
}

/// The LIKE pattern that matches texts containing `k`.
pub open spec fn like_pattern(k: Seq<char>) -> Seq<char> {
    "%"@ + k + "%"@
}

/// The query text after the priority and status conditions.
pub open spec fn search_query_upto_status(priority: Option<Seq<char>>, status: Option<Seq<char>>) -> Seq<char> {
    let q1 = if priority is Some { "SELECT * FROM tickets WHERE 1=1"@ + " AND priority = ?"@ } else { "SELECT * FROM tickets WHERE 1=1"@ };
    if status is Some { q1 + " AND status = ?"@ } else { q1 }
}

/// The statement a search runs. The query text gains one condition per filter given,
/// but each condition starts a fresh statement from the text so far, keeping only its own
/// values: the statement that runs is the one made by the last filter given (with the
/// earlier conditions' placeholders left unfilled), and with no filter it is the empty
/// statement.
pub open spec fn search_statement(
    priority: Option<Seq<char>>,
    status: Option<Seq<char>>,
    keyword: Option<Seq<char>>,
) -> (Seq<char>, Seq<Seq<char>>) {
    let q1 = search_query_upto_status(priority, None);
    let s1 = match priority {
        Some(p) => (q1, seq![p]),
        None => (""@, Seq::<Seq<char>>::empty()),
    };
    let q2 = search_query_upto_status(priority, status);
    let s2 = match status {
        Some(st) => (q2, seq![st]),
        None => s1,
    };
    match keyword {
        Some(k) => (q2 + " AND (title LIKE ? OR description LIKE ?)"@, seq![like_pattern(k), like_pattern(k)]),
        None => s2,
    }
}

/// A search with one filter runs the base query with that filter's condition and binds
/// exactly that filter's value: the priority, the status, or the keyword wrapped in `%`
/// (once for the title and once for the description). A search with no filter runs the
/// empty statement.
pub proof fn lemma_search_single_filter(priority: Seq<char>, status: Seq<char>, keyword: Seq<char>)
    ensures
        search_statement(Some(priority), None, None)
            == ("SELECT * FROM tickets WHERE 1=1 AND priority = ?"@, seq![priority]),
        search_statement(None, Some(status), None)
            == ("SELECT * FROM tickets WHERE 1=1 AND status = ?"@, seq![status]),
        search_statement(None, None, Some(keyword)) == (
            "SELECT * FROM tickets WHERE 1=1 AND (title LIKE ? OR description LIKE ?)"@,
            seq!["%"@ + keyword + "%"@, "%"@ + keyword + "%"@],
        ),
        search_statement(None, None, None) == (""@, Seq::<Seq<char>>::empty()),
{
    reveal_strlit("SELECT * FROM tickets WHERE 1=1");
    reveal_strlit(" AND priority = ?");
    reveal_strlit(" AND status = ?");
    reveal_strlit(" AND (title LIKE ? OR description LIKE ?)");
    reveal_strlit("SELECT * FROM tickets WHERE 1=1 AND priority = ?");
    reveal_strlit("SELECT * FROM tickets WHERE 1=1 AND status = ?");
    reveal_strlit("SELECT * FROM tickets WHERE 1=1 AND (title LIKE ? OR description LIKE ?)");
    assert("SELECT * FROM tickets WHERE 1=1"@ + " AND priority = ?"@
        =~= "SELECT * FROM tickets WHERE 1=1 AND priority = ?"@);
    assert("SELECT * FROM tickets WHERE 1=1"@ + " AND status = ?"@
        =~= "SELECT * FROM tickets WHERE 1=1 AND status = ?"@);
    assert("SELECT * FROM tickets WHERE 1=1"@ + " AND (title LIKE ? OR description LIKE ?)"@
        =~= "SELECT * FROM tickets WHERE 1=1 AND (title LIKE ? OR description LIKE ?)"@);
}

/// Whatever other filters are given, a keyword filter decides the values: the keyword
/// wrapped in `%`, twice, and the text ends in the keyword's condition. Without a keyword,
/// a status filter decides them: the status alone.
pub proof fn lemma_search_last_filter_binds(
    priority: Option<Seq<char>>,
    status: Option<Seq<char>>,
    keyword: Seq<char>,
    st: Seq<char>,
)
    ensures
        search_statement(priority, status, Some(keyword)).1 == seq!["%"@ + keyword + "%"@, "%"@ + keyword + "%"@],
        search_statement(priority, status, Some(keyword)).0.len() >= " AND (title LIKE ? OR description LIKE ?)"@.len(),
        search_statement(priority, status, Some(keyword)).0.subrange(
            search_statement(priority, status, Some(keyword)).0.len() - " AND (title LIKE ? OR description LIKE ?)"@.len(),
            search_statement(priority, status, Some(keyword)).0.len() as int,
        ) == " AND (title LIKE ? OR description LIKE ?)"@,
        search_statement(priority, Some(st), None).1 == seq![st],
        search_statement(priority, Some(st), None).0.len() >= " AND status = ?"@.len(),
        search_statement(priority, Some(st), None).0.subrange(
            search_statement(priority, Some(st), None).0.len() - " AND status = ?"@.len(),
            search_statement(priority, Some(st), None).0.len() as int,
        ) == " AND status = ?"@,
{
    let t = " AND (title LIKE ? OR description LIKE ?)"@;
    let q = search_query_upto_status(priority, status);
    assert((q + t).subrange(q.len() as int, (q + t).len() as int) =~= t);
    let u = " AND status = ?"@;
    let q1 = search_query_upto_status(priority, None);
    assert((q1 + u).subrange(q1.len() as int, (q1 + u).len() as int) =~= u);
}

proof fn lemma_search_fragment_placeholders()
    ensures
        placeholders("SELECT * FROM tickets WHERE 1=1"@) == 0,
        placeholders(" AND priority = ?"@) == 1,
        placeholders(" AND status = ?"@) == 1,
        placeholders(" AND (title LIKE ? OR description LIKE ?)"@) == 2,
        placeholders(""@) == 0,
{
    reveal_strlit("SELECT * FROM tickets WHERE 1=1");
    reveal_strlit(" AND priority = ?");
    reveal_strlit(" AND status = ?");
    reveal_strlit(" AND (title LIKE ? OR description LIKE ?)");
    reveal_strlit("");
    reveal_with_fuel(placeholders, 45);
}

/// When at most one search filter is given, the statement that runs binds exactly as many
/// values as its text has placeholders. (With two or more filters it does not: priority
/// and status together give a text with two placeholders and one value.)
pub proof fn lemma_search_values_fill_placeholders(
    priority: Option<Seq<char>>,
    status: Option<Seq<char>>,
    keyword: Option<Seq<char>>,
)
    requires
        (if priority is Some { 1int } else { 0int }) + (if status is Some { 1int } else { 0int })
            + (if keyword is Some { 1int } else { 0int }) <= 1,
    ensures
        placeholders(search_statement(priority, status, keyword).0)
            == search_statement(priority, status, keyword).1.len(),
{
    lemma_search_fragment_placeholders();
    let base = "SELECT * FROM tickets WHERE 1=1"@;
    lemma_placeholders_concat(base, " AND priority = ?"@);
    lemma_placeholders_concat(base, " AND status = ?"@);
    lemma_placeholders_concat(base, " AND (title LIKE ? OR description LIKE ?)"@);
}

/// Searches tickets by priority, status and keyword, for agents only.
pub fn search_tickets(filters: &SearchFilters, claims: &Claims) -> (r: Result<SqlStatement, ApiResponse>)
    ensures
        claims.spec_is_agent() ==> (r matches Ok(s) && s@ == search_statement(
            opt_text(filters.priority), opt_text(filters.status), opt_text(filters.keyword))),
        !claims.spec_is_agent() ==> (r matches Err(resp)
            && is_error(resp, STATUS_FORBIDDEN, "Only agents can search tickets"@)),
{
    if let Some(resp) = agents_only(claims, "Only agents can search tickets") {
        return Err(resp);
    }
    let ghost pr = opt_text(filters.priority);
    let ghost st = opt_text(filters.status);
    let mut query = owned("SELECT * FROM tickets WHERE 1=1");
    let mut sql = owned("");
    let mut params: Vec<String> = Vec::new();
    assert(texts(params@) =~= Seq::<Seq<char>>::empty());
    match &filters.priority {
        Some(p) => {
            query.append(" AND priority = ?");
            sql = query.clone();
            params = list1(p);
        },
        None => {},
    }
    assert(query@ == search_query_upto_status(pr, None));
    match &filters.status {
        Some(st) => {
            query.append(" AND status = ?");
            sql = query.clone();
            params = list1(st);
        },
        None => {},
    }
    assert(query@ == search_query_upto_status(pr, st));
    match &filters.keyword {
        Some(k) => {
            query.append(" AND (title LIKE ? OR description LIKE ?)");
            sql = query.clone();
            let pattern = join("%", k.as_str());
            let mut pattern = pattern;
            pattern.append("%");
            params = list2(&pattern, &pattern);
        },
        None => {},
    }
    Ok(SqlStatement { sql, params })
}

pub fn search_tickets_response(rows: Result<Vec<Ticket>, DbError>) -> (r: ApiResponse)
    ensures
        rows matches Ok(v) ==> r.status == STATUS_OK && r.body == Body::Tickets(v),
        rows is Err ==> is_error(r, STATUS_INTERNAL_ERROR, "Failed to search tickets"@),
{
    tickets_response(rows, "Failed to search tickets")
}

/// The three counts behind the ticket statistics.
#[derive(Debug, Clone, PartialEq, Eq)]
pub struct StatsQueries {
    pub total: SqlStatement,
    pub open: SqlStatement,
    pub closed: SqlStatement,
}

/// The counts of all, open and closed tickets, for agents only.
pub fn ticket_stats(claims: &Claims) -> (r: Result<StatsQueries, ApiResponse>)
    ensures
        claims.spec_is_agent() ==> (r matches Ok(q)
            && q.total@ == ("SELECT COUNT(*) FROM tickets"@, Seq::<Seq<char>>::empty())
            && q.open@ == ("SELECT COUNT(*) FROM tickets WHERE status = 'Open'"@, Seq::<Seq<char>>::empty())
            && q.closed@ == ("SELECT COUNT(*) FROM tickets WHERE status = 'Closed'"@, Seq::<Seq<char>>::empty())),
        !claims.spec_is_agent() ==> (r matches Err(resp)
            && is_error(resp, STATUS_FORBIDDEN, "Access denied: Agents only."@)),
{
    if let Some(resp) = agents_only(claims, "Access denied: Agents only.") {
        return Err(resp);
    }
    let total = statement("SELECT COUNT(*) FROM tickets", Vec::new());
    let open = statement("SELECT COUNT(*) FROM tickets WHERE status = 'Open'", Vec::new());
    let closed = statement("SELECT COUNT(*) FROM tickets WHERE status = 'Closed'", Vec::new());
    assert(texts(total.params@) =~= Seq::<Seq<char>>::empty());
    assert(texts(open.params@) =~= Seq::<Seq<char>>::empty());
    assert(texts(closed.params@) =~= Seq::<Seq<char>>::empty());
    Ok(StatsQueries { total, open, closed })
}

/// A count, or 0 where it could not be read.
pub open spec fn count_or_zero(c: Result<i64, DbError>) -> i64 {
    match c {
        Ok(n) => n,
        Err(_) => 0,
    }
}

/// The statistics answer: always 200, a count that failed reads as 0.
pub fn ticket_stats_response(
    total: Result<i64, DbError>,
    open: Result<i64, DbError>,
    closed: Result<i64, DbError>,
) -> (r: ApiResponse)
    ensures
        r.status == STATUS_OK,
        r.body == (Body::Stats {
            total: count_or_zero(total),
            open: count_or_zero(open),
            closed: count_or_zero(closed),
        }),
{
    let total = match total { Ok(n) => n, Err(_) => 0 };
    let open = match open { Ok(n) => n, Err(_) => 0 };
    let closed = match closed { Ok(n) => n, Err(_) => 0 };
    ApiResponse { status: STATUS_OK, body: Body::Stats { total, open, closed } }
}

/// Sets the status of ticket `id` (any caller).
pub fn update_ticket_status(id: &str, payload: &UpdateStatusPayload) -> (r: SqlStatement)
    ensures
        r@ == ("UPDATE tickets SET status = ? WHERE id = ?"@, seq![payload.status@, id@]),
{
    let id = owned(id);
    statement("UPDATE tickets SET status = ? WHERE id = ?", list2(&payload.status, &id))
}

pub fn update_ticket_status_response(result: Result<(), DbError>) -> (r: ApiResponse)
    ensures
        result is Ok ==> is_msg(r, STATUS_OK, "Status updated"@),
        result is Err ==> is_error(r, STATUS_INTERNAL_ERROR, "Failed to update status"@),
{
    write_response(result, msg_response(STATUS_OK, "Status updated"), "Failed to update status")
}

/// Deletes ticket `id`, for agents only.
pub fn delete_ticket_by_id(id: &str, claims: &Claims) -> (r: Result<SqlStatement, ApiResponse>)
    ensures
        claims.spec_is_agent() ==> (r matches Ok(s) && s@ == ("DELETE FROM tickets WHERE id = ?"@, seq![id@])),
        !claims.spec_is_agent() ==> (r matches Err(resp)
            && is_error(resp, STATUS_FORBIDDEN, "Only agents can delete tickets."@)),
{
    if let Some(resp) = agents_only(claims, "Only agents can delete tickets.") {
        return Err(resp);
    }
    let id = owned(id);
    Ok(statement("DELETE FROM tickets WHERE id = ?", list1(&id)))
}

pub fn delete_ticket_by_id_response(result: Result<(), DbError>) -> (r: ApiResponse)
    ensures
        result is Ok ==> is_msg(r, STATUS_OK, "Ticket deleted successfully."@),
        result is Err ==> is_error(r, STATUS_INTERNAL_ERROR, "Failed to delete ticket."@),
{
    write_response(result, msg_response(STATUS_OK, "Ticket deleted successfully."), "Failed to delete ticket.")
}

pub open spec fn ticket_from_email_sql() -> Seq<char> {
    "INSERT INTO tickets (id, title, description, status, priority, customer_id, created_at, updated_at)\n         VALUES (?, ?, ?, 'Open', 'Medium', ?, ?, ?)"@
}

/// The column names of the tickets table, in the order the inserts list them.
pub open spec fn ticket_columns() -> Seq<Seq<char>> {
    seq![
        "id"@, "title"@, "description"@, "status"@, "priority"@, "customer_id"@, "created_at"@,
        "updated_at"@,
    ]
}

proof fn lemma_ticket_columns_bare()
    ensures
        forall|k: int| 0 <= k < ticket_columns().len() ==> bare(#[trigger] ticket_columns()[k]),
        listed(ticket_columns()) == "id, title, description, status, priority, customer_id, created_at, updated_at"@,
{
    reveal_strlit("id");
    reveal_strlit("title");
    reveal_strlit("description");
    reveal_strlit("status");
    reveal_strlit("priority");
    reveal_strlit("customer_id");
    reveal_strlit("created_at");
    reveal_strlit("updated_at");
    reveal_strlit(", ");
    reveal_strlit("id, title, description, status, priority, customer_id, created_at, updated_at");
    reveal_with_fuel(listed, 9);
    let c = ticket_columns();
    assert(listed(c) =~= "id, title, description, status, priority, customer_id, created_at, updated_at"@);
}

/// The value list of the insert that makes a ticket from an email.
spec fn email_ticket_items() -> Seq<Seq<char>> {
    seq!["?"@, "?"@, "?"@, "'Open'"@, "'Medium'"@, "?"@, "?"@, "?"@]
}

proof fn lemma_email_ticket_items()
    ensures
        forall|k: int| 0 <= k < email_ticket_items().len() ==> bare(#[trigger] email_ticket_items()[k]),
        listed(email_ticket_items()) == "?, ?, ?, 'Open', 'Medium', ?, ?, ?"@,
        forall|params: Seq<Seq<char>>| params.len() == 6 ==> {
            &&& item_value(email_ticket_items(), params, 0) == Some(params[0])
            &&& item_value(email_ticket_items(), params, 1) == Some(params[1])
            &&& item_value(email_ticket_items(), params, 2) == Some(params[2])
            &&& item_value(email_ticket_items(), params, 3) == Some("Open"@)
            &&& item_value(email_ticket_items(), params, 4) == Some("Medium"@)
            &&& item_value(email_ticket_items(), params, 5) == Some(params[3])
            &&& item_value(email_ticket_items(), params, 6) == Some(params[4])
            &&& #[trigger] item_value(email_ticket_items(), params, 7) == Some(params[5])
        },
{
    reveal_strlit("?");
    reveal_strlit("'Open'");
    reveal_strlit("'Medium'");
    reveal_strlit("Open");
    reveal_strlit("Medium");
    reveal_strlit(", ");
    reveal_strlit("?, ?, ?, 'Open', 'Medium', ?, ?, ?");
    let items = email_ticket_items();
    reveal_with_fuel(listed, 9);
    assert(listed(items) =~= "?, ?, ?, 'Open', 'Medium', ?, ?, ?"@);
    reveal_with_fuel(placeholders_before, 9);
    assert("Open"@ =~= items[3].subrange(1, items[3].len() - 1));
    assert("Medium"@ =~= items[4].subrange(1, items[4].len() - 1));
}

proof fn lemma_email_ticket_text()
    ensures
        ticket_from_email_sql() == insert_shape(
            "INSERT INTO tickets "@, ticket_columns(), "\n         VALUES "@, email_ticket_items()),
{
    lemma_ticket_columns_bare();
    lemma_email_ticket_items();
    let c0 = "INSERT INTO tickets "@;
    let c1 = "INSERT INTO tickets ("@;
    let c2 = "INSERT INTO tickets (id, title, description, status, priority, customer_id, created_at, updated_at"@;
    let c3 = "INSERT INTO tickets (id, title, description, status, priority, customer_id, created_at, updated_at)"@;
    let c4 = "INSERT INTO tickets (id, title, description, status, priority, customer_id, created_at, updated_at)\n         VALUES "@;
    let c5 = "INSERT INTO tickets (id, title, description, status, priority, customer_id, created_at, updated_at)\n         VALUES ("@;
    let c6 = "INSERT INTO tickets (id, title, description, status, priority, customer_id, created_at, updated_at)\n         VALUES (?, ?, ?, 'Open', 'Medium', ?, ?, ?"@;
    reveal_strlit("INSERT INTO tickets ");
    reveal_strlit("(");
    reveal_strlit(")");
    reveal_strlit("\n         VALUES ");
    reveal_strlit("id, title, description, status, priority, customer_id, created_at, updated_at");
    reveal_strlit("?, ?, ?, 'Open', 'Medium', ?, ?, ?");
    reveal_strlit("INSERT INTO tickets (");
    reveal_strlit("INSERT INTO tickets (id, title, description, status, priority, customer_id, created_at, updated_at");
    reveal_strlit("INSERT INTO tickets (id, title, description, status, priority, customer_id, created_at, updated_at)");
    reveal_strlit("INSERT INTO tickets (id, title, description, status, priority, customer_id, created_at, updated_at)\n         VALUES ");
    reveal_strlit("INSERT INTO tickets (id, title, description, status, priority, customer_id, created_at, updated_at)\n         VALUES (");
    reveal_strlit("INSERT INTO tickets (id, title, description, status, priority, customer_id, created_at, updated_at)\n         VALUES (?, ?, ?, 'Open', 'Medium', ?, ?, ?");
    reveal_strlit("INSERT INTO tickets (id, title, description, status, priority, customer_id, created_at, updated_at)\n         VALUES (?, ?, ?, 'Open', 'Medium', ?, ?, ?)");
    assert(c0 + "("@ =~= c1);
    assert(c1 + "id, title, description, status, priority, customer_id, created_at, updated_at"@ =~= c2);
    assert(c2 + ")"@ =~= c3);
    assert(c3 + "\n         VALUES "@ =~= c4);
    assert(c4 + "("@ =~= c5);
    assert(c5 + "?, ?, ?, 'Open', 'Medium', ?, ?, ?"@ =~= c6);
    assert(c6 + ")"@ =~= ticket_from_email_sql());
}

/// The statement that makes a ticket from an email stores the sender, subject and body where
/// a ticket keeps its customer, title and description: id, subject as title, body as
/// description, status `Open`, priority `Medium`, sender as customer, and `now` as both times.
pub proof fn lemma_email_ticket_columns(
    from: Seq<char>,
    subject: Seq<char>,
    body: Seq<char>,
    id: Seq<char>,
    now: Seq<char>,
)
    ensures
        inserts((ticket_from_email_sql(), seq![id, subject, body, from, now, now]), "id"@, id),
        inserts((ticket_from_email_sql(), seq![id, subject, body, from, now, now]), "title"@, subject),
        inserts((ticket_from_email_sql(), seq![id, subject, body, from, now, now]), "description"@, body),
        inserts((ticket_from_email_sql(), seq![id, subject, body, from, now, now]), "status"@, "Open"@),
        inserts((ticket_from_email_sql(), seq![id, subject, body, from, now, now]), "priority"@, "Medium"@),
        inserts((ticket_from_email_sql(), seq![id, subject, body, from, now, now]), "customer_id"@, from),
        inserts((ticket_from_email_sql(), seq![id, subject, body, from, now, now]), "created_at"@, now),
        inserts((ticket_from_email_sql(), seq![id, subject, body, from, now, now]), "updated_at"@, now),
{
    let params = seq![id, subject, body, from, now, now];
    let stmt = (ticket_from_email_sql(), params);
    let head = "INSERT INTO tickets "@;
    let mid = "\n         VALUES "@;
    let items = email_ticket_items();
    let cols = ticket_columns();
    lemma_ticket_columns_bare();
    lemma_email_ticket_items();
    lemma_email_ticket_text();
    assert(item_value(items, params, 7) == Some(params[5]));
    reveal_strlit("INSERT INTO tickets ");
    lemma_no_placeholders(head);
    reveal_strlit("\n         VALUES ");
    lemma_no_placeholders(mid);
    lemma_inserts_intro(stmt, head, cols, mid, items, 0, id);
    lemma_inserts_intro(stmt, head, cols, mid, items, 1, subject);
    lemma_inserts_intro(stmt, head, cols, mid, items, 2, body);
    lemma_inserts_intro(stmt, head, cols, mid, items, 3, "Open"@);
    lemma_inserts_intro(stmt, head, cols, mid, items, 4, "Medium"@);
    lemma_inserts_intro(stmt, head, cols, mid, items, 5, from);
    lemma_inserts_intro(stmt, head, cols, mid, items, 6, now);
    lemma_inserts_intro(stmt, head, cols, mid, items, 7, now);
}

/// The row of a new open ticket of medium priority with id `id` from an incoming email,
/// created and updated at `now`.
pub fn ticket_from_email_row(from: &str, subject: &str, body: &str, id: String, now: String) -> (r: SqlStatement)
    ensures
        r@ == (ticket_from_email_sql(), seq![id@, subject@, body@, from@, now@, now@]),
        inserts(r@, "title"@, subject@),
        inserts(r@, "description"@, body@),
        inserts(r@, "status"@, "Open"@),
        inserts(r@, "priority"@, "Medium"@),
        inserts(r@, "customer_id"@, from@),
{
    proof {
        lemma_email_ticket_columns(from@, subject@, body@, id@, now@);
    }
    let subject = owned(subject);
    let body = owned(body);
    let from = owned(from);
    let params = list6(&id, &subject, &body, &from, &now, &now);
    statement(
        "INSERT INTO tickets (id, title, description, status, priority, customer_id, created_at, updated_at)\n         VALUES (?, ?, ?, 'Open', 'Medium', ?, ?, ?)",
        params,
    )
}

/// A new open ticket of medium priority from an incoming email: the subject as title,
/// the body as description and the sender as customer.
pub fn create_ticket_from_email(from: &str, subject: &str, body: &str) -> (r: SqlStatement)
    ensures
        r.sql@ == ticket_from_email_sql(),
        is_uuid_v4_text(texts(r.params@)[0]),
        texts(r.params@) == seq![
            texts(r.params@)[0], subject@, body@, from@, texts(r.params@)[4], texts(r.params@)[4],
        ],
        is_utc_stamp(texts(r.params@)[4]),
        inserts(r@, "title"@, subject@),
        inserts(r@, "description"@, body@),
        inserts(r@, "status"@, "Open"@),
        inserts(r@, "priority"@, "Medium"@),
        inserts(r@, "customer_id"@, from@),
{
    let id = new_id();
    let now = now_text();
    ticket_from_email_row(from, subject, body, id, now)
}

} // verus!
