use customer_support::api::ticket::{new_ticket_row, ticket_from_email_row, ticket_update_row};
use customer_support::api::channels::{get_all_messages, get_all_messages_response};
use customer_support::api::response::{ApiResponse, Body};
use customer_support::api::ticket::{
    create_ticket, create_ticket_from_email, create_ticket_response, delete_ticket_by_id,
    delete_ticket_by_id_response, get_all_tickets, get_all_tickets_response, get_my_tickets, get_my_tickets_response,
    search_tickets, search_tickets_response, ticket_stats, ticket_stats_response, update_ticket,
    update_ticket_response, update_ticket_status, update_ticket_status_response, SearchFilters,
};
use customer_support::jwt::Claims;
use customer_support::models::{CreateTicketInput, Message, Ticket, UpdateStatusPayload};
use customer_support::sql::DbError;

fn agent() -> Claims {
    Claims { sub: "agent-1".to_string(), role: "Agent".to_string(), exp: 0 }
}

fn customer() -> Claims {
    Claims { sub: "cust-1".to_string(), role: "Customer".to_string(), exp: 0 }
}

fn forbidden(r: &ApiResponse, text: &str) -> bool {
    r.status == 403 && r.body == Body::Error(text.to_string())
}

fn is_uuid_v4(s: &str) -> bool {
    s.len() == 36
        && s.char_indices().all(|(i, c)| {
            if i == 8 || i == 13 || i == 18 || i == 23 { c == '-' } else { c.is_ascii_hexdigit() && !c.is_ascii_uppercase() }
        })
        && s.as_bytes()[14] == b'4'
}

fn ticket(id: &str) -> Ticket {
    Ticket {
        id: id.to_string(),
        title: "t".to_string(),
        description: "d".to_string(),
        status: "Open".to_string(),
        priority: "High".to_string(),
        customer_id: "cust-1".to_string(),
        created_at: "c".to_string(),
        updated_at: "u".to_string(),
    }
}

fn input() -> CreateTicketInput {
    CreateTicketInput { title: "Printer".to_string(), description: "Jammed".to_string(), priority: "High".to_string() }
}

fn filters(priority: Option<&str>, status: Option<&str>, keyword: Option<&str>) -> SearchFilters {
    SearchFilters {
        priority: priority.map(|s| s.to_string()),
        status: status.map(|s| s.to_string()),
        keyword: keyword.map(|s| s.to_string()),
    }
}

#[test]
fn create_ticket_inserts_an_open_ticket_for_the_caller() {
    let c = create_ticket(&customer(), &input());
    assert!(is_uuid_v4(&c.id));
    assert!(c.statement.sql.contains("'Open'"));
    assert!(c.statement.sql.starts_with("INSERT INTO tickets (id, title, description, status, priority, customer_id, created_at, updated_at)"));
    let p = &c.statement.params;
    assert_eq!(p.len(), 7);
    assert_eq!(p[0], c.id);
    assert_eq!(&p[1..5], &["Printer", "Jammed", "High", "cust-1"]);
    assert_eq!(p[5], p[6]);
    assert!(!p[5].is_empty());
}

#[test]
fn created_tickets_get_distinct_ids() {
    assert_ne!(create_ticket(&customer(), &input()).id, create_ticket(&customer(), &input()).id);
}

#[test]
fn create_ticket_answers() {
    let ok = create_ticket_response(Ok(()), "abc");
    assert_eq!(ok.status, 201);
    assert_eq!(ok.body, Body::MsgWithTicketId("Ticket created".to_string(), "abc".to_string()));
    let err = create_ticket_response(Err(DbError), "abc");
    assert_eq!(err.status, 500);
    assert_eq!(err.body, Body::Error("Failed to create ticket".to_string()));
}

#[test]
fn update_ticket_overwrites_fields() {
    let s = update_ticket("t-1", &input());
    assert_eq!(s.sql, "UPDATE tickets SET title = ?, description = ?, priority = ?, updated_at = ? WHERE id = ?");
    assert_eq!(s.params.len(), 5);
    assert_eq!(&s.params[0..3], &["Printer", "Jammed", "High"]);
    assert_eq!(s.params[4], "t-1");
    assert_eq!(update_ticket_response(Ok(())).body, Body::Msg("Ticket updated".to_string()));
    assert_eq!(update_ticket_response(Err(DbError)).status, 500);
}

#[test]
fn all_tickets_are_for_agents() {
    let r = get_all_tickets(&customer()).unwrap_err();
    assert!(forbidden(&r, "Access denied: Agents only."));
    let s = get_all_tickets(&agent()).unwrap();
    assert_eq!(s.sql, "SELECT * FROM tickets");
    assert!(s.params.is_empty());
    let ok = get_all_tickets_response(Ok(vec![ticket("a"), ticket("b")]));
    assert_eq!(ok.status, 200);
    assert_eq!(ok.body, Body::Tickets(vec![ticket("a"), ticket("b")]));
    let err = get_all_tickets_response(Err(DbError));
    assert_eq!(err.body, Body::Error("Failed to fetch tickets".to_string()));
}

#[test]
fn my_tickets_are_for_customers_and_filtered_by_caller() {
    let r = get_my_tickets(&agent()).unwrap_err();
    assert!(forbidden(&r, "Only customers can view their own tickets."));
    let s = get_my_tickets(&customer()).unwrap();
    assert_eq!(s.sql, "SELECT * FROM tickets WHERE customer_id = ?");
    assert_eq!(s.params, vec!["cust-1".to_string()]);
    let err = get_my_tickets_response(Err(DbError));
    assert_eq!(err.body, Body::Error("Failed to fetch your tickets".to_string()));
}

#[test]
fn search_is_for_agents() {
    let r = search_tickets(&filters(None, None, None), &customer()).unwrap_err();
    assert!(forbidden(&r, "Only agents can search tickets"));
}

#[test]
fn search_without_filters_runs_the_empty_statement() {
    let s = search_tickets(&filters(None, None, None), &agent()).unwrap();
    assert_eq!(s.sql, "");
    assert!(s.params.is_empty());
}

#[test]
fn search_by_priority() {
    let s = search_tickets(&filters(Some("High"), None, None), &agent()).unwrap();
    assert_eq!(s.sql, "SELECT * FROM tickets WHERE 1=1 AND priority = ?");
    assert_eq!(s.params, vec!["High".to_string()]);
}

#[test]
fn search_by_keyword() {
    let s = search_tickets(&filters(None, None, Some("print")), &agent()).unwrap();
    assert_eq!(s.sql, "SELECT * FROM tickets WHERE 1=1 AND (title LIKE ? OR description LIKE ?)");
    assert_eq!(s.params, vec!["%print%".to_string(), "%print%".to_string()]);
}

#[test]
fn search_with_several_filters_keeps_only_the_last_values() {
    let s = search_tickets(&filters(Some("High"), Some("Open"), None), &agent()).unwrap();
    assert_eq!(s.sql, "SELECT * FROM tickets WHERE 1=1 AND priority = ? AND status = ?");
    assert_eq!(s.params, vec!["Open".to_string()]);
    let s = search_tickets(&filters(Some("High"), Some("Open"), Some("x")), &agent()).unwrap();
    assert_eq!(
        s.sql,
        "SELECT * FROM tickets WHERE 1=1 AND priority = ? AND status = ? AND (title LIKE ? OR description LIKE ?)"
    );
    assert_eq!(s.params, vec!["%x%".to_string(), "%x%".to_string()]);
    assert_eq!(search_tickets_response(Err(DbError)).body, Body::Error("Failed to search tickets".to_string()));
}

#[test]
fn stats_are_for_agents() {
    assert!(ticket_stats(&customer()).is_err());
    let q = ticket_stats(&agent()).unwrap();
    assert_eq!(q.total.sql, "SELECT COUNT(*) FROM tickets");
    assert_eq!(q.open.sql, "SELECT COUNT(*) FROM tickets WHERE status = 'Open'");
    assert_eq!(q.closed.sql, "SELECT COUNT(*) FROM tickets WHERE status = 'Closed'");
}

#[test]
fn failed_counts_read_as_zero() {
    let r = ticket_stats_response(Ok(5), Err(DbError), Ok(2));
    assert_eq!(r.status, 200);
    assert_eq!(r.body, Body::Stats { total: 5, open: 0, closed: 2 });
}

#[test]
fn status_update_binds_status_then_id() {
    let s = update_ticket_status("t-9", &UpdateStatusPayload { status: "Closed".to_string() });
    assert_eq!(s.sql, "UPDATE tickets SET status = ? WHERE id = ?");
    assert_eq!(s.params, vec!["Closed".to_string(), "t-9".to_string()]);
    assert_eq!(update_ticket_status_response(Ok(())).body, Body::Msg("Status updated".to_string()));
    assert_eq!(update_ticket_status_response(Err(DbError)).body, Body::Error("Failed to update status".to_string()));
}

#[test]
fn delete_is_for_agents() {
    let r = delete_ticket_by_id("t-1", &customer()).unwrap_err();
    assert!(forbidden(&r, "Only agents can delete tickets."));
    let s = delete_ticket_by_id("t-1", &agent()).unwrap();
    assert_eq!(s.sql, "DELETE FROM tickets WHERE id = ?");
    assert_eq!(s.params, vec!["t-1".to_string()]);
    assert_eq!(delete_ticket_by_id_response(Ok(())).body, Body::Msg("Ticket deleted successfully.".to_string()));
    assert_eq!(delete_ticket_by_id_response(Err(DbError)).status, 500);
}

#[test]
fn email_becomes_an_open_medium_ticket() {
    let s = create_ticket_from_email("bob@example.com", "Help", "It broke");
    assert!(s.sql.contains("'Open', 'Medium'"));
    assert_eq!(s.params.len(), 6);
    assert!(is_uuid_v4(&s.params[0]));
    assert_eq!(&s.params[1..4], &["Help", "It broke", "bob@example.com"]);
    assert_eq!(s.params[4], s.params[5]);
}

#[test]
fn messages_are_for_agents() {
    let r = get_all_messages(&customer()).unwrap_err();
    assert!(forbidden(&r, "Only agents can view messages."));
    let s = get_all_messages(&agent()).unwrap();
    assert_eq!(s.sql, "SELECT * FROM messages ORDER BY timestamp DESC");
    let m = Message {
        id: "m".to_string(),
        channel: "email".to_string(),
        sender: "a".to_string(),
        recipient: "b".to_string(),
        content: "hi".to_string(),
        timestamp: "now".to_string(),
        ticket_id: None,
    };
    assert_eq!(get_all_messages_response(Ok(vec![m.clone()])).body, Body::Messages(vec![m]));
    assert_eq!(get_all_messages_response(Err(DbError)).body, Body::Error("Failed to fetch messages".to_string()));
}

#[test]
fn rows_take_the_id_and_time_given() {
    let c = new_ticket_row(&customer(), &input(), "ID".to_string(), "NOW".to_string());
    assert_eq!(c.id, "ID");
    assert_eq!(c.statement.params, vec!["ID", "Printer", "Jammed", "High", "cust-1", "NOW", "NOW"]);
    let u = ticket_update_row("t-1", &input(), "NOW".to_string());
    assert_eq!(u.params, vec!["Printer", "Jammed", "High", "NOW", "t-1"]);
    let e = ticket_from_email_row("bob", "Help", "Body", "ID".to_string(), "NOW".to_string());
    assert_eq!(e.params, vec!["ID", "Help", "Body", "bob", "NOW", "NOW"]);
}

#[test]
fn time_stamps_are_utc() {
    let c = create_ticket(&customer(), &input());
    assert!(c.statement.params[5].ends_with(" +00:00:00"));
    let u = update_ticket("t", &input());
    assert!(u.params[3].ends_with(" +00:00:00"));
}
