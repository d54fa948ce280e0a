//! Request handling: each handler decides, from the caller's claims and the request,
//! either an immediate answer or the SQL statement to run, and then turns the
//! outcome of that statement into the answer.

pub mod response;
pub mod auth;
pub mod ticket;
pub mod note;
pub mod public_note;
pub mod reply;
pub mod channels;
