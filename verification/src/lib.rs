//! Verified core of a customer-support ticketing backend: role checks,
//! token framing, request decisions and the SQL statements they issue.

pub mod text;
pub mod models;
pub mod sql;
pub mod jwt;
pub mod ids;
pub mod password;
pub mod api;
pub mod email;
