# customer_support

Backend of a customer-support ticketing system (tickets, internal and public notes,
agent replies by email, tickets from incoming email, JWT sessions), split in two:

- `src/` is the verified library. For every HTTP endpoint it decides, from
  the caller's claims and the request, either the immediate answer or the SQL statement
  to run, and turns the statement's outcome into the answer. It also frames and checks
  session tokens, hashes and checks passwords, and reads incoming mail.
  - `jwt.rs`: claims, roles, token issue and acceptance, the `Authorization` header.
  - `api/`: one module per group of endpoints, and `response.rs` for answers.
  - `sql.rs`: statements and their bound values; `models.rs`: rows and request bodies.
  - `ids.rs`, `password.rs`, `email.rs`, `text.rs`: ids and time stamps, bcrypt,
    mail parsing, string helpers.
- `app/` is the server: axum routing, the SQLite pool, IMAP and SMTP, the environment,
  and serde/sqlx copies of the library's types.

Configuration comes from the environment (`DATABASE_URL`, `JWT_SECRET`).
