use vstd::prelude::*;
use crate::api::response::{
    error_response, is_error, is_msg, msg_response, write_response, ApiResponse, Body, STATUS_CREATED,
    STATUS_INTERNAL_ERROR, STATUS_OK, STATUS_UNAUTHORIZED,
};
use crate::ids::{is_utc_stamp, is_uuid_v4_text, new_id, now_text};
use crate::jwt::{
    bearer_outcome, claims_text_spec, expiry_for, generate_token_at, jwt_hs256_signed,
    lemma_issued_token_decodes_to_its_claims, token_at, utc_now_timestamp, Rejection, TokenError, MAX_UTC_TIMESTAMP,
    TOKEN_LIFETIME,
};
use crate::models::{LoginInput, RegisterInput, User};
use crate::password::{hash_password, is_bcrypt_text, password_accepted, password_matches};
use crate::sql::{
    bare, insert_shape, inserts, item_value, lemma_inserts_intro, lemma_no_placeholders, list1, list6, listed,
    placeholders_before, statement, DbError, SqlStatement,
};

verus! {

/// The password could not be hashed (the system's random source failed).
#[derive(Debug, Clone, Copy, PartialEq, Eq)]
pub struct HashingFailed;

pub open spec fn register_sql() -> Seq<char> {
    "INSERT INTO users (id, name, email, password, role, created_at) VALUES (?, ?, ?, ?, ?, ?)"@
}

/// The columns the users insert lists, in order.
spec fn user_columns() -> Seq<Seq<char>> {
    seq!["id"@, "name"@, "email"@, "password"@, "role"@, "created_at"@]
}

proof fn lemma_user_columns_bare()
    ensures
        forall|k: int| 0 <= k < user_columns().len() ==> bare(#[trigger] user_columns()[k]),
        listed(user_columns()) == "id, name, email, password, role, created_at"@,
{
    reveal_strlit("created_at");
    reveal_strlit("email");
    reveal_strlit("id");
    reveal_strlit("name");
    reveal_strlit("password");
    reveal_strlit("role");
    reveal_strlit(", ");
    reveal_strlit("id, name, email, password, role, created_at");
    reveal_with_fuel(listed, 7);
    assert(listed(user_columns()) =~= "id, name, email, password, role, created_at"@);
}

/// The value list of the users insert.
spec fn user_items() -> Seq<Seq<char>> {
    seq!["?"@, "?"@, "?"@, "?"@, "?"@, "?"@]
}

proof fn lemma_user_items()
    ensures
        forall|k: int| 0 <= k < user_items().len() ==> bare(#[trigger] user_items()[k]),
        listed(user_items()) == "?, ?, ?, ?, ?, ?"@,
        forall|params: Seq<Seq<char>>| params.len() == 6 ==> {
            &&& item_value(user_items(), params, 0) == Some(params[0])
            &&& item_value(user_items(), params, 1) == Some(params[1])
            &&& item_value(user_items(), params, 2) == Some(params[2])
            &&& item_value(user_items(), params, 3) == Some(params[3])
            &&& item_value(user_items(), params, 4) == Some(params[4])
            &&& #[trigger] item_value(user_items(), params, 5) == Some(params[5])
        },
{
    reveal_strlit("?");
    reveal_strlit(", ");
    reveal_strlit("?, ?, ?, ?, ?, ?");
    let items = user_items();
    reveal_with_fuel(listed, 7);
    assert(listed(items) =~= "?, ?, ?, ?, ?, ?"@);
    reveal_with_fuel(placeholders_before, 7);
}

proof fn lemma_user_text()
    ensures
        register_sql() == insert_shape("INSERT INTO users "@, user_columns(), " VALUES "@, user_items()),
{
    lemma_user_columns_bare();
    lemma_user_items();
    reveal_strlit("INSERT INTO users ");
    reveal_strlit("(");
    reveal_strlit("id, name, email, password, role, created_at");
    reveal_strlit(")");
    reveal_strlit(" VALUES ");
    reveal_strlit("?, ?, ?, ?, ?, ?");
    reveal_strlit("INSERT INTO users (");
    reveal_strlit("INSERT INTO users (id, name, email, password, role, created_at");
    reveal_strlit("INSERT INTO users (id, name, email, password, role, created_at)");
    reveal_strlit("INSERT INTO users (id, name, email, password, role, created_at) VALUES ");
    reveal_strlit("INSERT INTO users (id, name, email, password, role, created_at) VALUES (");
    reveal_strlit("INSERT INTO users (id, name, email, password, role, created_at) VALUES (?, ?, ?, ?, ?, ?");
    reveal_strlit("INSERT INTO users (id, name, email, password, role, created_at) VALUES (?, ?, ?, ?, ?, ?)");
    assert("INSERT INTO users "@ + "("@ =~= "INSERT INTO users ("@);
    assert("INSERT INTO users ("@ + "id, name, email, password, role, created_at"@ =~= "INSERT INTO users (id, name, email, password, role, created_at"@);
    assert("INSERT INTO users (id, name, email, password, role, created_at"@ + ")"@ =~= "INSERT INTO users (id, name, email, password, role, created_at)"@);
    assert("INSERT INTO users (id, name, email, password, role, created_at)"@ + " VALUES "@ =~= "INSERT INTO users (id, name, email, password, role, created_at) VALUES "@);
    assert("INSERT INTO users (id, name, email, password, role, created_at) VALUES "@ + "("@ =~= "INSERT INTO users (id, name, email, password, role, created_at) VALUES ("@);
    assert("INSERT INTO users (id, name, email, password, role, created_at) VALUES ("@ + "?, ?, ?, ?, ?, ?"@ =~= "INSERT INTO users (id, name, email, password, role, created_at) VALUES (?, ?, ?, ?, ?, ?"@);
    assert("INSERT INTO users (id, name, email, password, role, created_at) VALUES (?, ?, ?, ?, ?, ?"@ + ")"@ =~= register_sql());
}

/// The statement that registers a user stores the id, the name as `name`, the email as
/// `email`, the password hash as `password`, the role as `role` and `now` as the creation time.
pub proof fn lemma_registration_columns(
    id: Seq<char>,
    name: Seq<char>,
    email: Seq<char>,
    hash: Seq<char>,
    role: Seq<char>,
    now: Seq<char>,
)
    ensures
        inserts((register_sql(), seq![id, name, email, hash, role, now]), "id"@, id),
        inserts((register_sql(), seq![id, name, email, hash, role, now]), "name"@, name),
        inserts((register_sql(), seq![id, name, email, hash, role, now]), "email"@, email),
        inserts((register_sql(), seq![id, name, email, hash, role, now]), "password"@, hash),
        inserts((register_sql(), seq![id, name, email, hash, role, now]), "role"@, role),
        inserts((register_sql(), seq![id, name, email, hash, role, now]), "created_at"@, now),
{
    let params = seq![id, name, email, hash, role, now];
    let stmt = (register_sql(), params);
    let items = user_items();
    let cols = user_columns();
    lemma_user_columns_bare();
    lemma_user_items();
    lemma_user_text();
    assert(item_value(items, params, 5) == Some(params[5]));
    reveal_strlit("INSERT INTO users ");
    lemma_no_placeholders("INSERT INTO users "@);
    reveal_strlit(" VALUES ");
    lemma_no_placeholders(" VALUES "@);
    lemma_inserts_intro(stmt, "INSERT INTO users "@, cols, " VALUES "@, items, 0, id);
    lemma_inserts_intro(stmt, "INSERT INTO users "@, cols, " VALUES "@, items, 1, name);
    lemma_inserts_intro(stmt, "INSERT INTO users "@, cols, " VALUES "@, items, 2, email);
    lemma_inserts_intro(stmt, "INSERT INTO users "@, cols, " VALUES "@, items, 3, hash);
    lemma_inserts_intro(stmt, "INSERT INTO users "@, cols, " VALUES "@, items, 4, role);
    lemma_inserts_intro(stmt, "INSERT INTO users "@, cols, " VALUES "@, items, 5, now);
}

/// `s` is the row a registration writes for `payload`: a fresh id, the given name, email
/// and role, a bcrypt hash that accepts the given password, and the current UTC time, the
/// name, email, hash and role each stored in the column of that name.
pub open spec fn registration_row(payload: RegisterInput, s: (Seq<char>, Seq<Seq<char>>)) -> bool {
    &&& s.0 == register_sql()
    &&& s.1 == seq![s.1[0], payload.name@, payload.email@, s.1[3], payload.role@, s.1[5]]
    &&& is_uuid_v4_text(s.1[0])
    &&& password_accepted(payload.password@, s.1[3])
    &&& is_bcrypt_text(s.1[3])
    &&& is_utc_stamp(s.1[5])
    &&& inserts(s, "name"@, payload.name@)
    &&& inserts(s, "email"@, payload.email@)
    &&& inserts(s, "password"@, s.1[3])
    &&& inserts(s, "role"@, payload.role@)
}

/// What is stored for the password is a bcrypt hash, never the password itself (unless the
/// password is itself text of a bcrypt hash's form).
pub proof fn lemma_stored_hash_is_not_the_password(
    payload: RegisterInput,
    stored: (Seq<char>,
    Seq<Seq<char>>),
)
    requires
        registration_row(payload, stored),
        !is_bcrypt_text(payload.password@),
    ensures
        stored.1[3] != payload.password@,
{
}

/// The row that registers a user for `payload`, once the password has been hashed: the id,
/// name, email, hash, role and time given. A failed hash registers nothing.
pub fn registration(
    payload: &RegisterInput,
    hashed: Result<String, HashingFailed>,
    id: String,
    now: String,
) -> (r: Result<SqlStatement, HashingFailed>)
    ensures
        hashed matches Ok(h) ==> (r matches Ok(s)
            && s@ == (register_sql(), seq![id@, payload.name@, payload.email@, h@, payload.role@, now@])
            && inserts(s@, "name"@, payload.name@)
            && inserts(s@, "email"@, payload.email@)
            && inserts(s@, "password"@, h@)
            && inserts(s@, "role"@, payload.role@)),
        hashed is Err ==> r == Err::<SqlStatement, HashingFailed>(HashingFailed),
{
    let hashed = match hashed {
        Ok(h) => h,
        Err(e) => return Err(e),
    };
    proof {
        lemma_registration_columns(id@, payload.name@, payload.email@, hashed@, payload.role@, now@);
    }
    let params = list6(&id, &payload.name, &payload.email, &hashed, &payload.role, &now);
    Ok(statement("INSERT INTO users (id, name, email, password, role, created_at) VALUES (?, ?, ?, ?, ?, ?)", params))
}

/// The row that registers a new user; the password is stored hashed, under a fresh id
/// and the current time. It fails only when hashing fails.
pub fn register(payload: &RegisterInput) -> (r: Result<SqlStatement, HashingFailed>)
    ensures
        r matches Ok(s) ==> registration_row(*payload, s@),
{
    let hashed = match hash_password(payload.password.as_str()) {
        Ok(h) => Ok(h),
        Err(_) => Err(HashingFailed),
    };
    let now = now_text();
    let id = new_id();
    registration(payload, hashed, id, now)
}

/// 201 or 500.
pub fn register_response(result: Result<(), DbError>) -> (r: ApiResponse)
    ensures
        result is Ok ==> is_msg(r, STATUS_CREATED, "User registered!"@),
        result is Err ==> is_error(r, STATUS_INTERNAL_ERROR, "Register failed"@),
{
    write_response(result, msg_response(STATUS_CREATED, "User registered!"), "Register failed")
}

/// Looks the user up by email.
pub fn login(payload: &LoginInput) -> (r: SqlStatement)
    ensures
        r@ == ("SELECT * FROM users WHERE email = ?"@, seq![payload.email@]),
{
    statement("SELECT * FROM users WHERE email = ?", list1(&payload.email))
}

/// A login succeeds when the user exists and the password matches the stored hash.
pub open spec fn login_accepts(row: Option<User>, password: Seq<char>) -> bool {
    row matches Some(u) && password_accepted(password, u.password@)
}

/// `resp` is the 200 session answer for `user` carrying `token`, with the user's role and id.
pub open spec fn session_answer(resp: ApiResponse, user: User, token: Seq<char>) -> bool {
    &&& resp.status == STATUS_OK
    &&& resp.body matches Body::Session { token: t, role, id }
    &&& t@ == token
    &&& role@ == user.role@
    &&& id@ == user.id@
}

/// `resp` opens a session for `user`: the session answer carrying a token issued for them
/// under `secret` at some time that leaves the token's expiry representable.
pub open spec fn is_session_for(resp: ApiResponse, user: User, secret: Seq<u8>) -> bool {
    &&& resp.body matches Body::Session { token, .. }
    &&& session_answer(resp, user, token@)
    &&& exists|now: int|
        #![trigger token_at(user.id@, user.role@, now, secret)]
        now + TOKEN_LIFETIME <= MAX_UTC_TIMESTAMP && token_at(user.id@, user.role@, now, secret) == Some(token@)
}

/// `resp` is the session answer for `user` carrying the token issued for them at `now` under
/// `secret`, which passes the signature check.
pub open spec fn session_issued_at(resp: ApiResponse, user: User, now: int, secret: Seq<u8>) -> bool {
    &&& resp.body matches Body::Session { token, .. }
    &&& session_answer(resp, user, token@)
    &&& token_at(user.id@, user.role@, now, secret) == Some(token@)
    &&& jwt_hs256_signed(token@, secret)
}

/// What a login with `password` is answered when the clock reads `now`: 401 when it is not
/// accepted; for an accepted user the out-of-range error when a day after `now` is past the
/// last representable instant, and otherwise the session with the token issued at `now`.
pub open spec fn login_answer_at(
    row: Option<User>,
    password: Seq<char>,
    now: int,
    secret: Seq<u8>,
    r: Result<ApiResponse, TokenError>,
) -> bool {
    if !login_accepts(row, password) {
        r matches Ok(resp) && is_error(resp, STATUS_UNAUTHORIZED, "Invalid credentials"@)
    } else if now + TOKEN_LIFETIME > MAX_UTC_TIMESTAMP {
        r == Err::<ApiResponse, TokenError>(TokenError::ExpiryOutOfRange)
    } else {
        r matches Ok(resp) && session_issued_at(resp, row->0, now, secret)
    }
}

/// Whether the login is accepted.
fn login_accepted(payload: &LoginInput, row: &Option<User>) -> (r: bool)
    ensures
        r == login_accepts(*row, payload.password@),
{
    match row {
        Some(user) => password_matches(payload.password.as_str(), user.password.as_str()),
        None => false,
    }
}

/// The session answer for `user` with a token issued when the clock reads `now`.
fn issue_session(user: User, now: i64, secret: &[u8]) -> (r: Result<ApiResponse, TokenError>)
    ensures
        now + TOKEN_LIFETIME > MAX_UTC_TIMESTAMP ==> r == Err::<ApiResponse, TokenError>(TokenError::ExpiryOutOfRange),
        now + TOKEN_LIFETIME <= MAX_UTC_TIMESTAMP ==> (r matches Ok(resp)
            && session_issued_at(resp, user, now as int, secret@)),
{
    let token = match generate_token_at(user.id.as_str(), user.role.as_str(), now, secret) {
        Ok(t) => t,
        Err(e) => return Err(e),
    };
    Ok(ApiResponse { status: STATUS_OK, body: Body::Session { token, role: user.role, id: user.id } })
}

/// The answer to a login once the user has been looked up, with the clock reading `now`:
/// 401 unless the user exists and the password matches; then 200 with a token for the user
/// issued at `now` and signed with `secret`, and their role and id.
pub fn login_check_at(payload: &LoginInput, row: Option<User>, now: i64, secret: &[u8]) -> (r: Result<ApiResponse, TokenError>)
    ensures
        login_answer_at(row, payload.password@, now as int, secret@, r),
{
    if !login_accepted(payload, &row) {
        return Ok(error_response(STATUS_UNAUTHORIZED, "Invalid credentials"));
    }
    match row {
        Some(user) => issue_session(user, now, secret),
        None => Ok(error_response(STATUS_UNAUTHORIZED, "Invalid credentials")),
    }
}

/// The answer to a login once the user has been looked up: a session token for the user
/// (signed with `secret`, issued now) with their role and id, or 401. The clock is read only
/// for an accepted user, and the answer is the one `login_check_at` gives for that reading.
pub fn login_check(payload: &LoginInput, row: Option<User>, secret: &[u8]) -> (r: Result<ApiResponse, TokenError>)
    ensures
        exists|now: int| #[trigger] login_answer_at(row, payload.password@, now, secret@, r),
        !login_accepts(row, payload.password@) ==> (r matches Ok(resp)
            && is_error(resp, STATUS_UNAUTHORIZED, "Invalid credentials"@)),
        login_accepts(row, payload.password@) && r is Ok ==> is_session_for(r->Ok_0, row->0, secret@),
{
    if !login_accepted(payload, &row) {
        let r = Ok(error_response(STATUS_UNAUTHORIZED, "Invalid credentials"));
        assert(login_answer_at(row, payload.password@, 0, secret@, r));
        return r;
    }
    let user = match row {
        Some(u) => u,
        None => return Ok(error_response(STATUS_UNAUTHORIZED, "Invalid credentials")),
    };
    let now = utc_now_timestamp();
    let r = issue_session(user, now, secret);
    assert(login_answer_at(row, payload.password@, now as int, secret@, r));
    r
}

/// A user who registered with a password, and whose row is found, is let in with that
/// password.
pub proof fn lemma_registered_password_logs_in(
    payload: RegisterInput,
    stored: (Seq<char>,
    Seq<Seq<char>>),
    row: User,
)
    requires
        registration_row(payload, stored),
        row.password@ == stored.1[3],
    ensures
        login_accepts(Some(row), payload.password@),
{
}

/// The token a login hands out, sent back as `Bearer <token>` and accepted, is read as the
/// claims of the user who logged in: their id and role, expiring one day after issue.
pub proof fn lemma_session_token_names_its_user(
    user: User,
    secret: Seq<u8>,
    resp: ApiResponse,
    token: String,
    header: Seq<char>,
    accepted: Result<String, Rejection>,
)
    requires
        is_session_for(resp, user, secret),
        resp.body matches Body::Session { token: t, .. } && t == token,
        header == "Bearer "@ + token@,
        bearer_outcome(header, secret, accepted),
        accepted is Ok,
    ensures
        exists|now: int|
            #![trigger expiry_for(now)]
            accepted->Ok_0@ == claims_text_spec(user.id@, user.role@, expiry_for(now) as nat),
{
    let now = choose|now: int|
        #![trigger token_at(user.id@, user.role@, now, secret)]
        now + TOKEN_LIFETIME <= MAX_UTC_TIMESTAMP && token_at(user.id@, user.role@, now, secret) == Some(token@);
    assert(header.subrange("Bearer "@.len() as int, header.len() as int) =~= token@);
    lemma_issued_token_decodes_to_its_claims(user.id@, user.role@, now, secret, token@, accepted->Ok_0@);
}

/// An accepted login, at a time that leaves the expiry representable, is answered 200 with
/// the token issued at that time; and that token, sent back as `Bearer <token>`, is either
/// refused (expiry is checked against the clock) or read as the user's own id and role,
/// expiring one day after the login.
pub proof fn lemma_accepted_login_token_reads_back(
    user: User,
    password: Seq<char>,
    now: int,
    secret: Seq<u8>,
    r: Result<ApiResponse, TokenError>,
    accepted: Result<String, Rejection>,
)
    requires
        login_accepts(Some(user), password),
        now + TOKEN_LIFETIME <= MAX_UTC_TIMESTAMP,
        login_answer_at(Some(user), password, now, secret, r),
        bearer_outcome("Bearer "@ + token_at(user.id@, user.role@, now, secret)->0, secret, accepted),
    ensures
        token_at(user.id@, user.role@, now, secret) is Some,
        r matches Ok(resp) && session_answer(resp, user, token_at(user.id@, user.role@, now, secret)->0),
        accepted is Ok ==> accepted->Ok_0@ == claims_text_spec(user.id@, user.role@, expiry_for(now) as nat),
{
    let t = token_at(user.id@, user.role@, now, secret)->0;
    let header = "Bearer "@ + t;
    assert(header.subrange("Bearer "@.len() as int, header.len() as int) =~= t);
    if accepted is Ok {
        lemma_issued_token_decodes_to_its_claims(user.id@, user.role@, now, secret, t, accepted->Ok_0@);
    }
}

/// A user who registered, whose row is found with the id, role and hash registration wrote,
/// logging in with the password they registered with at a time that leaves the expiry
/// representable, gets 200 with the registered role and id.
pub proof fn lemma_registered_user_gets_session(
    payload: RegisterInput,
    stored: (Seq<char>, Seq<Seq<char>>),
    row: User,
    now: int,
    secret: Seq<u8>,
    r: Result<ApiResponse, TokenError>,
)
    requires
        registration_row(payload, stored),
        row.id@ == stored.1[0],
        row.password@ == stored.1[3],
        row.role@ == stored.1[4],
        now + TOKEN_LIFETIME <= MAX_UTC_TIMESTAMP,
        login_answer_at(Some(row), payload.password@, now, secret, r),
    ensures
        r matches Ok(resp) && resp.status == STATUS_OK && (resp.body matches Body::Session { role, id, .. }
            && role@ == payload.role@ && id@ == stored.1[0]),
{
    lemma_registered_password_logs_in(payload, stored, row);
}

} // verus!
