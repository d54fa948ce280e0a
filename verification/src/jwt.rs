use vstd::prelude::*;
use crate::text::{decimal, decimal_text, has_prefix, join, owned, same_text, strip_prefix};

verus! {

/// What a token says about its bearer: the user id, the role and the expiry
/// (seconds since the Unix epoch).
#[derive(Debug, Clone, PartialEq, Eq)]
pub struct Claims {
    pub sub: String,
    pub role: String,
    pub exp: usize,
}

impl Claims {
    pub open spec fn spec_is_agent(&self) -> bool {
        self.role@ == "Agent"@
    }

    pub open spec fn spec_is_customer(&self) -> bool {
        self.role@ == "Customer"@
    }

    pub fn is_agent(&self) -> (r: bool)
        ensures
            r == self.spec_is_agent(),
    {
        same_text(&self.role, "Agent")
    }

    pub fn is_customer(&self) -> (r: bool)
        ensures
            r == self.spec_is_customer(),
    {
        same_text(&self.role, "Customer")
    }
}

/// Why a token could not be issued or accepted.
#[derive(Debug, Clone, Copy, PartialEq, Eq)]
pub enum TokenError {
    /// One day after the current time is past the last instant the clock library represents.
    ExpiryOutOfRange,
    /// jsonwebtoken refused to sign the claims; it signs every claims text this library writes.
    Encoding,
    /// The token is malformed, badly signed or expired.
    Invalid,
}

#[verifier::external_type_specification]
#[verifier::external_body]
pub struct ExJsonError(serde_json::Error);

#[verifier::external_type_specification]
#[verifier::external_body]
pub struct ExJwtError(jsonwebtoken::errors::Error);

/// The lowercase hexadecimal digit for `d` (0 to 15).
pub open spec fn lower_hex_digit(d: int) -> char {
    if d < 10 { ((d + 48) as u32) as char } else { ((d + 87) as u32) as char }
}

/// How serde_json writes one character inside a JSON string: the quote and the backslash
/// are escaped with a backslash, the control characters U+0000 to U+001F as `\b`, `\t`,
/// `\n`, `\f`, `\r` or `\u00xx` (lowercase hex), and every other character as itself.
pub open spec fn json_escape_char(c: char) -> Seq<char> {
    if c == '"' {
        seq!['\\', '"']
    } else if c == '\\' {
        seq!['\\', '\\']
    } else if c == '\u{8}' {
        seq!['\\', 'b']
    } else if c == '\t' {
        seq!['\\', 't']
    } else if c == '\n' {
        seq!['\\', 'n']
    } else if c == '\u{c}' {
        seq!['\\', 'f']
    } else if c == '\r' {
        seq!['\\', 'r']
    } else if (c as u32) < 0x20 {
        seq!['\\', 'u', '0', '0', lower_hex_digit((c as u32) as int / 16), lower_hex_digit((c as u32) as int % 16)]
    } else {
        seq![c]
    }
}

/// The characters of `s`, each written as serde_json writes it inside a string.
pub open spec fn json_escaped(s: Seq<char>) -> Seq<char>
    decreases s.len(),
{
    if s.len() == 0 {
        Seq::empty()
    } else {
        json_escaped(s.drop_last()) + json_escape_char(s.last())
    }
}

/// The JSON string literal that serde_json writes for a string: the escaped characters
/// between double quotes.
pub open spec fn json_string_literal(s: Seq<char>) -> Seq<char> {
    seq!['"'] + json_escaped(s) + seq!['"']
}

/// `serde_json::to_string` on a string slice: the JSON string literal for `s`, escaped as
/// `json_escape_char` says (serde_json's escape table). It always succeeds: the only errors serde_json's
/// serializer can raise for a string are write errors, and it writes into a `Vec<u8>`,
/// which never refuses a write.
#[verifier::external_body]
fn json_quote(s: &str) -> (r: Result<String, serde_json::Error>)
    ensures
        r is Ok,
        r matches Ok(q) ==> q@ == json_string_literal(s@),
{
    serde_json::to_string(s)
}

/// The HS256 token that jsonwebtoken writes for a claims text and a secret, with the
/// default header; `None` where jsonwebtoken refuses the claims text.
pub uninterp spec fn jwt_hs256(claims_text: Seq<char>, secret: Seq<u8>) -> Option<Seq<char>>;

/// Whether jsonwebtoken's signature check (`decode` with `DecodingKey::from_secret(secret)`
/// and `Validation::new(HS256)`, before the claims are looked at) accepts `token`: three
/// dot-separated parts, a header that reads with algorithm HS256, and an HMAC-SHA256 of the
/// first two parts under `secret` equal to the third.
pub uninterp spec fn jwt_hs256_signed(token: Seq<char>, secret: Seq<u8>) -> bool;

/// `j` is a claims text this library writes: some subject, role and expiry, laid out as
/// `claims_text_spec` says.
pub open spec fn is_claims_text(j: Seq<char>) -> bool {
    exists|sub: Seq<char>, role: Seq<char>, exp: nat|
        #![trigger claims_text_spec(sub, role, exp)]
        j == claims_text_spec(sub, role, exp)
}

/// A text that starts with `{` and ends with `}`: no white space around it.
pub open spec fn braced(j: Seq<char>) -> bool {
    &&& j.len() >= 2
    &&& j[0] == '{'
    &&& j[j.len() - 1] == '}'
}

/// `jsonwebtoken::encode` with `Header::default()` (HS256) and `EncodingKey::from_secret`,
/// the claims given as the raw JSON text `claims_text` (`serde_json::value::RawValue`, which
/// serialises to its own text). Signing is deterministic, so the outcome is a function of
/// the text and the secret. It fails only where the text is not JSON (`RawValue::from_string`):
/// the header always serialises, an HMAC key takes any secret, and HS256 signing has no error
/// path. A claims text this library writes is JSON (an object of two JSON string literals and
/// a decimal number), so it is always signed. The token it writes passes jsonwebtoken's own
/// signature check under the same secret, which re-signs the first two parts and compares.
#[verifier::external_body]
fn jwt_encode_hs256(claims_text: &str, secret: &[u8]) -> (r: Result<String, jsonwebtoken::errors::Error>)
    ensures
        match r {
            Ok(t) => jwt_hs256(claims_text@, secret@) == Some(t@),
            Err(_) => jwt_hs256(claims_text@, secret@) is None,
        },
        is_claims_text(claims_text@) ==> r is Ok,
        r matches Ok(t) ==> jwt_hs256_signed(t@, secret@),
{
    let raw = serde_json::value::RawValue::from_string(claims_text.to_string())?;
    jsonwebtoken::encode(&jsonwebtoken::Header::default(), &raw, &jsonwebtoken::EncodingKey::from_secret(secret))
}

/// What a successful decode of `token` under `secret` hands back, as far as it is known:
/// where the token is the one jsonwebtoken writes for a braced claims text, that text.
pub open spec fn decode_agrees(token: Seq<char>, secret: Seq<u8>, claims_text: Seq<char>) -> bool {
    forall|j: Seq<char>|
        #![trigger jwt_hs256(j, secret)]
        jwt_hs256(j, secret) == Some(token) && braced(j) ==> claims_text == j
}

/// `jsonwebtoken::decode` with `DecodingKey::from_secret` and `Validation::new(HS256)`
/// (signature, algorithm, required `exp`, expiry with sixty seconds of leeway against
/// the system clock), the claims read back as raw JSON text. Since the expiry is checked
/// against the clock, nothing fixes whether it succeeds; what is stated is that it succeeds
/// only for a token that passes the signature check under `secret`, and that the text
/// handed back is the one that was signed: HMAC verification re-signs the message, and the
/// raw JSON value keeps the exact bytes of a text with no surrounding white space.
#[verifier::external_body]
fn jwt_decode_hs256(token: &str, secret: &[u8]) -> (r: Result<String, jsonwebtoken::errors::Error>)
    ensures
        r is Ok ==> jwt_hs256_signed(token@, secret@),
        r matches Ok(c) ==> decode_agrees(token@, secret@, c@),
{
    let data = jsonwebtoken::decode::<Box<serde_json::value::RawValue>>(
        token,
        &jsonwebtoken::DecodingKey::from_secret(secret),
        &jsonwebtoken::Validation::new(jsonwebtoken::Algorithm::HS256),
    )?;
    Ok(data.claims.get().to_string())
}

/// `chrono::Utc::now().timestamp()`: the current time in whole seconds since the epoch.
/// Nothing is stated of it.
#[verifier::external_body]
pub(crate) fn utc_now_timestamp() -> (t: i64) {
    chrono::Utc::now().timestamp()
}

/// Seconds in the lifetime of a token: one day.
pub const TOKEN_LIFETIME: i64 = 86400;

/// The timestamp of the last second the clock library represents (31 Dec 262142, 23:59:59 UTC).
/// Adding a day to an instant succeeds exactly when the result is not past it.
pub const MAX_UTC_TIMESTAMP: i64 = 8210266876799;

/// The expiry written into a token issued at `now`.
pub open spec fn expiry_for(now: int) -> usize {
    (now + 86400) as usize
}

/// The claims text of a token for `sub` and `role` that expires at `exp`: the fields in
/// declaration order, each string as its JSON literal.
pub open spec fn claims_text_spec(sub: Seq<char>, role: Seq<char>, exp: nat) -> Seq<char> {
    "{\"sub\":"@ + json_string_literal(sub) + ",\"role\":"@ + json_string_literal(role)
        + ",\"exp\":"@ + decimal(exp) + "}"@
}

/// The token issued at `now` for `sub` and `role` under `secret`, if jsonwebtoken signs it.
pub open spec fn token_at(sub: Seq<char>, role: Seq<char>, now: int, secret: Seq<u8>) -> Option<Seq<char>> {
    jwt_hs256(claims_text_spec(sub, role, expiry_for(now) as nat), secret)
}

/// The JSON text of `claims`. It is always written.
pub fn claims_text(claims: &Claims) -> (r: Option<String>)
    ensures
        r matches Some(j) && j@ == claims_text_spec(claims.sub@, claims.role@, claims.exp as nat),
{
    let sub = match json_quote(claims.sub.as_str()) {
        Ok(q) => q,
        Err(_) => return None,
    };
    let role = match json_quote(claims.role.as_str()) {
        Ok(q) => q,
        Err(_) => return None,
    };
    proof {
        reveal_strlit("{\"sub\":");
        reveal_strlit(",\"role\":");
        reveal_strlit(",\"exp\":");
        reveal_strlit("}");
    }
    let mut j = join("{\"sub\":", sub.as_str());
    j.append(",\"role\":");
    j.append(role.as_str());
    j.append(",\"exp\":");
    let digits = decimal_text(claims.exp);
    j.append(digits.as_str());
    j.append("}");
    Some(j)
}

/// The claims text always starts with `{` and ends with `}`.
pub proof fn lemma_claims_text_braced(sub: Seq<char>, role: Seq<char>, exp: nat)
    ensures
        braced(claims_text_spec(sub, role, exp)),
{
    reveal_strlit("{\"sub\":");
    reveal_strlit("}");
    let j = claims_text_spec(sub, role, exp);
    let pre = "{\"sub\":"@;
    assert(j[0] == pre[0]);
    assert(j[j.len() - 1] == '}');
}

/// What issuing a token for `sub` and `role` under `secret` gives when the clock reads `now`:
/// the out-of-range error when a day after `now` is past the last representable instant
/// (where the clock library refuses to add the day), and otherwise the token jsonwebtoken
/// signs for the claims expiring a day after `now`, which passes the signature check.
pub open spec fn token_issue(sub: Seq<char>, role: Seq<char>, now: int, secret: Seq<u8>, r: Result<String, TokenError>) -> bool {
    if now + TOKEN_LIFETIME > MAX_UTC_TIMESTAMP {
        r == Err::<String, TokenError>(TokenError::ExpiryOutOfRange)
    } else {
        &&& r matches Ok(t)
        &&& token_at(sub, role, now, secret) == Some(t@)
        &&& jwt_hs256_signed(t@, secret)
    }
}

/// A token for `user_id` and `role` issued when the clock reads `now`, valid for one day,
/// signed with `secret`.
pub fn generate_token_at(user_id: &str, role: &str, now: i64, secret: &[u8]) -> (r: Result<String, TokenError>)
    ensures
        token_issue(user_id@, role@, now as int, secret@, r),
{
    if now > MAX_UTC_TIMESTAMP - TOKEN_LIFETIME {
        return Err(TokenError::ExpiryOutOfRange);
    }
    let exp = (now + TOKEN_LIFETIME) as usize;
    let claims = Claims { sub: user_id.to_string(), role: role.to_string(), exp };
    match claims_text(&claims) {
        None => Err(TokenError::Encoding),
        Some(text) => {
            assert(is_claims_text(text@));
            match jwt_encode_hs256(text.as_str(), secret) {
                Ok(t) => Ok(t),
                Err(_) => Err(TokenError::Encoding),
            }
        },
    }
}

/// A token for `user_id` and `role`, issued now and valid for one day, signed with `secret`.
pub fn generate_token(user_id: &str, role: &str, secret: &[u8]) -> (r: Result<String, TokenError>)
    ensures
        exists|now: int| #[trigger] token_issue(user_id@, role@, now, secret@, r),
{
    let now = utc_now_timestamp();
    generate_token_at(user_id, role, now, secret)
}

/// The claims text carried by `token`, if the token is well formed, signed with `secret`
/// and not expired.
pub fn decode_token(token: &str, secret: &[u8]) -> (r: Result<String, TokenError>)
    ensures
        !jwt_hs256_signed(token@, secret@) ==> r == Err::<String, TokenError>(TokenError::Invalid),
        r matches Ok(c) ==> decode_agrees(token@, secret@, c@),
        r matches Err(e) ==> e == TokenError::Invalid,
{
    match jwt_decode_hs256(token, secret) {
        Ok(c) => Ok(c),
        Err(_) => Err(TokenError::Invalid),
    }
}

/// A token that was issued, when it is accepted, gives back the claims it was issued with.
pub proof fn lemma_issued_token_decodes_to_its_claims(
    sub: Seq<char>,
    role: Seq<char>,
    now: int,
    secret: Seq<u8>,
    token: Seq<char>,
    decoded: Seq<char>,
)
    requires
        token_at(sub, role, now, secret) == Some(token),
        decode_agrees(token, secret, decoded),
    ensures
        decoded == claims_text_spec(sub, role, expiry_for(now) as nat),
{
    lemma_claims_text_braced(sub, role, expiry_for(now) as nat);
}

/// A request turned away before it reaches its handler: 401 with a plain-text reason.
#[derive(Debug, Clone, PartialEq, Eq)]
pub struct Rejection {
    pub status: u16,
    pub message: String,
}

/// `r` is the 401 rejection with this reason.
pub open spec fn is_rejection(r: Rejection, message: Seq<char>) -> bool {
    r.status == 401 && r.message@ == message
}

/// What is answered for a bearer token: a token that does not pass the signature check
/// under `secret` is refused; an accepted one gives the claims text it was signed with.
/// Any refusal is the 401 "Invalid token".
pub open spec fn token_outcome(token: Seq<char>, secret: Seq<u8>, r: Result<String, Rejection>) -> bool {
    &&& !jwt_hs256_signed(token, secret) ==> r is Err
    &&& match r {
        Ok(c) => decode_agrees(token, secret, c@),
        Err(e) => is_rejection(e, "Invalid token"@),
    }
}

/// What is answered for a header `h` that starts with `Bearer `: the outcome for the token
/// after the prefix.
pub open spec fn bearer_outcome(h: Seq<char>, secret: Seq<u8>, r: Result<String, Rejection>) -> bool {
    token_outcome(h.subrange("Bearer "@.len() as int, h.len() as int), secret, r)
}

/// The token of the value of the `Authorization` header (`None` when the header is absent
/// or not visible ASCII): it must be `Bearer ` followed by the token.
pub fn bearer_token<'a>(authorization: Option<&'a str>) -> (r: Result<&'a str, Rejection>)
    ensures
        authorization is None ==> (r matches Err(e) && is_rejection(e, "Missing Authorization header"@)),
        authorization matches Some(h) ==> (!has_prefix(h@, "Bearer "@) ==> (r matches Err(e)
            && is_rejection(e, "Invalid Bearer token format"@))),
        authorization matches Some(h) ==> (has_prefix(h@, "Bearer "@) ==> (r matches Ok(t)
            && t@ == h@.subrange("Bearer "@.len() as int, h@.len() as int))),
{
    let header = match authorization {
        Some(h) => h,
        None => return Err(Rejection { status: 401, message: owned("Missing Authorization header") }),
    };
    match strip_prefix(header, "Bearer ") {
        Some(t) => Ok(t),
        None => Err(Rejection { status: 401, message: owned("Invalid Bearer token format") }),
    }
}

/// The claims text of a bearer token that `decode_token` accepts under `secret`, or 401.
pub fn claims_from_bearer(token: &str, secret: &[u8]) -> (r: Result<String, Rejection>)
    ensures
        token_outcome(token@, secret@, r),
{
    match decode_token(token, secret) {
        Ok(c) => Ok(c),
        Err(_) => Err(Rejection { status: 401, message: owned("Invalid token") }),
    }
}

/// The claims text of the caller, from the value of the `Authorization` header (`None`
/// when the header is absent or not visible ASCII): it must be `Bearer ` followed by a
/// token that `decode_token` accepts under `secret`.
pub fn claims_from_authorization(authorization: Option<&str>, secret: &[u8]) -> (r: Result<String, Rejection>)
    ensures
        authorization is None ==> (r matches Err(e) && is_rejection(e, "Missing Authorization header"@)),
        authorization matches Some(h) ==> (!has_prefix(h@, "Bearer "@) ==> (r matches Err(e)
            && is_rejection(e, "Invalid Bearer token format"@))),
        authorization matches Some(h) ==> (has_prefix(h@, "Bearer "@) ==> bearer_outcome(h@, secret@, r)),
{
    let token = match bearer_token(authorization) {
        Ok(t) => t,
        Err(e) => return Err(e),
    };
    claims_from_bearer(token, secret)
}

/// A bearer token that does not pass jsonwebtoken's signature check under `secret` (signed
/// with another key, altered, or of another algorithm) is refused with 401 "Invalid token".
pub proof fn lemma_unsigned_token_refused(token: Seq<char>, secret: Seq<u8>, r: Result<String, Rejection>)
    requires
        token_outcome(token, secret, r),
        !jwt_hs256_signed(token, secret),
    ensures
        r matches Err(e) && is_rejection(e, "Invalid token"@),
{
}

/// No caller is both an agent and a customer.
pub proof fn lemma_roles_exclusive(claims: Claims)
    ensures
        !(claims.spec_is_agent() && claims.spec_is_customer()),
{
    reveal_strlit("Agent");
    reveal_strlit("Customer");
    if claims.spec_is_agent() && claims.spec_is_customer() {
        assert("Agent"@.len() != "Customer"@.len());
    }
}

} // verus!
