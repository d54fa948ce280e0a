use customer_support::jwt::{
    claims_from_authorization, claims_text, decode_token, generate_token, generate_token_at, Claims, TokenError,
    MAX_UTC_TIMESTAMP, TOKEN_LIFETIME,
};
use customer_support::text::{decimal_text, strip_prefix};
use customer_support::jwt::{bearer_token, claims_from_bearer};

const SECRET: &[u8] = b"test-secret";

fn claims(sub: &str, role: &str, exp: usize) -> Claims {
    Claims { sub: sub.to_string(), role: role.to_string(), exp }
}

fn now() -> i64 {
    chrono::Utc::now().timestamp()
}

#[test]
fn agent_role_is_recognised() {
    let c = claims("u1", "Agent", 0);
    assert!(c.is_agent());
    assert!(!c.is_customer());
}

#[test]
fn customer_role_is_recognised() {
    let c = claims("u1", "Customer", 0);
    assert!(c.is_customer());
    assert!(!c.is_agent());
}

#[test]
fn roles_are_case_sensitive() {
    let c = claims("u1", "agent", 0);
    assert!(!c.is_agent());
    assert!(!c.is_customer());
    let empty = claims("u1", "", 0);
    assert!(!empty.is_agent());
}

#[test]
fn decimal_text_writes_base_ten() {
    assert_eq!(decimal_text(0), "0");
    assert_eq!(decimal_text(7), "7");
    assert_eq!(decimal_text(10), "10");
    assert_eq!(decimal_text(1704153600), "1704153600");
    assert_eq!(decimal_text(usize::MAX), usize::MAX.to_string());
}

#[test]
fn strip_prefix_removes_exactly_the_prefix() {
    assert_eq!(strip_prefix("Bearer abc", "Bearer "), Some("abc"));
    assert_eq!(strip_prefix("Bearer ", "Bearer "), Some(""));
    assert_eq!(strip_prefix("bearer abc", "Bearer "), None);
    assert_eq!(strip_prefix("Bear", "Bearer "), None);
    assert_eq!(strip_prefix("é-x", "é"), Some("-x"));
}

#[test]
fn claims_text_is_the_serialised_struct() {
    let j = claims_text(&claims("u1", "Agent", 42)).unwrap();
    assert_eq!(j, r#"{"sub":"u1","role":"Agent","exp":42}"#);
}

#[test]
fn claims_text_escapes_strings() {
    let j = claims_text(&claims("a\"b\\c\n", "Agent", 1)).unwrap();
    assert_eq!(j, r#"{"sub":"a\"b\\c\n","role":"Agent","exp":1}"#);
    let parsed: serde_json::Value = serde_json::from_str(&j).unwrap();
    assert_eq!(parsed["sub"], "a\"b\\c\n");
}

#[test]
fn generated_token_carries_the_claims() {
    let start = now();
    let token = generate_token("user-7", "Customer", SECRET).unwrap();
    assert_eq!(token.matches('.').count(), 2);
    let text = decode_token(&token, SECRET).unwrap();
    let v: serde_json::Value = serde_json::from_str(&text).unwrap();
    assert_eq!(v["sub"], "user-7");
    assert_eq!(v["role"], "Customer");
    let exp = v["exp"].as_i64().unwrap();
    assert!(exp >= start + TOKEN_LIFETIME && exp <= now() + TOKEN_LIFETIME);
}

#[test]
fn token_at_a_fixed_time_is_deterministic_and_standard() {
    let t = now();
    let a = generate_token_at("u1", "Agent", t, SECRET).unwrap();
    let b = generate_token_at("u1", "Agent", t, SECRET).unwrap();
    assert_eq!(a, b);
    let data = jsonwebtoken::decode::<serde_json::Value>(
        &a,
        &jsonwebtoken::DecodingKey::from_secret(SECRET),
        &jsonwebtoken::Validation::new(jsonwebtoken::Algorithm::HS256),
    )
    .unwrap();
    assert_eq!(data.claims["sub"], "u1");
    assert_eq!(data.claims["role"], "Agent");
    assert_eq!(data.claims["exp"].as_i64().unwrap(), t + 86400);
    assert_eq!(data.header.alg, jsonwebtoken::Algorithm::HS256);
}

#[test]
fn token_with_another_secret_is_refused() {
    let token = generate_token("u1", "Agent", SECRET).unwrap();
    assert_eq!(decode_token(&token, b"other"), Err(TokenError::Invalid));
}

#[test]
fn expired_token_is_refused() {
    let token = generate_token_at("u1", "Agent", 1_000_000, SECRET).unwrap();
    assert_eq!(decode_token(&token, SECRET), Err(TokenError::Invalid));
}

#[test]
fn token_near_the_end_of_time_can_still_be_issued() {
    let last = MAX_UTC_TIMESTAMP - TOKEN_LIFETIME;
    assert!(generate_token_at("u1", "Agent", last, SECRET).is_ok());
}

#[test]
fn malformed_token_is_refused() {
    assert_eq!(decode_token("not-a-token", SECRET), Err(TokenError::Invalid));
    assert_eq!(decode_token("", SECRET), Err(TokenError::Invalid));
}

#[test]
fn missing_header_is_rejected() {
    let r = claims_from_authorization(None, SECRET).unwrap_err();
    assert_eq!(r.status, 401);
    assert_eq!(r.message, "Missing Authorization header");
}

#[test]
fn header_without_bearer_is_rejected() {
    let r = claims_from_authorization(Some("Token abc"), SECRET).unwrap_err();
    assert_eq!(r.status, 401);
    assert_eq!(r.message, "Invalid Bearer token format");
}

#[test]
fn bad_bearer_token_is_rejected() {
    let r = claims_from_authorization(Some("Bearer abc.def.ghi"), SECRET).unwrap_err();
    assert_eq!(r.status, 401);
    assert_eq!(r.message, "Invalid token");
}

#[test]
fn good_bearer_token_is_accepted() {
    let token = generate_token("u9", "Agent", SECRET).unwrap();
    let header = format!("Bearer {}", token);
    let text = claims_from_authorization(Some(&header), SECRET).unwrap();
    assert_eq!(text, decode_token(&token, SECRET).unwrap());
    assert!(text.starts_with(r#"{"sub":"u9","role":"Agent","exp":"#));
}

#[test]
fn control_characters_are_written_as_unicode_escapes() {
    let j = claims_text(&claims("a\u{1}\u{1f}\t\u{8}\u{c}\r/é", "R", 9)).unwrap();
    assert_eq!(j, "{\"sub\":\"a\\u0001\\u001f\\t\\b\\f\\r/é\",\"role\":\"R\",\"exp\":9}");
    assert_eq!(j, format!("{{\"sub\":{},\"role\":\"R\",\"exp\":9}}", serde_json::to_string("a\u{1}\u{1f}\t\u{8}\u{c}\r/é").unwrap()));
}

#[test]
fn token_past_the_representable_range_is_not_issued() {
    let first_bad = MAX_UTC_TIMESTAMP - TOKEN_LIFETIME + 1;
    assert_eq!(generate_token_at("u1", "Agent", first_bad, SECRET), Err(TokenError::ExpiryOutOfRange));
    assert_eq!(generate_token_at("u1", "Agent", i64::MAX, SECRET), Err(TokenError::ExpiryOutOfRange));
    assert!(generate_token_at("u1", "Agent", i64::MIN, SECRET).is_ok());
}

#[test]
fn altered_or_foreign_tokens_are_refused() {
    let token = generate_token("u1", "Customer", SECRET).unwrap();
    let parts: Vec<&str> = token.split('.').collect();
    let forged_payload = format!("{}.{}.{}", parts[0], "eyJzdWIiOiJ1MSIsInJvbGUiOiJBZ2VudCIsImV4cCI6OTk5OTk5OTk5OX0", parts[2]);
    let r = claims_from_bearer(&forged_payload, SECRET).unwrap_err();
    assert_eq!(r.status, 401);
    assert_eq!(r.message, "Invalid token");
    let foreign = generate_token("u1", "Agent", b"someone-else").unwrap();
    assert_eq!(claims_from_bearer(&foreign, SECRET).unwrap_err().message, "Invalid token");
    assert!(claims_from_bearer(&token, SECRET).is_ok());
}

#[test]
fn bearer_token_takes_what_follows_the_prefix() {
    assert_eq!(bearer_token(Some("Bearer a.b.c")), Ok("a.b.c"));
    assert_eq!(bearer_token(None).unwrap_err().message, "Missing Authorization header");
    assert_eq!(bearer_token(Some("Basic x")).unwrap_err().message, "Invalid Bearer token format");
}
