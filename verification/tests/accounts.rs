use customer_support::api::auth::{registration, HashingFailed};
use customer_support::api::auth::login_check_at;
use customer_support::jwt::generate_token_at;
use customer_support::api::auth::{login, login_check, register, register_response};
use customer_support::api::response::{ApiResponse, Body};
use customer_support::jwt::{claims_from_authorization, Claims};
use customer_support::models::{LoginInput, RegisterInput, User};
use customer_support::password::password_matches;
use customer_support::sql::DbError;

const SECRET: &[u8] = b"accounts-secret";

fn sample_registration() -> RegisterInput {
    RegisterInput {
        name: "Ada".to_string(),
        email: "ada@example.com".to_string(),
        password: "s3cret!".to_string(),
        role: "Customer".to_string(),
    }
}

fn stored_user(password_hash: &str) -> User {
    User {
        id: "user-1".to_string(),
        name: "Ada".to_string(),
        email: "ada@example.com".to_string(),
        password: password_hash.to_string(),
        role: "Customer".to_string(),
        created_at: "2024-01-01".to_string(),
    }
}

fn hash_of(password: &str) -> String {
    let p = RegisterInput {
        name: "n".to_string(),
        email: "e".to_string(),
        password: password.to_string(),
        role: "Customer".to_string(),
    };
    register(&p).unwrap().params[3].clone()
}

#[test]
fn hashed_password_verifies() {
    let h = hash_of("pw");
    assert!(h.starts_with("$2b$12$"));
    assert_eq!(h.len(), 60);
    assert!(password_matches("pw", &h));
    assert!(!password_matches("other", &h));
}

#[test]
fn unreadable_hash_is_a_mismatch() {
    assert!(!password_matches("pw", "not-a-hash"));
    assert!(!password_matches("pw", ""));
}

#[test]
fn register_writes_the_user_row() {
    let p = sample_registration();
    let s = register(&p).unwrap();
    assert_eq!(s.sql, "INSERT INTO users (id, name, email, password, role, created_at) VALUES (?, ?, ?, ?, ?, ?)");
    assert_eq!(s.params.len(), 6);
    assert_eq!(s.params[0].len(), 36);
    assert_eq!(s.params[1], "Ada");
    assert_eq!(s.params[2], "ada@example.com");
    assert_ne!(s.params[3], "s3cret!");
    assert!(password_matches("s3cret!", &s.params[3]));
    assert_eq!(s.params[4], "Customer");
}

#[test]
fn register_answers() {
    let ok = register_response(Ok(()));
    assert_eq!(ok.status, 201);
    assert_eq!(ok.body, Body::Msg("User registered!".to_string()));
    let err = register_response(Err(DbError));
    assert_eq!(err.status, 500);
    assert_eq!(err.body, Body::Error("Register failed".to_string()));
}

#[test]
fn login_looks_up_by_email() {
    let s = login(&LoginInput { email: "ada@example.com".to_string(), password: "x".to_string() });
    assert_eq!(s.sql, "SELECT * FROM users WHERE email = ?");
    assert_eq!(s.params, vec!["ada@example.com".to_string()]);
}

fn invalid_credentials(r: &ApiResponse) -> bool {
    r.status == 401 && r.body == Body::Error("Invalid credentials".to_string())
}

#[test]
fn login_of_unknown_user_is_refused() {
    let input = LoginInput { email: "x@example.com".to_string(), password: "pw".to_string() };
    let r = login_check(&input, None, SECRET).unwrap();
    assert!(invalid_credentials(&r));
}

#[test]
fn login_with_wrong_password_is_refused() {
    let h = hash_of("right");
    let input = LoginInput { email: "ada@example.com".to_string(), password: "wrong".to_string() };
    let r = login_check(&input, Some(stored_user(&h)), SECRET).unwrap();
    assert!(invalid_credentials(&r));
}

#[test]
fn registered_user_logs_in_and_the_token_names_them() {
    let p = sample_registration();
    let s = register(&p).unwrap();
    let row = stored_user(&s.params[3]);
    let input = LoginInput { email: p.email.clone(), password: p.password.clone() };
    let r = login_check(&input, Some(row), SECRET).unwrap();
    assert_eq!(r.status, 200);
    let token = match r.body {
        Body::Session { token, role, id } => {
            assert_eq!(role, "Customer");
            assert_eq!(id, "user-1");
            token
        },
        other => panic!("unexpected body {:?}", other),
    };
    let header = format!("Bearer {}", token);
    let text = claims_from_authorization(Some(&header), SECRET).unwrap();
    let v: serde_json::Value = serde_json::from_str(&text).unwrap();
    let c = Claims {
        sub: v["sub"].as_str().unwrap().to_string(),
        role: v["role"].as_str().unwrap().to_string(),
        exp: v["exp"].as_u64().unwrap() as usize,
    };
    assert_eq!(c.sub, "user-1");
    assert!(c.is_customer());
}

#[test]
fn registration_uses_the_hash_id_and_time_given() {
    let p = sample_registration();
    let s = registration(&p, Ok("HASH".to_string()), "ID".to_string(), "NOW".to_string()).unwrap();
    assert_eq!(s.sql, "INSERT INTO users (id, name, email, password, role, created_at) VALUES (?, ?, ?, ?, ?, ?)");
    assert_eq!(s.params, vec!["ID", "Ada", "ada@example.com", "HASH", "Customer", "NOW"]);
    assert_eq!(registration(&p, Err(HashingFailed), "ID".to_string(), "NOW".to_string()), Err(HashingFailed));
}

#[test]
fn accepted_login_at_a_fixed_time_gets_that_token() {
    let p = sample_registration();
    let s = register(&p).unwrap();
    let row = stored_user(&s.params[3]);
    let input = LoginInput { email: p.email.clone(), password: p.password.clone() };
    let now = chrono::Utc::now().timestamp();
    let r = login_check_at(&input, Some(row), now, SECRET).unwrap();
    let expected = generate_token_at("user-1", "Customer", now, SECRET).unwrap();
    assert_eq!(
        r,
        ApiResponse {
            status: 200,
            body: Body::Session { token: expected, role: "Customer".to_string(), id: "user-1".to_string() },
        }
    );
    let wrong = LoginInput { email: p.email.clone(), password: "nope".to_string() };
    let refused = login_check_at(&wrong, Some(stored_user(&s.params[3])), now, SECRET).unwrap();
    assert!(invalid_credentials(&refused));
}

#[test]
fn stored_password_is_a_hash_not_the_password() {
    let p = sample_registration();
    let s = register(&p).unwrap();
    assert!(s.params[3].starts_with("$2b$12$"));
    assert_eq!(s.params[3].len(), 60);
    assert_ne!(s.params[3], p.password);
    assert!(s.params[5].ends_with(" +00:00:00"));
}

#[test]
fn accepted_login_past_the_representable_range_is_an_error() {
    let p = sample_registration();
    let s = register(&p).unwrap();
    let input = LoginInput { email: p.email.clone(), password: p.password.clone() };
    let r = login_check_at(&input, Some(stored_user(&s.params[3])), i64::MAX, SECRET);
    assert_eq!(r, Err(customer_support::jwt::TokenError::ExpiryOutOfRange));
    let wrong = LoginInput { email: p.email.clone(), password: "x".to_string() };
    let refused = login_check_at(&wrong, Some(stored_user(&s.params[3])), i64::MAX, SECRET).unwrap();
    assert!(invalid_credentials(&refused));
}
