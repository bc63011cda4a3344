use winery_auth::error::{AppError, TokenFault};
use winery_auth::ident::UserId;
use winery_auth::role::UserRole;
use winery_auth::token::Claims;

const SECRET: &str = "a-long-and-secret-signing-key";
const ALICE: u128 = 0x550e8400_e29b_41d4_a716_446655440000;

fn sample(issued_at: i64, hours: i64) -> Claims {
    Claims::issue(UserId(ALICE), "alice@example.com".to_string(), UserRole::Winemaker, issued_at, hours)
        .unwrap()
}

fn same(a: &Claims, b: &Claims) -> bool {
    a.sub == b.sub && a.email == b.email && a.role == b.role && a.exp == b.exp && a.iat == b.iat
}

fn signed(entries: Vec<(&str, serde_json::Value)>, secret: &str) -> String {
    let mut payload = serde_json::Map::new();
    for (key, value) in entries {
        payload.insert(key.to_string(), value);
    }
    jsonwebtoken::encode(
        &jsonwebtoken::Header::default(),
        &payload,
        &jsonwebtoken::EncodingKey::from_secret(secret.as_bytes()),
    )
    .unwrap()
}

fn text(s: &str) -> serde_json::Value {
    serde_json::Value::String(s.to_string())
}

fn number(n: i64) -> serde_json::Value {
    serde_json::Value::from(n)
}

#[test]
fn issue_sets_expiry_to_issue_plus_hours() {
    let c = sample(1_700_000_000, 24);
    assert_eq!(c.iat, 1_700_000_000);
    assert_eq!(c.exp, 1_700_086_400);
    assert_eq!(c.sub, "550e8400-e29b-41d4-a716-446655440000");
    assert_eq!(c.email, "alice@example.com");
    assert_eq!(c.role, UserRole::Winemaker);
    assert_eq!(sample(10, 1).exp, 3610);
    assert_eq!(sample(10, 0).exp, 10);
    assert_eq!(sample(10_000, -1).exp, 6400);
}

#[test]
fn issue_refuses_lifetime_beyond_timestamp_range() {
    let r = Claims::issue(UserId(1), "a@b.co".to_string(), UserRole::Admin, i64::MAX, 1);
    match r {
        Err(AppError::InternalError(m)) => assert_eq!(m, "Token lifetime out of range"),
        other => panic!("expected an internal fault, got {:?}", other),
    }
    assert!(Claims::issue(UserId(1), "a@b.co".to_string(), UserRole::Admin, 0, i64::MAX).is_err());
    assert!(Claims::issue(UserId(1), "a@b.co".to_string(), UserRole::Admin, 0, i64::MIN).is_err());
    // The product alone overflows, the sum does not.
    let hours = i64::MAX / 3600 + 1;
    let late = Claims::issue(UserId(1), "a@b.co".to_string(), UserRole::Admin, -7200, hours).unwrap();
    assert_eq!(late.exp as i128, -7200i128 + hours as i128 * 3600);
    let edge = Claims::issue(UserId(1), "a@b.co".to_string(), UserRole::Admin, i64::MAX - 3600, 1);
    assert_eq!(edge.unwrap().exp, i64::MAX);
}

#[test]
fn new_reads_the_clock() {
    let before = chrono::Utc::now().timestamp();
    let c = Claims::new(UserId(ALICE), "alice@example.com".to_string(), UserRole::Worker, 2).unwrap();
    let after = chrono::Utc::now().timestamp();
    assert!(before <= c.iat && c.iat <= after);
    assert_eq!(c.exp, c.iat + 7200);
    assert_eq!(c.user_id().unwrap(), UserId(ALICE));
}

#[test]
fn token_has_three_base64url_segments() {
    let token = sample(1_700_000_000, 24).encode(SECRET).unwrap();
    let parts: Vec<&str> = token.split('.').collect();
    assert_eq!(parts.len(), 3);
    for part in parts {
        assert!(!part.is_empty());
        assert!(part.chars().all(|ch| ch.is_ascii_alphanumeric() || ch == '-' || ch == '_'));
    }
    assert!(token.starts_with("eyJ0eXAiOiJKV1QiLCJhbGciOiJIUzI1NiJ9."));
}

#[test]
fn encoding_is_deterministic() {
    let c = sample(1_700_000_000, 24);
    assert_eq!(c.encode(SECRET).unwrap(), c.encode(SECRET).unwrap());
    assert_ne!(c.encode(SECRET).unwrap(), c.encode("another-secret").unwrap());
    assert_ne!(c.encode(SECRET).unwrap(), sample(1_700_000_001, 24).encode(SECRET).unwrap());
}

#[test]
fn round_trip_returns_the_same_claims() {
    for role in [UserRole::Admin, UserRole::Winemaker, UserRole::Worker] {
        let c = Claims::issue(UserId(ALICE), "ål\"ice\\+tag@example.com".to_string(), role, 1_700_000_000, 24)
            .unwrap();
        let token = c.encode(SECRET).unwrap();
        let back = Claims::decode_at(&token, SECRET, 1_700_000_001).unwrap();
        assert!(same(&c, &back));
        let last = Claims::decode_at(&token, SECRET, c.exp - 1).unwrap();
        assert!(same(&c, &last));
    }
}

#[test]
fn round_trip_under_odd_secrets() {
    let c = sample(1_700_000_000, 24);
    for secret in ["", " ", "s", "\u{0}", "päßwörd-\u{1f511}", &"k".repeat(1000)] {
        let token = c.encode(secret).unwrap();
        let back = Claims::decode_at(&token, secret, 1_700_000_001).unwrap();
        assert!(same(&c, &back));
    }
}

#[test]
fn round_trip_at_the_edges_of_time() {
    let early = Claims::issue(UserId(0), String::new(), UserRole::Worker, 0, 0).unwrap();
    assert_eq!(early.exp, 0);
    let token = early.encode(SECRET).unwrap();
    assert!(same(&early, &Claims::decode_at(&token, SECRET, -1).unwrap()));
    assert!(Claims::decode_at(&token, SECRET, 0).is_err());
    let late = Claims::issue(UserId(u128::MAX), "x".repeat(500), UserRole::Admin, i64::MAX - 3600, 1).unwrap();
    let token = late.encode(SECRET).unwrap();
    assert!(same(&late, &Claims::decode_at(&token, SECRET, i64::MAX - 1).unwrap()));
    assert!(same(&late, &Claims::decode_at(&token, SECRET, i64::MIN).unwrap()));
    let before_epoch = Claims::issue(UserId(1), "a@b.co".to_string(), UserRole::Admin, -10_000, 1).unwrap();
    assert_eq!(before_epoch.exp, -6_400);
    let token = before_epoch.encode(SECRET).unwrap();
    assert!(Claims::decode_at(&token, SECRET, -7_000).is_err());
}

#[test]
fn round_trip_against_the_clock() {
    let c = Claims::new(UserId(ALICE), "alice@example.com".to_string(), UserRole::Admin, 1).unwrap();
    let token = c.encode(SECRET).unwrap();
    let back = Claims::decode(&token, SECRET).unwrap();
    assert!(same(&c, &back));
}

#[test]
fn other_services_read_the_payload() {
    let c = sample(1_700_000_000, 24);
    let token = c.encode(SECRET).unwrap();
    let mut validation = jsonwebtoken::Validation::default();
    validation.validate_exp = false;
    let data = jsonwebtoken::decode::<serde_json::Value>(
        &token,
        &jsonwebtoken::DecodingKey::from_secret(SECRET.as_bytes()),
        &validation,
    )
    .unwrap();
    let payload = data.claims.as_object().unwrap();
    assert_eq!(payload.len(), 5);
    assert_eq!(payload["sub"], text("550e8400-e29b-41d4-a716-446655440000"));
    assert_eq!(payload["email"], text("alice@example.com"));
    assert_eq!(payload["role"], text("winemaker"));
    assert_eq!(payload["exp"], number(1_700_086_400));
    assert_eq!(payload["iat"], number(1_700_000_000));
}

#[test]
fn different_secret_is_refused() {
    let token = sample(1_700_000_000, 24).encode(SECRET).unwrap();
    match Claims::decode_at(&token, "a-different-secret", 1_700_000_001) {
        Err(AppError::TokenError(TokenFault::Invalid)) => {}
        other => panic!("expected an invalid token, got {:?}", other),
    }
    let e = Claims::decode_at(&token, "", 1_700_000_001).unwrap_err();
    assert_eq!(e.status_code(), 401);
    assert_eq!(e.public_message(), "Invalid or expired token");
}

#[test]
fn expired_token_is_refused_with_the_right_secret() {
    let c = sample(1_700_000_000, 1);
    let token = c.encode(SECRET).unwrap();
    assert!(Claims::decode_at(&token, SECRET, c.exp - 1).is_ok());
    for now in [c.exp, c.exp + 1, c.exp + 59, c.exp + 1_000_000, i64::MAX] {
        match Claims::decode_at(&token, SECRET, now) {
            Err(AppError::TokenError(TokenFault::Expired)) => {}
            other => panic!("expected an expired token, got {:?}", other),
        }
    }
    let old = Claims::issue(UserId(ALICE), "alice@example.com".to_string(), UserRole::Admin, 1_000, 1)
        .unwrap()
        .encode(SECRET)
        .unwrap();
    let e = Claims::decode(&old, SECRET).unwrap_err();
    assert_eq!(e.status_code(), 401);
    assert_eq!(e.public_message(), "Invalid or expired token");
}

#[test]
fn expired_and_forged_tokens_look_alike() {
    let c = sample(1_700_000_000, 1);
    let token = c.encode(SECRET).unwrap();
    let expired = Claims::decode_at(&token, SECRET, c.exp).unwrap_err();
    let forged = Claims::decode_at(&token, "nope", c.iat).unwrap_err();
    assert_eq!(expired.status_code(), forged.status_code());
    assert_eq!(expired.public_message(), forged.public_message());
}

#[test]
fn truncated_and_garbled_tokens_are_refused() {
    let token = sample(1_700_000_000, 24).encode(SECRET).unwrap();
    let truncated = &token[..token.len() - 1];
    for bad in [truncated, "", ".", "..", "a.b", "a.b.c", "a.b.c.d", "not a token", &token[1..]] {
        match Claims::decode_at(bad, SECRET, 1_700_000_001) {
            Err(AppError::TokenError(TokenFault::Invalid)) => {}
            other => panic!("expected an invalid token for {:?}, got {:?}", bad, other),
        }
    }
    let mut tampered = token.clone();
    let middle = tampered.find('.').unwrap() + 3;
    let replacement = if &tampered[middle..middle + 1] == "A" { "B" } else { "A" };
    tampered.replace_range(middle..middle + 1, replacement);
    assert!(Claims::decode_at(&tampered, SECRET, 1_700_000_001).is_err());
}

#[test]
fn payload_must_carry_every_claim() {
    let full = vec![
        ("sub", text("550e8400-e29b-41d4-a716-446655440000")),
        ("email", text("alice@example.com")),
        ("role", text("admin")),
        ("exp", number(2_000)),
        ("iat", number(1_000)),
    ];
    let ok = Claims::decode_at(&signed(full.clone(), SECRET), SECRET, 1_500).unwrap();
    assert_eq!(ok.role, UserRole::Admin);
    assert_eq!(ok.exp, 2_000);
    assert_eq!(ok.iat, 1_000);
    for missing in ["sub", "email", "role", "exp", "iat"] {
        let entries: Vec<(&str, serde_json::Value)> =
            full.iter().filter(|(k, _)| *k != missing).cloned().collect();
        match Claims::decode_at(&signed(entries, SECRET), SECRET, 1_500) {
            Err(AppError::TokenError(TokenFault::Invalid)) => {}
            other => panic!("expected an invalid token without {}, got {:?}", missing, other),
        }
    }
}

#[test]
fn payload_fields_must_have_the_right_type() {
    let with = |key: &'static str, value: serde_json::Value| -> String {
        let mut entries = vec![
            ("sub", text("550e8400-e29b-41d4-a716-446655440000")),
            ("email", text("alice@example.com")),
            ("role", text("admin")),
            ("exp", number(2_000)),
            ("iat", number(1_000)),
        ];
        entries.retain(|(k, _)| *k != key);
        entries.push((key, value));
        signed(entries, SECRET)
    };
    let cases = vec![
        with("role", text("Admin")),
        with("role", text("owner")),
        with("role", text("")),
        with("role", number(1)),
        with("sub", number(5)),
        with("email", serde_json::Value::Null),
        with("exp", text("2000")),
        with("exp", number(-5)),
        with("iat", text("1000")),
        with("iat", serde_json::Value::Bool(true)),
        with("aud", text("someone")),
    ];
    for token in cases {
        match Claims::decode_at(&token, SECRET, 1_500) {
            Err(AppError::TokenError(TokenFault::Invalid)) => {}
            other => panic!("expected an invalid token, got {:?}", other),
        }
    }
    let extra = with("nickname", text("al"));
    assert!(Claims::decode_at(&extra, SECRET, 1_500).is_ok());
    let negative_issue = with("iat", number(-1_000));
    assert_eq!(Claims::decode_at(&negative_issue, SECRET, 1_500).unwrap().iat, -1_000);
}

#[test]
fn from_fields_decides_on_plain_values() {
    let ok = Claims::from_fields(
        Some("s".to_string()),
        Some("e@x.io".to_string()),
        Some("worker".to_string()),
        Some(100),
        Some(10),
        99,
    )
    .unwrap();
    assert_eq!(ok.sub, "s");
    assert_eq!(ok.email, "e@x.io");
    assert_eq!(ok.role, UserRole::Worker);
    assert_eq!(ok.exp, 100);
    assert_eq!(ok.iat, 10);
    let at_expiry = Claims::from_fields(
        Some("s".to_string()),
        Some("e@x.io".to_string()),
        Some("worker".to_string()),
        Some(100),
        Some(10),
        100,
    );
    assert!(matches!(at_expiry, Err(AppError::TokenError(TokenFault::Expired))));
    let no_role = Claims::from_fields(
        Some("s".to_string()),
        Some("e@x.io".to_string()),
        None,
        Some(100),
        Some(10),
        0,
    );
    assert!(matches!(no_role, Err(AppError::TokenError(TokenFault::Invalid))));
    let bad_role_and_expired = Claims::from_fields(
        Some("s".to_string()),
        Some("e@x.io".to_string()),
        Some("root".to_string()),
        Some(100),
        Some(10),
        500,
    );
    assert!(matches!(bad_role_and_expired, Err(AppError::TokenError(TokenFault::Invalid))));
}

#[test]
fn is_expired_at_compares_with_expiry() {
    let c = sample(1_000, 1);
    assert!(!c.is_expired_at(4_599));
    assert!(c.is_expired_at(4_600));
    assert!(c.is_expired_at(4_601));
}

#[test]
fn user_id_reads_the_subject() {
    let c = sample(1_000, 1);
    assert_eq!(c.user_id().unwrap(), UserId(ALICE));
    let mut upper = c.clone();
    upper.sub = "550E8400-E29B-41D4-A716-446655440000".to_string();
    assert_eq!(upper.user_id().unwrap(), UserId(ALICE));
    let mut bad = c.clone();
    bad.sub = "not-an-identifier".to_string();
    match bad.user_id() {
        Err(AppError::TokenError(TokenFault::MalformedSubject)) => {}
        other => panic!("expected a malformed subject, got {:?}", other),
    }
    let e = bad.user_id().unwrap_err();
    assert_eq!(e.status_code(), 401);
    assert_eq!(e.to_text(), "Token error: InvalidSubject");
}
