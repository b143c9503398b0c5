use pollution_tracker::auth::{
    authenticate, bearer_token, check_token, create_jwt, issue_token, judge_claims, verify_jwt,
    AuthError, Claims,
};

const SECRET: &str = "a secret that only the service knows";
const NOW: i64 = 1_700_000_000;

#[test]
fn issued_token_verifies_at_once() {
    let token = issue_token("alice", SECRET, NOW);
    let claims = check_token(&token, SECRET, NOW).unwrap();
    assert_eq!(claims.sub, "alice");
    assert_eq!(claims.role, "user");
    assert_eq!(claims.exp, NOW + 3600);
}

#[test]
fn issued_token_has_three_parts_and_is_not_the_subject() {
    let token = issue_token("alice", SECRET, NOW);
    assert_eq!(token.split('.').count(), 3);
    assert_ne!(token, "alice");
}

#[test]
fn issued_token_is_the_hs256_token_of_its_claims() {
    // Header and payload are the base64url texts of
    // {"typ":"JWT","alg":"HS256"} and {"sub":"alice","exp":1700003600,"role":"user"}.
    let token = issue_token("alice", SECRET, NOW);
    let mut parts = token.split('.');
    assert_eq!(parts.next(), Some("eyJ0eXAiOiJKV1QiLCJhbGciOiJIUzI1NiJ9"));
    assert_eq!(
        parts.next(),
        Some("eyJzdWIiOiJhbGljZSIsImV4cCI6MTcwMDAwMzYwMCwicm9sZSI6InVzZXIifQ")
    );
}

#[test]
fn issuing_is_deterministic_for_one_instant() {
    assert_eq!(issue_token("alice", SECRET, NOW), issue_token("alice", SECRET, NOW));
    assert_ne!(issue_token("alice", SECRET, NOW), issue_token("bob", SECRET, NOW));
    assert_ne!(issue_token("alice", SECRET, NOW), issue_token("alice", SECRET, NOW + 1));
}

#[test]
fn token_is_valid_until_just_before_its_expiry() {
    let token = issue_token("alice", SECRET, NOW);
    assert!(check_token(&token, SECRET, NOW + 3599).is_ok());
}

#[test]
fn token_fails_once_its_expiry_has_elapsed() {
    let token = issue_token("alice", SECRET, NOW);
    assert_eq!(check_token(&token, SECRET, NOW + 3600).err(), Some(AuthError::Unauthenticated));
    assert_eq!(check_token(&token, SECRET, NOW + 3601).err(), Some(AuthError::Unauthenticated));
    assert_eq!(check_token(&token, SECRET, i64::MAX).err(), Some(AuthError::Unauthenticated));
}

#[test]
fn token_signed_with_another_secret_fails() {
    let token = issue_token("alice", "another secret", NOW);
    assert_eq!(check_token(&token, SECRET, NOW).err(), Some(AuthError::Unauthenticated));
}

#[test]
fn tampered_token_fails() {
    let token = issue_token("alice", SECRET, NOW);
    let forged = issue_token("mallory", SECRET, NOW);
    let signature = token.rsplit('.').next().unwrap();
    let mut parts = forged.split('.');
    let swapped = format!("{}.{}.{}", parts.next().unwrap(), parts.next().unwrap(), signature);
    assert_eq!(check_token(&swapped, SECRET, NOW).err(), Some(AuthError::Unauthenticated));
}

#[test]
fn malformed_token_fails() {
    assert!(check_token("", SECRET, NOW).is_err());
    assert!(check_token("a.jwt.token", SECRET, NOW).is_err());
    assert!(check_token("alice", SECRET, NOW).is_err());
}

#[test]
fn token_without_role_fails() {
    let mut payload = serde_json::Map::new();
    payload.insert("sub".to_string(), serde_json::Value::from("alice"));
    payload.insert("exp".to_string(), serde_json::Value::from(NOW + 3600));
    let token = jsonwebtoken::encode(
        &jsonwebtoken::Header::default(),
        &payload,
        &jsonwebtoken::EncodingKey::from_secret(SECRET.as_bytes()),
    )
    .unwrap();
    assert!(check_token(&token, SECRET, NOW).is_err());
}

#[test]
fn token_made_by_the_signing_crate_is_accepted() {
    let mut payload = serde_json::Map::new();
    payload.insert("role".to_string(), serde_json::Value::from("admin"));
    payload.insert("sub".to_string(), serde_json::Value::from("carol"));
    payload.insert("exp".to_string(), serde_json::Value::from(NOW + 10));
    payload.insert("extra".to_string(), serde_json::Value::from(true));
    let token = jsonwebtoken::encode(
        &jsonwebtoken::Header::default(),
        &payload,
        &jsonwebtoken::EncodingKey::from_secret(SECRET.as_bytes()),
    )
    .unwrap();
    let claims = check_token(&token, SECRET, NOW).unwrap();
    assert_eq!((claims.sub.as_str(), claims.exp, claims.role.as_str()), ("carol", NOW + 10, "admin"));
    assert!(check_token(&token, SECRET, NOW + 10).is_err());
}

#[test]
fn expiry_is_judged_against_the_given_instant_only() {
    // Far in the past by the system clock, yet valid at the instant asked about.
    let token = issue_token("alice", SECRET, 1_000);
    assert!(check_token(&token, SECRET, 1_000).is_ok());
    assert!(check_token(&token, SECRET, 4_600).is_err());
}

#[test]
fn judge_claims_by_cases() {
    let claims = Claims { sub: "alice".to_string(), exp: 100, role: "user".to_string() };
    let kept = judge_claims(Some(claims.clone()), 99).unwrap();
    assert_eq!((kept.sub.as_str(), kept.exp, kept.role.as_str()), ("alice", 100, "user"));
    assert_eq!(judge_claims(Some(claims.clone()), 100).err(), Some(AuthError::Unauthenticated));
    assert_eq!(judge_claims(Some(claims), 101).err(), Some(AuthError::Unauthenticated));
    assert_eq!(judge_claims(None, 0).err(), Some(AuthError::Unauthenticated));
}

#[test]
fn bearer_token_is_what_follows_the_prefix() {
    assert_eq!(bearer_token("Bearer abc.def.ghi"), Some("abc.def.ghi"));
    assert_eq!(bearer_token("Bearer "), Some(""));
    assert_eq!(bearer_token("Bearer  x"), Some(" x"));
}

#[test]
fn bearer_token_needs_the_exact_prefix() {
    assert_eq!(bearer_token(""), None);
    assert_eq!(bearer_token("Bearer"), None);
    assert_eq!(bearer_token("bearer abc"), None);
    assert_eq!(bearer_token("Basic abc"), None);
    assert_eq!(bearer_token(" Bearer abc"), None);
    assert_eq!(bearer_token("Bearerabc"), None);
}

#[test]
fn bearer_token_keeps_text_beyond_ascii() {
    assert_eq!(bearer_token("Bearer żółw"), Some("żółw"));
    assert_eq!(bearer_token("Bęarer abc"), None);
}

#[test]
fn authenticate_lets_a_valid_bearer_through() {
    let header = format!("Bearer {}", issue_token("alice", SECRET, NOW));
    let claims = authenticate(Some(&header), SECRET, NOW + 1).unwrap();
    assert_eq!(claims.sub, "alice");
}

#[test]
fn authenticate_collapses_every_failure() {
    let token = issue_token("alice", SECRET, NOW);
    let good = format!("Bearer {}", token);
    assert_eq!(authenticate(None, SECRET, NOW).err(), Some(AuthError::Unauthenticated));
    assert_eq!(authenticate(Some(&token), SECRET, NOW).err(), Some(AuthError::Unauthenticated));
    assert_eq!(authenticate(Some("Bearer junk"), SECRET, NOW).err(), Some(AuthError::Unauthenticated));
    assert_eq!(authenticate(Some(&good), "other", NOW).err(), Some(AuthError::Unauthenticated));
    assert_eq!(authenticate(Some(&good), SECRET, NOW + 3600).err(), Some(AuthError::Unauthenticated));
}

#[test]
fn token_created_now_is_the_token_of_some_instant_nearby() {
    let before = chrono::Utc::now().timestamp();
    let token = create_jwt("alice", SECRET);
    let after = chrono::Utc::now().timestamp();
    assert!((before..=after).any(|now| issue_token("alice", SECRET, now) == token));
}

#[test]
fn token_created_now_verifies_now() {
    let token = create_jwt("alice", SECRET);
    let header = format!("Bearer {}", token);
    let claims = verify_jwt(Some(&header), SECRET).unwrap();
    assert_eq!(claims.sub, "alice");
    assert_eq!(claims.role, "user");
    let now = chrono::Utc::now().timestamp();
    assert!(now + 3590 <= claims.exp && claims.exp <= now + 3600);
}

#[test]
fn verify_now_rejects_missing_and_expired() {
    assert!(verify_jwt(None, SECRET).is_err());
    let old = format!("Bearer {}", issue_token("alice", SECRET, 1_000));
    assert!(verify_jwt(Some(&old), SECRET).is_err());
    let fresh = format!("Bearer {}", create_jwt("alice", "another secret"));
    assert!(verify_jwt(Some(&fresh), SECRET).is_err());
}
