use tbm_application::jwt::Claims;
use tbm_application::jwt::JwtService;
use tbm_application::jwt::TokenError;

#[test]
fn test_generate_and_verify_token() {
    let jwt_service = JwtService::default();
    let user_id = uuid::Uuid::new_v4().to_string();
    let email = "test@example.com";
    let username = "testuser";

    let token = jwt_service.generate_token(&user_id, email, username).unwrap();
    assert!(!token.is_empty());

    let claims = jwt_service.verify_token(&token).unwrap();
    assert_eq!(claims.sub, user_id);
    assert_eq!(claims.email, email);
    assert_eq!(claims.username, username);
}

#[test]
fn test_verify_invalid_token() {
    let jwt_service = JwtService::default();
    let invalid_token = "invalid.token.here";

    let result = jwt_service.verify_token(invalid_token);
    assert!(result.is_err());
}

#[test]
fn test_expires_in_seconds() {
    let jwt_service = JwtService::default();
    assert_eq!(jwt_service.expires_in_seconds(), 86400); // 24 hours = 86400 seconds
}

#[test]
fn test_issue_then_verify_returns_the_issued_claims() {
    let jwt = JwtService::new("round-trip-secret");
    let now: i64 = 1_700_000_000;
    let token = jwt
        .issue_token_at("11111111-1111-1111-1111-111111111111", "a@b.com", "alice", now)
        .unwrap();

    let claims = jwt.verify_token_at(&token, now).unwrap();
    assert_eq!(claims.sub, "11111111-1111-1111-1111-111111111111");
    assert_eq!(claims.email, "a@b.com");
    assert_eq!(claims.username, "alice");
    assert_eq!(claims.iat, now);
    assert_eq!(claims.exp - claims.iat, jwt.expires_in_seconds());
}

#[test]
fn test_expiry_boundary() {
    let jwt = JwtService::new("expiry-secret");
    let now: i64 = 1_700_000_000;
    let token = jwt.issue_token_at("id", "a@b.com", "alice", now).unwrap();
    let exp = now + 86400;

    // any instant strictly before the expiry succeeds
    assert!(jwt.verify_token_at(&token, now).is_ok());
    assert!(jwt.verify_token_at(&token, exp - 1).is_ok());
    // at or after the expiry instant, verification fails
    assert_eq!(jwt.verify_token_at(&token, exp).unwrap_err(), TokenError::TokenInvalid);
    assert_eq!(jwt.verify_token_at(&token, exp + 1).unwrap_err(), TokenError::TokenInvalid);
}

#[test]
fn test_wrong_secret_fails_verification() {
    let jwt_a = JwtService::new("secret-a");
    let jwt_b = JwtService::new("secret-b");
    let now: i64 = 1_700_000_000;
    let token = jwt_a.issue_token_at("id", "a@b.com", "alice", now).unwrap();

    assert!(jwt_a.verify_token_at(&token, now).is_ok());
    assert_eq!(jwt_b.verify_token_at(&token, now).unwrap_err(), TokenError::TokenInvalid);
}

#[test]
fn test_tampered_token_fails_verification() {
    let jwt = JwtService::new("tamper-secret");
    let now: i64 = 1_700_000_000;
    let token = jwt.issue_token_at("id", "a@b.com", "alice", now).unwrap();

    let mut tampered = token.clone();
    tampered.pop();
    tampered.push('A');
    if tampered == token {
        tampered.pop();
        tampered.push('B');
    }
    assert!(jwt.verify_token_at(&tampered, now).is_err());
}

#[test]
fn test_token_missing_a_claim_is_rejected() {
    // A structurally valid, correctly signed token that lacks the username
    // field must be rejected by the library's verification.
    let secret = "missing-claim-secret";
    let mut claims = serde_json::Map::new();
    claims.insert("sub".to_string(), serde_json::Value::from("id"));
    claims.insert("email".to_string(), serde_json::Value::from("a@b.com"));
    claims.insert("exp".to_string(), serde_json::Value::from(1_700_086_400i64));
    claims.insert("iat".to_string(), serde_json::Value::from(1_700_000_000i64));
    let key = jsonwebtoken::EncodingKey::from_secret(secret.as_bytes());
    let token = jsonwebtoken::encode(&jsonwebtoken::Header::default(), &claims, &key).unwrap();

    let jwt = JwtService::new(secret);
    assert!(jwt.verify_token_at(&token, 1_700_000_000).is_err());
}

#[test]
fn test_issued_token_decodes_under_plain_jsonwebtoken() {
    // The token the library issues is an ordinary signed JWT: decoding it
    // directly with the signing library recovers the same five claims.
    let secret = "interop-secret";
    let jwt = JwtService::new(secret);
    let now: i64 = 1_700_000_000;
    let token = jwt.issue_token_at("some-id", "a@b.com", "alice", now).unwrap();

    let mut validation = jsonwebtoken::Validation::new(jsonwebtoken::Algorithm::HS256);
    validation.validate_exp = false;
    let key = jsonwebtoken::DecodingKey::from_secret(secret.as_bytes());
    let data = jsonwebtoken::decode::<serde_json::Map<String, serde_json::Value>>(
        &token, &key, &validation,
    )
    .unwrap();
    let c = data.claims;
    assert_eq!(c.get("sub").unwrap().as_str().unwrap(), "some-id");
    assert_eq!(c.get("email").unwrap().as_str().unwrap(), "a@b.com");
    assert_eq!(c.get("username").unwrap().as_str().unwrap(), "alice");
    assert_eq!(c.get("iat").unwrap().as_i64().unwrap(), now);
    assert_eq!(c.get("exp").unwrap().as_i64().unwrap(), now + 86400);
}

#[test]
fn test_externally_minted_token_verifies() {
    // A token minted by the signing library directly is accepted by the
    // library's verification, with the same claims.
    let secret = "external-mint-secret";
    let mut claims = serde_json::Map::new();
    claims.insert("sub".to_string(), serde_json::Value::from("ext-id"));
    claims.insert("email".to_string(), serde_json::Value::from("e@f.org"));
    claims.insert("username".to_string(), serde_json::Value::from("erin"));
    claims.insert("exp".to_string(), serde_json::Value::from(1_700_086_400i64));
    claims.insert("iat".to_string(), serde_json::Value::from(1_700_000_000i64));
    let key = jsonwebtoken::EncodingKey::from_secret(secret.as_bytes());
    let token = jsonwebtoken::encode(&jsonwebtoken::Header::default(), &claims, &key).unwrap();

    let jwt = JwtService::new(secret);
    let decoded: Claims = jwt.verify_token_at(&token, 1_700_000_000).unwrap();
    assert_eq!(decoded.sub, "ext-id");
    assert_eq!(decoded.email, "e@f.org");
    assert_eq!(decoded.username, "erin");
    assert_eq!(decoded.iat, 1_700_000_000);
    assert_eq!(decoded.exp, 1_700_086_400);
}

#[test]
fn test_token_wire_shape() {
    let jwt = JwtService::default();
    let token = jwt.generate_token("id", "a@b.com", "alice").unwrap();
    let parts: Vec<&str> = token.split('.').collect();
    assert_eq!(parts.len(), 3);
    assert!(parts.iter().all(|p| !p.is_empty()));
}

#[test]
fn test_generated_token_carries_the_clock() {
    let jwt = JwtService::default();
    let before = chrono::Utc::now().timestamp();
    let token = jwt.generate_token("id", "a@b.com", "alice").unwrap();
    let after = chrono::Utc::now().timestamp();

    let claims = jwt.verify_token(&token).unwrap();
    assert!(before <= claims.iat && claims.iat <= after);
    assert_eq!(claims.exp, claims.iat + 86400);
}
