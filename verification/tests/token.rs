use elnafo::api::token::{
    DecodeFailure, RawClaims, TokenClaims, TokenError, MAX_LIFETIME, MAX_TIMESTAMP,
};

#[test]
fn token_round_trips_before_expiry() {
    let token = TokenClaims::create_at("subject-1", "secret", 3600, 1_700_000_000).unwrap();
    let claims = TokenClaims::validate_at(&token, "secret", 1_700_000_100).unwrap();
    assert_eq!(claims.sub, "subject-1");
    assert_eq!(claims.iat, 1_700_000_000);
    assert_eq!(claims.exp, 1_700_003_600);
}

#[test]
fn token_is_valid_at_the_instant_of_expiry() {
    let token = TokenClaims::create_at("s", "k", 10, 1000).unwrap();
    assert!(TokenClaims::validate_at(&token, "k", 1010).is_ok());
}

#[test]
fn token_expires_after_its_lifetime() {
    let token = TokenClaims::create_at("s", "k", 10, 1000).unwrap();
    assert_eq!(TokenClaims::validate_at(&token, "k", 1011).unwrap_err(), TokenError::Expired);
}

#[test]
fn token_under_another_secret_has_a_bad_signature() {
    let token = TokenClaims::create_at("s", "k", 10, 1000).unwrap();
    assert_eq!(
        TokenClaims::validate_at(&token, "other", 1000).unwrap_err(),
        TokenError::BadSignature
    );
}

#[test]
fn expired_token_under_another_secret_is_refused_for_its_signature() {
    let token = TokenClaims::create_at("s", "k", 10, 1000).unwrap();
    assert_eq!(
        TokenClaims::validate_at(&token, "other", 5000).unwrap_err(),
        TokenError::BadSignature
    );
}

#[test]
fn tampered_token_is_refused() {
    let token = TokenClaims::create_at("s", "k", 10, 1000).unwrap();
    let mut tampered = token.clone();
    let last = tampered.pop().unwrap();
    tampered.push(if last == 'A' { 'B' } else { 'A' });
    assert!(TokenClaims::validate_at(&tampered, "k", 1000).is_err());
}

#[test]
fn text_that_is_no_token_is_malformed() {
    assert_eq!(
        TokenClaims::validate_at("not a token", "k", 0).unwrap_err(),
        TokenError::Malformed
    );
    assert_eq!(TokenClaims::validate_at("", "k", 0).unwrap_err(), TokenError::Malformed);
}

#[test]
fn token_has_three_parts() {
    let token = TokenClaims::create_at("s", "k", 10, 1000).unwrap();
    assert_eq!(token.split('.').count(), 3);
    assert_ne!(token, "s");
}

#[test]
fn token_is_a_function_of_claims_and_secret() {
    let a = TokenClaims::create_at("s", "k", 10, 1000).unwrap();
    let b = TokenClaims::create_at("s", "k", 10, 1000).unwrap();
    let c = TokenClaims::create_at("s", "k", 11, 1000).unwrap();
    assert_eq!(a, b);
    assert_ne!(a, c);
}

#[test]
fn times_before_the_epoch_cannot_be_signed() {
    assert_eq!(TokenClaims::create_at("s", "k", 10, -1).unwrap_err(), TokenError::Signing);
    assert_eq!(TokenClaims::create_at("s", "k", -11, 10).unwrap_err(), TokenError::Signing);
}

#[test]
fn negative_lifetime_gives_an_expired_token() {
    let token = TokenClaims::create_at("s", "k", -5, 1000).unwrap();
    assert_eq!(TokenClaims::validate_at(&token, "k", 1000).unwrap_err(), TokenError::Expired);
}

#[test]
fn check_decides_signature_then_shape_then_expiry() {
    assert_eq!(
        TokenClaims::check(Err(DecodeFailure::BadSignature), 0).unwrap_err(),
        TokenError::BadSignature
    );
    assert_eq!(
        TokenClaims::check(Err(DecodeFailure::Malformed), 0).unwrap_err(),
        TokenError::Malformed
    );
    let missing = RawClaims { sub: None, exp: Some(5), iat: Some(1) };
    assert_eq!(TokenClaims::check(Ok(missing), 0).unwrap_err(), TokenError::Malformed);
    let late = RawClaims { sub: Some("a".to_string()), exp: Some(5), iat: Some(1) };
    assert_eq!(TokenClaims::check(Ok(late.clone()), 6).unwrap_err(), TokenError::Expired);
    let claims = TokenClaims::check(Ok(late), 5).unwrap();
    assert_eq!((claims.sub.as_str(), claims.exp, claims.iat), ("a", 5, 1));
}

#[test]
fn create_and_validate_use_the_clock() {
    let token = TokenClaims::create("subject".to_string(), "secret".to_string(), 3600).unwrap();
    let claims = TokenClaims::validate(token.clone(), "secret".to_string()).unwrap();
    assert_eq!(claims.sub, "subject");
    assert_eq!(claims.exp, claims.iat + 3600);
    assert_eq!(
        TokenClaims::validate(token, "secret2".to_string()).unwrap_err(),
        TokenError::BadSignature
    );
    let stale = TokenClaims::create("subject".to_string(), "secret".to_string(), -3600).unwrap();
    assert_eq!(
        TokenClaims::validate(stale, "secret".to_string()).unwrap_err(),
        TokenError::Expired
    );
}

fn signed(claims: serde_json::Map<String, serde_json::Value>, secret: &str) -> String {
    jsonwebtoken::encode(
        &jsonwebtoken::Header::default(),
        &claims,
        &jsonwebtoken::EncodingKey::from_secret(secret.as_bytes()),
    )
    .unwrap()
}

fn claims(entries: Vec<(&str, serde_json::Value)>) -> serde_json::Map<String, serde_json::Value> {
    let mut map = serde_json::Map::new();
    for (key, value) in entries {
        map.insert(key.to_string(), value);
    }
    map
}

#[test]
fn well_signed_token_without_session_claims_is_malformed() {
    let no_subject = signed(claims(vec![("exp", 2000u64.into()), ("iat", 1000u64.into())]), "k");
    assert_eq!(TokenClaims::validate_at(&no_subject, "k", 1500).unwrap_err(), TokenError::Malformed);
    let no_expiry = signed(claims(vec![("sub", "s".into()), ("iat", 1000u64.into())]), "k");
    assert_eq!(TokenClaims::validate_at(&no_expiry, "k", 1500).unwrap_err(), TokenError::Malformed);
    let no_issue = signed(claims(vec![("sub", "s".into()), ("exp", 2000u64.into())]), "k");
    assert_eq!(TokenClaims::validate_at(&no_issue, "k", 1500).unwrap_err(), TokenError::Malformed);
    let numeric_subject = signed(
        claims(vec![("sub", 7u64.into()), ("exp", 2000u64.into()), ("iat", 1000u64.into())]),
        "k",
    );
    assert_eq!(
        TokenClaims::validate_at(&numeric_subject, "k", 1500).unwrap_err(),
        TokenError::Malformed
    );
    let negative_issue = signed(
        claims(vec![("sub", "s".into()), ("exp", 2000u64.into()), ("iat", (-1i64).into())]),
        "k",
    );
    assert_eq!(
        TokenClaims::validate_at(&negative_issue, "k", 1500).unwrap_err(),
        TokenError::Malformed
    );
}

#[test]
fn malformed_claims_under_a_wrong_secret_are_a_bad_signature() {
    let no_subject = signed(claims(vec![("exp", 2000u64.into())]), "k");
    assert_eq!(
        TokenClaims::validate_at(&no_subject, "other", 1500).unwrap_err(),
        TokenError::BadSignature
    );
}

#[test]
fn token_made_by_the_signing_library_is_accepted() {
    let token = signed(
        claims(vec![("sub", "s".into()), ("exp", 2000u64.into()), ("iat", 1000u64.into())]),
        "k",
    );
    assert_eq!(token, TokenClaims::create_at("s", "k", 1000, 1000).unwrap());
    let accepted = TokenClaims::validate_at(&token, "k", 2000).unwrap();
    assert_eq!((accepted.sub.as_str(), accepted.exp, accepted.iat), ("s", 2000, 1000));
}

#[test]
fn token_of_another_algorithm_is_malformed() {
    let mut header = jsonwebtoken::Header::default();
    header.alg = jsonwebtoken::Algorithm::HS512;
    let token = jsonwebtoken::encode(
        &header,
        &claims(vec![("sub", "s".into()), ("exp", 2000u64.into()), ("iat", 1000u64.into())]),
        &jsonwebtoken::EncodingKey::from_secret(b"k"),
    )
    .unwrap();
    assert_eq!(TokenClaims::validate_at(&token, "k", 1500).unwrap_err(), TokenError::Malformed);
}

#[test]
fn secrets_that_sign_alike_open_each_other() {
    let padded = "k\0";
    let token = TokenClaims::create_at("s", "k", 10, 1000).unwrap();
    assert_eq!(token, TokenClaims::create_at("s", padded, 10, 1000).unwrap());
    assert!(TokenClaims::validate_at(&token, padded, 1000).is_ok());
}

#[test]
fn subject_round_trips_as_opaque_text() {
    for subject in ["", "550e8400-e29b-41d4-a716-446655440000", "quote\"and\\slash", "é\n\t", "a.b.c"] {
        let token = TokenClaims::create_at(subject, "k", 10, 1000).unwrap();
        assert_eq!(TokenClaims::validate_at(&token, "k", 1000).unwrap().sub, subject);
    }
}

#[test]
fn lifetime_beyond_the_longest_span_cannot_be_signed() {
    assert_eq!(MAX_LIFETIME, i64::MAX / 1000);
    assert!(TokenClaims::create_at("s", "k", MAX_LIFETIME, 0).is_err());
    assert_eq!(
        TokenClaims::create_at("s", "k", MAX_LIFETIME + 1, 0).unwrap_err(),
        TokenError::Signing
    );
    assert_eq!(
        TokenClaims::create_at("s", "k", -MAX_LIFETIME - 1, MAX_TIMESTAMP).unwrap_err(),
        TokenError::Signing
    );
    assert_eq!(TokenClaims::create_at("s", "k", i64::MAX, 0).unwrap_err(), TokenError::Signing);
    assert_eq!(TokenClaims::create_at("s", "k", i64::MIN, 0).unwrap_err(), TokenError::Signing);
}

#[test]
fn times_after_the_last_date_cannot_be_signed() {
    assert_eq!(MAX_TIMESTAMP, 8_210_266_876_799);
    assert!(TokenClaims::create_at("s", "k", 0, MAX_TIMESTAMP).is_ok());
    assert!(TokenClaims::create_at("s", "k", MAX_TIMESTAMP, 0).is_ok());
    assert!(TokenClaims::create_at("s", "k", -MAX_TIMESTAMP, MAX_TIMESTAMP).is_ok());
    assert_eq!(
        TokenClaims::create_at("s", "k", 0, MAX_TIMESTAMP + 1).unwrap_err(),
        TokenError::Signing
    );
    assert_eq!(
        TokenClaims::create_at("s", "k", 1, MAX_TIMESTAMP).unwrap_err(),
        TokenError::Signing
    );
    assert_eq!(
        TokenClaims::create_at("s", "k", 3600, i64::MAX).unwrap_err(),
        TokenError::Signing
    );
}

#[test]
fn limits_are_those_of_the_calendar() {
    assert_eq!(chrono::DateTime::<chrono::Utc>::MAX_UTC.timestamp(), MAX_TIMESTAMP);
    assert!(chrono::Duration::try_seconds(MAX_LIFETIME).is_some());
    assert!(chrono::Duration::try_seconds(-MAX_LIFETIME).is_some());
    assert!(chrono::Duration::try_seconds(MAX_LIFETIME + 1).is_none());
    assert!(chrono::Duration::try_seconds(-MAX_LIFETIME - 1).is_none());
    let now = chrono::Utc::now().timestamp();
    assert!(0 <= now && now <= MAX_TIMESTAMP);
}

#[test]
fn token_is_owed_for_every_representable_time() {
    for (duration, now) in [(0, 0), (3600, 1_700_000_000), (-1, 1), (MAX_TIMESTAMP, 0)] {
        assert!(TokenClaims::create_at("", "", duration, now).is_ok());
    }
}
