use chrono::Utc;
use task_auth::auth::{AccessClaims, Authenticator, RefreshClaims};
use task_auth::error::AuthError;
use uuid::Uuid;

fn in_minutes(minutes: i64) -> usize {
    (Utc::now() + chrono::Duration::minutes(minutes)).timestamp() as usize
}

#[test]
fn test_encode_access_token() {
    let authenticator = Authenticator::new(String::from("secret"));
    authenticator.new_access_token(1, in_minutes(5)).unwrap();
}

#[test]
fn test_encode_refresh_token() {
    let authenticator = Authenticator::new(String::from("secret"));
    authenticator
        .new_refresh_token(Uuid::new_v4().as_u128(), 1, in_minutes(5))
        .unwrap();
}

#[test]
fn test_decode_access_token() {
    let authenticator = Authenticator::new(String::from("secret"));
    let sub = 1;
    let exp = in_minutes(5);
    let token = authenticator.new_access_token(sub, exp).unwrap();
    let claims = authenticator.verify_access_token(&token).unwrap();
    assert_eq!(claims.sub, sub);
    assert_eq!(claims.exp, exp);
}

#[test]
fn test_decode_refresh_token() {
    let authenticator = Authenticator::new(String::from("secret"));
    let jti = Uuid::new_v4().as_u128();
    let sub = 1;
    let exp = in_minutes(5);
    let token = authenticator.new_refresh_token(jti, sub, exp).unwrap();
    let claims = authenticator.verify_refresh_token(&token).unwrap();
    assert_eq!(claims.jti, jti);
    assert_eq!(claims.sub, sub);
    assert_eq!(claims.exp, exp);
}

#[test]
fn access_claims_round_trip_keeps_every_field() {
    let authenticator = Authenticator::new(String::from("secret"));
    let claims = AccessClaims::new(-7, 2_000, 1_000, String::from("issuer"));
    let token = authenticator.encode_access(&claims).unwrap();
    let back = authenticator.verify_access_token_at(&token, 1_500).unwrap();
    assert_eq!(back.sub, -7);
    assert_eq!(back.exp, 2_000);
    assert_eq!(back.iat, 1_000);
    assert_eq!(back.iss, "issuer");
}

#[test]
fn refresh_claims_round_trip_keeps_every_field() {
    let authenticator = Authenticator::new(String::from("secret"));
    let jti = 0xa1a2a3a4_b1b2_c1c2_d1d2_d3d4d5d6d7d8u128;
    let claims = RefreshClaims::new(jti, 42, 2_000, 1_000, String::from("issuer"));
    let token = authenticator.encode_refresh(&claims).unwrap();
    let back = authenticator.verify_refresh_token_at(&token, 0).unwrap();
    assert_eq!(back.jti, jti);
    assert_eq!(back.sub, 42);
    assert_eq!(back.exp, 2_000);
    assert_eq!(back.iat, 1_000);
    assert_eq!(back.iss, "issuer");
}

#[test]
fn token_has_three_parts_and_the_standard_field_names() {
    let authenticator = Authenticator::new(String::from("secret"));
    let token = authenticator.new_access_token_at(5, 2_000, 1_000).unwrap();
    assert_eq!(token.split('.').count(), 3);
    let m = AccessClaims::new(5, 2_000, 1_000, String::from("task.app.rust")).to_json();
    assert_eq!(m.len(), 4);
    assert_eq!(m.get("sub").and_then(|v| v.as_i64()), Some(5));
    assert_eq!(m.get("exp").and_then(|v| v.as_u64()), Some(2_000));
    assert_eq!(m.get("iat").and_then(|v| v.as_u64()), Some(1_000));
    assert_eq!(m.get("iss").and_then(|v| v.as_str()), Some("task.app.rust"));
    let jti = 0xa1a2a3a4_b1b2_c1c2_d1d2_d3d4d5d6d7d8u128;
    let r = RefreshClaims::new(jti, 5, 2_000, 1_000, String::from("x")).to_json();
    assert_eq!(
        r.get("jti").and_then(|v| v.as_str()),
        Some("a1a2a3a4-b1b2-c1c2-d1d2-d3d4d5d6d7d8")
    );
}

#[test]
fn minted_tokens_carry_the_issuer_tag() {
    let authenticator = Authenticator::new(String::from("secret"));
    let token = authenticator.new_refresh_token_at(9, 3, 2_000, 1_000).unwrap();
    let claims = authenticator.verify_refresh_token_at(&token, 1_999).unwrap();
    assert_eq!(claims.iss, "task.app.rust");
    assert_eq!(claims.iat, 1_000);
    assert_eq!(claims.jti, 9);
}

#[test]
fn expired_token_is_refused_even_when_well_signed() {
    let authenticator = Authenticator::new(String::from("secret"));
    let token = authenticator.new_access_token_at(1, 2_000, 1_000).unwrap();
    assert!(authenticator.verify_access_token_at(&token, 1_999).is_ok());
    assert_eq!(
        authenticator.verify_access_token_at(&token, 2_000).unwrap_err(),
        AuthError::InvalidToken
    );
    assert_eq!(
        authenticator.verify_access_token_at(&token, 2_001).unwrap_err(),
        AuthError::InvalidToken
    );
    let past = (Utc::now().timestamp() - 3_600) as usize;
    let stale = authenticator.new_refresh_token(1, 1, past).unwrap();
    assert_eq!(
        authenticator.verify_refresh_token(&stale).unwrap_err(),
        AuthError::InvalidToken
    );
}

#[test]
fn tampered_token_is_refused() {
    let authenticator = Authenticator::new(String::from("secret"));
    let token = authenticator.new_access_token_at(1, 2_000, 1_000).unwrap();
    let mut i = 0;
    while i < token.len() {
        let mut bytes = token.clone().into_bytes();
        bytes[i] ^= 0x01;
        if let Ok(changed) = String::from_utf8(bytes) {
            assert!(
                authenticator.verify_access_token_at(&changed, 1_500).is_err(),
                "byte {} flipped",
                i
            );
        }
        i += 1;
    }
}

#[test]
fn token_of_another_secret_is_refused() {
    let ours = Authenticator::new(String::from("secret"));
    let theirs = Authenticator::new(String::from("SECRET"));
    let token = theirs.new_access_token_at(1, 2_000, 1_000).unwrap();
    assert_eq!(
        ours.verify_access_token_at(&token, 1_500).unwrap_err(),
        AuthError::InvalidToken
    );
    assert_eq!(
        ours.verify_access_token_at("not a token", 1_500).unwrap_err(),
        AuthError::InvalidToken
    );
}

#[test]
fn access_token_is_no_refresh_token() {
    let authenticator = Authenticator::new(String::from("secret"));
    let token = authenticator.new_access_token_at(1, 2_000, 1_000).unwrap();
    assert_eq!(
        authenticator.verify_refresh_token_at(&token, 1_500).unwrap_err(),
        AuthError::InvalidToken
    );
}

#[test]
fn claims_from_json_need_every_field_in_range() {
    let mut m = serde_json::Map::new();
    m.insert(String::from("sub"), serde_json::Value::from(1i64));
    m.insert(String::from("exp"), serde_json::Value::from(10u64));
    m.insert(String::from("iat"), serde_json::Value::from(5u64));
    assert!(AccessClaims::from_json(&m).is_none());
    m.insert(String::from("iss"), serde_json::Value::from("me"));
    m.insert(String::from("extra"), serde_json::Value::from(true));
    let claims = AccessClaims::from_json(&m).unwrap();
    assert_eq!((claims.sub, claims.exp, claims.iat), (1, 10, 5));
    assert_eq!(claims.iss, "me");
    assert!(RefreshClaims::from_json(&m).is_none());
    m.insert(String::from("jti"), serde_json::Value::from("no uuid"));
    assert!(RefreshClaims::from_json(&m).is_none());
    m.insert(
        String::from("jti"),
        serde_json::Value::from("00000000-0000-0000-0000-00000000002a"),
    );
    assert_eq!(RefreshClaims::from_json(&m).unwrap().jti, 42);
    m.insert(String::from("sub"), serde_json::Value::from(i64::from(i32::MAX) + 1));
    assert!(AccessClaims::from_json(&m).is_none());
    m.insert(String::from("sub"), serde_json::Value::from("1"));
    assert!(AccessClaims::from_json(&m).is_none());
}

#[test]
fn opened_objects_are_read_at_the_given_time() {
    let claims = AccessClaims::new(1, 2_000, 1_000, String::from("me"));
    let m = claims.to_json();
    assert_eq!(AccessClaims::from_opened(&m, 1_999).unwrap().exp, 2_000);
    assert_eq!(AccessClaims::from_opened(&m, -5).unwrap().sub, 1);
    assert_eq!(AccessClaims::from_opened(&m, 2_000).unwrap_err(), AuthError::InvalidToken);
    assert_eq!(AccessClaims::from_opened(&m, i64::MAX).unwrap_err(), AuthError::InvalidToken);
    assert_eq!(RefreshClaims::from_opened(&m, 1_999).unwrap_err(), AuthError::InvalidToken);
    let r = RefreshClaims::new(9, 1, 2_000, 1_000, String::from("me")).to_json();
    assert_eq!(RefreshClaims::from_opened(&r, 1_999).unwrap().jti, 9);
    assert_eq!(RefreshClaims::from_opened(&r, 2_000).unwrap_err(), AuthError::InvalidToken);
    let empty = serde_json::Map::new();
    assert_eq!(AccessClaims::from_opened(&empty, 0).unwrap_err(), AuthError::InvalidToken);
}

#[test]
fn every_signed_claim_set_reads_back() {
    let authenticator = Authenticator::new(String::new());
    let cases: Vec<(i32, usize, usize, &str)> = vec![
        (0, 0, 0, ""),
        (i32::MIN, usize::MAX, usize::MAX, "task.app.rust"),
        (i32::MAX, 1, usize::MAX, "a \"quoted\" issuer\n\u{e9}\u{1f600}\\"),
        (7, 4_102_444_800, 1_700_000_000, "aud"),
    ];
    for (sub, exp, iat, iss) in cases {
        let claims = AccessClaims::new(sub, exp, iat, String::from(iss));
        let token = authenticator.encode_access(&claims).unwrap();
        let back = authenticator.verify_access_token_at(&token, -1).unwrap();
        assert_eq!((back.sub, back.exp, back.iat, back.iss.as_str()), (sub, exp, iat, iss));
        let refresh = RefreshClaims::new(u128::MAX, sub, exp, iat, String::from(iss));
        let token = authenticator.encode_refresh(&refresh).unwrap();
        let back = authenticator.verify_refresh_token_at(&token, -1).unwrap();
        assert_eq!(back.jti, u128::MAX);
        assert_eq!((back.sub, back.exp, back.iat, back.iss.as_str()), (sub, exp, iat, iss));
        if exp <= i64::MAX as usize {
            assert!(authenticator.verify_refresh_token_at(&token, exp as i64).is_err());
        }
    }
}
