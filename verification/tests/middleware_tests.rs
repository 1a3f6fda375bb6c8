use task_auth::auth::Authenticator;
use task_auth::error::APIErrorResponse;
use task_auth::middleware::{access_token_claims, extract_token, refresh_token_claims};

#[test]
fn bearer_prefix_is_required() {
    assert_eq!(extract_token(Some("Bearer abc.def.ghi")), Some(String::from("abc.def.ghi")));
    assert_eq!(extract_token(Some("Bearer ")), Some(String::new()));
    assert_eq!(extract_token(Some("Bearer")), None);
    assert_eq!(extract_token(Some("bearer abc")), None);
    assert_eq!(extract_token(Some("Basic abc")), None);
    assert_eq!(extract_token(Some("abc")), None);
    assert_eq!(extract_token(Some("")), None);
    assert_eq!(extract_token(Some("Bearer \u{e9}t\u{e9}")), Some(String::from("\u{e9}t\u{e9}")));
    assert_eq!(extract_token(Some("\u{e9}earer abc")), None);
    assert_eq!(extract_token(None), None);
}

#[test]
fn access_guard_attaches_claims_or_refuses() {
    let authenticator = Authenticator::new(String::from("secret"));
    let token = authenticator.new_access_token_at(4, 2_000, 1_000).unwrap();
    let header = format!("Bearer {}", token);
    let claims = access_token_claims(&authenticator, Some(&header), 1_500).unwrap();
    assert_eq!(claims.sub, 4);
    let refused = APIErrorResponse::unauthorized();
    assert_eq!(access_token_claims(&authenticator, Some(&header), 2_000).unwrap_err(), refused);
    assert_eq!(access_token_claims(&authenticator, Some(&token), 1_500).unwrap_err(), refused);
    assert_eq!(access_token_claims(&authenticator, None, 1_500).unwrap_err(), refused);
    assert_eq!(
        access_token_claims(&authenticator, Some("Bearer junk"), 1_500).unwrap_err(),
        refused
    );
    assert_eq!(refresh_token_claims(&authenticator, Some(&header), 1_500).unwrap_err(), refused);
    assert_eq!(refused.status(), 401);
    assert_eq!(refused.message(), "Unauthorized");
}

#[test]
fn refresh_guard_attaches_claims_or_refuses() {
    let authenticator = Authenticator::new(String::from("secret"));
    let token = authenticator.new_refresh_token_at(77, 4, 2_000, 1_000).unwrap();
    let header = format!("Bearer {}", token);
    let claims = refresh_token_claims(&authenticator, Some(&header), 1_500).unwrap();
    assert_eq!((claims.jti, claims.sub), (77, 4));
    let refused = APIErrorResponse::unauthorized();
    assert_eq!(refresh_token_claims(&authenticator, Some(&header), 2_500).unwrap_err(), refused);
    assert_eq!(refresh_token_claims(&authenticator, None, 1_500).unwrap_err(), refused);
}
