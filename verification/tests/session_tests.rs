use task_auth::auth::{Authenticator, RefreshClaims};
use task_auth::error::{APIErrorResponse, StorageError, CONFLICT, CREATED, UNAUTHORIZED};
use task_auth::passwords::verify_password;
use task_auth::session::{
    DefaultUserService, TokenGroup, ACCESS_TOKEN_LIFETIME, REFRESH_TOKEN_LIFETIME,
};
use task_auth::store::{InMemoryTokenRepository, StoredToken, TokenRepository};
use task_auth::users::{InMemoryUserRepository, User, UserPayload, UserRepository};

type Service = DefaultUserService<InMemoryUserRepository, InMemoryTokenRepository>;

fn service() -> Service {
    DefaultUserService::new(
        InMemoryUserRepository::new(),
        InMemoryTokenRepository::new(),
        Authenticator::new(String::from("secret")),
    )
}

fn payload(email: &str, username: &str, password: &str) -> UserPayload {
    UserPayload {
        email: String::from(email),
        username: String::from(username),
        password: String::from(password),
    }
}

fn refresh_claims_of(svc: &Service, group: &TokenGroup, now: i64) -> RefreshClaims {
    svc.authenticator
        .verify_refresh_token_at(group.refresh_token(), now)
        .unwrap()
}

#[test]
fn register_login_refresh_scenario() {
    let mut svc = service();
    let mut user = payload("a@example.com", "a_user_name", "pw123");
    assert_eq!(svc.register(&mut user), Ok(CREATED));
    assert_ne!(user.password, "pw123");
    assert!(verify_password("pw123", &user.password));
    let stored = svc.user_repository.get_user_by_email("a@example.com").unwrap();
    assert_eq!(stored.password, user.password);

    let mut again = payload("a@example.com", "other_name", "pw123");
    assert_eq!(svc.register(&mut again), Err(APIErrorResponse::conflict()));
    assert_eq!(again.password, "pw123");
    assert_eq!(svc.user_repository.len(), 1);

    let login = payload("a@example.com", "", "pw123");
    let group = svc.login(&login).unwrap();
    assert!(!group.access_token().is_empty());
    assert!(!group.refresh_token().is_empty());
    let access = svc.authenticator.verify_access_token(group.access_token()).unwrap();
    assert_eq!(access.sub, 1);

    let claims = svc.authenticator.verify_refresh_token(group.refresh_token()).unwrap();
    assert_eq!(claims.sub, 1);
    assert!(svc.token_repository.contains(claims.jti));
    let renewed = svc.refresh(&claims).unwrap();
    assert_ne!(renewed.refresh_token(), group.refresh_token());
    assert!(!svc.token_repository.contains(claims.jti));
    assert_eq!(svc.token_repository.len(), 1);

    let replay = svc.refresh(&claims).unwrap_err();
    assert_eq!(replay, APIErrorResponse::unauthorized());
    assert_eq!(replay.status(), UNAUTHORIZED);
    assert_eq!(svc.token_repository.len(), 1);
}

#[test]
fn conflict_on_taken_username_too() {
    let mut svc = service();
    svc.user_repository
        .add_user(&payload("a@example.com", "same_name", "hash"))
        .unwrap();
    let mut other = payload("b@example.com", "same_name", "pw123");
    let err = svc.register(&mut other).unwrap_err();
    assert_eq!(err.status(), CONFLICT);
    assert_eq!(err.message(), "Email or username already exists");
    assert_eq!(svc.user_repository.len(), 1);
}

#[test]
fn denied_logins_look_alike() {
    let mut svc = service();
    let mut user = payload("a@example.com", "a_user_name", "pw123");
    svc.register(&mut user).unwrap();
    let unknown = svc
        .login_at(&payload("nobody@example.com", "", "pw123"), 1_000, 1)
        .unwrap_err();
    let wrong = svc
        .login_at(&payload("a@example.com", "", "wrong"), 1_000, 2)
        .unwrap_err();
    assert_eq!(unknown, wrong);
    assert_eq!(unknown.status(), UNAUTHORIZED);
    assert_eq!(unknown.message(), "Invalid email or password");
    assert_eq!(svc.token_repository.len(), 0);
}

#[test]
fn login_purges_earlier_refresh_tokens() {
    let mut svc = service();
    let mut user = payload("a@example.com", "a_user_name", "pw123");
    svc.register(&mut user).unwrap();
    svc.token_repository.add_token(500, 9_999, 2).unwrap();
    let login = payload("a@example.com", "", "pw123");
    let first = svc.login_at(&login, 1_000, 10).unwrap();
    let first_claims = refresh_claims_of(&svc, &first, 1_000);
    assert_eq!(first_claims.jti, 10);
    assert_eq!(first_claims.exp as i64, 1_000 + REFRESH_TOKEN_LIFETIME);
    assert_eq!(first_claims.exp, 1_210_600);
    assert_eq!(first_claims.iat, 1_000);
    let access = svc
        .authenticator
        .verify_access_token_at(first.access_token(), 1_000)
        .unwrap();
    assert_eq!(access.exp as i64, 1_000 + ACCESS_TOKEN_LIFETIME);
    assert_eq!(access.exp, 1_600);
    assert_eq!(
        svc.token_repository.get(10),
        Some(StoredToken { id: 10, exp: 1_210_600, user_id: 1 })
    );

    svc.login_at(&login, 2_000, 11).unwrap();
    assert!(!svc.token_repository.contains(10));
    assert!(svc.token_repository.contains(11));
    assert!(svc.token_repository.contains(500));
    let err = svc.refresh_at(&first_claims, 2_001, 12).unwrap_err();
    assert_eq!(err, APIErrorResponse::unauthorized());
    assert!(!svc.token_repository.contains(12));
}

#[test]
fn refresh_rotates_and_is_single_use() {
    let mut svc = service();
    let first = svc.create_token_group_at(7, 1_000, 20).unwrap();
    let claims = refresh_claims_of(&svc, &first, 1_000);
    let second = svc.refresh_at(&claims, 1_500, 21).unwrap();
    assert!(!svc.token_repository.contains(20));
    assert_eq!(
        svc.token_repository.get(21),
        Some(StoredToken { id: 21, exp: 1_500 + REFRESH_TOKEN_LIFETIME, user_id: 7 })
    );
    let next = refresh_claims_of(&svc, &second, 1_500);
    assert_eq!((next.jti, next.sub), (21, 7));
    assert_eq!(
        svc.refresh_at(&claims, 1_600, 22).unwrap_err(),
        APIErrorResponse::unauthorized()
    );
    assert_eq!(svc.token_repository.len(), 1);
    assert!(svc.refresh_at(&next, 1_700, 23).is_ok());
}

#[test]
fn issuance_fails_without_a_record_when_the_identifier_is_in_use() {
    let mut svc = service();
    svc.create_token_group_at(7, 1_000, 20).unwrap();
    let err = svc.create_token_group_at(8, 1_000, 20).unwrap_err();
    assert_eq!(err.status(), 500);
    assert_eq!(svc.token_repository.get(20).map(|t| t.user_id), Some(7));
    let err = svc.create_token_group_at(8, -1, 30).unwrap_err();
    assert_eq!(err.status(), 500);
    assert!(!svc.token_repository.contains(30));
    let err = svc.create_token_group_at(8, i64::MAX, 30).unwrap_err();
    assert_eq!(err.status(), 500);
    assert_eq!(svc.token_repository.len(), 1);
}

#[test]
fn create_token_group_records_a_fresh_identifier() {
    let mut svc = service();
    let a = svc.create_token_group(3).unwrap();
    let b = svc.create_token_group(3).unwrap();
    let a = svc.authenticator.verify_refresh_token(a.refresh_token()).unwrap();
    let b = svc.authenticator.verify_refresh_token(b.refresh_token()).unwrap();
    assert_ne!(a.jti, b.jti);
    assert!(svc.token_repository.contains(a.jti));
    assert!(svc.token_repository.contains(b.jti));
    let group = TokenGroup::new(String::from("a"), String::from("r"));
    assert_eq!((group.access_token(), group.refresh_token()), ("a", "r"));
}

#[test]
fn logout_revokes_the_refresh_token() {
    let mut svc = service();
    let group = svc.create_token_group_at(7, 1_000, 20).unwrap();
    let claims = refresh_claims_of(&svc, &group, 1_000);
    assert_eq!(svc.logout(&claims), Ok(true));
    assert!(!svc.token_repository.contains(20));
    assert_eq!(svc.logout(&claims), Ok(false));
    assert_eq!(
        svc.refresh_at(&claims, 1_001, 21).unwrap_err(),
        APIErrorResponse::unauthorized()
    );
}

#[test]
fn error_answers_have_their_status_and_message() {
    assert_eq!(APIErrorResponse::conflict().status(), CONFLICT);
    assert_eq!(APIErrorResponse::invalid_login().status(), UNAUTHORIZED);
    assert_eq!(APIErrorResponse::bad_request("x").status(), 400);
    assert_eq!(APIErrorResponse::bad_request("x").message(), "x");
    assert_eq!(CREATED, 201);
    let err = APIErrorResponse::from_storage(task_auth::error::StorageError::Database(
        String::from("down"),
    ));
    assert_eq!((err.status(), err.message()), (500, "down"));
    let err = APIErrorResponse::from_auth(task_auth::error::AuthError::Signing);
    assert_eq!(err.status(), 500);
    let err = APIErrorResponse::from_auth(task_auth::error::AuthError::InvalidToken);
    assert_eq!(err, APIErrorResponse::unauthorized());
}

#[test]
fn first_registration_stores_a_hash_of_the_password() {
    let mut svc = service();
    let mut user = payload("a@example.com", "a_user_name", "pw123");
    assert_eq!(svc.register(&mut user), Ok(CREATED));
    assert_eq!(svc.user_repository.len(), 1);
    let stored = svc.user_repository.get_user_by_email("a@example.com").unwrap();
    assert_eq!(stored.email, "a@example.com");
    assert_eq!(stored.username, "a_user_name");
    assert_ne!(stored.password, "pw123");
    assert_eq!(stored.password.len(), 60);
    assert!(stored.password.starts_with("$2b$12$"));
    assert!(verify_password("pw123", &stored.password));
    assert_eq!(stored.password, user.password);
}

#[test]
fn add_hashed_user_stores_the_hash_it_is_given() {
    let mut svc = service();
    let mut user = payload("a@example.com", "a_user_name", "pw123");
    assert_eq!(svc.add_hashed_user(&mut user, String::from("the hash")), Ok(CREATED));
    assert_eq!(user.password, "the hash");
    assert_eq!((user.email.as_str(), user.username.as_str()), ("a@example.com", "a_user_name"));
    let stored = svc.user_repository.get_user_by_email("a@example.com").unwrap();
    assert_eq!((stored.id, stored.password.as_str()), (1, "the hash"));
    let mut again = payload("a@example.com", "other_name", "pw123");
    let err = svc.add_hashed_user(&mut again, String::from("other hash")).unwrap_err();
    assert_eq!(err.status(), 500);
    assert_eq!(again.password, "other hash");
    assert_eq!(svc.user_repository.len(), 1);
}

#[test]
fn login_goes_on_from_what_the_lookup_returned() {
    let hash = "$2b$04$EGdrhbKUv8Oc9vGiXX0HQOxSg445d458Muh7DAHskb6QbtCvdxcie";
    let account = || {
        User::new(3, String::from("a@example.com"), String::from("name"), String::from(hash))
    };
    let mut svc = service();
    svc.token_repository.add_token(1, 9_999, 3).unwrap();
    svc.token_repository.add_token(2, 9_999, 4).unwrap();

    let down = svc
        .login_fetched(Err(StorageError::Database(String::from("down"))), "pw", 1_000, 10)
        .unwrap_err();
    assert_eq!((down.status(), down.message()), (500, "down"));
    let unknown = svc
        .login_fetched(Err(StorageError::RowNotFound), "pw", 1_000, 10)
        .unwrap_err();
    assert_eq!(unknown, APIErrorResponse::invalid_login());
    let wrong = svc.login_fetched(Ok(account()), "wrong", 1_000, 10).unwrap_err();
    assert_eq!(wrong, APIErrorResponse::invalid_login());
    assert_eq!(svc.token_repository.len(), 2);
    assert!(!svc.token_repository.contains(10));

    let group = svc
        .login_fetched(Ok(account()), "correctbatteryhorsestapler", 1_000, 10)
        .unwrap();
    assert_eq!(refresh_claims_of(&svc, &group, 1_000).sub, 3);
    assert!(!svc.token_repository.contains(1));
    assert!(svc.token_repository.contains(2));
    assert_eq!(
        svc.token_repository.get(10),
        Some(StoredToken { id: 10, exp: 1_000 + REFRESH_TOKEN_LIFETIME, user_id: 3 })
    );
}

#[test]
fn a_failed_flow_leaves_the_store_as_it_was() {
    let hash = "$2b$04$EGdrhbKUv8Oc9vGiXX0HQOxSg445d458Muh7DAHskb6QbtCvdxcie";
    let account =
        User::new(3, String::from("a@example.com"), String::from("name"), String::from(hash));
    let mut svc = service();
    let first = svc.create_token_group_at(3, 1_000, 20).unwrap();
    let claims = refresh_claims_of(&svc, &first, 1_000);
    svc.token_repository.add_token(21, 9_999, 4).unwrap();

    let taken = svc.refresh_at(&claims, 1_500, 21).unwrap_err();
    assert_eq!(taken.status(), 500);
    let own = svc.refresh_at(&claims, 1_500, 20).unwrap_err();
    assert_eq!(own.status(), 500);
    let clock = svc.refresh_at(&claims, -1, 22).unwrap_err();
    assert_eq!((clock.status(), clock.message()), (500, "Clock out of range"));
    assert_eq!(svc.token_repository.len(), 2);
    assert_eq!(svc.token_repository.get(20).map(|t| t.user_id), Some(3));
    assert_eq!(svc.token_repository.get(21).map(|t| t.user_id), Some(4));

    let password = "correctbatteryhorsestapler";
    let in_use = svc.login_fetched(Ok(account.clone()), password, 1_500, 21).unwrap_err();
    assert_eq!(in_use.status(), 500);
    let own = svc.login_fetched(Ok(account.clone()), password, 1_500, 20).unwrap_err();
    assert_eq!(own.status(), 500);
    let clock = svc.login_fetched(Ok(account), password, i64::MAX, 23).unwrap_err();
    assert_eq!(clock.message(), "Clock out of range");
    assert_eq!(svc.token_repository.len(), 2);
    assert!(svc.token_repository.contains(20));

    assert!(svc.refresh_at(&claims, 1_500, 22).is_ok());
    assert!(!svc.token_repository.contains(20));
}

#[test]
fn minting_records_nothing() {
    let svc = service();
    let group = svc.mint_token_group(7, 1_000, 30).unwrap();
    let claims = refresh_claims_of(&svc, &group, 1_000);
    assert_eq!((claims.jti, claims.sub, claims.exp), (30, 7, 1_210_600));
    assert_eq!(svc.token_repository.len(), 0);
    assert_eq!(svc.mint_token_group(7, -1, 30).unwrap_err().message(), "Clock out of range");
}
