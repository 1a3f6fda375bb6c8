use task_auth::passwords::{accept_verdict, hash_password, verify_password};

#[test]
fn test_hash_password() {
    let password = "password";
    hash_password(&password).expect("Hashing failed");
}

#[test]
fn test_verify_password() {
    let password = "password";
    let hash = hash_password(&password).expect("Hashing failed");

    let verified = verify_password(password, &hash);
    assert!(verified);
}

#[test]
fn wrong_password_and_malformed_hash_are_plain_false() {
    let hash = "$2b$04$EGdrhbKUv8Oc9vGiXX0HQOxSg445d458Muh7DAHskb6QbtCvdxcie";
    assert!(verify_password("correctbatteryhorsestapler", hash));
    assert!(!verify_password("wrong", hash));
    assert!(!verify_password("password", "not a hash"));
    assert!(!verify_password(hash, "password"));
}

#[test]
fn hash_is_salted_and_not_the_password() {
    let a = hash_password("pw123").unwrap();
    let b = hash_password("pw123").unwrap();
    assert_ne!(a, "pw123");
    assert_ne!(a, b);
    assert!(verify_password("pw123", &a));
    assert!(verify_password("pw123", &b));
}

#[test]
fn only_a_match_is_accepted() {
    assert!(accept_verdict(Some(true)));
    assert!(!accept_verdict(Some(false)));
    assert!(!accept_verdict(None));
}

#[test]
fn hash_has_the_shape_of_the_default_cost() {
    let hash = hash_password("password").unwrap();
    assert_ne!(hash, "password");
    assert_eq!(hash.len(), 60);
    assert_eq!(hash.chars().count(), 60);
    assert_eq!(&hash[..7], "$2b$12$");
    assert!(verify_password("password", &hash));
}
