use task_auth::error::{APIErrorResponse, BAD_REQUEST};
use task_auth::users::UserPayload;

struct TestCase {
    user_payload: UserPayload,
    expected: Option<APIErrorResponse>,
}

impl TestCase {
    fn new(user_payload: UserPayload, expected: Option<APIErrorResponse>) -> Self {
        Self { user_payload, expected }
    }
}

fn payload(email: &str, username: &str, password: &str) -> UserPayload {
    UserPayload {
        email: String::from(email),
        username: String::from(username),
        password: String::from(password),
    }
}

fn bad(message: &str) -> Option<APIErrorResponse> {
    Some(APIErrorResponse::new(BAD_REQUEST, String::from(message)))
}

#[test]
fn test_user_validate_email() {
    let tests: Vec<TestCase> = vec![
        TestCase::new(
            payload("missing", "Valid_Username", "Password_0123"),
            bad("Invalid email format"),
        ),
        TestCase::new(
            payload("@example.com", "Valid_Username", "Password_0123"),
            bad("Invalid email format(missing local part or domain)"),
        ),
        TestCase::new(
            payload("email@examplecom", "Valid_Username", "Password_0123"),
            bad("Invalid email format(invalid domain)"),
        ),
        TestCase::new(
            payload("email@example.c", "Valid_Username", "Password_0123"),
            bad("Invalid email format(invalid domain)"),
        ),
        TestCase::new(
            payload("email@e.com", "Valid_Username", "Password_0123"),
            bad("Invalid email format(invalid domain)"),
        ),
        TestCase::new(payload("email@example.com", "Valid_Username", "Password_0123"), None),
    ];

    for test in tests {
        assert_eq!(test.expected, test.user_payload.validate());
    }
}

#[test]
fn test_user_validate_username() {
    let tests = vec![TestCase::new(
        payload("email@example.com", "user", "Password_0123"),
        bad("Username should be more than 7 characters"),
    )];

    for test in tests {
        assert_eq!(test.expected, test.user_payload.validate());
    }
}

#[test]
fn test_user_validate_password() {
    let tests = vec![
        TestCase::new(
            payload("email@example.com", "Valid_Username", "pass"),
            bad("Password is too short"),
        ),
        TestCase::new(
            payload("email@example.com", "Valid_Username", "Password"),
            bad("Password must contain at least one number"),
        ),
        TestCase::new(
            payload("email@example.com", "Valid_Username", "password1"),
            bad("Password must contain at least one uppercase letter"),
        ),
        TestCase::new(
            payload("email@example.com", "Valid_Username", "PASSWORD1"),
            bad("Password must contain at least one lowercase letter"),
        ),
        TestCase::new(
            payload("email@example.com", "Valid_Username", "Password1"),
            bad("Password must contain at least one special character"),
        ),
    ];

    for test in tests {
        assert_eq!(test.expected, test.user_payload.validate());
    }
}

#[test]
fn email_edge_cases() {
    let check = |email: &str| payload(email, "", "").validate_email();
    assert_eq!(check("a@b@c.de"), bad("Invalid email format"));
    assert_eq!(check(""), bad("Invalid email format"));
    assert_eq!(check("@"), bad("Invalid email format(missing local part or domain)"));
    assert_eq!(check("email@"), bad("Invalid email format(missing local part or domain)"));
    assert_eq!(check("email@.com"), bad("Invalid email format(invalid domain)"));
    assert_eq!(check("email@ex."), bad("Invalid email format(invalid domain)"));
    assert_eq!(check("email@ex.c.om"), bad("Invalid email format(invalid domain)"));
    assert_eq!(check("email@ex.co.m"), None);
    assert_eq!(check("e@ex.co"), None);
    assert_eq!(check("e@\u{e9}.co"), None);
    assert_eq!(check("e@\u{e9}.\u{e9}"), None);
    assert_eq!(check("e@x.\u{e9}"), bad("Invalid email format(invalid domain)"));
    assert_eq!(check("e.f@ex.co"), None);
}

#[test]
fn lengths_are_counted_in_bytes() {
    assert_eq!(payload("", "1234567", "").validate_username(), bad("Username should be more than 7 characters"));
    assert_eq!(payload("", "12345678", "").validate_username(), None);
    assert_eq!(payload("", "\u{e9}\u{e9}\u{e9}\u{e9}", "").validate_username(), None);
    assert_eq!(payload("", "", "Pa1_\u{e9}\u{e9}").validate_password(), None);
    assert_eq!(payload("", "", "Pa1_xyz").validate_password(), bad("Password is too short"));
    assert_eq!(payload("", "", "Password_0123").validate_password(), None);
    assert_eq!(
        payload("", "", "\u{c9}\u{e9}\u{0663}~~~").validate_password(),
        None
    );
}

#[test]
fn first_fault_wins() {
    assert_eq!(payload("missing", "user", "pass").validate(), bad("Invalid email format"));
    assert_eq!(
        payload("email@example.com", "user", "pass").validate(),
        bad("Username should be more than 7 characters")
    );
}
