use base64::Engine;
use shaide::auth::{
    access_token_answer, authenticated_as, unexpired_subject, ensure_access_at, get_bearer_value, get_bearer_value_or_error, AccessRequirement, AuthService,
    Authenticated, UserRecord, UserRole, UtcTime, TOKEN_LIFETIME_SECONDS,
};
use shaide::error::ShaideError;

const SECRET: &str = "0123456789abcdef0123456789abcdef";

fn user(role: UserRole, expiry_secs: i64) -> UserRecord {
    UserRecord {
        id: 42,
        username: "ada".to_owned(),
        password_hash: String::new(),
        role,
        expiry: UtcTime { secs: expiry_secs, nanos: 0 },
    }
}

fn unauthorized(r: Result<(), ShaideError>) -> String {
    match r {
        Err(ShaideError::Unauthorized(m)) => m,
        other => panic!("unexpected {other:?}"),
    }
}

#[test]
fn bearer_tokens_are_read_case_insensitively() {
    assert_eq!(get_bearer_value(Some("Bearer abc")).as_deref(), Some("abc"));
    assert_eq!(get_bearer_value(Some("bEaReR a b")).as_deref(), Some("a b"));
    assert_eq!(get_bearer_value(Some("Basic abc")), None);
    assert_eq!(get_bearer_value(Some("Bearer")), None);
    assert_eq!(get_bearer_value(None), None);
    match get_bearer_value_or_error(None) {
        Err(ShaideError::Unauthorized(m)) => assert_eq!(m, "Bearer token not set"),
        other => panic!("unexpected {other:?}"),
    }
}

#[test]
fn roles_and_expiry_decide_access() {
    let now = UtcTime { secs: 1_000, nanos: 0 };
    assert!(ensure_access_at(&user(UserRole::User, 2_000), AccessRequirement::User, now).is_ok());
    assert_eq!(
        unauthorized(ensure_access_at(&user(UserRole::User, 2_000), AccessRequirement::Admin, now)),
        "Authenticated user is not an admin"
    );
    assert_eq!(
        unauthorized(ensure_access_at(&user(UserRole::Admin, 0), AccessRequirement::User, now)),
        "Authenticated user does not have the required role"
    );
    assert_eq!(
        unauthorized(ensure_access_at(&user(UserRole::User, 1_000), AccessRequirement::Any, now)),
        "Account has expired"
    );
    assert!(ensure_access_at(&user(UserRole::Admin, 0), AccessRequirement::Admin, now).is_ok());
    assert!(ensure_access_at(&user(UserRole::Admin, 0), AccessRequirement::Any, now).is_ok());
    assert_eq!(authenticated_as(UserRole::Admin), Authenticated::Admin);
}

#[test]
fn issued_tokens_validate_to_their_user() {
    let service = AuthService::new(SECRET);
    let (token, expires_in) = service.issue_access_token(42, None).unwrap();
    assert_eq!(expires_in, TOKEN_LIFETIME_SECONDS);
    assert_eq!(service.validate_access_token(&token).unwrap(), 42);
    let other = AuthService::new("another secret of thirty-two bytes!!");
    assert!(matches!(
        other.validate_access_token(&token),
        Err(ShaideError::Unauthorized(m)) if m == "Invalid or expired access token"
    ));
}

#[test]
fn token_lifetime_is_bounded_by_the_account() {
    let service = AuthService::new(SECRET);
    let (_, in_an_hour) = service.issue_access_token_at(1, None, 1_000).unwrap();
    assert_eq!(in_an_hour, 3_600);
    let (_, soon) = service.issue_access_token_at(1, Some(1_100), 1_000).unwrap();
    assert_eq!(soon, 100);
    let (_, late) = service.issue_access_token_at(1, Some(100_000), 1_000).unwrap();
    assert_eq!(late, 3_600);
    let (_, past) = service.issue_access_token_at(1, Some(10), 1_000).unwrap();
    assert_eq!(past, 0);
    assert!(matches!(
        service.issue_access_token_at(1, Some(-1), 1_000),
        Err(ShaideError::InternalServerError(m)) if m == "Invalid account expiry"
    ));
}

#[test]
fn garbage_tokens_are_refused() {
    let service = AuthService::new(SECRET);
    assert!(matches!(
        service.validate_access_token("not-a-token"),
        Err(ShaideError::Unauthorized(m)) if m == "Invalid or expired access token"
    ));
}

#[test]
fn passwords_hash_and_verify() {
    let service = AuthService::new(SECRET);
    let hash = service.hash_password("hunter2").unwrap();
    assert!(service.verify_password("hunter2", &hash).is_ok());
    assert!(matches!(
        service.verify_password("wrong", &hash),
        Err(ShaideError::Unauthorized(m)) if m == "Invalid credentials"
    ));
    assert!(matches!(service.verify_password("x", "not a hash"), Err(ShaideError::InternalServerError(_))));
}

#[test]
fn login_checks_the_password_then_the_account() {
    let service = AuthService::new(SECRET);
    let mut u = user(UserRole::User, 5_000);
    u.password_hash = service.hash_password("pw").unwrap();
    let now = UtcTime { secs: 1_000, nanos: 0 };
    let response = service.login_at(&u, "pw", now, 1_000).unwrap();
    assert_eq!(response.token_type, "Bearer");
    assert_eq!(response.expires_in, 3_600);
    assert_eq!(response.expiry, u.expiry);
    assert!(matches!(service.login_at(&u, "nope", now, 1_000), Err(ShaideError::Unauthorized(m)) if m == "Invalid credentials"));
    let later = UtcTime { secs: 6_000, nanos: 0 };
    assert!(matches!(service.login_at(&u, "pw", later, 6_000), Err(ShaideError::Unauthorized(m)) if m == "Account has expired"));
}

#[test]
fn an_unknown_token_is_refused_as_invalid_or_expired() {
    let service = AuthService::new(SECRET);
    assert!(matches!(
        service.validate_access_token("not-a-real-token"),
        Err(ShaideError::Unauthorized(m)) if m == "Invalid or expired access token"
    ));
    assert!(matches!(
        service.validate_access_token("a.b.c"),
        Err(ShaideError::Unauthorized(m)) if m == "Invalid or expired access token"
    ));
}

#[test]
fn decoded_subjects_are_answered_as_user_ids() {
    assert!(matches!(access_token_answer(Some("42".to_owned())), Ok(42)));
    assert!(matches!(access_token_answer(Some("-7".to_owned())), Ok(-7)));
    assert!(matches!(
        access_token_answer(Some("bob".to_owned())),
        Err(ShaideError::Unauthorized(m)) if m == "Invalid access token subject"
    ));
    assert!(matches!(
        access_token_answer(None),
        Err(ShaideError::Unauthorized(m)) if m == "Invalid or expired access token"
    ));
}

#[test]
fn token_claims_are_written_in_order() {
    let service = AuthService::new(SECRET);
    let (token, _) = service.issue_access_token_at(42, None, 1_000).unwrap();
    let payload = token.split('.').nth(1).unwrap();
    let bytes = base64::engine::general_purpose::URL_SAFE_NO_PAD.decode(payload).unwrap();
    assert_eq!(
        String::from_utf8(bytes).unwrap(),
        r#"{"sub":"42","iss":"shaide","aud":"shaide-api","iat":1000,"exp":4600}"#
    );
}

#[test]
fn a_token_validates_until_its_expiry_and_the_leeway() {
    let service = AuthService::new(SECRET);
    let (token, _) = service.issue_access_token_at(42, None, 1_000).unwrap();
    assert_eq!(service.validate_access_token_at(&token, 1_000).unwrap(), 42);
    assert_eq!(service.validate_access_token_at(&token, 4_605).unwrap(), 42);
    assert!(matches!(
        service.validate_access_token_at(&token, 4_606),
        Err(ShaideError::Unauthorized(m)) if m == "Invalid or expired access token"
    ));
    let (short, _) = service.issue_access_token_at(7, Some(1_100), 1_000).unwrap();
    assert_eq!(service.validate_access_token_at(&short, 1_105).unwrap(), 7);
    assert!(service.validate_access_token_at(&short, 1_106).is_err());
    let other = AuthService::new("another secret of thirty-two bytes!!");
    assert!(matches!(
        other.validate_access_token_at(&token, 1_000),
        Err(ShaideError::Unauthorized(m)) if m == "Invalid or expired access token"
    ));
}

#[test]
fn expired_claims_lose_their_subject() {
    assert_eq!(unexpired_subject(Some(("9".to_owned(), 100)), 105), Some("9".to_owned()));
    assert_eq!(unexpired_subject(Some(("9".to_owned(), 100)), 106), None);
    assert_eq!(unexpired_subject(Some(("9".to_owned(), 0)), 3), Some("9".to_owned()));
    assert_eq!(unexpired_subject(None, 0), None);
}
