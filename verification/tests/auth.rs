use rustdesk_ab::error::{ApiError, ErrorKind};
use rustdesk_ab::routes::auth::{
    check_rate_limit, display_name, finish_login, login_response, reset_rate_limit, LoginAttempts, UserRecord,
    LOGIN_MAX_ATTEMPTS, LOGIN_WINDOW_NANOS,
};

const SECOND: u64 = 1_000_000_000;

fn user(name: &str, username: &str) -> UserRecord {
    UserRecord {
        id: 1,
        username: username.to_string(),
        password_hash: "hash".to_string(),
        name: name.to_string(),
        email: "a@example.com".to_string(),
        is_admin: true,
        status: 1,
    }
}

#[test]
fn rate_limit_blocks_after_max_attempts() {
    let mut map = LoginAttempts::new();
    let now = 1_000 * SECOND;
    for _ in 0..LOGIN_MAX_ATTEMPTS {
        assert!(check_rate_limit(&mut map, "admin", now).is_ok());
    }
    // Attempt past the limit within the window must be rejected.
    assert!(matches!(
        check_rate_limit(&mut map, "admin", now),
        Err(ApiError::TooManyRequests(_))
    ));
    // A different user is not affected.
    assert!(check_rate_limit(&mut map, "other", now).is_ok());
}

#[test]
fn rate_limit_resets_after_successful_login() {
    let mut map = LoginAttempts::new();
    let now = 1_000 * SECOND;
    for _ in 0..LOGIN_MAX_ATTEMPTS {
        let _ = check_rate_limit(&mut map, "admin", now);
    }
    assert!(check_rate_limit(&mut map, "admin", now).is_err());
    reset_rate_limit(&mut map, "admin");
    assert!(check_rate_limit(&mut map, "admin", now).is_ok());
}

#[test]
fn refusal_message_and_status() {
    let mut map = LoginAttempts::new();
    for i in 0..5u64 {
        assert!(check_rate_limit(&mut map, "admin", i * SECOND).is_ok());
    }
    let err = check_rate_limit(&mut map, "admin", 5 * SECOND).unwrap_err();
    assert_eq!(err.kind(), ErrorKind::TooManyRequests);
    assert_eq!(err.message(), "Too many login attempts, try again later");
    assert_eq!(err.kind().status_code(), 429);
    // The refused attempt is not recorded.
    assert_eq!(map.attempts_of("admin"), vec![0, SECOND, 2 * SECOND, 3 * SECOND, 4 * SECOND]);
}

#[test]
fn window_slides() {
    let mut map = LoginAttempts::new();
    for i in 0..5u64 {
        assert!(check_rate_limit(&mut map, "admin", i * SECOND).is_ok());
    }
    // Just before the oldest attempt leaves the window: refused.
    assert!(check_rate_limit(&mut map, "admin", LOGIN_WINDOW_NANOS - 1).is_err());
    // Once the oldest attempt is a full window old it no longer counts.
    assert!(check_rate_limit(&mut map, "admin", LOGIN_WINDOW_NANOS).is_ok());
    assert_eq!(
        map.attempts_of("admin"),
        vec![SECOND, 2 * SECOND, 3 * SECOND, 4 * SECOND, LOGIN_WINDOW_NANOS]
    );
}

#[test]
fn window_expires_completely() {
    let mut map = LoginAttempts::new();
    for i in 0..5u64 {
        assert!(check_rate_limit(&mut map, "admin", i).is_ok());
    }
    let later = 4 + LOGIN_WINDOW_NANOS;
    assert!(check_rate_limit(&mut map, "admin", later).is_ok());
    assert_eq!(map.attempts_of("admin"), vec![later]);
}

#[test]
fn attempts_of_unknown_user_is_empty() {
    let map = LoginAttempts::new();
    assert!(map.attempts_of("nobody").is_empty());
}

#[test]
fn display_name_falls_back_to_username() {
    assert_eq!(display_name(&String::new(), &"admin".to_string()), "admin");
    assert_eq!(display_name(&"Administrator".to_string(), &"admin".to_string()), "Administrator");
}

#[test]
fn login_with_unknown_user_is_refused() {
    let mut map = LoginAttempts::new();
    assert!(check_rate_limit(&mut map, "ghost", 0).is_ok());
    let err = finish_login(&mut map, "ghost", None, true).err().unwrap();
    assert_eq!(err.kind(), ErrorKind::Unauthorized);
    assert_eq!(err.message(), "Invalid username or password");
    assert_eq!(err.kind().status_code(), 401);
    // The failed attempt stays recorded.
    assert_eq!(map.attempts_of("ghost"), vec![0]);
}

#[test]
fn login_with_wrong_password_is_refused() {
    let mut map = LoginAttempts::new();
    assert!(check_rate_limit(&mut map, "admin", 0).is_ok());
    let result = finish_login(&mut map, "admin", Some(user("", "admin")), false);
    assert!(matches!(result, Err(ApiError::Unauthorized(_))));
    assert_eq!(map.attempts_of("admin"), vec![0]);
}

#[test]
fn successful_login_clears_attempts() {
    let mut map = LoginAttempts::new();
    for i in 0..4u64 {
        assert!(check_rate_limit(&mut map, "admin", i).is_ok());
    }
    assert!(check_rate_limit(&mut map, "other", 0).is_ok());
    let payload = finish_login(&mut map, "admin", Some(user("", "admin")), true).ok().unwrap();
    assert_eq!(payload.name, "admin");
    assert_eq!(payload.email, "a@example.com");
    assert!(payload.is_admin);
    assert_eq!(payload.note, "");
    assert!(map.attempts_of("admin").is_empty());
    assert_eq!(map.attempts_of("other"), vec![0]);
}

#[test]
fn login_response_carries_token_and_user() {
    let mut map = LoginAttempts::new();
    let payload = finish_login(&mut map, "admin", Some(user("Administrator", "admin")), true).ok().unwrap();
    let r = login_response("tok-123".to_string(), payload);
    assert_eq!(r.access_token, "tok-123");
    assert_eq!(r.token_type, "access_token");
    assert_eq!(r.user.name, "Administrator");
    assert_eq!(r.user.email, "a@example.com");
}
