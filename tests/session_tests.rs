use qbittorrent_rust::auth::{classify_login, LoginResponse};
use qbittorrent_rust::dispatch::{classify_logout, classify_response, CallShape, Response};
use qbittorrent_rust::error::ErrorType;
use qbittorrent_rust::session::{Session, SessionCache, TokenStep, SESSION_LIFETIME_SECS};

fn ready(step: &TokenStep) -> Option<String> {
    match step {
        TokenStep::Ready(t) => Some(t.clone()),
        _ => None,
    }
}

fn login_ok(cookie: &str) -> Result<String, qbittorrent_rust::Error> {
    classify_login(Ok(LoginResponse { status: 200, set_cookie: Some(String::from(cookie)) }))
}

#[test]
fn expiry_boundary() {
    let s = Session::new(String::from("abc"), 1000);
    assert!(!s.is_expired(1000));
    assert!(!s.is_expired(1000 + SESSION_LIFETIME_SECS - 1));
    assert!(s.is_expired(1000 + SESSION_LIFETIME_SECS));
    assert!(s.is_expired(1000 + SESSION_LIFETIME_SECS + 500));
    assert_eq!(SESSION_LIFETIME_SECS, 3300);
}

#[test]
fn clock_before_creation_is_not_expired() {
    let s = Session::new(String::from("abc"), 1000);
    assert!(!s.is_expired(10));
}

#[test]
fn single_flight_refresh() {
    let mut cache = SessionCache::new();
    let mut logins = 0;
    let mut waiting = 0;
    for t in 0..8u64 {
        match cache.begin(t) {
            TokenStep::Authenticate => logins += 1,
            TokenStep::Wait => waiting += 1,
            TokenStep::Ready(_) => panic!("no session yet"),
        }
    }
    assert_eq!(logins, 1);
    assert_eq!(waiting, 7);
    assert!(cache.is_refreshing());
    let token = cache.complete(login_ok("SID=fresh; Path=/"), 9).unwrap();
    assert_eq!(token, "fresh");
    assert!(!cache.is_refreshing());
    for t in 10..17u64 {
        assert_eq!(ready(&cache.begin(t)), Some(String::from("fresh")));
    }
}

#[test]
fn single_flight_after_expiry() {
    let mut cache = SessionCache::new();
    assert!(matches!(cache.begin(0), TokenStep::Authenticate));
    cache.complete(Ok(String::from("old")), 0).unwrap();
    let late = SESSION_LIFETIME_SECS + 1;
    assert!(matches!(cache.begin(late), TokenStep::Authenticate));
    assert!(matches!(cache.begin(late), TokenStep::Wait));
    assert!(matches!(cache.begin(late + 1), TokenStep::Wait));
    cache.complete(Ok(String::from("new")), late + 2).unwrap();
    assert_eq!(ready(&cache.begin(late + 3)), Some(String::from("new")));
    assert_eq!(ready(&cache.begin(late + 4)), Some(String::from("new")));
}

#[test]
fn fast_path_has_no_side_effects() {
    let mut cache = SessionCache::new();
    assert!(matches!(cache.begin(0), TokenStep::Authenticate));
    cache.complete(Ok(String::from("tok")), 100).unwrap();
    for t in [100u64, 200, 3000, 100 + SESSION_LIFETIME_SECS - 1] {
        assert_eq!(ready(&cache.begin(t)), Some(String::from("tok")));
        assert!(!cache.is_refreshing());
        assert_eq!(cache.current_token(), Some(String::from("tok")));
    }
}

#[test]
fn failed_refresh_keeps_session_and_ends_refresh() {
    let mut cache = SessionCache::new();
    assert!(matches!(cache.begin(0), TokenStep::Authenticate));
    cache.complete(Ok(String::from("first")), 0).unwrap();
    let late = SESSION_LIFETIME_SECS;
    assert!(matches!(cache.begin(late), TokenStep::Authenticate));
    let failed = classify_login(Ok(LoginResponse { status: 403, set_cookie: None }));
    let err = cache.complete(failed, late).unwrap_err();
    assert!(matches!(err.err_type, ErrorType::TooManyFailedAttempts));
    assert!(!cache.is_refreshing());
    assert_eq!(cache.current_token(), Some(String::from("first")));
    // the next caller tries again
    assert!(matches!(cache.begin(late + 1), TokenStep::Authenticate));
}

#[test]
fn logout_twice_keeps_session() {
    let mut cache = SessionCache::new();
    assert!(matches!(cache.begin(0), TokenStep::Authenticate));
    cache.complete(Ok(String::from("tok")), 0).unwrap();
    assert_eq!(ready(&cache.begin(1)), Some(String::from("tok")));
    let first = classify_logout(Ok(Response { status: 200, body: String::new() }));
    assert!(first.is_ok());
    assert_eq!(ready(&cache.begin(2)), Some(String::from("tok")));
    let second = classify_logout(Ok(Response { status: 403, body: String::from("Forbidden") }));
    let e = second.unwrap_err();
    assert_eq!(e.code, Some(403));
    assert!(!cache.is_refreshing());
    assert_eq!(cache.current_token(), Some(String::from("tok")));
}

#[test]
fn end_to_end_reauthentication() {
    // a stub server that accepts the credentials and answers with a cookie
    let mut login_calls = 0;
    let mut server_login = |username: &str, password: &str, cookie: &str| {
        login_calls += 1;
        if username == "admin" && password == "123456" {
            LoginResponse { status: 200, set_cookie: Some(String::from(cookie)) }
        } else {
            LoginResponse { status: 200, set_cookie: None }
        }
    };
    let mut cache = SessionCache::new();
    let mut clock: u64 = 0;

    assert!(matches!(cache.begin(clock), TokenStep::Authenticate));
    let outcome = classify_login(Ok(server_login("admin", "123456", "SID=xyz;")));
    assert_eq!(cache.complete(outcome, clock).unwrap(), "xyz");

    clock += 1;
    let token = ready(&cache.begin(clock)).unwrap();
    assert_eq!(token, "xyz");
    let body = classify_response(
        CallShape::Bare,
        "app_version",
        Ok(Response { status: 200, body: String::from("v4.6.0") }),
    );
    assert_eq!(body.unwrap(), "v4.6.0");

    clock += SESSION_LIFETIME_SECS;
    assert!(matches!(cache.begin(clock), TokenStep::Authenticate));
    let outcome = classify_login(Ok(server_login("admin", "123456", "SID=abc;")));
    assert_eq!(cache.complete(outcome, clock).unwrap(), "abc");
    let token = ready(&cache.begin(clock)).unwrap();
    assert_eq!(token, "abc");
    let body = classify_response(
        CallShape::Form,
        "app_version",
        Ok(Response { status: 200, body: String::from("v4.6.0") }),
    );
    assert_eq!(body.unwrap(), "v4.6.0");
    drop(server_login);
    assert_eq!(login_calls, 2);
}
