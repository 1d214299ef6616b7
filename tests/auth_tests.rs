use qbittorrent_rust::auth::{classify_login, extract_token, login_form, login_url, Credentials, LoginResponse};
use qbittorrent_rust::error::ErrorType;

#[test]
fn token_extraction() {
    assert_eq!(extract_token("SID=abc123; Path=/; HttpOnly"), Some(String::from("abc123")));
}

#[test]
fn token_extraction_edges() {
    assert_eq!(extract_token("SID=xyz;"), Some(String::from("xyz")));
    assert_eq!(extract_token("SID=xyz"), Some(String::from("xyz")));
    assert_eq!(extract_token("SID=;"), Some(String::new()));
    assert_eq!(extract_token("SID=a=b; Path=/"), Some(String::from("a")));
    assert_eq!(extract_token("no cookie here"), None);
    assert_eq!(extract_token(""), None);
}

#[test]
fn login_success_gives_token() {
    let r = classify_login(Ok(LoginResponse {
        status: 200,
        set_cookie: Some(String::from("SID=abc123; HttpOnly; path=/")),
    }));
    assert_eq!(r.unwrap(), "abc123");
}

#[test]
fn login_without_cookie_is_wrong_creds() {
    let e = classify_login(Ok(LoginResponse { status: 200, set_cookie: None })).unwrap_err();
    assert!(matches!(e.err_type, ErrorType::WrongCreds));
    assert_eq!(e.code, None);
    assert_eq!(e.message, "the credetials are wrong.");
    let e = classify_login(Ok(LoginResponse { status: 204, set_cookie: Some(String::from("junk")) }))
        .unwrap_err();
    assert!(matches!(e.err_type, ErrorType::WrongCreds));
}

#[test]
fn login_403_is_rate_limited() {
    let e = classify_login(Ok(LoginResponse { status: 403, set_cookie: None })).unwrap_err();
    assert!(matches!(e.err_type, ErrorType::TooManyFailedAttempts));
    assert_eq!(e.code, Some(403));
    assert_eq!(
        e.message,
        "the user has been banned for an amount of time because of too many failed login attempts."
    );
}

#[test]
fn login_other_status_is_misc_error() {
    let e = classify_login(Ok(LoginResponse {
        status: 500,
        set_cookie: Some(String::from("SID=x")),
    }))
    .unwrap_err();
    match &e.err_type {
        ErrorType::MiscError(m) => {
            assert_eq!(m, "Something went wrong while getting the auth cookie.")
        },
        other => panic!("unexpected {:?}", other),
    }
    assert_eq!(e.code, Some(500));
    assert_eq!(e.message, "Something went wrong. Something went wrong while getting the auth cookie.");
}

#[test]
fn login_transport_failure() {
    let e = classify_login(Err(String::from("connection refused"))).unwrap_err();
    match &e.err_type {
        ErrorType::ReqwestError(m) => assert_eq!(m, "connection refused"),
        other => panic!("unexpected {:?}", other),
    }
    assert_eq!(e.code, None);
    assert_eq!(e.message, "there was an error while handling networking. error: connection refused");
}

#[test]
fn login_request_shape() {
    assert_eq!(login_url("http://localhost:6011"), "http://localhost:6011/api/v2/auth/login");
    let creds = Credentials::new(String::from("admin"), String::from("123456"));
    let form = login_form(&creds);
    assert_eq!(
        form,
        vec![
            (String::from("username"), String::from("admin")),
            (String::from("password"), String::from("123456")),
        ]
    );
}
