use qbittorrent_rust::dispatch::{
    classify_logout, classify_response, cookie_header, endpoint_url, is_success, trim_authority, CallShape,
    FormParams, Response,
};
use qbittorrent_rust::error::{Error, ErrorType};

fn answer(status: u16, body: &str) -> Result<Response, String> {
    Ok(Response { status, body: String::from(body) })
}

fn misc(e: &Error) -> String {
    match &e.err_type {
        ErrorType::MiscError(m) => m.clone(),
        other => panic!("unexpected {:?}", other),
    }
}

#[test]
fn status_classification_success() {
    let r = classify_response(CallShape::Bare, "op", answer(200, "ok"));
    assert_eq!(r.unwrap(), "ok");
    let r = classify_response(CallShape::Keyed, "op", answer(299, "{}"));
    assert_eq!(r.unwrap(), "{}");
}

#[test]
fn status_classification_keyed_not_found() {
    let e = classify_response(CallShape::Keyed, "torrents_properties", answer(404, "")).unwrap_err();
    assert!(matches!(e.err_type, ErrorType::TorrentHashNotFound));
    assert_eq!(e.code, Some(404));
    assert_eq!(e.message, "the specified torrent hash couldn't be found.");
}

#[test]
fn status_classification_unkeyed_404_is_generic() {
    let e = classify_response(CallShape::Bare, "app_version", answer(404, "")).unwrap_err();
    assert_eq!(misc(&e), "something went wrong. function name: app_version");
    assert_eq!(e.code, Some(404));
    let e = classify_response(CallShape::Form, "rss_add_folder", answer(409, "")).unwrap_err();
    assert_eq!(misc(&e), "function name: rss_add_folder");
    assert_eq!(e.message, "Something went wrong. function name: rss_add_folder");
    assert_eq!(e.code, Some(409));
    let e = classify_response(CallShape::Keyed, "op", answer(500, "")).unwrap_err();
    assert_eq!(misc(&e), "something went wrong. function name: op");
    assert_eq!(e.code, Some(500));
}

#[test]
fn status_classification_transport_failure() {
    let e = classify_response(CallShape::Form, "op", Err(String::from("dns failure"))).unwrap_err();
    assert!(matches!(e.err_type, ErrorType::ReqwestError(_)));
    assert_eq!(e.code, None);
}

#[test]
fn success_range() {
    assert!(!is_success(199));
    assert!(is_success(200));
    assert!(is_success(299));
    assert!(!is_success(300));
    assert!(!is_success(404));
}

#[test]
fn logout_classification() {
    assert!(classify_logout(answer(200, "")).is_ok());
    let e = classify_logout(answer(401, "")).unwrap_err();
    assert_eq!(misc(&e), "something went wrong. function name: logout");
    assert_eq!(e.code, Some(401));
    let e = classify_logout(Err(String::from("reset"))).unwrap_err();
    assert!(matches!(e.err_type, ErrorType::ReqwestError(_)));
}

#[test]
fn authority_trimming() {
    assert_eq!(trim_authority("http://localhost:6011///"), "http://localhost:6011");
    assert_eq!(trim_authority("http://localhost:6011/"), "http://localhost:6011");
    assert_eq!(trim_authority("http://localhost:6011"), "http://localhost:6011");
    assert_eq!(trim_authority("///"), "");
    assert_eq!(trim_authority(""), "");
}

#[test]
fn urls_and_cookie() {
    assert_eq!(
        endpoint_url("http://localhost:6011", "/app/version"),
        "http://localhost:6011/api/v2/app/version"
    );
    assert_eq!(cookie_header("abc123"), "SID=abc123");
}

#[test]
fn form_params_keep_order_and_unique_keys() {
    let mut f = FormParams::new();
    assert_eq!(f.len(), 0);
    f.insert(String::from("hash"), String::from("aaa"));
    f.insert(String::from("name"), String::from("n"));
    f.insert(String::from("hash"), String::from("bbb"));
    assert_eq!(f.len(), 2);
    assert_eq!(
        f.pairs(),
        &vec![
            (String::from("hash"), String::from("bbb")),
            (String::from("name"), String::from("n")),
        ]
    );
}
