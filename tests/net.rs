use finance_client::net::{
    auth_url, backend_base, bearer_header, credentials_body, is_success, read_reply, search_url,
    AuthKind,
};

#[test]
fn backend_base_defaults() {
    assert_eq!(backend_base(None), "http://host.docker.internal:8080");
    assert_eq!(backend_base(Some("http://x:1".to_string())), "http://x:1");
}

#[test]
fn auth_urls() {
    assert_eq!(auth_url("http://h", AuthKind::Login), "http://h/auth/login");
    assert_eq!(auth_url("http://h", AuthKind::Register), "http://h/auth/register");
}

#[test]
fn search_url_encodes_ticker() {
    assert_eq!(search_url("http://h", "AAPL"), "http://h/search?ticker=AAPL");
    assert_eq!(search_url("http://h", "a b&c"), "http://h/search?ticker=a%20b%26c");
    assert_eq!(search_url("http://h", ""), "http://h/search?ticker=");
}

#[test]
fn bearer_header_text() {
    assert_eq!(bearer_header("abc"), "Bearer abc");
}

#[test]
fn credentials_body_is_json() {
    assert_eq!(
        credentials_body("bob", "pw"),
        "{\"password\":\"pw\",\"username\":\"bob\"}"
    );
    assert_eq!(
        credentials_body("a\"b", ""),
        "{\"password\":\"\",\"username\":\"a\\\"b\"}"
    );
    let v: serde_json::Value = serde_json::from_str(&credentials_body("u", "p\n")).unwrap();
    assert_eq!(v["username"], "u");
    assert_eq!(v["password"], "p\n");
}

#[test]
fn success_range() {
    assert!(!is_success(199));
    assert!(is_success(200));
    assert!(is_success(204));
    assert!(is_success(299));
    assert!(!is_success(300));
    assert!(!is_success(404));
}

#[test]
fn read_reply_http_error() {
    assert_eq!(read_reply(404, "nope").unwrap_err(), "HTTP 404: nope");
    assert_eq!(read_reply(500, "").unwrap_err(), "HTTP 500: ");
    assert_eq!(read_reply(0, "x").unwrap_err(), "HTTP 0: x");
    assert_eq!(read_reply(65535, "x").unwrap_err(), "HTTP 65535: x");
}

#[test]
fn read_reply_reads_token_and_compact_form() {
    let r = read_reply(200, "{ \"token\" : \"t1\" }").unwrap();
    assert_eq!(r.token, Some("t1".to_string()));
    assert_eq!(r.shown, "{\"token\":\"t1\"}");
}

#[test]
fn read_reply_without_string_token() {
    let r = read_reply(201, "{\"token\": 5, \"a\": [1, 2]}").unwrap();
    assert_eq!(r.token, None);
    assert_eq!(r.shown, "{\"a\":[1,2],\"token\":5}");
    let r = read_reply(200, "[\"token\"]").unwrap();
    assert_eq!(r.token, None);
    assert_eq!(r.shown, "[\"token\"]");
}

#[test]
fn read_reply_parse_error() {
    let e = read_reply(200, "not json").unwrap_err();
    assert!(e.starts_with("parse json: "));
    assert!(e.len() > "parse json:  - raw: not json".len());
    assert!(e.ends_with(" - raw: not json"));
    assert!(read_reply(200, "").is_err());
}
