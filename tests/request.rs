use idcurl::number::{decimal_bytes, parse_u64};
use idcurl::{Method, Request, TryIntoUrl, Url};

fn url(s: &str) -> Url {
    Url::parse(s).unwrap()
}

#[test]
fn test_ownership() {
    let _ = give_body();
    let v = vec![];
    let _ = take_body(&v);
}

fn give_body() -> Request<std::io::Cursor<Vec<u8>>> {
    let v = vec![];
    Request::post("http://example.com/".try_into_url().unwrap()).body(std::io::Cursor::new(v))
}

fn take_body<'a>(v: &'a Vec<u8>) -> Request<std::io::Cursor<&'a Vec<u8>>> {
    Request::post((&"http://example.com/".to_string()).try_into_url().unwrap())
        .body(std::io::Cursor::new(v))
}

#[test]
fn new_request_has_defaults() {
    let r = Request::get(url("http://example.com"));
    assert_eq!(r.method(), Method::GET);
    assert_eq!(r.url().as_str(), "http://example.com/");
    assert_eq!(r.max_redirects(), Some(10));
    assert!(r.header_lines().is_empty());
    let r = Request::put(url("http://example.com/x"));
    assert_eq!(r.method(), Method::PUT);
    let r = Request::new(Method::DELETE, url("http://example.com/x"));
    assert_eq!(r.method(), Method::DELETE);
}

#[test]
fn headers_are_appended_as_lines() {
    let r = Request::post(url("http://example.com"))
        .header(b"Content-Type", b"application/json")
        .header(b"X-A", b"1")
        .header(b"X-A", b"2")
        .content_length(100000);
    assert_eq!(
        r.header_lines(),
        &vec![
            b"Content-Type: application/json".to_vec(),
            b"X-A: 1".to_vec(),
            b"X-A: 2".to_vec(),
            b"Content-Length: 100000".to_vec(),
        ]
    );
}

#[test]
fn redirect_limit_is_set_and_cleared() {
    let mut r = Request::get(url("http://example.com")).redirect_limit(Some(3));
    assert_eq!(r.max_redirects(), Some(3));
    r.set_redirect_limit(None);
    assert_eq!(r.max_redirects(), None);
}

#[test]
fn body_is_owned_until_taken() {
    let mut r = Request::post(url("http://example.com")).body(vec![1u8, 2, 3]);
    r.set_body(vec![4u8]);
    assert_eq!(r.take_body(), Some(vec![4u8]));
    assert_eq!(r.take_body(), None);
    let mut g = Request::get(url("http://example.com"));
    assert!(g.take_body().is_none());
}

#[test]
fn methods_name_themselves_and_choose_upload() {
    let all = [
        (Method::GET, "GET", false),
        (Method::POST, "POST", true),
        (Method::PUT, "PUT", true),
        (Method::DELETE, "DELETE", false),
        (Method::HEAD, "HEAD", false),
        (Method::OPTIONS, "OPTIONS", false),
        (Method::TRACE, "TRACE", false),
    ];
    for (m, name, upload) in all {
        assert_eq!(m.name(), name);
        assert_eq!(m.sends_body(), upload);
    }
}

#[test]
fn urls_are_parsed_at_construction() {
    assert_eq!(url("HTTP://Example.COM:80/a/../b").as_str(), "http://example.com/b");
    let e = Url::parse("not a url").unwrap_err();
    assert_eq!(e.kind(), &idcurl::Kind::UrlParse);
    assert_eq!(e.url.as_deref(), Some("not a url"));
    assert!(Url::from_parsed("x", None).is_err());
    assert_eq!(Url::from_parsed("x", Some("y".to_string())).unwrap().as_str(), "y");
    let u = url("http://example.com/");
    assert_eq!((&u).try_into_url().unwrap().as_str(), "http://example.com/");
    assert_eq!(u.try_into_url().unwrap().as_str(), "http://example.com/");
}

#[test]
fn decimal_numbers_round_trip() {
    assert_eq!(decimal_bytes(0), b"0".to_vec());
    assert_eq!(decimal_bytes(10000), b"10000".to_vec());
    assert_eq!(decimal_bytes(u64::MAX), u64::MAX.to_string().into_bytes());
    for n in [0u64, 7, 10, 99, 100000, u64::MAX] {
        assert_eq!(parse_u64(&decimal_bytes(n)), Some(n));
    }
}

#[test]
fn unsigned_numbers_parse_like_from_str() {
    assert_eq!(parse_u64(b"5"), Some(5));
    assert_eq!(parse_u64(b"+5"), Some(5));
    assert_eq!(parse_u64(b"007"), Some(7));
    assert_eq!(parse_u64(b"18446744073709551615"), Some(u64::MAX));
    for bad in [&b""[..], b"+", b"-1", b"1 ", b" 1", b"18446744073709551616", b"99999999999999999999", b"1a"] {
        assert_eq!(parse_u64(bad), None);
    }
}
