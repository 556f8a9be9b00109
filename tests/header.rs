use idcurl::header::{parse_header_line, HeaderMap};
use idcurl::ResponseData;

fn entry(n: &str, v: &str) -> Option<(Vec<u8>, Vec<u8>)> {
    Some((n.as_bytes().to_vec(), v.as_bytes().to_vec()))
}

#[test]
fn header_line_is_split_and_normalised() {
    assert_eq!(parse_header_line(b"Content-Type: text/html\r\n"), entry("content-type", "text/html"));
    assert_eq!(parse_header_line(b"X-Thing \t:   spaced value \r\n"), entry("x-thing", "spaced value "));
    assert_eq!(parse_header_line(b"A:b"), entry("a", "b"));
    assert_eq!(parse_header_line(b"A:\n"), entry("a", ""));
    assert_eq!(parse_header_line(b"A: x:y\r\n"), entry("a", "x:y"));
    assert_eq!(parse_header_line(b"A: \tv\r\n"), entry("a", "\tv"));
}

#[test]
fn lines_without_colon_are_ignored() {
    assert_eq!(parse_header_line(b"HTTP/1.1 200 OK\r\n"), None);
    assert_eq!(parse_header_line(b"\r\n"), None);
    assert_eq!(parse_header_line(b""), None);
}

#[test]
fn invalid_lines_are_dropped() {
    assert_eq!(parse_header_line(b": value\r\n"), None);
    assert_eq!(parse_header_line(b"Bad Name: v\r\n"), None);
    assert_eq!(parse_header_line(b"Bad\"Name: v\r\n"), None);
    assert_eq!(parse_header_line(b"Name: a\x7fb\r\n"), None);
    assert_eq!(parse_header_line(b"Name: a\x01b\r\n"), None);
    assert_eq!(parse_header_line(b"Name: caf\xc3\xa9\r\n"), entry("name", "caf\u{e9}"));
}

#[test]
fn duplicate_names_keep_all_values_in_order() {
    let mut rd = ResponseData::new();
    for l in [
        &b"HTTP/1.1 200 OK\r\n"[..],
        b"Set-Cookie: a=1\r\n",
        b"X-Other: z\r\n",
        b"bad line: \x00\r\n",
        b"set-cookie: b=2\r\n",
        b"SET-COOKIE: c=3\r\n",
        b"\r\n",
    ] {
        rd.on_header_line(l);
    }
    let h: &HeaderMap = rd.headers();
    assert_eq!(h.len(), 4);
    assert_eq!(
        h.get_all(b"Set-Cookie"),
        vec![b"a=1".to_vec(), b"b=2".to_vec(), b"c=3".to_vec()]
    );
    assert_eq!(h.get(b"set-cookie"), Some(b"a=1".to_vec()));
    assert_eq!(h.get(b"x-other"), Some(b"z".to_vec()));
    assert_eq!(h.get(b"missing"), None);
    assert_eq!(h.get(b"not a name"), None);
    assert_eq!(h.get_all(b"not a name"), Vec::<Vec<u8>>::new());
    let (n, v) = h.entry(1);
    assert_eq!((n, v), (&b"x-other"[..], &b"z"[..]));
}

#[test]
fn parsing_is_deterministic() {
    let lines: [&[u8]; 3] = [b"A: 1\r\n", b"B: 2\r\n", b"a: 3\r\n"];
    let mut first = ResponseData::new();
    let mut second = ResponseData::new();
    for l in lines {
        first.on_header_line(l);
        second.on_header_line(l);
    }
    for i in 0..3 {
        assert_eq!(first.headers().entry(i), second.headers().entry(i));
    }
    assert_eq!(first.headers().get_all(b"A"), vec![b"1".to_vec(), b"3".to_vec()]);
}
