use http::request::ParseError;
use http::protocol::{NumberError, Protocol, ProtocolError};
use http::{Method, Request};

fn header<'a>(request: &'a Request, key: &str) -> Option<&'a str> {
    request.headers.get(key).map(|value| value.as_str())
}

fn fault(raw: &[u8]) -> ParseError {
    match Request::parse(raw) {
        Ok(_) => panic!("a request was read"),
        Err(e) => e,
    }
}

#[test]
fn request_with_one_header() {
    let request = Request::parse(b"GET /index.html HTTP/1.1\r\nHost: x\r\n\r\n").unwrap();
    assert_eq!(request.method, Method::Get);
    assert_eq!(request.raw_path, "/index.html");
    assert_eq!(request.protocol, Protocol { major: 1, minor: 1 });
    assert_eq!(request.headers.len(), 1);
    assert_eq!(header(&request, "Host"), Some(" x"));
}

#[test]
fn request_new_reads_a_request() {
    let request = Request::new(b"POST /form HTTP/1.0\r\nA:1\r\nB:2\r\n\r\n");
    assert_eq!(request.method, Method::Post);
    assert_eq!(request.raw_path, "/form");
    assert_eq!(request.protocol, Protocol { major: 1, minor: 0 });
    assert_eq!(request.headers.len(), 2);
    assert_eq!(header(&request, "A"), Some("1"));
    assert_eq!(header(&request, "B"), Some("2"));
}

#[test]
fn request_with_several_headers() {
    let raw = b"PUT /a/b?c=d HTTP/2.0\r\nHost: example.org\r\nAccept: */*\r\nX-Empty:\r\n\r\nbody";
    let request = Request::parse(raw).unwrap();
    assert_eq!(request.method, Method::Put);
    assert_eq!(request.raw_path, "/a/b?c=d");
    assert_eq!(request.protocol, Protocol { major: 2, minor: 0 });
    assert_eq!(request.headers.len(), 3);
    assert_eq!(header(&request, "Host"), Some(" example.org"));
    assert_eq!(header(&request, "Accept"), Some(" */*"));
    assert_eq!(header(&request, "X-Empty"), Some(""));
    assert_eq!(header(&request, "host"), None);
}

#[test]
fn request_every_method() {
    for (name, method) in [
        ("GET", Method::Get),
        ("HEAD", Method::Head),
        ("POST", Method::Post),
        ("PUT", Method::Put),
        ("DELETE", Method::Delete),
        ("CONNECT", Method::Connect),
        ("TRACE", Method::Trace),
        ("PATCH", Method::Patch),
    ] {
        let raw = format!("{} / HTTP/1.1\r\nA:b\r\n\r\n", name);
        assert_eq!(Request::parse(raw.as_bytes()).unwrap().method, method);
    }
}

#[test]
fn request_last_header_is_kept() {
    let request = Request::parse(b"GET / HTTP/1.1\r\nFirst: 1\r\nLast: 2\r\n\r\n").unwrap();
    assert_eq!(header(&request, "First"), Some(" 1"));
    assert_eq!(header(&request, "Last"), Some(" 2"));
}

#[test]
fn request_duplicate_header_keeps_the_last_value() {
    let raw = b"GET / HTTP/1.1\r\nA: 1\r\nB: 2\r\nA: 3\r\n\r\n";
    let request = Request::parse(raw).unwrap();
    assert_eq!(request.headers.len(), 2);
    assert_eq!(header(&request, "A"), Some(" 3"));
    assert_eq!(header(&request, "B"), Some(" 2"));
}

#[test]
fn request_header_keys_keep_their_case() {
    let request = Request::parse(b"GET / HTTP/1.1\r\nhost: a\r\nHost: b\r\n\r\n").unwrap();
    assert_eq!(request.headers.len(), 2);
    assert_eq!(header(&request, "host"), Some(" a"));
    assert_eq!(header(&request, "Host"), Some(" b"));
}

#[test]
fn request_header_value_holds_all_behind_the_first_colon() {
    let request = Request::parse(b"GET / HTTP/1.1\r\nHost: localhost:8080\r\n:v\r\n\r\n").unwrap();
    assert_eq!(header(&request, "Host"), Some(" localhost:8080"));
    assert_eq!(header(&request, ""), Some("v"));
}

#[test]
fn request_without_headers() {
    let request = Request::parse(b"GET / HTTP/1.1\r\n\r\n\r\n").unwrap();
    assert_eq!(request.method, Method::Get);
    assert_eq!(request.raw_path, "/");
    assert!(request.headers.is_empty());
}

#[test]
fn request_without_headers_needs_the_empty_line() {
    assert_eq!(fault(b"GET / HTTP/1.1\r\n\r\n"), ParseError::HeadersEnd);
}

#[test]
fn request_ignores_what_follows_the_empty_line() {
    let request = Request::parse(b"GET / HTTP/1.1\r\nA:b\r\n\r\nC:d\r\n\r\n").unwrap();
    assert_eq!(request.headers.len(), 1);
    assert_eq!(header(&request, "C"), None);
}

#[test]
fn request_in_a_padded_buffer() {
    let mut buffer = vec![0u8; 16384];
    let raw = b"GET /index.html HTTP/1.1\r\nHost: x\r\n\r\n";
    buffer[..raw.len()].copy_from_slice(raw);
    let request = Request::parse(&buffer).unwrap();
    assert_eq!(request.raw_path, "/index.html");
    assert_eq!(header(&request, "Host"), Some(" x"));
}

#[test]
fn request_path_may_be_empty() {
    let request = Request::parse(b"GET  HTTP/1.1\r\nA:b\r\n\r\n").unwrap();
    assert_eq!(request.raw_path, "");
}

#[test]
fn request_text_is_decoded() {
    let raw = b"GET /caf\xc3\xa9 HTTP/1.1\r\nN\xc3\xa4me: \xe2\x82\xac\r\n\r\n";
    let request = Request::parse(raw).unwrap();
    assert_eq!(request.raw_path, "/caf\u{e9}");
    assert_eq!(request.raw_path.chars().count(), 5);
    assert_eq!(header(&request, "N\u{e4}me"), Some(" \u{20ac}"));
}

#[test]
fn request_text_must_be_utf8() {
    assert_eq!(fault(b"GET /\xff HTTP/1.1\r\nA:b\r\n\r\n"), ParseError::Encoding);
    assert_eq!(fault(b"G\xffT / HTTP/1.1\r\nA:b\r\n\r\n"), ParseError::Encoding);
    assert_eq!(fault(b"GET / \xc3/1.1\r\nA:b\r\n\r\n"), ParseError::Encoding);
    assert_eq!(fault(b"GET / HTTP/1.1\r\nA\xff:b\r\n\r\n"), ParseError::Encoding);
    assert_eq!(fault(b"GET / HTTP/1.1\r\nA:b\xc3\r\n\r\n"), ParseError::Encoding);
}

#[test]
fn request_line_needs_its_end() {
    assert_eq!(fault(b""), ParseError::LineEnd);
    assert_eq!(fault(b"GET / HTTP/1.1"), ParseError::LineEnd);
    assert_eq!(fault(b"GET / HTTP/1.1\n"), ParseError::LineEnd);
    assert_eq!(fault(b"GET / HTTP/1.1\r"), ParseError::LineEnd);
    assert_eq!(fault(&[0u8; 64]), ParseError::LineEnd);
}

#[test]
fn request_line_needs_two_spaces() {
    assert_eq!(fault(b"GET\r\n\r\n\r\n"), ParseError::Space);
    assert_eq!(fault(b"GET HTTP/1.1\r\n\r\n\r\n"), ParseError::Space);
    assert_eq!(fault(b"HTTP/1.1\r\n\r\n\r\n"), ParseError::Space);
    assert_eq!(fault(b"\r\n\r\n\r\n"), ParseError::Space);
}

#[test]
fn request_method_must_be_known() {
    assert_eq!(fault(b"FETCH / HTTP/1.1\r\nA:b\r\n\r\n"), ParseError::Method);
    assert_eq!(fault(b"get / HTTP/1.1\r\nA:b\r\n\r\n"), ParseError::Method);
    assert_eq!(fault(b"UNKNOWN / HTTP/1.1\r\nA:b\r\n\r\n"), ParseError::Method);
    assert_eq!(fault(b" / HTTP/1.1\r\nA:b\r\n\r\n"), ParseError::Method);
}

#[test]
fn request_version_must_parse() {
    assert_eq!(
        fault(b"GET / HTTP/1.x\r\nA:b\r\n\r\n"),
        ParseError::Version(ProtocolError::Minor(NumberError::InvalidDigit))
    );
    assert_eq!(
        fault(b"GET / HTTP/1.1 extra\r\nA:b\r\n\r\n"),
        ParseError::Version(ProtocolError::Minor(NumberError::InvalidDigit))
    );
    assert_eq!(fault(b"GET / HTTP\r\nA:b\r\n\r\n"), ParseError::Version(ProtocolError::Delimiter));
    assert_eq!(
        fault(b"GET / HTTP/.1\r\nA:b\r\n\r\n"),
        ParseError::Version(ProtocolError::Major(NumberError::Empty))
    );
    assert_eq!(
        fault(b"GET / HTTP/1.4294967296\r\nA:b\r\n\r\n"),
        ParseError::Version(ProtocolError::Minor(NumberError::TooLarge))
    );
}

#[test]
fn request_headers_need_their_end() {
    assert_eq!(fault(b"GET / HTTP/1.1\r\nHost: x\r\n"), ParseError::HeadersEnd);
    assert_eq!(fault(b"GET / HTTP/1.1\r\nHost: x"), ParseError::HeadersEnd);
    assert_eq!(fault(b"GET / HTTP/1.1\r\n"), ParseError::HeadersEnd);
    assert_eq!(fault(b"GET / HTTP/1.1\r\nHost: x\r\n\r"), ParseError::HeadersEnd);
}

#[test]
fn request_header_needs_a_colon() {
    assert_eq!(fault(b"GET / HTTP/1.1\r\nHost x\r\n\r\n"), ParseError::Colon);
    assert_eq!(fault(b"GET / HTTP/1.1\r\nA:b\r\nHost\r\n\r\n"), ParseError::Colon);
    assert_eq!(fault(b"GET / HTTP/1.1\r\n\r\nA:b\r\n\r\n"), ParseError::Colon);
}

#[test]
fn request_first_fault_decides() {
    assert_eq!(fault(b"FETCH /\xff HTTP/x\r\nbad\r\n"), ParseError::Method);
    assert_eq!(fault(b"GET /\xff HTTP/x\r\nbad\r\n"), ParseError::Encoding);
    assert_eq!(
        fault(b"GET / HTTP/x\r\nbad\r\n"),
        ParseError::Version(ProtocolError::Delimiter)
    );
    assert_eq!(fault(b"GET / HTTP/1.1\r\nbad\r\nA\xff:b\r\n\r\n"), ParseError::Colon);
    assert_eq!(fault(b"GET / HTTP/1.1\r\nA\xff:b\r\nbad\r\n\r\n"), ParseError::Encoding);
}

#[test]
fn request_line_read_alone() {
    let mut request = Request::new(b"GET /old HTTP/1.1\r\nKept: 1\r\n\r\n");
    let end = request.read_header_first_line(b"DELETE /item/7 HTTP/1.0\r\n");
    assert_eq!(end, 23);
    assert_eq!(request.method, Method::Delete);
    assert_eq!(request.raw_path, "/item/7");
    assert_eq!(request.protocol, Protocol { major: 1, minor: 0 });
    assert_eq!(header(&request, "Kept"), Some(" 1"));
}

#[test]
fn request_headers_read_alone() {
    let mut request = Request::new(b"GET /old HTTP/1.1\r\nKept: 1\r\nA: old\r\n\r\n");
    let raw = b"skipped\r\nA: new\r\nB: 2\r\n\r\nrest";
    let end = request.read_headers(raw, 9);
    assert_eq!(end, 21);
    assert_eq!(request.method, Method::Get);
    assert_eq!(request.raw_path, "/old");
    assert_eq!(request.headers.len(), 3);
    assert_eq!(header(&request, "Kept"), Some(" 1"));
    assert_eq!(header(&request, "A"), Some(" new"));
    assert_eq!(header(&request, "B"), Some(" 2"));
}

#[test]
fn request_headers_read_alone_without_headers() {
    let mut request = Request::new(b"GET / HTTP/1.1\r\nKept: 1\r\n\r\n");
    let end = request.read_headers(b"xx\r\n\r\n", 2);
    assert_eq!(end, 2);
    assert_eq!(request.headers.len(), 1);
}

#[test]
fn request_read_replaces_the_line_and_adds_headers() {
    let mut request = Request::new(b"GET /old HTTP/1.1\r\nKept: 1\r\nA: old\r\n\r\n");
    request.read(b"POST /new HTTP/2.0\r\nA: new\r\n\r\n");
    assert_eq!(request.method, Method::Post);
    assert_eq!(request.raw_path, "/new");
    assert_eq!(request.protocol, Protocol { major: 2, minor: 0 });
    assert_eq!(request.headers.len(), 2);
    assert_eq!(header(&request, "Kept"), Some(" 1"));
    assert_eq!(header(&request, "A"), Some(" new"));
}

#[test]
fn request_read_body_changes_nothing() {
    let raw = b"GET /index.html HTTP/1.1\r\nHost: x\r\n\r\nbody";
    let mut request = Request::new(raw);
    request.read_body(raw, 37);
    assert_eq!(request.method, Method::Get);
    assert_eq!(request.raw_path, "/index.html");
    assert_eq!(request.headers.len(), 1);
    assert_eq!(header(&request, "Host"), Some(" x"));
}
