use http::method::Method;
use http::protocol::{NumberError, Protocol, ProtocolError};
use http::status_code::StatusCode;
use http::text::{
    decode, find_block_end, find_byte, find_line_end, push_decimal, same_bytes, same_text,
};

const METHODS: [(Method, &str); 8] = [
    (Method::Get, "GET"),
    (Method::Head, "HEAD"),
    (Method::Post, "POST"),
    (Method::Put, "PUT"),
    (Method::Delete, "DELETE"),
    (Method::Connect, "CONNECT"),
    (Method::Trace, "TRACE"),
    (Method::Patch, "PATCH"),
];

#[test]
fn method_names_parse_to_their_methods() {
    for (method, name) in METHODS {
        assert_eq!(Method::from_str(name), Ok(method));
    }
}

#[test]
fn method_text_is_the_name() {
    for (method, name) in METHODS {
        assert_eq!(method.to_string(), name);
    }
    assert_eq!(Method::Unknown.to_string(), "UNKNOWN");
}

#[test]
fn method_round_trip() {
    for (method, name) in METHODS {
        let parsed = Method::from_str(name).unwrap();
        assert_eq!(parsed, method);
        assert_eq!(parsed.to_string(), name);
    }
}

#[test]
fn method_unknown_is_never_parsed() {
    assert_eq!(
        Method::from_str("UNKNOWN"),
        Err("'UNKNOWN' is not a valid value for Http::Method".to_string())
    );
}

#[test]
fn method_is_case_sensitive() {
    assert!(Method::from_str("get").is_err());
    assert!(Method::from_str("Get").is_err());
    assert!(Method::from_str("GET ").is_err());
    assert!(Method::from_str("").is_err());
    assert!(Method::from_str("OPTIONS").is_err());
}

#[test]
fn method_error_quotes_the_text() {
    assert_eq!(
        Method::from_str("FETCH"),
        Err("'FETCH' is not a valid value for Http::Method".to_string())
    );
    assert_eq!(Method::from_str(""), Err("'' is not a valid value for Http::Method".to_string()));
}

#[test]
fn method_parses_through_the_trait() {
    let method: Method = "POST".parse().unwrap();
    assert_eq!(method, Method::Post);
    assert_eq!(
        "post".parse::<Method>(),
        Err("'post' is not a valid value for Http::Method".to_string())
    );
    for (method, name) in METHODS {
        assert_eq!(name.parse::<Method>(), Ok(method));
    }
}

const STATUSES: [(StatusCode, &str, u16); 64] = [
    (StatusCode::Unknown, "Unknown", 0),
    (StatusCode::Continue, "Continue", 100),
    (StatusCode::SwitchingProtocols, "Switching Protocols", 101),
    (StatusCode::Processing, "Processing", 102),
    (StatusCode::EarlyHints, "Early Hints", 103),
    (StatusCode::OK, "OK", 200),
    (StatusCode::Created, "Created", 201),
    (StatusCode::Accepted, "Accepted", 202),
    (StatusCode::NonAuthoritiveInformation, "Non-Authoritive Information", 203),
    (StatusCode::NoContent, "No Content", 204),
    (StatusCode::ResetContent, "Reset Content", 205),
    (StatusCode::PartialContent, "Partial Content", 206),
    (StatusCode::MultiStatus, "Multi Status", 207),
    (StatusCode::AlreadyReported, "Already Reported", 208),
    (StatusCode::ImUsed, "IM Used", 226),
    (StatusCode::MultipleChoices, "Multiple Choices", 300),
    (StatusCode::MovedPermanently, "Moved Permanently", 301),
    (StatusCode::Found, "Found", 302),
    (StatusCode::SeeOther, "See Other", 303),
    (StatusCode::NotMethod, "Not Method", 304),
    (StatusCode::UseProxy, "Use Proxy", 305),
    (StatusCode::Reserved306, "Reserved306", 306),
    (StatusCode::TemporaryRedirect, "Temporary Redirect", 307),
    (StatusCode::PermanentRedirect, "Permanent Redirect", 308),
    (StatusCode::BadRequest, "Bad Request", 400),
    (StatusCode::Unauthorized, "Unauthorized", 401),
    (StatusCode::PaymentRequired, "Payment Required", 402),
    (StatusCode::Forbidden, "Forbidden", 403),
    (StatusCode::NotFound, "Not Found", 404),
    (StatusCode::MethodNotAllowed, "Method Not Allowed", 405),
    (StatusCode::NotAcceptable, "Not Acceptable", 406),
    (StatusCode::ProxyAuthenticationRequired, "Proxy Authentication Required", 407),
    (StatusCode::RequestTimeout, "Request Timeout", 408),
    (StatusCode::Conflict, "Conflict", 409),
    (StatusCode::Gone, "Gone", 410),
    (StatusCode::LengthRequired, "Length Required", 411),
    (StatusCode::PreconditionFailed, "Precondition Failed", 412),
    (StatusCode::RequestEntityTooLarge, "Request Entity Too Large", 413),
    (StatusCode::RequestUriTooLong, "Request URI Too Long", 414),
    (StatusCode::UnsupportedMediaType, "Unsupported Media Type", 415),
    (StatusCode::RequestedRangeNotSatisfiable, "Requested Range Not Satisfiable", 416),
    (StatusCode::ExpectationFailed, "Expectation Failed", 417),
    (StatusCode::ImATeapot, "I'm A Teapot", 418),
    (StatusCode::MisdirectedRequest, "Misdirected Request", 421),
    (StatusCode::UnprocessableEntity, "Unprocessable Entity", 422),
    (StatusCode::Locked, "Locked", 423),
    (StatusCode::FailedDependency, "Failed Dependency", 424),
    (StatusCode::TooEarly, "Too Early", 425),
    (StatusCode::UpgradeRequired, "Upgrade Required", 426),
    (StatusCode::PreconditionRequired, "Precondition Required", 428),
    (StatusCode::TooManyRequests, "Too Many Requests", 429),
    (StatusCode::RequestHeaderFieldsTooLarge, "Request Header Fields Too Large", 431),
    (StatusCode::UnavailableForLegalReasons, "Unavailable For Legal Reasons", 451),
    (StatusCode::InternalServerError, "Internal Server Error", 500),
    (StatusCode::NotImplemented, "Not Implemented", 501),
    (StatusCode::BadGateway, "Bad Gateway", 502),
    (StatusCode::ServiceUnavailable, "Service Unavailable", 503),
    (StatusCode::GatewayTimeout, "Gateway Timeout", 504),
    (StatusCode::HttpVersionNotSupported, "HTTP Version Not Supported", 505),
    (StatusCode::VariantAlsoNegotiates, "Variant Also Negotiates", 506),
    (StatusCode::InsufficientStorage, "Insufficient Storage", 507),
    (StatusCode::LoopDetected, "Loop Detected", 508),
    (StatusCode::NotExtended, "Not Extended", 510),
    (StatusCode::NetworkAuthenticationRequired, "Network Authentication Required", 511),
];

#[test]
fn status_round_trip() {
    for (status, phrase, _) in STATUSES {
        let parsed = StatusCode::from_str(phrase).unwrap();
        assert_eq!(parsed, status);
        assert_eq!(parsed.to_string(), phrase);
    }
}

#[test]
fn status_text_is_the_phrase() {
    for (status, phrase, _) in STATUSES {
        assert_eq!(status.to_string(), phrase);
    }
}

#[test]
fn status_numbers() {
    for (status, _, code) in STATUSES {
        assert_eq!(status.code(), code);
    }
    assert_eq!(StatusCode::Unknown.code(), 0);
    assert_eq!(StatusCode::OK.code(), 200);
    assert_eq!(StatusCode::ImUsed.code(), 226);
    assert_eq!(StatusCode::NotFound.code(), 404);
    assert_eq!(StatusCode::RequestHeaderFieldsTooLarge.code(), 431);
    assert_eq!(StatusCode::InternalServerError.code(), 500);
}

#[test]
fn status_numbers_and_phrases_are_distinct() {
    for (i, (_, phrase_a, code_a)) in STATUSES.iter().enumerate() {
        for (_, phrase_b, code_b) in STATUSES.iter().skip(i + 1) {
            assert_ne!(phrase_a, phrase_b);
            assert_ne!(code_a, code_b);
        }
    }
}

#[test]
fn status_phrases_with_capitals_and_apostrophe() {
    assert_eq!(StatusCode::from_str("IM Used"), Ok(StatusCode::ImUsed));
    assert_eq!(StatusCode::from_str("Request URI Too Long"), Ok(StatusCode::RequestUriTooLong));
    assert_eq!(StatusCode::from_str("I'm A Teapot"), Ok(StatusCode::ImATeapot));
    assert_eq!(
        StatusCode::from_str("HTTP Version Not Supported"),
        Ok(StatusCode::HttpVersionNotSupported)
    );
    assert_eq!(StatusCode::from_str("OK"), Ok(StatusCode::OK));
    assert_eq!(StatusCode::from_str("Unknown"), Ok(StatusCode::Unknown));
}

#[test]
fn status_has_one_phrase_only() {
    assert!(StatusCode::from_str("Im Used").is_err());
    assert!(StatusCode::from_str("Request Uri Too Long").is_err());
    assert!(StatusCode::from_str("Im A Teapot").is_err());
    assert!(StatusCode::from_str("Http Version Not Supported").is_err());
    assert!(StatusCode::from_str("Ok").is_err());
    assert!(StatusCode::from_str("ok").is_err());
    assert!(StatusCode::from_str("Not Modified").is_err());
    assert!(StatusCode::from_str("").is_err());
    assert!(StatusCode::from_str("200").is_err());
}

#[test]
fn status_error_quotes_the_text() {
    assert_eq!(
        StatusCode::from_str("Fine"),
        Err("'Fine' is not a valid value for Http::StatusCode".to_string())
    );
}

#[test]
fn status_parses_through_the_trait() {
    let status: StatusCode = "Internal Server Error".parse().unwrap();
    assert_eq!(status, StatusCode::InternalServerError);
    assert_eq!(
        "internal server error".parse::<StatusCode>(),
        Err("'internal server error' is not a valid value for Http::StatusCode".to_string())
    );
    for (status, phrase, _) in STATUSES {
        assert_eq!(phrase.parse::<StatusCode>(), Ok(status));
    }
}

#[test]
fn protocol_new_is_zero() {
    assert_eq!(Protocol::new(), Protocol { major: 0, minor: 0 });
}

#[test]
fn protocol_parses_versions() {
    assert_eq!(Protocol::from_str("HTTP/1.1"), Ok(Protocol { major: 1, minor: 1 }));
    assert_eq!(Protocol::from_str("HTTP/1.0"), Ok(Protocol { major: 1, minor: 0 }));
    assert_eq!(Protocol::from_str("HTTP/2.0"), Ok(Protocol { major: 2, minor: 0 }));
    assert_eq!(Protocol::from_str("HTTP/10.25"), Ok(Protocol { major: 10, minor: 25 }));
    assert_eq!(Protocol::parse(b"HTTP/1.1"), Ok(Protocol { major: 1, minor: 1 }));
}

#[test]
fn protocol_numbers_as_decimal_text() {
    assert_eq!(Protocol::from_str("HTTP/+1.+1"), Ok(Protocol { major: 1, minor: 1 }));
    assert_eq!(Protocol::from_str("HTTP/001.010"), Ok(Protocol { major: 1, minor: 10 }));
    assert_eq!(
        Protocol::from_str("HTTP/4294967295.0"),
        Ok(Protocol { major: 4294967295, minor: 0 })
    );
    assert_eq!(
        Protocol::from_str("HTTP/0.00004294967295"),
        Ok(Protocol { major: 0, minor: 4294967295 })
    );
}

#[test]
fn protocol_text_before_the_slash_is_not_examined() {
    assert_eq!(Protocol::from_str("HTTPS/1.1"), Ok(Protocol { major: 1, minor: 1 }));
    assert_eq!(Protocol::from_str("/3.4"), Ok(Protocol { major: 3, minor: 4 }));
}

#[test]
fn protocol_missing_delimiter() {
    assert_eq!(Protocol::parse(b"HTTP1.1"), Err(ProtocolError::Delimiter));
    assert_eq!(Protocol::parse(b"HTTP/11"), Err(ProtocolError::Delimiter));
    assert_eq!(Protocol::parse(b""), Err(ProtocolError::Delimiter));
    assert_eq!(Protocol::parse(b"1.1/HTTP"), Err(ProtocolError::Delimiter));
    assert_eq!(
        Protocol::from_str("HTTP"),
        Err("'HTTP' is not a valid http protocol string. Inner Error: missing delimiter"
            .to_string())
    );
}

#[test]
fn protocol_number_errors() {
    assert_eq!(Protocol::parse(b"HTTP/.1"), Err(ProtocolError::Major(NumberError::Empty)));
    assert_eq!(Protocol::parse(b"HTTP/1."), Err(ProtocolError::Minor(NumberError::Empty)));
    assert_eq!(Protocol::parse(b"HTTP/a.1"), Err(ProtocolError::Major(NumberError::InvalidDigit)));
    assert_eq!(Protocol::parse(b"HTTP/1.b"), Err(ProtocolError::Minor(NumberError::InvalidDigit)));
    assert_eq!(Protocol::parse(b"HTTP/-1.1"), Err(ProtocolError::Major(NumberError::InvalidDigit)));
    assert_eq!(Protocol::parse(b"HTTP/+.1"), Err(ProtocolError::Major(NumberError::InvalidDigit)));
    assert_eq!(Protocol::parse(b"HTTP/1.1 "), Err(ProtocolError::Minor(NumberError::InvalidDigit)));
    assert_eq!(
        Protocol::parse(b"HTTP/1.2.3"),
        Err(ProtocolError::Minor(NumberError::InvalidDigit))
    );
    assert_eq!(
        Protocol::parse(b"HTTP/4294967296.0"),
        Err(ProtocolError::Major(NumberError::TooLarge))
    );
    assert_eq!(
        Protocol::parse(b"HTTP/1.99999999999"),
        Err(ProtocolError::Minor(NumberError::TooLarge))
    );
    assert_eq!(Protocol::parse(b"HTTP/x.y"), Err(ProtocolError::Major(NumberError::InvalidDigit)));
}

#[test]
fn protocol_first_fault_from_the_left_decides() {
    assert_eq!(
        Protocol::parse(b"HTTP/99999999999x.1"),
        Err(ProtocolError::Major(NumberError::TooLarge))
    );
    assert_eq!(
        Protocol::parse(b"HTTP/9x9999999999.1"),
        Err(ProtocolError::Major(NumberError::InvalidDigit))
    );
}

#[test]
fn protocol_error_messages() {
    assert_eq!(
        Protocol::from_str("HTTP/.1"),
        Err("'HTTP/.1' is not a valid http protocol string. Inner Error: cannot parse integer from empty string".to_string())
    );
    assert_eq!(
        Protocol::from_str("HTTP/1.x"),
        Err("'HTTP/1.x' is not a valid http protocol string. Inner Error: invalid digit found in string".to_string())
    );
    assert_eq!(
        Protocol::from_str("HTTP/1.4294967296"),
        Err("'HTTP/1.4294967296' is not a valid http protocol string. Inner Error: number too large to fit in target type".to_string())
    );
}

#[test]
fn protocol_numbers_parse_as_std_parses_them() {
    for text in ["", "0", "7", "+7", "+", "-", "-7", "007", "4294967295", "4294967296", "12a", "a12", " 1", "1 ", "1_0", "99999999999999999999"] {
        let ours = http::protocol::parse_number(text.as_bytes()).ok();
        let std = text.parse::<u32>().ok();
        assert_eq!(ours, std, "{:?}", text);
    }
}

#[test]
fn protocol_text() {
    assert_eq!(Protocol { major: 1, minor: 1 }.to_string(), "HTTP/1.1");
    assert_eq!(Protocol { major: 0, minor: 0 }.to_string(), "HTTP/0.0");
    assert_eq!(Protocol { major: 4294967295, minor: 10 }.to_string(), "HTTP/4294967295.10");
}

#[test]
fn protocol_text_parses_back() {
    for (major, minor) in [(0, 0), (1, 1), (2, 0), (9, 10), (4294967295, 4294967295)] {
        let protocol = Protocol { major, minor };
        assert_eq!(Protocol::from_str(&protocol.to_string()), Ok(protocol));
    }
}

#[test]
fn protocol_parses_through_the_trait() {
    let protocol: Protocol = "HTTP/1.1".parse().unwrap();
    assert_eq!(protocol, Protocol { major: 1, minor: 1 });
    assert_eq!("HTTP/2.0".parse::<Protocol>(), Ok(Protocol { major: 2, minor: 0 }));
    assert_eq!(
        "HTTP/1.x".parse::<Protocol>(),
        Err("'HTTP/1.x' is not a valid http protocol string. Inner Error: invalid digit found in string".to_string())
    );
}

#[test]
fn decimal_text() {
    for n in [0u64, 1, 9, 10, 11, 99, 100, 101, 16384, 4294967295, u64::MAX] {
        let mut text = String::from("n=");
        push_decimal(&mut text, n);
        assert_eq!(text, format!("n={}", n));
    }
}

#[test]
fn bytes_compare() {
    assert!(same_bytes(b"", b""));
    assert!(same_bytes(b"abc", b"abc"));
    assert!(!same_bytes(b"abc", b"abd"));
    assert!(!same_bytes(b"abc", b"ab"));
    assert!(!same_bytes(b"", b"a"));
    assert!(same_text("GET", "GET"));
    assert!(!same_text("GET", "get"));
}

#[test]
fn bytes_search() {
    assert_eq!(find_byte(b"a b c", b' '), Some(1));
    assert_eq!(find_byte(b"abc", b' '), None);
    assert_eq!(find_byte(b"", b' '), None);
    assert_eq!(find_line_end(b"ab\r\ncd\r\n", 0, 8), Some(2));
    assert_eq!(find_line_end(b"ab\r\ncd\r\n", 3, 8), Some(6));
    assert_eq!(find_line_end(b"ab\r\ncd\r\n", 3, 7), None);
    assert_eq!(find_line_end(b"ab\rcd\n", 0, 6), None);
    assert_eq!(find_line_end(b"\r", 0, 1), None);
    assert_eq!(find_block_end(b"a\r\nb\r\n\r\n", 0), Some(4));
    assert_eq!(find_block_end(b"\r\n\r\n", 0), Some(0));
    assert_eq!(find_block_end(b"\r\n\r\n", 1), None);
    assert_eq!(find_block_end(b"a\r\nb\r\n", 0), None);
}

#[test]
fn text_is_decoded_from_utf8() {
    assert_eq!(decode(b""), Some(String::new()));
    assert_eq!(decode(b"plain"), Some("plain".to_string()));
    assert_eq!(decode(b"caf\xc3\xa9"), Some("caf\u{e9}".to_string()));
    assert_eq!(decode(b"\xe2\x82\xac").map(|s| s.chars().count()), Some(1));
    assert_eq!(decode(b"\xf0\x9f\x98\x80"), Some("\u{1f600}".to_string()));
}

#[test]
fn text_that_is_no_utf8_is_refused() {
    assert_eq!(decode(b"\xff"), None);
    assert_eq!(decode(b"a\xc3"), None);
    assert_eq!(decode(b"\xc0\x80"), None);
    assert_eq!(decode(b"\xed\xa0\x80"), None);
    assert_eq!(decode(b"\x80"), None);
    assert_eq!(decode(b"\xf4\x90\x80\x80"), None);
}
