use http_lsp::http_client::{
    prepare_request, prepare_with_method, read_header_value, HttpResponse, Method, RequestError,
};
use http_lsp::parser::FullHttpRequest;

fn request(method: &str, headers: &[(&str, &str)], body: Option<&str>) -> FullHttpRequest {
    FullHttpRequest {
        method: method.to_string(),
        url: "http://example.com/".to_string(),
        headers: headers.iter().map(|(n, v)| (n.to_string(), v.to_string())).collect(),
        body: body.map(|b| b.to_string()),
    }
}

#[test]
fn the_seven_methods_are_accepted() {
    for (name, method) in [
        ("GET", Method::Get),
        ("POST", Method::Post),
        ("PUT", Method::Put),
        ("DELETE", Method::Delete),
        ("PATCH", Method::Patch),
        ("HEAD", Method::Head),
        ("OPTIONS", Method::Options),
    ] {
        assert_eq!(Method::from_upper(name), Some(method));
        assert_eq!(method.name(), name);
        let prepared = prepare_request(&request(name, &[], None)).unwrap();
        assert_eq!(prepared.method(), method);
    }
}

#[test]
fn other_methods_are_not() {
    for name in ["TRACE", "CONNECT", "", "GE", "GETS", "get", " GET"] {
        assert_eq!(Method::from_upper(name), None, "{:?}", name);
    }
}

#[test]
fn trace_is_refused_before_anything_is_sent() {
    let error = prepare_request(&request("TRACE", &[("Accept", "*/*")], None)).unwrap_err();
    assert!(error.is_validation());
    match &error {
        RequestError::UnsupportedMethod { method } => assert_eq!(method, "TRACE"),
        other => panic!("{:?}", other),
    }
    assert_eq!(error.message(), "Unsupported HTTP method: TRACE");
}

#[test]
fn the_method_may_be_in_any_case() {
    assert_eq!(prepare_request(&request("get", &[], None)).unwrap().method(), Method::Get);
    assert_eq!(prepare_request(&request("Post", &[], None)).unwrap().method(), Method::Post);
    assert_eq!(prepare_request(&request("oPtIoNs", &[], None)).unwrap().method(), Method::Options);
    let error = prepare_request(&request("trace", &[], None)).unwrap_err();
    assert_eq!(error.message(), "Unsupported HTTP method: TRACE");
}

#[test]
fn the_checked_method_is_the_one_handed_in() {
    let lower = request("get", &[], None);
    assert!(prepare_with_method(&lower, "get").is_err());
    assert_eq!(prepare_with_method(&lower, "PUT").unwrap().method(), Method::Put);
}

#[test]
fn a_prepared_request_holds_what_the_request_held() {
    let prepared = prepare_request(&request(
        "POST",
        &[("Content-Type", "text/plain"), ("X-Caf\u{e9}", "x")][..1],
        Some("hello"),
    ))
    .unwrap();
    assert_eq!(prepared.method(), Method::Post);
    assert_eq!(prepared.url(), "http://example.com/");
    assert_eq!(prepared.headers(), &vec![("Content-Type".to_string(), "text/plain".to_string())]);
    assert_eq!(prepared.body(), Some("hello"));
    let no_body = prepare_request(&request("GET", &[], None)).unwrap();
    assert_eq!(no_body.body(), None);
    assert!(no_body.headers().is_empty());
}

#[test]
fn a_malformed_header_name_is_refused() {
    for name in ["", "bad name", "caf\u{e9}", "a:b", "a\"b", "(x)", "a\tb", "x/y", "a@b"] {
        let error = prepare_request(&request("GET", &[("Accept", "a"), (name, "v")], None)).unwrap_err();
        assert!(error.is_validation());
        match &error {
            RequestError::InvalidHeaderName { name: refused, reason } => {
                assert_eq!(refused, name);
                assert_eq!(reason, "invalid HTTP header name");
            }
            other => panic!("{:?}: {:?}", name, other),
        }
        assert_eq!(
            error.message(),
            format!("Invalid header name '{}': invalid HTTP header name", name)
        );
    }
}

#[test]
fn header_names_of_token_characters_are_accepted() {
    for name in ["Accept", "x-id", "A", "!#$%&'*+-.^_`|~", "0123456789", "aZ09"] {
        assert!(prepare_request(&request("GET", &[(name, "v")], None)).is_ok(), "{:?}", name);
    }
}

#[test]
fn header_names_have_a_greatest_length() {
    let longest = "a".repeat(65535);
    assert!(prepare_request(&request("GET", &[(&longest, "v")], None)).is_ok());
    let too_long = "a".repeat(65536);
    assert!(matches!(
        prepare_request(&request("GET", &[(&too_long, "v")], None)),
        Err(RequestError::InvalidHeaderName { .. })
    ));
    let long_with_space = format!("{} b", "a".repeat(100));
    assert!(matches!(
        prepare_request(&request("GET", &[(&long_with_space, "v")], None)),
        Err(RequestError::InvalidHeaderName { .. })
    ));
}

#[test]
fn a_malformed_header_value_is_refused() {
    for value in ["a\nb", "a\rb", "\u{7f}", "a\u{0}", "\u{1b}[0m"] {
        let error = prepare_request(&request("GET", &[("X-A", "fine"), ("X-B", value)], None)).unwrap_err();
        assert!(error.is_validation());
        match &error {
            RequestError::InvalidHeaderValue { name, reason } => {
                assert_eq!(name, "X-B");
                assert_eq!(reason, "failed to parse header value");
            }
            other => panic!("{:?}: {:?}", value, other),
        }
        assert_eq!(
            error.message(),
            "Invalid header value for 'X-B': failed to parse header value"
        );
    }
}

#[test]
fn header_values_may_hold_tabs_and_bytes_beyond_ascii() {
    for value in ["", "plain", "a\tb", " ~", "caf\u{e9}", "\u{4e16}\u{754c}", "\u{80}"] {
        assert!(prepare_request(&request("GET", &[("X-A", value)], None)).is_ok(), "{:?}", value);
    }
}

#[test]
fn the_first_malformed_header_decides_name_before_value() {
    let error = prepare_request(&request(
        "GET",
        &[("ok", "fine"), ("bad name", "bad\nvalue"), ("worse name", "x")],
        None,
    ))
    .unwrap_err();
    assert!(matches!(&error, RequestError::InvalidHeaderName { name, .. } if name == "bad name"));
    let error = prepare_request(&request("GET", &[("ok", "bad\nvalue"), ("bad name", "x")], None)).unwrap_err();
    assert!(matches!(&error, RequestError::InvalidHeaderValue { name, .. } if name == "ok"));
    let error = prepare_request(&request("TRACE", &[("bad name", "x")], None)).unwrap_err();
    assert!(matches!(&error, RequestError::UnsupportedMethod { .. }));
}

#[test]
fn a_transport_failure_is_no_validation_failure() {
    let error = RequestError::Transport { message: "connection refused".to_string() };
    assert!(!error.is_validation());
    assert_eq!(error.message(), "connection refused");
}

#[test]
fn a_captured_response_has_the_standard_reason_phrase() {
    let response = HttpResponse::capture(
        200,
        vec![("content-type".to_string(), b"text/plain".to_vec())],
        "hi".to_string(),
        42,
    );
    assert_eq!(response.status, 200);
    assert_eq!(response.status_text, "OK");
    assert_eq!(response.headers, vec![("content-type".to_string(), "text/plain".to_string())]);
    assert_eq!(response.body, "hi");
    assert_eq!(response.duration_ms, 42);
    assert_eq!(HttpResponse::capture(404, vec![], String::new(), 0).status_text, "Not Found");
    assert_eq!(HttpResponse::capture(418, vec![], String::new(), 0).status_text, "I'm a teapot");
}

#[test]
fn a_status_without_a_reason_phrase_reads_unknown() {
    for status in [0u16, 99, 299, 599, 999, 1000, u16::MAX] {
        assert_eq!(
            HttpResponse::capture(status, vec![], String::new(), 0).status_text,
            "Unknown",
            "{}",
            status
        );
    }
}

#[test]
fn a_given_reason_is_the_status_text() {
    let response = HttpResponse::with_reason(200, Some("Fine".to_string()), vec![], "b".to_string(), 1);
    assert_eq!(response.status_text, "Fine");
    let response = HttpResponse::with_reason(200, None, vec![], "b".to_string(), 1);
    assert_eq!(response.status_text, "Unknown");
    let copy = response.clone();
    assert_eq!(copy.status, 200);
    assert_eq!(copy.status_text, "Unknown");
    assert_eq!(copy.body, "b");
    assert_eq!(copy.duration_ms, 1);
}

#[test]
fn received_header_values_are_read_as_text() {
    assert_eq!(read_header_value(&b"text/plain; q=0.5".to_vec()), "text/plain; q=0.5");
    assert_eq!(read_header_value(&b"a\tb ~".to_vec()), "a\tb ~");
    assert_eq!(read_header_value(&Vec::new()), "");
    for bytes in [&b"caf\xc3\xa9"[..], &b"a\x7fb"[..], &b"a\nb"[..], &b"\x00"[..], &b"ok\xff"[..]] {
        assert_eq!(read_header_value(&bytes.to_vec()), "", "{:?}", bytes);
    }
    let response = HttpResponse::capture(
        200,
        vec![
            ("x-a".to_string(), b"fine".to_vec()),
            ("x-b".to_string(), vec![0x80]),
            ("x-a".to_string(), b"again".to_vec()),
        ],
        String::new(),
        0,
    );
    assert_eq!(
        response.headers,
        vec![
            ("x-a".to_string(), "fine".to_string()),
            ("x-b".to_string(), String::new()),
            ("x-a".to_string(), "again".to_string()),
        ]
    );
}
