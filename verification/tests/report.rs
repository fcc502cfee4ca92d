use http_lsp::http_client::HttpResponse;

fn sample() -> HttpResponse {
    HttpResponse {
        status: 200,
        status_text: "OK".to_string(),
        headers: vec![
            ("content-type".to_string(), "text/plain".to_string()),
            ("x-id".to_string(), "7".to_string()),
        ],
        body: "hello".to_string(),
        duration_ms: 1234,
    }
}

#[test]
fn full_report_has_status_headers_and_body() {
    assert_eq!(
        sample().format_full(),
        "HTTP 200 OK\nDuration: 1234ms\n\n--- Headers ---\ncontent-type: text/plain\nx-id: 7\n\n--- Body ---\nhello"
    );
}

#[test]
fn headers_report_leaves_the_body_out() {
    assert_eq!(
        sample().format_headers_only(),
        "HTTP 200 OK\nDuration: 1234ms\n\ncontent-type: text/plain\nx-id: 7\n"
    );
}

#[test]
fn report_without_headers() {
    let response = HttpResponse {
        status: 0,
        status_text: String::new(),
        headers: vec![],
        body: String::new(),
        duration_ms: u128::MAX,
    };
    assert_eq!(
        response.format_full(),
        format!("HTTP 0 \nDuration: {}ms\n\n--- Headers ---\n\n--- Body ---\n", u128::MAX)
    );
}
