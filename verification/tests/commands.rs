use http_lsp::commands::{
    complete, execute, format_full, format_headers_only, parse_args, response_path, save_response,
    send_request, show_response, ArgValue, Command, CommandError, ErrorKind, Outcome, Pending,
    Reply, Severity, Step,
};
use http_lsp::document::{CachedResponse, DocumentManager};
use http_lsp::http_client::{HttpResponse, Method, RequestError};

const DOCUMENT: &str = "### one\nGET http://example.com/a\nAccept: text/plain\n\n### two\nTRACE http://example.com/b\n\n### three\npost http://lower\nPOST http://example.com/c\nContent-Type: text/plain\nbad name: x\n\nbody\n";

fn args(uri: &str, line: u64) -> Vec<ArgValue> {
    vec![ArgValue::Text(uri.to_string()), ArgValue::Unsigned(line)]
}

fn store() -> DocumentManager {
    let mut documents = DocumentManager::new();
    documents.open("file:///doc.http".to_string(), DOCUMENT.to_string());
    documents
}

fn response(status: u16, body: &str, duration_ms: u128) -> HttpResponse {
    HttpResponse {
        status,
        status_text: "OK".to_string(),
        headers: vec![("content-type".to_string(), "text/plain".to_string())],
        body: body.to_string(),
        duration_ms,
    }
}

fn done(step: Step) -> Outcome {
    match step {
        Step::Done(outcome) => outcome,
        Step::Execute(pending) => panic!("a request is to be sent: {:?}", pending),
    }
}

fn pending(step: Step) -> Pending {
    match step {
        Step::Execute(pending) => pending,
        Step::Done(outcome) => panic!("the command has ended: {:?}", outcome),
    }
}

#[test]
fn command_names() {
    assert_eq!(Command::from_name("http.send"), Some(Command::Send));
    assert_eq!(Command::from_name("http.show"), Some(Command::Show));
    assert_eq!(Command::from_name("http.saveResponse"), Some(Command::SaveResponse));
    assert_eq!(Command::from_name("http.showHeaders"), Some(Command::ShowHeaders));
    assert_eq!(Command::from_name("http.sho"), None);
    assert_eq!(Command::from_name("HTTP.SEND"), None);
    assert_eq!(Command::from_name(""), None);
    for command in [Command::Send, Command::Show, Command::SaveResponse, Command::ShowHeaders] {
        assert_eq!(Command::from_name(command.name()), Some(command));
    }
}

#[test]
fn two_arguments_name_document_and_line() {
    assert_eq!(parse_args(&args("a.http", 3)).unwrap(), ("a.http".to_string(), 3));
    let mut three = args("a.http", 0);
    three.push(ArgValue::Other("null".to_string()));
    assert_eq!(parse_args(&three).unwrap(), ("a.http".to_string(), 0));
    assert_eq!(parse_args(&args("", u32::MAX as u64)).unwrap(), (String::new(), u32::MAX));
}

#[test]
fn a_line_beyond_the_greatest_line_number_is_a_parameter_failure() {
    assert_eq!(parse_args(&args("a", 4294967295)).unwrap().1, u32::MAX);
    for line in [4294967296u64, 4294967301, u64::MAX] {
        let error = parse_args(&args("a", line)).unwrap_err();
        assert!(
            matches!(&error, CommandError::InvalidLine { received: ArgValue::Unsigned(n) } if *n == line)
        );
        assert_eq!(error.kind(), ErrorKind::Parameter);
        assert_eq!(error.message(), format!("Invalid line number: {}", line));
    }
    let documents = store();
    let outcome = done(execute(&documents, "http.send", &args("file:///doc.http", 4294967297)));
    assert!(outcome.reports.is_empty());
    assert_eq!(outcome.result.unwrap_err().kind(), ErrorKind::Parameter);
}

#[test]
fn fewer_than_two_arguments_are_a_parameter_failure() {
    let error = parse_args(&vec![]).unwrap_err();
    assert!(matches!(&error, CommandError::MissingArguments { received } if received.is_empty()));
    assert_eq!(error.kind(), ErrorKind::Parameter);
    assert_eq!(error.message(), "Missing arguments: expected 2, got 0. Args: []");
    let error = parse_args(&vec![ArgValue::Text("a.http".to_string())]).unwrap_err();
    assert!(matches!(
        &error,
        CommandError::MissingArguments { received }
            if matches!(&received[..], [ArgValue::Text(uri)] if uri == "a.http")
    ));
    assert_eq!(error.message(), "Missing arguments: expected 2, got 1. Args: [\"a.http\"]");
    let error = parse_args(&vec![ArgValue::Unsigned(3)]).unwrap_err();
    assert_eq!(error.message(), "Missing arguments: expected 2, got 1. Args: [3]");
    let listed = CommandError::MissingArguments {
        received: vec![
            ArgValue::Text("a".to_string()),
            ArgValue::Unsigned(7),
            ArgValue::Other("Null".to_string()),
        ],
    };
    assert_eq!(listed.message(), "Missing arguments: expected 2, got 3. Args: [\"a\", 7, Null]");
}

#[test]
fn a_first_argument_that_is_no_text_is_a_parameter_failure() {
    let error = parse_args(&vec![ArgValue::Unsigned(7), ArgValue::Unsigned(3)]).unwrap_err();
    assert!(matches!(&error, CommandError::InvalidUri { received: ArgValue::Unsigned(7) }));
    assert_eq!(error.kind(), ErrorKind::Parameter);
    assert_eq!(error.message(), "Invalid URI: 7");
    let error = parse_args(&vec![ArgValue::Other("Null".to_string()), ArgValue::Text("x".to_string())]).unwrap_err();
    assert_eq!(error.message(), "Invalid URI: Null");
}

#[test]
fn a_second_argument_that_is_no_unsigned_integer_is_a_parameter_failure() {
    let error = parse_args(&vec![ArgValue::Text("a".to_string()), ArgValue::Text("3".to_string())]).unwrap_err();
    assert!(matches!(&error, CommandError::InvalidLine { received: ArgValue::Text(t) } if t == "3"));
    assert_eq!(error.kind(), ErrorKind::Parameter);
    assert_eq!(error.message(), "Invalid line number: \"3\"");
    let error = parse_args(&vec![ArgValue::Text("a".to_string()), ArgValue::Other("Number(-1)".to_string())]).unwrap_err();
    assert_eq!(error.message(), "Invalid line number: Number(-1)");
}

#[test]
fn one_argument_ends_every_command_without_lookup_or_request() {
    let documents = store();
    let one = vec![ArgValue::Text("file:///doc.http".to_string())];
    for name in ["http.send", "http.show", "http.saveResponse", "http.showHeaders"] {
        let outcome = done(execute(&documents, name, &one));
        assert!(outcome.reports.is_empty(), "{}", name);
        let error = outcome.result.unwrap_err();
        assert_eq!(error.kind(), ErrorKind::Parameter, "{}", name);
        assert!(
            matches!(&error, CommandError::MissingArguments { received } if received.len() == 1),
            "{}",
            name
        );
    }
    assert!(documents.get_cached_response("file:///doc.http", 1).is_none());
}

#[test]
fn an_unknown_command_fails() {
    let documents = store();
    let outcome = done(execute(&documents, "http.delete", &args("file:///doc.http", 1)));
    assert!(outcome.reports.is_empty());
    let error = outcome.result.unwrap_err();
    assert!(matches!(error, CommandError::UnknownCommand));
    assert_eq!(error.kind(), ErrorKind::UnknownCommand);
    assert_eq!(error.message(), "Method not found");
    let outcome = done(execute(&documents, "nothing", &vec![]));
    assert!(matches!(outcome.result, Err(CommandError::UnknownCommand)));
}

#[test]
fn send_of_an_unknown_document_is_not_found() {
    let documents = store();
    let outcome = done(send_request(&documents, &args("file:///other.http", 1)));
    assert!(outcome.reports.is_empty());
    let error = outcome.result.unwrap_err();
    assert!(matches!(error, CommandError::DocumentNotFound));
    assert_eq!(error.kind(), ErrorKind::NotFound);
    assert_eq!(error.message(), "Document not found");
}

#[test]
fn send_at_a_line_without_request_is_not_found() {
    let documents = store();
    for line in [0u64, 3, 4, 7, 14, 1000] {
        let outcome = done(execute(&documents, "http.send", &args("file:///doc.http", line)));
        assert!(outcome.reports.is_empty());
        let error = outcome.result.unwrap_err();
        assert!(matches!(error, CommandError::RequestNotFound), "line {}", line);
        assert_eq!(error.kind(), ErrorKind::NotFound);
        assert_eq!(error.message(), "No request found at line");
    }
}

#[test]
fn trace_ends_the_command_with_a_validation_failure() {
    let documents = store();
    for name in ["http.send", "http.saveResponse"] {
        let outcome = done(execute(&documents, name, &args("file:///doc.http", 5)));
        assert_eq!(outcome.reports.len(), 1);
        assert_eq!(outcome.reports[0].severity, Severity::Error);
        assert_eq!(outcome.reports[0].text, "Request failed: Unsupported HTTP method: TRACE");
        let error = outcome.result.unwrap_err();
        assert_eq!(error.kind(), ErrorKind::Validation);
        assert!(matches!(
            &error,
            CommandError::Request(RequestError::UnsupportedMethod { method }) if method == "TRACE"
        ));
    }
    assert!(documents.get_cached_response("file:///doc.http", 5).is_none());
}

#[test]
fn a_malformed_header_ends_the_command_with_a_validation_failure() {
    let documents = store();
    let outcome = done(send_request(&documents, &args("file:///doc.http", 9)));
    assert_eq!(outcome.reports.len(), 1);
    assert_eq!(outcome.reports[0].severity, Severity::Error);
    assert_eq!(
        outcome.reports[0].text,
        "Request failed: Invalid header name 'bad name': invalid HTTP header name"
    );
    assert_eq!(outcome.result.unwrap_err().kind(), ErrorKind::Validation);
}

#[test]
fn send_hands_out_the_request_of_the_line() {
    let documents = store();
    for line in [1u64, 2] {
        let waiting = pending(execute(&documents, "http.send", &args("file:///doc.http", line)));
        assert!(!waiting.save());
        assert_eq!(waiting.uri(), "file:///doc.http");
        assert_eq!(waiting.line(), 1);
        assert_eq!(waiting.request().method(), Method::Get);
        assert_eq!(waiting.request().url(), "http://example.com/a");
        assert_eq!(
            waiting.request().headers(),
            &vec![("Accept".to_string(), "text/plain".to_string())]
        );
        assert_eq!(waiting.request().body(), None);
    }
    let waiting = pending(save_response(&documents, &args("file:///doc.http", 1)));
    assert!(waiting.save());
}

#[test]
fn a_response_ends_send_and_is_cached() {
    let mut documents = store();
    let waiting = pending(send_request(&documents, &args("file:///doc.http", 2)));
    let outcome = complete(&mut documents, waiting, Ok(response(200, "hello", 17)));
    assert_eq!(outcome.reports.len(), 1);
    assert_eq!(outcome.reports[0].severity, Severity::Info);
    assert_eq!(
        outcome.reports[0].text,
        "HTTP 200 OK\nDuration: 17ms\n\n--- Headers ---\ncontent-type: text/plain\n\n--- Body ---\nhello"
    );
    match outcome.result.unwrap() {
        Reply::Response { status, body, duration_ms } => {
            assert_eq!(status, 200);
            assert_eq!(body, "hello");
            assert_eq!(duration_ms, 17);
        }
        other => panic!("{:?}", other),
    }
    let cached = documents.get_cached_response("file:///doc.http", 1).unwrap();
    assert_eq!(cached.status, 200);
    assert_eq!(cached.status_text, "OK");
    assert_eq!(cached.headers, vec![("content-type".to_string(), "text/plain".to_string())]);
    assert_eq!(cached.body, "hello");
    assert_eq!(cached.duration_ms, 17);
    assert!(documents.get_cached_response("file:///doc.http", 2).is_none());
    assert!(documents.get_cached_response("file:///doc.http", 9).is_none());
    assert_eq!(documents.get_content("file:///doc.http").unwrap(), DOCUMENT);
}

#[test]
fn a_response_is_cached_under_the_first_line_of_its_request() {
    let mut documents = DocumentManager::new();
    documents.open(
        "a.http".to_string(),
        "# notes\nPOST http://example.com/c\nContent-Type: text/plain\n\nbody\n".to_string(),
    );
    for (line, body) in [(2u64, "from two"), (4, "from four"), (1, "from one")] {
        let waiting = pending(execute(&documents, "http.send", &args("a.http", line)));
        assert_eq!(waiting.line(), 1);
        complete(&mut documents, waiting, Ok(response(200, body, 1)));
        assert_eq!(documents.get_cached_response("a.http", 1).unwrap().body, body);
        for other in [0u32, 2, 3, 4] {
            assert!(documents.get_cached_response("a.http", other).is_none());
        }
    }
    let shown = show_response(&documents, &args("a.http", 1), false);
    assert!(matches!(shown.result, Ok(Reply::Response { ref body, .. }) if body == "from one"));
}

#[test]
fn a_transport_failure_ends_send_and_caches_nothing() {
    let mut documents = store();
    let waiting = pending(send_request(&documents, &args("file:///doc.http", 1)));
    let outcome = complete(&mut documents, waiting, Err("operation timed out".to_string()));
    assert_eq!(outcome.reports.len(), 1);
    assert_eq!(outcome.reports[0].severity, Severity::Error);
    assert_eq!(outcome.reports[0].text, "Request failed: operation timed out");
    let error = outcome.result.unwrap_err();
    assert_eq!(error.kind(), ErrorKind::Execution);
    assert_eq!(error.message(), "operation timed out");
    assert!(documents.get_cached_response("file:///doc.http", 1).is_none());
}

#[test]
fn the_second_of_two_sends_is_the_one_cached() {
    let mut documents = store();
    let first = pending(send_request(&documents, &args("file:///doc.http", 1)));
    let second = pending(send_request(&documents, &args("file:///doc.http", 1)));
    complete(&mut documents, first, Ok(response(200, "first", 1)));
    complete(&mut documents, second, Ok(response(503, "second", 2)));
    let cached = documents.get_cached_response("file:///doc.http", 1).unwrap();
    assert_eq!(cached.status, 503);
    assert_eq!(cached.body, "second");
    assert_eq!(cached.duration_ms, 2);
}

#[test]
fn a_response_that_comes_after_the_close_is_cached_all_the_same() {
    let mut documents = store();
    let waiting = pending(send_request(&documents, &args("file:///doc.http", 1)));
    documents.close("file:///doc.http");
    let outcome = complete(&mut documents, waiting, Ok(response(200, "late", 1)));
    assert!(outcome.result.is_ok());
    assert!(documents.get_content("file:///doc.http").is_none());
    assert_eq!(documents.get_cached_response("file:///doc.http", 1).unwrap().body, "late");
}

#[test]
fn save_reports_the_path_and_the_response() {
    let mut documents = store();
    let waiting = pending(execute(&documents, "http.saveResponse", &args("file:///doc.http", 1)));
    let outcome = complete(&mut documents, waiting, Ok(response(201, "made", 5)));
    assert_eq!(outcome.reports.len(), 1);
    assert_eq!(outcome.reports[0].severity, Severity::Info);
    assert_eq!(
        outcome.reports[0].text,
        "Response saved to: file:///doc.response\n\nHTTP 201 OK\nDuration: 5ms\n\n--- Headers ---\ncontent-type: text/plain\n\n--- Body ---\nmade"
    );
    match outcome.result.unwrap() {
        Reply::Saved { saved_to, status } => {
            assert_eq!(saved_to, "file:///doc.response");
            assert_eq!(status, 201);
        }
        other => panic!("{:?}", other),
    }
    assert_eq!(documents.get_cached_response("file:///doc.http", 1).unwrap().body, "made");
}

#[test]
fn save_of_a_document_with_a_repeated_suffix_drops_one() {
    let mut documents = DocumentManager::new();
    documents.open("a.http.http".to_string(), "GET http://example.com/\n".to_string());
    let waiting = pending(save_response(&documents, &args("a.http.http", 0)));
    let outcome = complete(&mut documents, waiting, Ok(response(200, "", 1)));
    match outcome.result.unwrap() {
        Reply::Saved { saved_to, status } => {
            assert_eq!(saved_to, "a.http.response");
            assert_eq!(status, 200);
        }
        other => panic!("{:?}", other),
    }
}

#[test]
fn the_response_path_drops_the_suffix_of_request_files() {
    assert_eq!(response_path("foo.http"), "foo.response");
    assert_eq!(response_path("foo"), "foo.response");
    assert_eq!(response_path("foo.txt"), "foo.txt.response");
    assert_eq!(response_path("foo.httpx"), "foo.httpx.response");
    assert_eq!(response_path("foo.http.bak"), "foo.http.bak.response");
    assert_eq!(response_path("foo.HTTP"), "foo.HTTP.response");
    assert_eq!(response_path("foo.http.http"), "foo.http.response");
    assert_eq!(response_path("a.http.http.http"), "a.http.http.response");
    assert_eq!(response_path(".http"), ".response");
    assert_eq!(response_path("http"), "http.response");
    assert_eq!(response_path(""), ".response");
    assert_eq!(response_path("file:///d\u{e9}p/a.http"), "file:///d\u{e9}p/a.response");
}

#[test]
fn show_without_a_cached_response_warns() {
    let documents = store();
    for name in ["http.show", "http.showHeaders"] {
        let outcome = done(execute(&documents, name, &args("file:///doc.http", 1)));
        assert_eq!(outcome.reports.len(), 1);
        assert_eq!(outcome.reports[0].severity, Severity::Warning);
        assert_eq!(outcome.reports[0].text, "No cached response. Send the request first.");
        assert!(matches!(outcome.result, Ok(Reply::Nothing)));
    }
}

#[test]
fn show_reports_the_cached_response() {
    let mut documents = DocumentManager::new();
    documents.cache_response(
        "a.http",
        4,
        CachedResponse {
            status: 404,
            status_text: "Not Found".to_string(),
            headers: vec![("a".to_string(), "1".to_string()), ("b".to_string(), "2".to_string())],
            body: "gone".to_string(),
            duration_ms: 250,
        },
    );
    let outcome = show_response(&documents, &args("a.http", 4), false);
    assert_eq!(outcome.reports.len(), 1);
    assert_eq!(outcome.reports[0].severity, Severity::Info);
    assert_eq!(
        outcome.reports[0].text,
        "HTTP 404 Not Found\nDuration: 250ms\n\n--- Headers ---\na: 1\nb: 2\n\n--- Body ---\ngone"
    );
    assert!(matches!(
        outcome.result,
        Ok(Reply::Response { status: 404, ref body, duration_ms: 250 }) if body == "gone"
    ));
    let outcome = done(execute(&documents, "http.showHeaders", &args("a.http", 4)));
    assert_eq!(outcome.reports[0].severity, Severity::Info);
    assert_eq!(outcome.reports[0].text, "HTTP 404 Not Found\nDuration: 250ms\n\na: 1\nb: 2\n");
    assert!(matches!(
        outcome.result,
        Ok(Reply::Response { status: 404, ref body, duration_ms: 250 }) if body == "gone"
    ));
}

#[test]
fn a_response_stays_cached_when_the_document_changes() {
    let mut documents = store();
    let waiting = pending(send_request(&documents, &args("file:///doc.http", 1)));
    complete(&mut documents, waiting, Ok(response(200, "old", 1)));
    documents.update("file:///doc.http", "# nothing left\n".to_string());
    let outcome = show_response(&documents, &args("file:///doc.http", 1), false);
    assert!(matches!(outcome.result, Ok(Reply::Response { status: 200, .. })));
}

#[test]
fn reports_of_cached_responses() {
    let cached = CachedResponse {
        status: 204,
        status_text: "No Content".to_string(),
        headers: vec![],
        body: String::new(),
        duration_ms: 0,
    };
    assert_eq!(
        format_full(&cached),
        "HTTP 204 No Content\nDuration: 0ms\n\n--- Headers ---\n\n--- Body ---\n"
    );
    assert_eq!(format_headers_only(&cached), "HTTP 204 No Content\nDuration: 0ms\n\n");
}
