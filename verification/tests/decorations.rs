use http_lsp::code_actions;
use http_lsp::code_lens;
use http_lsp::commands::{Command, CommandLink};
use http_lsp::document::{CachedResponse, DocumentManager};
use http_lsp::hover;
use http_lsp::inlay_hints;

const URI: &str = "file:///doc.http";
const DOCUMENT: &str = "# notes\nGET http://example.com/a\nAccept: text/plain\n\n###\nDELETE http://example.com/b?x=1 HTTP/1.1\n";

fn store() -> DocumentManager {
    let mut documents = DocumentManager::new();
    documents.open(URI.to_string(), DOCUMENT.to_string());
    documents
}

fn assert_link(link: &CommandLink, title: &str, command: Command, line: u32) {
    assert_eq!(link.title, title);
    assert_eq!(link.command, command);
    assert_eq!(link.uri, URI);
    assert_eq!(link.line, line);
}

#[test]
fn every_request_has_four_lenses() {
    let lenses = code_lens::provide(&store(), URI);
    assert_eq!(lenses.len(), 8);
    let expected = [
        ("▶ Send", Command::Send),
        ("👁 Show", Command::Show),
        ("💾 Save", Command::SaveResponse),
        ("◉ Headers", Command::ShowHeaders),
    ];
    for (i, lens) in lenses.iter().enumerate() {
        let (line, end) = if i < 4 { (1, 3) } else { (5, 6) };
        assert_eq!(lens.line, line);
        assert_eq!(lens.end_character, end);
        assert_link(&lens.link, expected[i % 4].0, expected[i % 4].1, line);
    }
}

#[test]
fn a_document_that_is_not_open_has_no_decorations() {
    let documents = store();
    assert!(code_lens::provide(&documents, "file:///other.http").is_empty());
    assert!(inlay_hints::provide(&documents, "file:///other.http").is_empty());
    assert!(code_actions::provide(&documents, "file:///other.http", 1).is_empty());
    assert!(hover::provide(&documents, "file:///other.http", 1).is_none());
}

#[test]
fn the_request_under_the_cursor_has_four_actions() {
    let documents = store();
    for cursor in [1u32, 2] {
        let actions = code_actions::provide(&documents, URI, cursor);
        assert_eq!(actions.len(), 4);
        assert_eq!(actions[0].title, "▶ Send Request");
        assert_link(&actions[0].link, "Send", Command::Send, 1);
        assert_eq!(actions[1].title, "👁 Show Response");
        assert_link(&actions[1].link, "Show", Command::Show, 1);
        assert_eq!(actions[2].title, "💾 Save Response");
        assert_link(&actions[2].link, "Save", Command::SaveResponse, 1);
        assert_eq!(actions[3].title, "◉ Show Headers");
        assert_link(&actions[3].link, "Headers", Command::ShowHeaders, 1);
    }
    let actions = code_actions::provide(&documents, URI, 5);
    assert_eq!(actions.len(), 4);
    assert_link(&actions[0].link, "Send", Command::Send, 5);
}

#[test]
fn a_cursor_outside_every_request_has_no_actions() {
    let documents = store();
    for cursor in [0u32, 3, 4, 6, u32::MAX] {
        assert!(code_actions::provide(&documents, URI, cursor).is_empty(), "line {}", cursor);
    }
}

#[test]
fn every_request_has_a_hint_behind_its_request_line() {
    let hints = inlay_hints::provide(&store(), URI);
    assert_eq!(hints.len(), 2);
    assert_eq!((hints[0].line, hints[0].character), (1, 24));
    assert_eq!((hints[1].line, hints[1].character), (5, 31));
    for hint in &hints {
        assert!(hint.padding_left);
        let values: Vec<&str> = hint.parts.iter().map(|p| p.value.as_str()).collect();
        assert_eq!(
            values,
            vec!["  ", "▶ Send", " | ", "👁 Show", " | ", "💾 Save", " | ", "◉ Headers"]
        );
        let tooltips: Vec<Option<&str>> = hint.parts.iter().map(|p| p.tooltip.as_deref()).collect();
        assert_eq!(
            tooltips,
            vec![
                None,
                Some("Execute HTTP request"),
                None,
                Some("Show cached response"),
                None,
                Some("Save response to file"),
                None,
                Some("Show response headers only"),
            ]
        );
        for index in [0, 2, 4, 6] {
            assert!(hint.parts[index].link.is_none());
        }
        assert_link(hint.parts[1].link.as_ref().unwrap(), "Send", Command::Send, hint.line);
        assert_link(hint.parts[3].link.as_ref().unwrap(), "Show", Command::Show, hint.line);
        assert_link(hint.parts[5].link.as_ref().unwrap(), "Save", Command::SaveResponse, hint.line);
        assert_link(hint.parts[7].link.as_ref().unwrap(), "Headers", Command::ShowHeaders, hint.line);
    }
}

#[test]
fn the_card_of_a_request_links_the_four_commands() {
    let card = hover::provide(&store(), URI, 1).unwrap();
    assert_eq!(card.line, 1);
    assert_eq!(card.end_character, 24);
    let query = "%5B%22file%3A%2F%2F%2Fdoc.http%22%2C1%5D";
    assert_eq!(
        card.content,
        format!(
            "## GET http://example.com/a\n\n[▶ Send](command:http.send?{q}) | [👁 Show](command:http.show?{q}) | [💾 Save](command:http.saveResponse?{q}) | [◉ Headers](command:http.showHeaders?{q})",
            q = query
        )
    );
}

#[test]
fn the_card_tells_of_the_last_response() {
    let mut documents = store();
    documents.cache_response(
        URI,
        5,
        CachedResponse {
            status: 204,
            status_text: "No Content".to_string(),
            headers: vec![],
            body: String::new(),
            duration_ms: 31,
        },
    );
    let card = hover::provide(&documents, URI, 5).unwrap();
    assert_eq!(card.line, 5);
    assert_eq!(card.end_character, 31);
    let query = "%5B%22file%3A%2F%2F%2Fdoc.http%22%2C5%5D";
    assert_eq!(
        card.content,
        format!(
            "## DELETE http://example.com/b?x=1\n\n**Last Response:** 204 No Content (31ms)\n\n---\n\n[▶ Send](command:http.send?{q}) | [👁 Show](command:http.show?{q}) | [💾 Save](command:http.saveResponse?{q}) | [◉ Headers](command:http.showHeaders?{q})",
            q = query
        )
    );
    assert!(!hover::provide(&documents, URI, 1).unwrap().content.contains("Last Response"));
}

#[test]
fn only_the_request_line_has_a_card() {
    let documents = store();
    for line in [0u32, 2, 3, 4, 6] {
        assert!(hover::provide(&documents, URI, line).is_none(), "line {}", line);
    }
}

#[test]
fn identifiers_beyond_ascii_are_encoded_byte_by_byte() {
    let mut documents = DocumentManager::new();
    documents.open("d\u{e9} ~_-.x".to_string(), "GET u\n".to_string());
    let card = hover::provide(&documents, "d\u{e9} ~_-.x", 0).unwrap();
    assert!(card
        .content
        .contains("(command:http.send?%5B%22d%C3%A9%20~_-.x%22%2C0%5D)"));
}
