use http_lsp::document::{CachedResponse, DocumentManager};

fn response(status: u16, body: &str) -> CachedResponse {
    CachedResponse {
        status,
        status_text: "OK".to_string(),
        headers: vec![("content-type".to_string(), "text/plain".to_string())],
        body: body.to_string(),
        duration_ms: 12,
    }
}

#[test]
fn closing_a_document_drops_its_cached_responses() {
    let mut store = DocumentManager::new();
    store.open("a.http".to_string(), "GET http://a\n".to_string());
    store.cache_response("a.http", 3, response(200, "first"));
    assert!(store.get_cached_response("a.http", 3).is_some());
    store.close("a.http");
    assert!(store.get_cached_response("a.http", 3).is_none());
    assert!(store.get_content("a.http").is_none());
}

#[test]
fn closing_a_document_keeps_the_responses_of_others() {
    let mut store = DocumentManager::new();
    store.cache_response("a.http", 3, response(200, "a"));
    store.cache_response("b.http", 3, response(201, "b"));
    store.close("a.http");
    assert!(store.get_cached_response("a.http", 3).is_none());
    assert_eq!(store.get_cached_response("b.http", 3).unwrap().status, 201);
}

#[test]
fn the_later_response_replaces_the_earlier() {
    let mut store = DocumentManager::new();
    store.cache_response("a.http", 0, response(200, "first"));
    store.cache_response("a.http", 0, response(404, "second"));
    let cached = store.get_cached_response("a.http", 0).unwrap();
    assert_eq!(cached.status, 404);
    assert_eq!(cached.body, "second");
    assert!(store.get_cached_response("a.http", 1).is_none());
}

#[test]
fn update_of_an_unknown_document_creates_nothing() {
    let mut store = DocumentManager::new();
    store.update("a.http", "GET http://a\n".to_string());
    assert!(store.get_content("a.http").is_none());
    assert!(store.get_requests("a.http").is_empty());
}

#[test]
fn update_replaces_text_and_boundaries_together() {
    let mut store = DocumentManager::new();
    store.open("a.http".to_string(), "GET http://a\n".to_string());
    store.update("a.http", "# nothing\n\nPOST http://b\n".to_string());
    assert_eq!(store.get_content("a.http").unwrap(), "# nothing\n\nPOST http://b\n");
    let requests = store.get_requests("a.http");
    assert_eq!(requests.len(), 1);
    assert_eq!(requests[0].start_line, 2);
    assert_eq!(requests[0].method, "POST");
    assert_eq!(requests[0].url, "http://b");
}
