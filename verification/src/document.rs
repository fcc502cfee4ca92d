//! The document store and the response cache: two maps, one from a document's
//! identifier to its text, one from an identifier and the first line of a
//! request to the response that was last captured for it.

use crate::http_client::Response;
use crate::parser::{
    boundaries, boundaries_of, clone_requests, find_requests, Boundary, HttpRequest,
};
use crate::text::{clone_pairs, pairs};
use dashmap::DashMap;
use vstd::prelude::*;

verus! {

/// The response that was last captured for one request.
#[derive(Debug)]
pub struct CachedResponse {
    pub status: u16,
    pub status_text: String,
    pub headers: Vec<(String, String)>,
    pub body: String,
    pub duration_ms: u128,
}

impl View for CachedResponse {
    type V = Response;

    open spec fn view(&self) -> Response {
        Response {
            status: self.status as nat,
            status_text: self.status_text@,
            headers: pairs(self.headers@),
            body: self.body@,
            duration_ms: self.duration_ms as nat,
        }
    }
}

impl Clone for CachedResponse {
    fn clone(&self) -> (r: Self)
        ensures
            r@ == self@,
    {
        CachedResponse {
            status: self.status,
            status_text: self.status_text.clone(),
            headers: clone_pairs(&self.headers),
            body: self.body.clone(),
            duration_ms: self.duration_ms,
        }
    }
}

/// The text of a document together with its request boundaries. The
/// boundaries are always those of the text.
pub struct Document {
    content: String,
    requests: Vec<HttpRequest>,
}

impl View for Document {
    type V = Seq<char>;

    closed spec fn view(&self) -> Seq<char> {
        self.content@
    }
}

impl Document {
    #[verifier::type_invariant]
    spec fn derived(self) -> bool {
        boundaries(self.requests@) == boundaries_of(self.content@)
    }

    /// A document with the text `content`.
    pub fn new(content: String) -> (doc: Self)
        ensures
            doc@ == content@,
    {
        let requests = find_requests(content.as_str());
        Document { content, requests }
    }

    /// Replaces the text, and the boundaries with it.
    pub fn update(&mut self, content: String)
        ensures
            final(self)@ == content@,
    {
        let requests = find_requests(content.as_str());
        *self = Document { content, requests };
    }

    /// The request boundaries of the text.
    pub fn requests(&self) -> (r: Vec<HttpRequest>)
        ensures
            boundaries(r@) == boundaries_of(self@),
    {
        proof {
            use_type_invariant(self);
        }
        clone_requests(&self.requests)
    }

    /// The text.
    pub fn content(&self) -> (r: &str)
        ensures
            r@ == self@,
    {
        self.content.as_str()
    }

    /// Gives the text up.
    pub fn into_content(self) -> (r: String)
        ensures
            r@ == self@,
    {
        self.content
    }
}

impl Clone for Document {
    fn clone(&self) -> (r: Self)
        ensures
            r@ == self@,
    {
        proof {
            use_type_invariant(self);
        }
        Document { content: self.content.clone(), requests: clone_requests(&self.requests) }
    }
}

/// `dashmap::DashMap`, a hash map in shards. The library reaches it only
/// through the functions below. Those that change a map take it by `&mut`:
/// nothing else can reach the map between two calls, so what it holds is a
/// function of its value.
#[verifier::external_type_specification]
#[verifier::external_body]
#[verifier::reject_recursive_types(K)]
#[verifier::reject_recursive_types(V)]
#[verifier::reject_recursive_types(S)]
pub struct ExDashMap<K, V, S>(DashMap<K, V, S>);

/// What a map of documents holds: the text of each document, by identifier.
pub uninterp spec fn stored_documents(m: DashMap<String, Document>) -> Map<Seq<char>, Seq<char>>;

/// What a map of responses holds: the response of each request, by document
/// identifier and first line.
pub uninterp spec fn stored_responses(m: DashMap<(String, u32), CachedResponse>) -> Map<
    (Seq<char>, nat),
    Response,
>;

/// `DashMap::new` makes a map that holds nothing.
#[verifier::external_body]
fn new_documents() -> (m: DashMap<String, Document>)
    ensures
        stored_documents(m) == no_documents(),
{
    DashMap::new()
}

/// `DashMap::insert` puts the value under the key, in place of any value
/// that the key had.
#[verifier::external_body]
fn insert_document(m: &mut DashMap<String, Document>, uri: String, doc: Document)
    ensures
        stored_documents(*final(m)) == stored_documents(*old(m)).insert(uri@, doc@),
{
    m.insert(uri, doc);
}

/// `DashMap::contains_key` tells whether the key has a value.
#[verifier::external_body]
fn has_document(m: &DashMap<String, Document>, uri: &str) -> (r: bool)
    ensures
        r == stored_documents(*m).contains_key(uri@),
{
    m.contains_key(uri)
}

/// `DashMap::remove` takes the key and its value out of the map; a key
/// without a value leaves the map as it is.
#[verifier::external_body]
fn remove_document(m: &mut DashMap<String, Document>, uri: &str)
    ensures
        stored_documents(*final(m)) == stored_documents(*old(m)).remove(uri@),
{
    m.remove(uri);
}

/// `DashMap::get` finds the value of the key; the document comes back as a
/// copy.
#[verifier::external_body]
fn get_document(m: &DashMap<String, Document>, uri: &str) -> (r: Option<Document>)
    ensures
        r is Some <==> stored_documents(*m).contains_key(uri@),
        r matches Some(doc) ==> doc@ == stored_documents(*m)[uri@],
{
    m.get(uri).map(|doc| doc.value().clone())
}

/// `DashMap::new` makes a map that holds nothing.
#[verifier::external_body]
fn new_responses() -> (m: DashMap<(String, u32), CachedResponse>)
    ensures
        stored_responses(m) == no_responses(),
{
    DashMap::new()
}

/// `DashMap::insert` puts the value under the key, in place of any value
/// that the key had.
#[verifier::external_body]
fn insert_response(
    m: &mut DashMap<(String, u32), CachedResponse>,
    uri: String,
    line: u32,
    response: CachedResponse,
)
    ensures
        stored_responses(*final(m)) == stored_responses(*old(m)).insert(
            (uri@, line as nat),
            response@,
        ),
{
    m.insert((uri, line), response);
}

/// `DashMap::get` finds the value of the key; the response comes back as a
/// copy.
#[verifier::external_body]
fn get_response(m: &DashMap<(String, u32), CachedResponse>, uri: String, line: u32) -> (r: Option<
    CachedResponse,
>)
    ensures
        r is Some <==> stored_responses(*m).contains_key((uri@, line as nat)),
        r matches Some(response) ==> response@ == stored_responses(*m)[(uri@, line as nat)],
{
    m.get(&(uri, line)).map(|response| response.value().clone())
}

/// Tells whether a response key belongs to another document than `uri`.
fn of_other_document(key: &(String, u32), uri: &String) -> (r: bool)
    ensures
        r == (key.0@ != uri@),
{
    !(key.0 == *uri)
}

/// `DashMap::retain` keeps the entries for which the closure returns true
/// and takes the others out.
#[verifier::external_body]
fn retain_other_documents(m: &mut DashMap<(String, u32), CachedResponse>, uri: &String)
    ensures
        stored_responses(*final(m)) == without_document(stored_responses(*old(m)), uri@),
{
    m.retain(|key, _| of_other_document(key, uri));
}

/// The store that holds no document.
pub open spec fn no_documents() -> Map<Seq<char>, Seq<char>> {
    Map::empty()
}

/// The cache that holds no response.
pub open spec fn no_responses() -> Map<(Seq<char>, nat), Response> {
    Map::empty()
}

/// The responses that stay when those of document `uri` are dropped.
pub open spec fn without_document(
    responses: Map<(Seq<char>, nat), Response>,
    uri: Seq<char>,
) -> Map<(Seq<char>, nat), Response> {
    responses.restrict(Set::new(|key: (Seq<char>, nat)| key.0 != uri))
}

/// The boundaries of document `uri` in a store: none for an unknown document.
pub open spec fn requests_in(documents: Map<Seq<char>, Seq<char>>, uri: Seq<char>) -> Seq<
    Boundary,
> {
    if documents.contains_key(uri) {
        boundaries_of(documents[uri])
    } else {
        Seq::empty()
    }
}

/// The store after an update of document `uri`: an unknown document is not
/// created.
pub open spec fn after_update(
    documents: Map<Seq<char>, Seq<char>>,
    uri: Seq<char>,
    content: Seq<char>,
) -> Map<Seq<char>, Seq<char>> {
    if documents.contains_key(uri) {
        documents.insert(uri, content)
    } else {
        documents
    }
}

/// The document store and the response cache.
pub struct DocumentManager {
    documents: DashMap<String, Document>,
    responses: DashMap<(String, u32), CachedResponse>,
}

impl DocumentManager {
    /// The text of each open document, by identifier.
    pub closed spec fn documents(&self) -> Map<Seq<char>, Seq<char>> {
        stored_documents(self.documents)
    }

    /// The cached response of each request, by document identifier and first
    /// line of the request.
    pub closed spec fn responses(&self) -> Map<(Seq<char>, nat), Response> {
        stored_responses(self.responses)
    }

    /// A store without documents and a cache without responses.
    pub fn new() -> (m: Self)
        ensures
            m.documents() == no_documents(),
            m.responses() == no_responses(),
    {
        DocumentManager { documents: new_documents(), responses: new_responses() }
    }

    /// Opens document `uri` with the text `content`; a document that is open
    /// already is replaced.
    pub fn open(&mut self, uri: String, content: String)
        ensures
            final(self).documents() == old(self).documents().insert(uri@, content@),
            final(self).responses() == old(self).responses(),
    {
        insert_document(&mut self.documents, uri, Document::new(content));
    }

    /// Replaces the text of document `uri`. Does nothing for a document that
    /// is not open.
    pub fn update(&mut self, uri: &str, content: String)
        ensures
            final(self).documents() == after_update(old(self).documents(), uri@, content@),
            final(self).responses() == old(self).responses(),
    {
        if has_document(&self.documents, uri) {
            insert_document(&mut self.documents, uri.to_owned(), Document::new(content));
        }
    }

    /// Closes document `uri` and drops every response cached for it.
    pub fn close(&mut self, uri: &str)
        ensures
            final(self).documents() == old(self).documents().remove(uri@),
            final(self).responses() == without_document(old(self).responses(), uri@),
    {
        remove_document(&mut self.documents, uri);
        let owned = uri.to_owned();
        retain_other_documents(&mut self.responses, &owned);
    }

    /// The request boundaries of document `uri`; none for a document that is
    /// not open.
    pub fn get_requests(&self, uri: &str) -> (r: Vec<HttpRequest>)
        ensures
            boundaries(r@) == requests_in(self.documents(), uri@),
    {
        match get_document(&self.documents, uri) {
            Some(doc) => doc.requests(),
            None => {
                let none: Vec<HttpRequest> = Vec::new();
                none
            },
        }
    }

    /// The text of document `uri`, if it is open.
    pub fn get_content(&self, uri: &str) -> (r: Option<String>)
        ensures
            r is Some <==> self.documents().contains_key(uri@),
            r matches Some(content) ==> content@ == self.documents()[uri@],
    {
        match get_document(&self.documents, uri) {
            Some(doc) => Some(doc.into_content()),
            None => None,
        }
    }

    /// Caches `response` for the request at `line` of document `uri`, in
    /// place of any response cached for it before.
    pub fn cache_response(&mut self, uri: &str, line: u32, response: CachedResponse)
        ensures
            final(self).responses() == old(self).responses().insert(
                (uri@, line as nat),
                response@,
            ),
            final(self).documents() == old(self).documents(),
    {
        insert_response(&mut self.responses, uri.to_owned(), line, response);
    }

    /// The response cached for the request at `line` of document `uri`.
    pub fn get_cached_response(&self, uri: &str, line: u32) -> (r: Option<CachedResponse>)
        ensures
            r is Some <==> self.responses().contains_key((uri@, line as nat)),
            r matches Some(response) ==> response@ == self.responses()[(uri@, line as nat)],
    {
        get_response(&self.responses, uri.to_owned(), line)
    }
}

impl Default for DocumentManager {
    fn default() -> (m: Self)
        ensures
            m.documents() == no_documents(),
            m.responses() == no_responses(),
    {
        DocumentManager::new()
    }
}

/// A response that is cached for a document is gone once the document is
/// closed.
pub proof fn lemma_close_drops_cached(
    responses: Map<(Seq<char>, nat), Response>,
    uri: Seq<char>,
    line: nat,
    response: Response,
)
    ensures
        !without_document(responses.insert((uri, line), response), uri).contains_key((uri, line)),
{
}

/// Closing a document leaves the responses of every other document as they
/// were.
pub proof fn lemma_close_keeps_others(
    responses: Map<(Seq<char>, nat), Response>,
    uri: Seq<char>,
    other: Seq<char>,
    line: nat,
)
    requires
        other != uri,
    ensures
        without_document(responses, uri).contains_key((other, line)) == responses.contains_key(
            (other, line),
        ),
        responses.contains_key((other, line)) ==> without_document(responses, uri)[(other, line)]
            == responses[(other, line)],
{
}

/// Of two responses cached one after the other for the same request, the
/// cache holds the second, and nothing else has changed.
pub proof fn lemma_last_put_wins(
    responses: Map<(Seq<char>, nat), Response>,
    uri: Seq<char>,
    line: nat,
    first: Response,
    second: Response,
)
    ensures
        responses.insert((uri, line), first).insert((uri, line), second) == responses.insert(
            (uri, line),
            second,
        ),
        responses.insert((uri, line), first).insert((uri, line), second)[(uri, line)] == second,
{
}

} // verus!
