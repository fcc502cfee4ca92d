//! The execution adapter's part that needs no network: responses and their
//! reports, and the checks that a request passes before it is sent.

use crate::parser::{FullHttpRequest, FullRequest};
use crate::text::{
    bytes_to_string, chars_of_bytes, clone_pairs, decimal, lemma_pairs_push, pairs, push_decimal,
    spells, to_chars,
};
use reqwest::header::{HeaderName, HeaderValue};
use reqwest::StatusCode;
use vstd::prelude::*;
use vstd::string::{StringExecFns, StringSliceAdditionalSpecFns};
use vstd::utf8::encode_utf8;

verus! {

/// The model of a captured response.
pub struct Response {
    pub status: nat,
    pub status_text: Seq<char>,
    pub headers: Seq<(Seq<char>, Seq<char>)>,
    pub body: Seq<char>,
    pub duration_ms: nat,
}

/// The two lines that open every report: status and duration, then an empty
/// line.
pub open spec fn status_lines(r: Response) -> Seq<char> {
    "HTTP "@ + decimal(r.status) + " "@ + r.status_text + "\n"@ + "Duration: "@ + decimal(
        r.duration_ms,
    ) + "ms\n\n"@
}

/// One line `name: value` for each header, in order.
pub open spec fn header_lines(headers: Seq<(Seq<char>, Seq<char>)>) -> Seq<char>
    decreases headers.len(),
{
    if headers.len() == 0 {
        Seq::empty()
    } else {
        header_lines(headers.drop_last()) + headers.last().0 + ": "@ + headers.last().1 + "\n"@
    }
}

/// The report of a response with its headers and body.
pub open spec fn full_report(r: Response) -> Seq<char> {
    status_lines(r) + "--- Headers ---\n"@ + header_lines(r.headers) + "\n--- Body ---\n"@
        + r.body
}

/// The report of a response without its body.
pub open spec fn headers_report(r: Response) -> Seq<char> {
    status_lines(r) + header_lines(r.headers)
}

/// A response as the execution adapter captured it.
#[derive(Debug)]
pub struct HttpResponse {
    pub status: u16,
    pub status_text: String,
    pub headers: Vec<(String, String)>,
    pub body: String,
    pub duration_ms: u128,
}

impl View for HttpResponse {
    type V = Response;

    open spec fn view(&self) -> Response {
        Response {
            status: self.status as nat,
            status_text: self.status_text@,
            headers: pairs(self.headers@),
            body: self.body@,
            duration_ms: self.duration_ms as nat,
        }
    }
}

/// Appends the status and duration lines of a report to `out`.
pub fn push_status_lines(out: &mut String, status: u16, status_text: &str, duration_ms: u128)
    ensures
        final(out)@ == old(out)@ + "HTTP "@ + decimal(status as nat) + " "@ + status_text@ + "\n"@
            + "Duration: "@ + decimal(duration_ms as nat) + "ms\n\n"@,
{
    out.append("HTTP ");
    push_decimal(out, status as u128);
    out.append(" ");
    out.append(status_text);
    out.append("\n");
    out.append("Duration: ");
    push_decimal(out, duration_ms);
    out.append("ms\n\n");
}

/// Appends one line for each header to `out`.
pub fn push_header_lines(out: &mut String, headers: &Vec<(String, String)>)
    ensures
        final(out)@ == old(out)@ + header_lines(pairs(headers@)),
{
    let ghost all = pairs(headers@);
    let mut i: usize = 0;
    while i < headers.len()
        invariant
            i <= headers.len(),
            all == pairs(headers@),
            out@ == old(out)@ + header_lines(all.take(i as int)),
        decreases headers.len() - i,
    {
        out.append(headers[i].0.as_str());
        out.append(": ");
        out.append(headers[i].1.as_str());
        out.append("\n");
        assert(all.take(i + 1).drop_last() == all.take(i as int));
        i += 1;
    }
    assert(all.take(headers.len() as int) == all);
}

impl HttpResponse {
    /// The report of the response with its headers and body.
    pub fn format_full(&self) -> (out: String)
        ensures
            out@ == full_report(self@),
    {
        let mut out = String::new();
        push_status_lines(&mut out, self.status, self.status_text.as_str(), self.duration_ms);
        out.append("--- Headers ---\n");
        push_header_lines(&mut out, &self.headers);
        out.append("\n--- Body ---\n");
        out.append(self.body.as_str());
        out
    }

    /// The report of the response without its body.
    pub fn format_headers_only(&self) -> (out: String)
        ensures
            out@ == headers_report(self@),
    {
        let mut out = String::new();
        push_status_lines(&mut out, self.status, self.status_text.as_str(), self.duration_ms);
        push_header_lines(&mut out, &self.headers);
        out
    }
}

impl Clone for HttpResponse {
    fn clone(&self) -> (r: Self)
        ensures
            r@ == self@,
    {
        HttpResponse {
            status: self.status,
            status_text: self.status_text.clone(),
            headers: clone_pairs(&self.headers),
            body: self.body.clone(),
            duration_ms: self.duration_ms,
        }
    }
}

/// The methods that the adapter sends.
#[derive(Debug, Clone, Copy, PartialEq, Eq, Structural)]
pub enum Method {
    Get,
    Post,
    Put,
    Delete,
    Patch,
    Head,
    Options,
}

/// The method that an upper-case name stands for.
pub open spec fn method_named(upper: Seq<char>) -> Option<Method> {
    if upper == "GET"@ {
        Some(Method::Get)
    } else if upper == "POST"@ {
        Some(Method::Post)
    } else if upper == "PUT"@ {
        Some(Method::Put)
    } else if upper == "DELETE"@ {
        Some(Method::Delete)
    } else if upper == "PATCH"@ {
        Some(Method::Patch)
    } else if upper == "HEAD"@ {
        Some(Method::Head)
    } else if upper == "OPTIONS"@ {
        Some(Method::Options)
    } else {
        None
    }
}

impl Method {
    /// The method of an upper-case name, if it is one that the adapter sends.
    pub fn from_upper(upper: &str) -> (r: Option<Method>)
        ensures
            r == method_named(upper@),
    {
        let chars = to_chars(upper);
        if spells(&chars, "GET") {
            Some(Method::Get)
        } else if spells(&chars, "POST") {
            Some(Method::Post)
        } else if spells(&chars, "PUT") {
            Some(Method::Put)
        } else if spells(&chars, "DELETE") {
            Some(Method::Delete)
        } else if spells(&chars, "PATCH") {
            Some(Method::Patch)
        } else if spells(&chars, "HEAD") {
            Some(Method::Head)
        } else if spells(&chars, "OPTIONS") {
            Some(Method::Options)
        } else {
            None
        }
    }

    /// The upper-case name of the method.
    pub fn name(&self) -> (r: &'static str)
        ensures
            method_named(r@) == Some(*self),
    {
        proof {
            lemma_method_names_differ();
        }
        match self {
            Method::Get => "GET",
            Method::Post => "POST",
            Method::Put => "PUT",
            Method::Delete => "DELETE",
            Method::Patch => "PATCH",
            Method::Head => "HEAD",
            Method::Options => "OPTIONS",
        }
    }
}

/// No two method names are the same text.
pub proof fn lemma_method_names_differ()
    ensures
        method_named("GET"@) == Some(Method::Get),
        method_named("POST"@) == Some(Method::Post),
        method_named("PUT"@) == Some(Method::Put),
        method_named("DELETE"@) == Some(Method::Delete),
        method_named("PATCH"@) == Some(Method::Patch),
        method_named("HEAD"@) == Some(Method::Head),
        method_named("OPTIONS"@) == Some(Method::Options),
{
    reveal_strlit("GET");
    reveal_strlit("POST");
    reveal_strlit("PUT");
    reveal_strlit("DELETE");
    reveal_strlit("PATCH");
    reveal_strlit("HEAD");
    reveal_strlit("OPTIONS");
    assert("GET"@.len() == 3 && "GET"@[0] == 'G');
    assert("POST"@.len() == 4 && "POST"@[0] == 'P');
    assert("PUT"@.len() == 3 && "PUT"@[0] == 'P');
    assert("DELETE"@.len() == 6);
    assert("PATCH"@.len() == 5);
    assert("HEAD"@.len() == 4 && "HEAD"@[0] == 'H');
    assert("OPTIONS"@.len() == 7);
}

/// The bytes that a header name may hold: letters, digits and
/// ``!#$%&'*+-.^_`|~``.
pub open spec fn is_name_byte(b: u8) -> bool {
    ||| 0x30 <= b <= 0x39
    ||| 0x41 <= b <= 0x5A
    ||| 0x61 <= b <= 0x7A
    ||| b == 0x21
    ||| 0x23 <= b <= 0x27
    ||| b == 0x2A
    ||| b == 0x2B
    ||| b == 0x2D
    ||| b == 0x2E
    ||| b == 0x5E
    ||| b == 0x5F
    ||| b == 0x60
    ||| b == 0x7C
    ||| b == 0x7E
}

/// A header name is accepted when it holds between 1 and 65535 bytes, each
/// of them a name byte.
pub open spec fn header_name_accepted(bytes: Seq<u8>) -> bool {
    &&& 1 <= bytes.len() <= 65535
    &&& forall|i: int| 0 <= i < bytes.len() ==> is_name_byte(#[trigger] bytes[i])
}

/// The bytes that a header value may hold: the tab and everything from the
/// space on but the delete character.
pub open spec fn is_value_byte(b: u8) -> bool {
    (b >= 32 && b != 127) || b == 9
}

/// A header value is accepted when each of its bytes is a value byte.
pub open spec fn header_value_accepted(bytes: Seq<u8>) -> bool {
    forall|i: int| 0 <= i < bytes.len() ==> is_value_byte(#[trigger] bytes[i])
}

/// How a refused header name is described.
pub open spec fn name_refusal() -> Seq<char> {
    "invalid HTTP header name"@
}

/// How a refused header value is described.
pub open spec fn value_refusal() -> Seq<char> {
    "failed to parse header value"@
}

/// What `str::to_uppercase` makes of a text.
pub uninterp spec fn uppercase_of(s: Seq<char>) -> Seq<char>;

/// The reason phrase that `StatusCode::canonical_reason` has for a status.
pub uninterp spec fn canonical_reason_of(status: u16) -> Option<Seq<char>>;

/// The text of an optional string.
pub open spec fn text_of(s: Option<String>) -> Option<Seq<char>> {
    match s {
        Some(s) => Some(s@),
        None => None,
    }
}

/// `str::to_uppercase` gives the upper-case equivalent of a text, by the
/// Unicode rules, as a new string. It depends on the text alone; nothing
/// more is claimed of it.
#[verifier::external_body]
fn uppercase(s: &str) -> (r: String)
    ensures
        r@ == uppercase_of(s@),
{
    s.to_uppercase()
}

/// `HeaderName::from_bytes` makes a header name of the UTF-8 bytes of
/// `name`. It succeeds on 1 to 65535 bytes that are letters, digits or one
/// of ``!#$%&'*+-.^_`|~``, and on nothing else. Its error describes itself
/// by one fixed text, which comes back in place of the error.
#[verifier::external_body]
fn check_header_name(name: &str) -> (r: Result<(), String>)
    ensures
        r is Ok <==> header_name_accepted(name.spec_bytes()),
        r matches Err(reason) ==> reason@ == name_refusal(),
{
    match HeaderName::from_bytes(name.as_bytes()) {
        Ok(_) => Ok(()),
        Err(e) => Err(e.to_string()),
    }
}

/// `HeaderValue::from_str` makes a header value of `value`. It succeeds
/// where every byte of the UTF-8 form is a tab or at least 32 and not 127,
/// and on nothing else. Its error describes itself by one fixed text, which
/// comes back in place of the error.
#[verifier::external_body]
fn check_header_value(value: &str) -> (r: Result<(), String>)
    ensures
        r is Ok <==> header_value_accepted(value.spec_bytes()),
        r matches Err(reason) ==> reason@ == value_refusal(),
{
    match HeaderValue::from_str(value) {
        Ok(_) => Ok(()),
        Err(e) => Err(e.to_string()),
    }
}

/// `StatusCode::canonical_reason` gives the standard reason phrase of a
/// status code, if it has one. `StatusCode::from_u16` makes the code; a
/// number that is no status code has no phrase. The phrase depends on the
/// number alone; nothing more is claimed of it.
#[verifier::external_body]
fn canonical_reason(status: u16) -> (r: Option<String>)
    ensures
        text_of(r) == canonical_reason_of(status),
{
    match StatusCode::from_u16(status) {
        Ok(code) => code.canonical_reason().map(|phrase| phrase.to_string()),
        Err(_) => None,
    }
}

/// The model of a request that passed the checks.
pub struct Prepared {
    pub method: Method,
    pub url: Seq<char>,
    pub headers: Seq<(Seq<char>, Seq<char>)>,
    pub body: Option<Seq<char>>,
}

/// The model of a failed execution.
pub enum Failure {
    /// The method, in upper case, is not one that the adapter sends.
    UnsupportedMethod(Seq<char>),
    /// The name of the header is refused, for the reason given.
    HeaderName { name: Seq<char>, reason: Seq<char> },
    /// The value of the header with this name is refused, for the reason
    /// given.
    HeaderValue { name: Seq<char>, reason: Seq<char> },
    /// The transport failed or timed out, with this message.
    Transport(Seq<char>),
}

/// Tells whether name and value of a header are accepted.
pub open spec fn header_accepted(header: (Seq<char>, Seq<char>)) -> bool {
    header_name_accepted(encode_utf8(header.0)) && header_value_accepted(encode_utf8(header.1))
}

/// Index of the first header at or after `from` that is not accepted, or the
/// number of headers.
pub open spec fn first_refused(headers: Seq<(Seq<char>, Seq<char>)>, from: int) -> int
    decreases headers.len() - from,
{
    if 0 <= from < headers.len() && header_accepted(headers[from]) {
        first_refused(headers, from + 1)
    } else {
        from
    }
}

/// What the checks make of a request whose method is `upper` in upper case:
/// the method must be one of the seven, and every header must be accepted.
/// The first header that is not decides the failure, its name before its
/// value.
pub open spec fn checked(request: FullRequest, upper: Seq<char>) -> Result<Prepared, Failure> {
    match method_named(upper) {
        None => Err(Failure::UnsupportedMethod(upper)),
        Some(method) => {
            let bad = first_refused(request.headers, 0);
            if bad < request.headers.len() {
                if header_name_accepted(encode_utf8(request.headers[bad].0)) {
                    Err(
                        Failure::HeaderValue {
                            name: request.headers[bad].0,
                            reason: value_refusal(),
                        },
                    )
                } else {
                    Err(
                        Failure::HeaderName {
                            name: request.headers[bad].0,
                            reason: name_refusal(),
                        },
                    )
                }
            } else {
                Ok(
                    Prepared {
                        method,
                        url: request.url,
                        headers: request.headers,
                        body: request.body,
                    },
                )
            }
        },
    }
}

/// Why a request was not executed, or failed in execution.
#[derive(Debug)]
pub enum RequestError {
    /// The method, here in upper case, is not one that the adapter sends.
    UnsupportedMethod { method: String },
    /// A header name was refused; `reason` is the description of the refusal.
    InvalidHeaderName { name: String, reason: String },
    /// A header value was refused; `reason` is the description of the refusal.
    InvalidHeaderValue { name: String, reason: String },
    /// The transport failed or timed out.
    Transport { message: String },
}

impl View for RequestError {
    type V = Failure;

    open spec fn view(&self) -> Failure {
        match self {
            RequestError::UnsupportedMethod { method } => Failure::UnsupportedMethod(method@),
            RequestError::InvalidHeaderName { name, reason } => Failure::HeaderName {
                name: name@,
                reason: reason@,
            },
            RequestError::InvalidHeaderValue { name, reason } => Failure::HeaderValue {
                name: name@,
                reason: reason@,
            },
            RequestError::Transport { message } => Failure::Transport(message@),
        }
    }
}

impl Failure {
    /// A failure of the checks that come before any network activity.
    pub open spec fn is_validation(self) -> bool {
        !(self is Transport)
    }

    /// The message of the failure.
    pub open spec fn message(self) -> Seq<char> {
        match self {
            Failure::UnsupportedMethod(method) => "Unsupported HTTP method: "@ + method,
            Failure::HeaderName { name, reason } => "Invalid header name '"@ + name + "': "@
                + reason,
            Failure::HeaderValue { name, reason } => "Invalid header value for '"@ + name + "': "@
                + reason,
            Failure::Transport(message) => message,
        }
    }
}

impl RequestError {
    /// The message of the error.
    pub fn message(&self) -> (out: String)
        ensures
            out@ == self@.message(),
    {
        let mut out = String::new();
        match self {
            RequestError::UnsupportedMethod { method } => {
                out.append("Unsupported HTTP method: ");
                out.append(method.as_str());
            },
            RequestError::InvalidHeaderName { name, reason } => {
                out.append("Invalid header name '");
                out.append(name.as_str());
                out.append("': ");
                out.append(reason.as_str());
            },
            RequestError::InvalidHeaderValue { name, reason } => {
                out.append("Invalid header value for '");
                out.append(name.as_str());
                out.append("': ");
                out.append(reason.as_str());
            },
            RequestError::Transport { message } => {
                out.append(message.as_str());
            },
        }
        out
    }

    /// Tells whether the error came from the checks before any network
    /// activity.
    pub fn is_validation(&self) -> (r: bool)
        ensures
            r == self@.is_validation(),
    {
        match self {
            RequestError::Transport { .. } => false,
            _ => true,
        }
    }
}

/// A request that passed the checks: its method is one of the seven and each
/// of its headers is accepted.
#[derive(Debug)]
pub struct PreparedRequest {
    method: Method,
    url: String,
    headers: Vec<(String, String)>,
    body: Option<String>,
}

impl View for PreparedRequest {
    type V = Prepared;

    closed spec fn view(&self) -> Prepared {
        Prepared {
            method: self.method,
            url: self.url@,
            headers: pairs(self.headers@),
            body: text_of(self.body),
        }
    }
}

impl PreparedRequest {
    #[verifier::type_invariant]
    spec fn accepted(self) -> bool {
        forall|i: int|
            0 <= i < self.headers.len() ==> header_accepted(#[trigger] pairs(self.headers@)[i])
    }

    /// The method to send.
    pub fn method(&self) -> (r: Method)
        ensures
            r == self@.method,
    {
        self.method
    }

    /// The target of the request.
    pub fn url(&self) -> (r: &str)
        ensures
            r@ == self@.url,
    {
        self.url.as_str()
    }

    /// The headers, in the order of the request; each of them is accepted.
    pub fn headers(&self) -> (r: &Vec<(String, String)>)
        ensures
            pairs(r@) == self@.headers,
            forall|i: int| 0 <= i < r.len() ==> header_accepted(#[trigger] pairs(r@)[i]),
    {
        proof {
            use_type_invariant(self);
        }
        &self.headers
    }

    /// The body, if the request has one.
    pub fn body(&self) -> (r: Option<&str>)
        ensures
            r is Some <==> self@.body is Some,
            r matches Some(text) ==> text@ == self@.body->0,
    {
        match &self.body {
            Some(text) => Some(text.as_str()),
            None => None,
        }
    }
}

/// The models of the two ways in which the checks end.
pub open spec fn outcome(r: Result<PreparedRequest, RequestError>) -> Result<Prepared, Failure> {
    match r {
        Ok(prepared) => Ok(prepared@),
        Err(error) => Err(error@),
    }
}

/// Checks a request whose method is `upper` in upper case.
pub fn prepare_with_method(request: &FullHttpRequest, upper: &str) -> (r: Result<
    PreparedRequest,
    RequestError,
>)
    ensures
        outcome(r) == checked(request@, upper@),
{
    let method = match Method::from_upper(upper) {
        Some(method) => method,
        None => {
            return Err(RequestError::UnsupportedMethod { method: upper.to_owned() });
        },
    };
    let ghost all = request@.headers;
    let mut i: usize = 0;
    while i < request.headers.len()
        invariant
            i <= request.headers.len(),
            all == pairs(request.headers@),
            all == request@.headers,
            method_named(upper@) == Some(method),
            first_refused(all, 0) == first_refused(all, i as int),
            forall|j: int| 0 <= j < i ==> header_accepted(#[trigger] all[j]),
        decreases request.headers.len() - i,
    {
        let name = request.headers[i].0.as_str();
        let value = request.headers[i].1.as_str();
        match check_header_name(name) {
            Ok(_) => {},
            Err(reason) => {
                return Err(RequestError::InvalidHeaderName { name: name.to_owned(), reason });
            },
        }
        match check_header_value(value) {
            Ok(_) => {},
            Err(reason) => {
                return Err(RequestError::InvalidHeaderValue { name: name.to_owned(), reason });
            },
        }
        i += 1;
    }
    let headers = clone_pairs(&request.headers);
    let body = match &request.body {
        Some(text) => Some(text.clone()),
        None => None,
    };
    Ok(PreparedRequest { method, url: request.url.clone(), headers, body })
}

/// Checks a request before it is sent: its method, whatever its case, must be
/// one of the seven, and each header must be accepted.
pub fn prepare_request(request: &FullHttpRequest) -> (r: Result<PreparedRequest, RequestError>)
    ensures
        outcome(r) == checked(request@, uppercase_of(request.method@)),
{
    let upper = uppercase(request.method.as_str());
    prepare_with_method(request, upper.as_str())
}

/// The bytes that read as text in a received header value: the tab and the
/// printable ASCII characters.
pub open spec fn is_text_byte(b: u8) -> bool {
    (32 <= b < 127) || b == 9
}

/// A received header value as text: the characters of its bytes where each
/// byte reads as text, else the empty text.
pub open spec fn header_text(bytes: Seq<u8>) -> Seq<char> {
    if forall|i: int| 0 <= i < bytes.len() ==> is_text_byte(#[trigger] bytes[i]) {
        chars_of_bytes(bytes)
    } else {
        Seq::empty()
    }
}

/// Received headers with their values as text.
pub open spec fn received_headers(headers: Seq<(String, Vec<u8>)>) -> Seq<(Seq<char>, Seq<char>)> {
    Seq::new(headers.len(), |i: int| (headers[i].0@, header_text(headers[i].1@)))
}

/// Reads a received header value as text.
pub fn read_header_value(bytes: &Vec<u8>) -> (r: String)
    ensures
        r@ == header_text(bytes@),
{
    let mut i: usize = 0;
    while i < bytes.len()
        invariant
            i <= bytes.len(),
            forall|j: int| 0 <= j < i ==> is_text_byte(#[trigger] bytes@[j]),
        decreases bytes.len() - i,
    {
        let b = bytes[i];
        if !((32 <= b && b < 127) || b == 9) {
            return String::new();
        }
        i += 1;
    }
    bytes_to_string(bytes)
}

/// Reads the values of received headers as text.
pub fn read_headers(headers: &Vec<(String, Vec<u8>)>) -> (r: Vec<(String, String)>)
    ensures
        pairs(r@) == received_headers(headers@),
{
    let mut out: Vec<(String, String)> = Vec::new();
    let mut i: usize = 0;
    while i < headers.len()
        invariant
            i <= headers.len(),
            pairs(out@) == received_headers(headers@).take(i as int),
        decreases headers.len() - i,
    {
        let name = headers[i].0.clone();
        let value = read_header_value(&headers[i].1);
        proof {
            lemma_pairs_push(out@, (name, value));
            assert(received_headers(headers@).take(i + 1) == received_headers(headers@).take(
                i as int,
            ).push(received_headers(headers@)[i as int]));
        }
        out.push((name, value));
        i += 1;
    }
    assert(received_headers(headers@).take(headers.len() as int) == received_headers(headers@));
    out
}

/// The reason phrase of a response: the standard one, or `Unknown`.
pub open spec fn reason_or_unknown(reason: Option<Seq<char>>) -> Seq<char> {
    match reason {
        Some(text) => text,
        None => "Unknown"@,
    }
}

impl HttpResponse {
    /// The response with the given parts, and with `reason` as its status
    /// text, or `Unknown` where there is none.
    pub fn with_reason(
        status: u16,
        reason: Option<String>,
        headers: Vec<(String, String)>,
        body: String,
        duration_ms: u128,
    ) -> (r: Self)
        ensures
            r@ == (Response {
                status: status as nat,
                status_text: reason_or_unknown(text_of(reason)),
                headers: pairs(headers@),
                body: body@,
                duration_ms: duration_ms as nat,
            }),
    {
        let status_text = match reason {
            Some(text) => text,
            None => "Unknown".to_owned(),
        };
        HttpResponse { status, status_text, headers, body, duration_ms }
    }

    /// The response with the given parts as they were received; its status
    /// text is the standard reason phrase of the status, or `Unknown`, and
    /// each header value is read as text.
    pub fn capture(
        status: u16,
        headers: Vec<(String, Vec<u8>)>,
        body: String,
        duration_ms: u128,
    ) -> (r: Self)
        ensures
            r@ == (Response {
                status: status as nat,
                status_text: reason_or_unknown(canonical_reason_of(status)),
                headers: received_headers(headers@),
                body: body@,
                duration_ms: duration_ms as nat,
            }),
    {
        let read = read_headers(&headers);
        HttpResponse::with_reason(status, canonical_reason(status), read, body, duration_ms)
    }
}

} // verus!
