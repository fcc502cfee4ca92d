//! The card that shows over a request line: the request, the last response
//! if one is cached, and a link for each command.

use crate::document::{requests_in, DocumentManager};
use crate::http_client::Response;
use crate::inlay_hints::{end_of_request_line, request_line_end};
use crate::parser::{boundaries, Boundary, HttpRequest};
use crate::text::{decimal, push_decimal};
use vstd::prelude::*;
use vstd::string::{StringExecFns, StringSliceAdditionalSpecFns};
use vstd::utf8::encode_utf8;

verus! {

/// A card over a request line: its text in Markdown, and the span of the
/// request line that it belongs to.
#[derive(Debug)]
pub struct Hover {
    pub content: String,
    pub line: u32,
    pub end_character: u32,
}

/// The model of a card.
pub struct Card {
    pub content: Seq<char>,
    pub line: nat,
    pub end_character: nat,
}

impl View for Hover {
    type V = Card;

    open spec fn view(&self) -> Card {
        Card {
            content: self.content@,
            line: self.line as nat,
            end_character: self.end_character as nat,
        }
    }
}

/// The bytes that stay as they are in a percent-encoded text: ASCII letters,
/// digits, and `-`, `.`, `_`, `~`.
pub open spec fn is_unreserved(b: u8) -> bool {
    ||| 0x30 <= b <= 0x39
    ||| 0x41 <= b <= 0x5A
    ||| 0x61 <= b <= 0x7A
    ||| b == 0x2D
    ||| b == 0x2E
    ||| b == 0x5F
    ||| b == 0x7E
}

/// The upper-case hexadecimal digit of a number below 16.
pub open spec fn hex_digit(d: int) -> char {
    if d < 10 {
        (0x30 + d) as char
    } else {
        (0x41 + d - 10) as char
    }
}

/// The percent-encoded form of a sequence of bytes: an unreserved byte
/// stands for itself, any other is a percent sign and two hexadecimal digits.
pub open spec fn percent_encoded(bytes: Seq<u8>) -> Seq<char>
    decreases bytes.len(),
{
    if bytes.len() == 0 {
        Seq::empty()
    } else {
        let b = bytes.last();
        percent_encoded(bytes.drop_last()) + if is_unreserved(b) {
            seq![b as char]
        } else {
            seq!['%', hex_digit(b as int / 16), hex_digit(b as int % 16)]
        }
    }
}

/// `urlencoding::encode` percent-encodes every byte of the UTF-8 form of a
/// text but ASCII letters, digits and `-`, `_`, `.`, `~`; its hexadecimal
/// digits are upper case.
#[verifier::external_body]
fn percent_encode(text: &str) -> (r: String)
    ensures
        r@ == percent_encoded(text.spec_bytes()),
{
    urlencoding::encode(text).into_owned()
}

/// The line of a card that tells of the last response; empty without one.
pub open spec fn last_response(cached: Option<Response>) -> Seq<char> {
    match cached {
        Some(response) => "**Last Response:** "@ + decimal(response.status) + " "@
            + response.status_text + " ("@ + decimal(response.duration_ms) + "ms)\n\n---\n\n"@,
        None => Seq::empty(),
    }
}

/// The two arguments of a command as they stand in a command link.
pub open spec fn link_arguments(uri: Seq<char>, line: nat) -> Seq<char> {
    "[\""@ + uri + "\","@ + decimal(line) + "]"@
}

/// The text of the card of the request `b` of document `uri`.
pub open spec fn card_text(uri: Seq<char>, b: Boundary, cached: Option<Response>) -> Seq<char> {
    let query = percent_encoded(encode_utf8(link_arguments(uri, b.start_line)));
    "## "@ + b.method + " "@ + b.url + "\n\n"@ + last_response(cached)
        + "[▶ Send](command:http.send?"@ + query + ") | [👁 Show](command:http.show?"@ + query
        + ") | [💾 Save](command:http.saveResponse?"@ + query
        + ") | [◉ Headers](command:http.showHeaders?"@ + query + ")"@
}

/// Index of the first boundary at or after `from` that begins at `line`, or
/// the number of boundaries.
pub open spec fn first_starting(bs: Seq<Boundary>, line: nat, from: int) -> int
    decreases bs.len() - from,
{
    if 0 <= from < bs.len() && bs[from].start_line != line {
        first_starting(bs, line, from + 1)
    } else {
        from
    }
}

/// The cached response of a request, if there is one.
pub open spec fn cached_for(
    responses: Map<(Seq<char>, nat), Response>,
    uri: Seq<char>,
    line: nat,
) -> Option<Response> {
    if responses.contains_key((uri, line)) {
        Some(responses[(uri, line)])
    } else {
        None
    }
}

/// The card at `line` of document `uri`: that of the first of the requests
/// `bs` whose request line it is.
pub open spec fn card_at(
    uri: Seq<char>,
    bs: Seq<Boundary>,
    responses: Map<(Seq<char>, nat), Response>,
    line: nat,
) -> Option<Card> {
    let k = first_starting(bs, line, 0);
    if k < bs.len() {
        Some(
            Card {
                content: card_text(uri, bs[k], cached_for(responses, uri, line)),
                line,
                end_character: end_of_request_line(bs[k]),
            },
        )
    } else {
        None
    }
}

/// The model of an optional card.
pub open spec fn shown_card(r: Option<Hover>) -> Option<Card> {
    match r {
        Some(hover) => Some(hover@),
        None => None,
    }
}

fn card(documents: &DocumentManager, uri: &str, request: &HttpRequest) -> (r: String)
    ensures
        r@ == card_text(
            uri@,
            request@,
            cached_for(documents.responses(), uri@, request.start_line as nat),
        ),
{
    let mut arguments = "[\"".to_owned();
    arguments.append(uri);
    arguments.append("\",");
    push_decimal(&mut arguments, request.start_line as u128);
    arguments.append("]");
    let query = percent_encode(arguments.as_str());
    let mut out = "## ".to_owned();
    out.append(request.method.as_str());
    out.append(" ");
    out.append(request.url.as_str());
    out.append("\n\n");
    let ghost head = out@;
    if let Some(cached) = documents.get_cached_response(uri, request.start_line) {
        out.append("**Last Response:** ");
        push_decimal(&mut out, cached.status as u128);
        out.append(" ");
        out.append(cached.status_text.as_str());
        out.append(" (");
        push_decimal(&mut out, cached.duration_ms);
        out.append("ms)\n\n---\n\n");
        assert(out@ == head + last_response(Some(cached@)));
    } else {
        assert(out@ == head + last_response(None));
    }
    out.append("[▶ Send](command:http.send?");
    out.append(query.as_str());
    out.append(") | [👁 Show](command:http.show?");
    out.append(query.as_str());
    out.append(") | [💾 Save](command:http.saveResponse?");
    out.append(query.as_str());
    out.append(") | [◉ Headers](command:http.showHeaders?");
    out.append(query.as_str());
    out.append(")");
    out
}

/// The card for a cursor at `line` of document `uri`.
pub fn provide(documents: &DocumentManager, uri: &str, line: u32) -> (r: Option<Hover>)
    ensures
        shown_card(r) == card_at(
            uri@,
            requests_in(documents.documents(), uri@),
            documents.responses(),
            line as nat,
        ),
{
    let requests = documents.get_requests(uri);
    let ghost bs = boundaries(requests@);
    let mut i: usize = 0;
    while i < requests.len()
        invariant
            i <= requests.len(),
            bs == boundaries(requests@),
            bs == requests_in(documents.documents(), uri@),
            first_starting(bs, line as nat, 0) == first_starting(bs, line as nat, i as int),
        decreases requests.len() - i,
    {
        let request = &requests[i];
        if request.start_line == line {
            return Some(
                Hover {
                    content: card(documents, uri, request),
                    line,
                    end_character: request_line_end(request),
                },
            );
        }
        i += 1;
    }
    None
}

} // verus!
