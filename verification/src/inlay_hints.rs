//! The row of buttons after each request line.

use crate::code_lens::column;
use crate::commands::{Command, CommandLink, Link};
use crate::document::{requests_in, DocumentManager};
use crate::parser::{boundaries, Boundary, HttpRequest};
use vstd::prelude::*;
use vstd::utf8::encode_utf8;

verus! {

/// One part of a hint's label: a text, and for a button its tooltip and the
/// command it runs.
#[derive(Debug)]
pub struct LabelPart {
    pub value: String,
    pub tooltip: Option<String>,
    pub link: Option<CommandLink>,
}

/// The model of a label part.
pub struct Part {
    pub value: Seq<char>,
    pub tooltip: Option<Seq<char>>,
    pub link: Option<Link>,
}

impl View for LabelPart {
    type V = Part;

    open spec fn view(&self) -> Part {
        Part {
            value: self.value@,
            tooltip: match self.tooltip {
                Some(text) => Some(text@),
                None => None,
            },
            link: match self.link {
                Some(link) => Some(link@),
                None => None,
            },
        }
    }
}

/// A hint behind a request line.
#[derive(Debug)]
pub struct InlayHint {
    pub line: u32,
    pub character: u32,
    pub parts: Vec<LabelPart>,
    pub padding_left: bool,
}

/// The model of a hint.
pub struct Hint {
    pub line: nat,
    pub character: nat,
    pub parts: Seq<Part>,
    pub padding_left: bool,
}

impl View for InlayHint {
    type V = Hint;

    open spec fn view(&self) -> Hint {
        Hint {
            line: self.line as nat,
            character: self.character as nat,
            parts: Seq::new(self.parts.len() as nat, |i: int| self.parts[i]@),
            padding_left: self.padding_left,
        }
    }
}

/// The hints that a vector of inlay hints stands for.
pub open spec fn hints(v: Seq<InlayHint>) -> Seq<Hint> {
    Seq::new(v.len(), |i: int| v[i]@)
}

/// A part that is only text.
pub open spec fn spacer(value: Seq<char>) -> Part {
    Part { value, tooltip: None, link: None }
}

/// A part that is a button of the request `b` of document `uri`.
pub open spec fn button(
    uri: Seq<char>,
    b: Boundary,
    value: Seq<char>,
    tooltip: Seq<char>,
    short: Seq<char>,
    command: Command,
) -> Part {
    Part {
        value,
        tooltip: Some(tooltip),
        link: Some(Link { title: short, command, uri, line: b.start_line }),
    }
}

/// The column behind a request line that holds the method, one space and
/// the target, counted in bytes.
pub open spec fn end_of_request_line(b: Boundary) -> nat {
    column(encode_utf8(b.method).len() + 1 + encode_utf8(b.url).len())
}

/// The hint of the request `b` of document `uri`: the four buttons, set
/// apart by bars.
pub open spec fn hint_of(uri: Seq<char>, b: Boundary) -> Hint {
    Hint {
        line: b.start_line,
        character: end_of_request_line(b),
        parts: seq![
            spacer("  "@),
            button(uri, b, "▶ Send"@, "Execute HTTP request"@, "Send"@, Command::Send),
            spacer(" | "@),
            button(uri, b, "👁 Show"@, "Show cached response"@, "Show"@, Command::Show),
            spacer(" | "@),
            button(uri, b, "💾 Save"@, "Save response to file"@, "Save"@, Command::SaveResponse),
            spacer(" | "@),
            button(
                uri,
                b,
                "◉ Headers"@,
                "Show response headers only"@,
                "Headers"@,
                Command::ShowHeaders,
            ),
        ],
        padding_left: true,
    }
}

/// The hints of the requests `bs` of document `uri`.
pub open spec fn all_hints(uri: Seq<char>, bs: Seq<Boundary>) -> Seq<Hint> {
    Seq::new(bs.len(), |i: int| hint_of(uri, bs[i]))
}

fn text_part(value: &str) -> (r: LabelPart)
    ensures
        r@ == spacer(value@),
{
    LabelPart { value: value.to_owned(), tooltip: None, link: None }
}

fn button_part(
    uri: &str,
    request: &HttpRequest,
    value: &str,
    tooltip: &str,
    short: &str,
    command: Command,
) -> (r: LabelPart)
    ensures
        r@ == button(uri@, request@, value@, tooltip@, short@, command),
{
    LabelPart {
        value: value.to_owned(),
        tooltip: Some(tooltip.to_owned()),
        link: Some(CommandLink::new(short, command, uri, request.start_line)),
    }
}

/// The column behind the request line of `request`.
pub fn request_line_end(request: &HttpRequest) -> (r: u32)
    ensures
        r == end_of_request_line(request@),
{
    let method: u128 = request.method.as_str().as_bytes().len() as u128;
    let url: u128 = request.url.as_str().as_bytes().len() as u128;
    ((method + 1 + url) % 0x1_0000_0000) as u32
}

fn hint(uri: &str, request: &HttpRequest) -> (r: InlayHint)
    ensures
        r@ == hint_of(uri@, request@),
{
    let mut parts: Vec<LabelPart> = Vec::new();
    parts.push(text_part("  "));
    parts.push(button_part(uri, request, "▶ Send", "Execute HTTP request", "Send", Command::Send));
    parts.push(text_part(" | "));
    parts.push(button_part(uri, request, "👁 Show", "Show cached response", "Show", Command::Show));
    parts.push(text_part(" | "));
    parts.push(
        button_part(
            uri,
            request,
            "💾 Save",
            "Save response to file",
            "Save",
            Command::SaveResponse,
        ),
    );
    parts.push(text_part(" | "));
    parts.push(
        button_part(
            uri,
            request,
            "◉ Headers",
            "Show response headers only",
            "Headers",
            Command::ShowHeaders,
        ),
    );
    let r = InlayHint {
        line: request.start_line,
        character: request_line_end(request),
        parts,
        padding_left: true,
    };
    assert(r@.parts =~= hint_of(uri@, request@).parts);
    r
}

/// The hints of every request of document `uri`; none for a document that is
/// not open.
pub fn provide(documents: &DocumentManager, uri: &str) -> (r: Vec<InlayHint>)
    ensures
        hints(r@) == all_hints(uri@, requests_in(documents.documents(), uri@)),
{
    let requests = documents.get_requests(uri);
    let ghost bs = boundaries(requests@);
    let mut out: Vec<InlayHint> = Vec::new();
    let mut i: usize = 0;
    while i < requests.len()
        invariant
            i <= requests.len(),
            bs == boundaries(requests@),
            out@.len() == i,
            forall|k: int| 0 <= k < i ==> (#[trigger] out@[k])@ == hint_of(uri@, bs[k]),
        decreases requests.len() - i,
    {
        out.push(hint(uri, &requests[i]));
        i += 1;
    }
    out
}

} // verus!
