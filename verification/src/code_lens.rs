//! The buttons above each request: one per command.

use crate::commands::{Command, CommandLink, Link};
use crate::document::{requests_in, DocumentManager};
use crate::parser::{boundaries, Boundary, HttpRequest};
use vstd::prelude::*;
use vstd::utf8::encode_utf8;

verus! {

/// A button on the request line: it spans the method and runs a command.
#[derive(Debug)]
pub struct CodeLens {
    pub line: u32,
    pub end_character: u32,
    pub link: CommandLink,
}

/// The model of a button.
pub struct Lens {
    pub line: nat,
    pub end_character: nat,
    pub link: Link,
}

impl View for CodeLens {
    type V = Lens;

    open spec fn view(&self) -> Lens {
        Lens {
            line: self.line as nat,
            end_character: self.end_character as nat,
            link: self.link@,
        }
    }
}

/// The buttons that a vector of code lenses stands for.
pub open spec fn lenses(v: Seq<CodeLens>) -> Seq<Lens> {
    Seq::new(v.len(), |i: int| v[i]@)
}

/// A length as a 32-bit column.
pub open spec fn column(length: nat) -> nat {
    length % 0x1_0000_0000
}

/// One button of the request `b` of document `uri`.
pub open spec fn lens_of(uri: Seq<char>, b: Boundary, title: Seq<char>, command: Command) -> Lens {
    Lens {
        line: b.start_line,
        end_character: column(encode_utf8(b.method).len()),
        link: Link { title, command, uri, line: b.start_line },
    }
}

/// The four buttons of the request `b` of document `uri`.
pub open spec fn lenses_of(uri: Seq<char>, b: Boundary) -> Seq<Lens> {
    seq![
        lens_of(uri, b, "▶ Send"@, Command::Send),
        lens_of(uri, b, "👁 Show"@, Command::Show),
        lens_of(uri, b, "💾 Save"@, Command::SaveResponse),
        lens_of(uri, b, "◉ Headers"@, Command::ShowHeaders),
    ]
}

/// The buttons of the requests `bs` of document `uri`, request by request.
pub open spec fn all_lenses(uri: Seq<char>, bs: Seq<Boundary>) -> Seq<Lens>
    decreases bs.len(),
{
    if bs.len() == 0 {
        Seq::empty()
    } else {
        all_lenses(uri, bs.drop_last()) + lenses_of(uri, bs.last())
    }
}

/// The byte length of a text as a 32-bit column.
pub fn column_of(text: &str) -> (r: u32)
    ensures
        r == column(encode_utf8(text@).len()),
{
    let length: u128 = text.as_bytes().len() as u128;
    (length % 0x1_0000_0000) as u32
}

fn lens(uri: &str, request: &HttpRequest, title: &str, command: Command) -> (r: CodeLens)
    ensures
        r@ == lens_of(uri@, request@, title@, command),
{
    CodeLens {
        line: request.start_line,
        end_character: column_of(request.method.as_str()),
        link: CommandLink::new(title, command, uri, request.start_line),
    }
}

/// The buttons of every request of document `uri`; none for a document that
/// is not open.
pub fn provide(documents: &DocumentManager, uri: &str) -> (r: Vec<CodeLens>)
    ensures
        lenses(r@) == all_lenses(uri@, requests_in(documents.documents(), uri@)),
{
    let requests = documents.get_requests(uri);
    let ghost bs = boundaries(requests@);
    let mut out: Vec<CodeLens> = Vec::new();
    let mut i: usize = 0;
    while i < requests.len()
        invariant
            i <= requests.len(),
            bs == boundaries(requests@),
            lenses(out@) == all_lenses(uri@, bs.take(i as int)),
        decreases requests.len() - i,
    {
        let request = &requests[i];
        out.push(lens(uri, request, "▶ Send", Command::Send));
        out.push(lens(uri, request, "👁 Show", Command::Show));
        out.push(lens(uri, request, "💾 Save", Command::SaveResponse));
        out.push(lens(uri, request, "◉ Headers", Command::ShowHeaders));
        assert(bs.take(i + 1).drop_last() == bs.take(i as int));
        i += 1;
    }
    assert(bs.take(requests.len() as int) == bs);
    out
}

} // verus!
