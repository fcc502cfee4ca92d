//! The quick fixes of the request under the cursor: one per command.

use crate::commands::{Command, CommandLink, Link};
use crate::document::{requests_in, DocumentManager};
use crate::parser::{boundaries, first_containing, Boundary, HttpRequest};
use vstd::prelude::*;

verus! {

/// A quick fix: its title in the menu, and the command it runs.
#[derive(Debug)]
pub struct CodeAction {
    pub title: String,
    pub link: CommandLink,
}

/// The model of a quick fix.
pub struct Action {
    pub title: Seq<char>,
    pub link: Link,
}

impl View for CodeAction {
    type V = Action;

    open spec fn view(&self) -> Action {
        Action { title: self.title@, link: self.link@ }
    }
}

/// The quick fixes that a vector of code actions stands for.
pub open spec fn actions(v: Seq<CodeAction>) -> Seq<Action> {
    Seq::new(v.len(), |i: int| v[i]@)
}

/// One quick fix of the request `b` of document `uri`.
pub open spec fn action_of(
    uri: Seq<char>,
    b: Boundary,
    title: Seq<char>,
    short: Seq<char>,
    command: Command,
) -> Action {
    Action { title, link: Link { title: short, command, uri, line: b.start_line } }
}

/// The four quick fixes of the request `b` of document `uri`.
pub open spec fn actions_of(uri: Seq<char>, b: Boundary) -> Seq<Action> {
    seq![
        action_of(uri, b, "▶ Send Request"@, "Send"@, Command::Send),
        action_of(uri, b, "👁 Show Response"@, "Show"@, Command::Show),
        action_of(uri, b, "💾 Save Response"@, "Save"@, Command::SaveResponse),
        action_of(uri, b, "◉ Show Headers"@, "Headers"@, Command::ShowHeaders),
    ]
}

/// The quick fixes at `line`: those of the first of the requests `bs` whose
/// block holds the line, none where no block does.
pub open spec fn actions_at(uri: Seq<char>, bs: Seq<Boundary>, line: nat) -> Seq<Action> {
    let k = first_containing(bs, line, 0);
    if k < bs.len() {
        actions_of(uri, bs[k])
    } else {
        Seq::empty()
    }
}

fn action(uri: &str, request: &HttpRequest, title: &str, short: &str, command: Command) -> (r:
    CodeAction)
    ensures
        r@ == action_of(uri@, request@, title@, short@, command),
{
    CodeAction {
        title: title.to_owned(),
        link: CommandLink::new(short, command, uri, request.start_line),
    }
}

/// The quick fixes for a cursor at `line` of document `uri`.
pub fn provide(documents: &DocumentManager, uri: &str, line: u32) -> (r: Vec<CodeAction>)
    ensures
        actions(r@) == actions_at(uri@, requests_in(documents.documents(), uri@), line as nat),
{
    let requests = documents.get_requests(uri);
    let ghost bs = boundaries(requests@);
    let mut out: Vec<CodeAction> = Vec::new();
    let mut i: usize = 0;
    while i < requests.len()
        invariant
            i <= requests.len(),
            bs == boundaries(requests@),
            bs == requests_in(documents.documents(), uri@),
            out@.len() == 0,
            first_containing(bs, line as nat, 0) == first_containing(bs, line as nat, i as int),
        decreases requests.len() - i,
    {
        let request = &requests[i];
        if request.start_line <= line && line <= request.end_line {
            out.push(action(uri, request, "▶ Send Request", "Send", Command::Send));
            out.push(action(uri, request, "👁 Show Response", "Show", Command::Show));
            out.push(action(uri, request, "💾 Save Response", "Save", Command::SaveResponse));
            out.push(action(uri, request, "◉ Show Headers", "Headers", Command::ShowHeaders));
            return out;
        }
        i += 1;
    }
    out
}

} // verus!
