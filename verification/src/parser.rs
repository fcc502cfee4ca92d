//! The request extractor: finds the request blocks of a document and reads
//! method, target, headers and body out of one of them.
//!
//! A document is a sequence of lines. A line that begins with `###` separates
//! two sections. Within a section the first line of the form
//! `METHOD target ...` opens a request block, which runs up to the last line of
//! the section that is not blank. `METHOD` is a run of upper-case ASCII letters
//! at the start of the line, followed by spaces or tabs and a target that runs
//! up to the next whitespace.

use crate::text::{
    blank, clone_pairs, find, find_char, is_blank, is_whitespace, join_lines, lemma_pairs_push,
    lines_of, pairs,
    push_joined, rows, skip_spaces, slice, split_lines, to_chars, to_string, trim, trim_back,
    trimmed, whitespace,
};
use vstd::prelude::*;

verus! {

/// The model of a request boundary: where a request block lies and what its
/// request line names.
pub struct Boundary {
    pub start_line: nat,
    pub end_line: nat,
    pub method: Seq<char>,
    pub url: Seq<char>,
}

/// The model of a request with its headers and body.
pub struct FullRequest {
    pub method: Seq<char>,
    pub url: Seq<char>,
    pub headers: Seq<(Seq<char>, Seq<char>)>,
    pub body: Option<Seq<char>>,
}

/// The line range of one request block, with the method and target of its
/// request line. Line numbers count from zero.
#[derive(Debug)]
pub struct HttpRequest {
    pub start_line: u32,
    pub end_line: u32,
    pub method: String,
    pub url: String,
}

/// A request block read in full.
#[derive(Debug)]
pub struct FullHttpRequest {
    pub method: String,
    pub url: String,
    pub headers: Vec<(String, String)>,
    pub body: Option<String>,
}

impl View for HttpRequest {
    type V = Boundary;

    open spec fn view(&self) -> Boundary {
        Boundary {
            start_line: self.start_line as nat,
            end_line: self.end_line as nat,
            method: self.method@,
            url: self.url@,
        }
    }
}

impl View for FullHttpRequest {
    type V = FullRequest;

    open spec fn view(&self) -> FullRequest {
        FullRequest {
            method: self.method@,
            url: self.url@,
            headers: pairs(self.headers@),
            body: match self.body {
                Some(b) => Some(b@),
                None => None,
            },
        }
    }
}

impl Boundary {
    /// What holds of every boundary that the extractor hands out.
    pub open spec fn well_formed(self) -> bool {
        &&& self.start_line <= self.end_line
        &&& self.method.len() > 0
        &&& self.url.len() > 0
    }

    /// Tells whether `line` lies within the block.
    pub open spec fn contains(self, line: nat) -> bool {
        self.start_line <= line <= self.end_line
    }
}

/// The boundaries that a vector of requests stands for.
pub open spec fn boundaries(v: Seq<HttpRequest>) -> Seq<Boundary> {
    Seq::new(v.len(), |i: int| v[i]@)
}

/// A separator line begins with three hash signs.
pub open spec fn is_separator(line: Seq<char>) -> bool {
    line.len() >= 3 && line[0] == '#' && line[1] == '#' && line[2] == '#'
}

/// The letters that a method is made of.
pub open spec fn is_method_letter(c: char) -> bool {
    'A' <= c <= 'Z'
}

/// The characters that part method and target.
pub open spec fn is_gap(c: char) -> bool {
    c == ' ' || c == '\t'
}

/// End of the run of method letters that begins at `from`.
pub open spec fn method_end(line: Seq<char>, from: int) -> int
    decreases line.len() - from,
{
    if 0 <= from < line.len() && is_method_letter(line[from]) {
        method_end(line, from + 1)
    } else {
        from
    }
}

/// End of the run of spaces and tabs that begins at `from`.
pub open spec fn gap_end(line: Seq<char>, from: int) -> int
    decreases line.len() - from,
{
    if 0 <= from < line.len() && is_gap(line[from]) {
        gap_end(line, from + 1)
    } else {
        from
    }
}

/// End of the run of characters other than whitespace that begins at `from`.
pub open spec fn target_end(line: Seq<char>, from: int) -> int
    decreases line.len() - from,
{
    if 0 <= from < line.len() && !is_whitespace(line[from]) {
        target_end(line, from + 1)
    } else {
        from
    }
}

/// Method and target of a request line; `None` for any other line.
pub open spec fn request_line(line: Seq<char>) -> Option<(Seq<char>, Seq<char>)> {
    let m = method_end(line, 0);
    let g = gap_end(line, m);
    let t = target_end(line, g);
    if 0 < m < g < t {
        Some((line.subrange(0, m), line.subrange(g, t)))
    } else {
        None
    }
}

/// Index of the first separator line at or after `from`, or the number of lines.
pub open spec fn next_separator(lines: Seq<Seq<char>>, from: int) -> int
    decreases lines.len() - from,
{
    if 0 <= from < lines.len() && !is_separator(lines[from]) {
        next_separator(lines, from + 1)
    } else {
        from
    }
}

/// Index of the first request line in `from..stop`, or `stop`.
pub open spec fn first_request_line(lines: Seq<Seq<char>>, from: int, stop: int) -> int
    decreases stop - from,
{
    if 0 <= from < stop <= lines.len() && request_line(lines[from]) is None {
        first_request_line(lines, from + 1, stop)
    } else {
        from
    }
}

/// Index of the last line in `start..stop` that is not blank, or `start`.
pub open spec fn last_content_line(lines: Seq<Seq<char>>, start: int, stop: int) -> int
    decreases stop - start,
{
    if 0 <= start < stop - 1 < lines.len() && is_blank(lines[stop - 1]) {
        last_content_line(lines, start, stop - 1)
    } else {
        stop - 1
    }
}

/// The boundary of the block that the request line `start` opens in a section
/// that ends before `stop`.
pub open spec fn boundary_at(lines: Seq<Seq<char>>, start: int, stop: int) -> Boundary {
    let named = request_line(lines[start]).unwrap();
    Boundary {
        start_line: start as nat,
        end_line: last_content_line(lines, start, stop) as nat,
        method: named.0,
        url: named.1,
    }
}

/// The boundaries of the sections that begin at or after line `from`.
pub open spec fn boundaries_from(lines: Seq<Seq<char>>, from: int) -> Seq<Boundary>
    decreases lines.len() - from,
    via boundaries_from_terminates
{
    if 0 <= from < lines.len() {
        let stop = next_separator(lines, from);
        let start = first_request_line(lines, from, stop);
        let rest = if stop < lines.len() {
            boundaries_from(lines, stop + 1)
        } else {
            Seq::empty()
        };
        if start < stop {
            seq![boundary_at(lines, start, stop)] + rest
        } else {
            rest
        }
    } else {
        Seq::empty()
    }
}

#[via_fn]
proof fn boundaries_from_terminates(lines: Seq<Seq<char>>, from: int) {
    if 0 <= from < lines.len() {
        lemma_next_separator(lines, from);
    }
}

/// The greatest number of lines that the extractor reads: line numbers are
/// 32-bit.
pub open spec fn line_limit() -> int {
    0xFFFF_FFFF
}

/// The lines of a text that the extractor reads.
pub open spec fn scanned_lines(text: Seq<char>) -> Seq<Seq<char>> {
    let all = lines_of(text);
    if all.len() > line_limit() {
        all.take(line_limit())
    } else {
        all
    }
}

/// The request boundaries of a text, in document order.
pub open spec fn boundaries_of(text: Seq<char>) -> Seq<Boundary> {
    boundaries_from(scanned_lines(text), 0)
}

/// The lines of a block after its request line. A block that reaches beyond
/// the last line ends there.
pub open spec fn block_lines(lines: Seq<Seq<char>>, b: Boundary) -> Seq<Seq<char>> {
    let last = if b.end_line < lines.len() {
        b.end_line as int
    } else {
        lines.len() - 1
    };
    if b.start_line < last {
        lines.subrange(b.start_line as int + 1, last + 1)
    } else {
        Seq::empty()
    }
}

/// Index of the first blank line at or after `from`, or the number of lines.
pub open spec fn first_blank(lines: Seq<Seq<char>>, from: int) -> int
    decreases lines.len() - from,
{
    if 0 <= from < lines.len() && !is_blank(lines[from]) {
        first_blank(lines, from + 1)
    } else {
        from
    }
}

/// Name and value of a header line: the line is trimmed and split at its
/// first colon, and both sides are trimmed. A line without a colon is no
/// header.
pub open spec fn header_of(line: Seq<char>) -> Option<(Seq<char>, Seq<char>)> {
    let t = trim(line);
    let colon = find_char(t, ':', 0);
    if colon < t.len() {
        Some((trim(t.subrange(0, colon)), trim(t.subrange(colon + 1, t.len() as int))))
    } else {
        None
    }
}

/// The headers among `lines`, in their order.
pub open spec fn headers_of(lines: Seq<Seq<char>>) -> Seq<(Seq<char>, Seq<char>)>
    decreases lines.len(),
{
    if lines.len() == 0 {
        Seq::empty()
    } else {
        match header_of(lines.last()) {
            Some(h) => headers_of(lines.drop_last()).push(h),
            None => headers_of(lines.drop_last()),
        }
    }
}

/// The body that `lines` make up: none without lines, else the lines joined
/// by line feeds.
pub open spec fn body_of(lines: Seq<Seq<char>>) -> Option<Seq<char>> {
    if lines.len() == 0 {
        None
    } else {
        Some(join_lines(lines))
    }
}

/// The request of boundary `b` in a document with the lines `lines`: the
/// lines before the first blank line of the block are headers, all lines
/// after it the body. `None` when the block begins beyond the last line.
pub open spec fn full_request(lines: Seq<Seq<char>>, b: Boundary) -> Option<FullRequest> {
    if b.start_line >= lines.len() {
        None
    } else {
        let block = block_lines(lines, b);
        let split = first_blank(block, 0);
        Some(
            FullRequest {
                method: b.method,
                url: b.url,
                headers: headers_of(block.take(split)),
                body: if split < block.len() {
                    body_of(block.skip(split + 1))
                } else {
                    None
                },
            },
        )
    }
}

/// Index of the first boundary at or after `from` that contains `line`, or
/// the number of boundaries.
pub open spec fn first_containing(bs: Seq<Boundary>, line: nat, from: int) -> int
    decreases bs.len() - from,
{
    if 0 <= from < bs.len() && !bs[from].contains(line) {
        first_containing(bs, line, from + 1)
    } else {
        from
    }
}

/// The boundary of a text whose block holds `line`: the first that does.
pub open spec fn boundary_at_line(text: Seq<char>, line: nat) -> Option<Boundary> {
    let bs = boundaries_of(text);
    let k = first_containing(bs, line, 0);
    if k < bs.len() {
        Some(bs[k])
    } else {
        None
    }
}

/// The request at `line` of a text: that of the boundary whose block holds
/// the line.
pub open spec fn request_at(text: Seq<char>, line: nat) -> Option<FullRequest> {
    match boundary_at_line(text, line) {
        Some(b) => full_request(lines_of(text), b),
        None => None,
    }
}

/// Method and target of a request line are not empty.
pub proof fn lemma_request_line(line: Seq<char>)
    ensures
        request_line(line) matches Some(named) ==> named.0.len() > 0 && named.1.len() > 0,
{
    lemma_method_end(line, 0);
    lemma_gap_end(line, method_end(line, 0));
    lemma_target_end(line, gap_end(line, method_end(line, 0)));
}

/// A run of method letters ends within the line.
pub proof fn lemma_method_end(line: Seq<char>, from: int)
    requires
        0 <= from <= line.len(),
    ensures
        from <= method_end(line, from) <= line.len(),
    decreases line.len() - from,
{
    if from < line.len() && is_method_letter(line[from]) {
        lemma_method_end(line, from + 1);
    }
}

/// A run of spaces and tabs ends within the line.
pub proof fn lemma_gap_end(line: Seq<char>, from: int)
    requires
        0 <= from <= line.len(),
    ensures
        from <= gap_end(line, from) <= line.len(),
    decreases line.len() - from,
{
    if from < line.len() && is_gap(line[from]) {
        lemma_gap_end(line, from + 1);
    }
}

/// A target ends within the line.
pub proof fn lemma_target_end(line: Seq<char>, from: int)
    requires
        0 <= from <= line.len(),
    ensures
        from <= target_end(line, from) <= line.len(),
    decreases line.len() - from,
{
    if from < line.len() && !is_whitespace(line[from]) {
        lemma_target_end(line, from + 1);
    }
}

/// The block that a request line opens is a well-formed boundary.
pub proof fn lemma_boundary_at(lines: Seq<Seq<char>>, start: int, stop: int)
    requires
        0 <= start < stop <= lines.len(),
        request_line(lines[start]) is Some,
    ensures
        boundary_at(lines, start, stop).well_formed(),
        boundary_at(lines, start, stop).start_line == start,
        boundary_at(lines, start, stop).end_line < stop,
{
    lemma_request_line(lines[start]);
    lemma_last_content_line(lines, start, stop);
}

/// Where `next_separator` ends: at the first separator from `from` on, or
/// behind the last line.
pub proof fn lemma_next_separator(lines: Seq<Seq<char>>, from: int)
    requires
        0 <= from <= lines.len(),
    ensures
        from <= next_separator(lines, from) <= lines.len(),
        next_separator(lines, from) < lines.len() ==> is_separator(
            lines[next_separator(lines, from)],
        ),
        forall|i: int| from <= i < next_separator(lines, from) ==> !is_separator(lines[i]),
    decreases lines.len() - from,
{
    if from < lines.len() && !is_separator(lines[from]) {
        lemma_next_separator(lines, from + 1);
    }
}

/// Where `first_request_line` ends: at the first request line in
/// `from..stop`, or at `stop`.
pub proof fn lemma_first_request_line(lines: Seq<Seq<char>>, from: int, stop: int)
    requires
        0 <= from <= stop <= lines.len(),
    ensures
        from <= first_request_line(lines, from, stop) <= stop,
        first_request_line(lines, from, stop) < stop ==> request_line(
            lines[first_request_line(lines, from, stop)],
        ) is Some,
        forall|i: int|
            from <= i < first_request_line(lines, from, stop) ==> request_line(lines[i]) is None,
    decreases stop - from,
{
    if from < stop && request_line(lines[from]) is None {
        lemma_first_request_line(lines, from + 1, stop);
    }
}

/// Where `last_content_line` ends: within `start..stop`, with nothing but
/// blank lines behind it.
pub proof fn lemma_last_content_line(lines: Seq<Seq<char>>, start: int, stop: int)
    requires
        0 <= start < stop <= lines.len(),
    ensures
        start <= last_content_line(lines, start, stop) < stop,
        forall|i: int|
            last_content_line(lines, start, stop) < i < stop ==> is_blank(lines[i]),
    decreases stop - start,
{
    if start < stop - 1 && is_blank(lines[stop - 1]) {
        lemma_last_content_line(lines, start, stop - 1);
    }
}

/// Boundaries lie one after the other within `from..limit`, each of them well
/// formed.
pub open spec fn in_order(bs: Seq<Boundary>, from: int, limit: int) -> bool {
    &&& forall|k: int|
        0 <= k < bs.len() ==> (#[trigger] bs[k]).well_formed() && from <= bs[k].start_line
            && bs[k].end_line < limit
    &&& forall|j: int, k: int|
        0 <= j < k < bs.len() ==> (#[trigger] bs[j]).end_line < (#[trigger] bs[k]).start_line
}

/// The boundaries of the sections from line `from` on are well formed, lie
/// within the lines, and follow one another without overlap.
pub proof fn lemma_boundaries_in_order(lines: Seq<Seq<char>>, from: int)
    requires
        0 <= from,
    ensures
        in_order(boundaries_from(lines, from), from, lines.len() as int),
    decreases lines.len() - from,
{
    if from < lines.len() {
        lemma_next_separator(lines, from);
        let stop = next_separator(lines, from);
        lemma_first_request_line(lines, from, stop);
        let start = first_request_line(lines, from, stop);
        let rest = if stop < lines.len() {
            boundaries_from(lines, stop + 1)
        } else {
            Seq::empty()
        };
        if stop < lines.len() {
            lemma_boundaries_in_order(lines, stop + 1);
        }
        if start < stop {
            lemma_boundary_at(lines, start, stop);
            let all = seq![boundary_at(lines, start, stop)] + rest;
            assert forall|k: int| 0 <= k < all.len() implies (#[trigger] all[k]).well_formed()
                && from <= all[k].start_line && all[k].end_line < lines.len() by {
                if k > 0 {
                    assert(all[k] == rest[k - 1]);
                }
            }
            assert forall|j: int, k: int| 0 <= j < k < all.len() implies (#[trigger] all[j]).end_line
                < (#[trigger] all[k]).start_line by {
                assert(all[k] == rest[k - 1]);
                if j > 0 {
                    assert(all[j] == rest[j - 1]);
                }
            }
        }
    }
}

/// Tells whether a separator stands between the lines `before` and `line`.
pub open spec fn separated(lines: Seq<Seq<char>>, before: int, line: int) -> bool {
    exists|k: int| before < k < line && is_separator(#[trigger] lines[k])
}

/// A line opens a block when it is a request line and a separator stands
/// between it and every request line before it.
pub open spec fn opens_block(lines: Seq<Seq<char>>, line: int) -> bool {
    &&& 0 <= line < lines.len()
    &&& request_line(lines[line]) is Some
    &&& forall|j: int|
        0 <= j < line && request_line(#[trigger] lines[j]) is Some ==> separated(lines, j, line)
}

/// A boundary marks a block when its first line opens a block and names
/// method and target, and its last line is the last line before the next
/// separator that is not blank.
pub open spec fn marks_block(lines: Seq<Seq<char>>, b: Boundary) -> bool {
    &&& opens_block(lines, b.start_line as int)
    &&& request_line(lines[b.start_line as int]) == Some((b.method, b.url))
    &&& b.end_line == last_content_line(
        lines,
        b.start_line as int,
        next_separator(lines, b.start_line as int),
    )
}

/// A section begins at the first line and behind every separator.
pub open spec fn begins_section(lines: Seq<Seq<char>>, from: int) -> bool {
    from == 0 || (0 < from <= lines.len() && is_separator(lines[from - 1]))
}

/// A separator is no request line.
pub proof fn lemma_separator_is_no_request_line(line: Seq<char>)
    requires
        is_separator(line),
    ensures
        request_line(line) is None,
{
    assert(method_end(line, 0) == 0);
}

/// From any line of a section on, the next separator is the same.
pub proof fn lemma_next_separator_within(lines: Seq<Seq<char>>, from: int, line: int)
    requires
        0 <= from <= line <= next_separator(lines, from),
        from <= lines.len(),
    ensures
        next_separator(lines, line) == next_separator(lines, from),
    decreases line - from,
{
    if from < line {
        lemma_next_separator(lines, from);
        lemma_next_separator_within(lines, from + 1, line);
    }
}

proof fn lemma_marks_blocks_from(lines: Seq<Seq<char>>, from: int)
    requires
        0 <= from,
        begins_section(lines, from),
    ensures
        forall|k: int|
            0 <= k < boundaries_from(lines, from).len() ==> marks_block(
                lines,
                #[trigger] boundaries_from(lines, from)[k],
            ),
    decreases lines.len() - from,
{
    if from < lines.len() {
        lemma_next_separator(lines, from);
        let stop = next_separator(lines, from);
        lemma_first_request_line(lines, from, stop);
        let start = first_request_line(lines, from, stop);
        let rest = if stop < lines.len() {
            boundaries_from(lines, stop + 1)
        } else {
            Seq::empty()
        };
        if stop < lines.len() {
            lemma_marks_blocks_from(lines, stop + 1);
        }
        if start < stop {
            let first = boundary_at(lines, start, stop);
            lemma_boundary_at(lines, start, stop);
            lemma_next_separator_within(lines, from, start);
            assert forall|j: int| 0 <= j < start && request_line(#[trigger] lines[j]) is Some
                implies separated(lines, j, start) by {
                if j == from - 1 {
                    lemma_separator_is_no_request_line(lines[j]);
                }
                assert(is_separator(lines[from - 1]));
            }
            lemma_last_content_line(lines, start, stop);
            assert(request_line(lines[start])->0 == (first.method, first.url));
            assert(marks_block(lines, first));
            let all = seq![first] + rest;
            assert forall|k: int| 0 <= k < all.len() implies marks_block(lines, #[trigger] all[k]) by {
                if k > 0 {
                    assert(all[k] == rest[k - 1]);
                }
            }
        }
    }
}

proof fn lemma_opening_line_from(lines: Seq<Seq<char>>, from: int, line: int) -> (k: int)
    requires
        0 <= from <= line,
        begins_section(lines, from),
        opens_block(lines, line),
    ensures
        0 <= k < boundaries_from(lines, from).len(),
        boundaries_from(lines, from)[k].start_line == line,
    decreases lines.len() - from,
{
    lemma_next_separator(lines, from);
    let stop = next_separator(lines, from);
    lemma_first_request_line(lines, from, stop);
    let start = first_request_line(lines, from, stop);
    let rest = if stop < lines.len() {
        boundaries_from(lines, stop + 1)
    } else {
        Seq::empty()
    };
    if line < stop {
        if start < line {
            assert(separated(lines, start, line));
            assert(false);
        }
        lemma_boundary_at(lines, start, stop);
        0
    } else {
        if line == stop {
            lemma_separator_is_no_request_line(lines[line]);
        }
        let k = lemma_opening_line_from(lines, stop + 1, line);
        if start < stop {
            assert((seq![boundary_at(lines, start, stop)] + rest)[k + 1] == rest[k]);
            k + 1
        } else {
            k
        }
    }
}

/// Every boundary of a text marks a block of its lines.
pub proof fn lemma_boundaries_mark_blocks(text: Seq<char>)
    ensures
        forall|k: int|
            0 <= k < boundaries_of(text).len() ==> marks_block(
                scanned_lines(text),
                #[trigger] boundaries_of(text)[k],
            ),
{
    lemma_marks_blocks_from(scanned_lines(text), 0);
}

/// Every line of a text that opens a block is the first line of one of its
/// boundaries.
pub proof fn lemma_opening_line_has_boundary(text: Seq<char>, line: int) -> (k: int)
    requires
        opens_block(scanned_lines(text), line),
    ensures
        0 <= k < boundaries_of(text).len(),
        boundaries_of(text)[k].start_line == line,
{
    lemma_opening_line_from(scanned_lines(text), 0, line)
}

/// A text in which no line opens a block has no boundaries.
pub proof fn lemma_no_block_no_boundary(text: Seq<char>)
    requires
        forall|line: int| !opens_block(scanned_lines(text), line),
    ensures
        boundaries_of(text) == Seq::<Boundary>::empty(),
{
    lemma_boundaries_mark_blocks(text);
    if boundaries_of(text).len() > 0 {
        assert(marks_block(scanned_lines(text), boundaries_of(text)[0]));
    }
}

/// A text without a request line has no boundaries.
pub proof fn lemma_no_request_line_no_boundary(text: Seq<char>)
    requires
        forall|i: int|
            0 <= i < scanned_lines(text).len() ==> request_line(#[trigger] scanned_lines(text)[i])
                is None,
    ensures
        boundaries_of(text) == Seq::<Boundary>::empty(),
{
    lemma_no_request_line_from(scanned_lines(text), 0);
}

proof fn lemma_no_request_line_from(lines: Seq<Seq<char>>, from: int)
    requires
        0 <= from,
        forall|i: int| 0 <= i < lines.len() ==> request_line(#[trigger] lines[i]) is None,
    ensures
        boundaries_from(lines, from) == Seq::<Boundary>::empty(),
    decreases lines.len() - from,
{
    if from < lines.len() {
        lemma_next_separator(lines, from);
        let stop = next_separator(lines, from);
        lemma_first_request_line(lines, from, stop);
        if stop < lines.len() {
            lemma_no_request_line_from(lines, stop + 1);
        }
    }
}

/// Every boundary of a text is well formed, begins at a line of the text,
/// and ends before the next one begins.
pub proof fn lemma_boundaries_of(text: Seq<char>)
    ensures
        in_order(boundaries_of(text), 0, lines_of(text).len() as int),
{
    lemma_boundaries_in_order(scanned_lines(text), 0);
}

/// A line within the span of a boundary of the text resolves to the request
/// of that boundary.
pub proof fn lemma_line_inside_resolves(text: Seq<char>, k: int, line: nat)
    requires
        0 <= k < boundaries_of(text).len(),
        boundaries_of(text)[k].contains(line),
    ensures
        boundary_at_line(text, line) == Some(boundaries_of(text)[k]),
        request_at(text, line) is Some,
        request_at(text, line) == full_request(lines_of(text), boundaries_of(text)[k]),
{
    let bs = boundaries_of(text);
    lemma_boundaries_of(text);
    lemma_first_containing_is(bs, line, 0, k);
}

/// A line outside the span of every boundary of the text resolves to nothing.
pub proof fn lemma_line_outside_resolves(text: Seq<char>, line: nat)
    requires
        forall|k: int|
            0 <= k < boundaries_of(text).len() ==> !(#[trigger] boundaries_of(text)[k]).contains(
                line,
            ),
    ensures
        request_at(text, line) is None,
{
    lemma_first_containing_none(boundaries_of(text), line, 0);
}

proof fn lemma_first_containing_is(bs: Seq<Boundary>, line: nat, from: int, k: int)
    requires
        0 <= from <= k < bs.len(),
        bs[k].contains(line),
        forall|j: int| from <= j < k ==> !(#[trigger] bs[j]).contains(line),
    ensures
        first_containing(bs, line, from) == k,
    decreases k - from,
{
    if from < k {
        lemma_first_containing_is(bs, line, from + 1, k);
    }
}

proof fn lemma_first_containing_none(bs: Seq<Boundary>, line: nat, from: int)
    requires
        0 <= from <= bs.len(),
        forall|j: int| from <= j < bs.len() ==> !(#[trigger] bs[j]).contains(line),
    ensures
        first_containing(bs, line, from) == bs.len(),
    decreases bs.len() - from,
{
    if from < bs.len() {
        lemma_first_containing_none(bs, line, from + 1);
    }
}

impl Clone for HttpRequest {
    fn clone(&self) -> (r: Self)
        ensures
            r@ == self@,
    {
        HttpRequest {
            start_line: self.start_line,
            end_line: self.end_line,
            method: self.method.clone(),
            url: self.url.clone(),
        }
    }
}

impl Clone for FullHttpRequest {
    fn clone(&self) -> (r: Self)
        ensures
            r@ == self@,
    {
        FullHttpRequest {
            method: self.method.clone(),
            url: self.url.clone(),
            headers: clone_pairs(&self.headers),
            body: match &self.body {
                Some(b) => Some(b.clone()),
                None => None,
            },
        }
    }
}

/// A copy of `v` that holds the same boundaries.
pub fn clone_requests(v: &Vec<HttpRequest>) -> (out: Vec<HttpRequest>)
    ensures
        boundaries(out@) == boundaries(v@),
{
    let mut out: Vec<HttpRequest> = Vec::new();
    let mut i: usize = 0;
    while i < v.len()
        invariant
            i <= v.len(),
            boundaries(out@) == boundaries(v@).take(i as int),
        decreases v.len() - i,
    {
        let request = v[i].clone();
        proof {
            assert(boundaries(v@).take(i + 1) == boundaries(v@).take(i as int).push(
                boundaries(v@)[i as int],
            ));
        }
        out.push(request);
        i += 1;
    }
    out
}

/// The pair of character sequences that an optional pair of strings stands for.
pub open spec fn named(p: Option<(String, String)>) -> Option<(Seq<char>, Seq<char>)> {
    match p {
        Some(p) => Some((p.0@, p.1@)),
        None => None,
    }
}

/// The model of an optional request.
pub open spec fn view_of(r: Option<FullHttpRequest>) -> Option<FullRequest> {
    match r {
        Some(r) => Some(r@),
        None => None,
    }
}

fn separator(line: &Vec<char>) -> (r: bool)
    ensures
        r == is_separator(line@),
{
    line.len() >= 3 && line[0] == '#' && line[1] == '#' && line[2] == '#'
}

fn scan_method(line: &Vec<char>, from: usize) -> (r: usize)
    requires
        from <= line.len(),
    ensures
        r == method_end(line@, from as int),
        from <= r <= line.len(),
{
    let mut i: usize = from;
    while i < line.len() && 'A' <= line[i] && line[i] <= 'Z'
        invariant
            from <= i <= line.len(),
            method_end(line@, from as int) == method_end(line@, i as int),
        decreases line.len() - i,
    {
        i += 1;
    }
    i
}

fn scan_gap(line: &Vec<char>, from: usize) -> (r: usize)
    requires
        from <= line.len(),
    ensures
        r == gap_end(line@, from as int),
        from <= r <= line.len(),
{
    let mut i: usize = from;
    while i < line.len() && (line[i] == ' ' || line[i] == '\t')
        invariant
            from <= i <= line.len(),
            gap_end(line@, from as int) == gap_end(line@, i as int),
        decreases line.len() - i,
    {
        i += 1;
    }
    i
}

fn scan_target(line: &Vec<char>, from: usize) -> (r: usize)
    requires
        from <= line.len(),
    ensures
        r == target_end(line@, from as int),
        from <= r <= line.len(),
{
    let mut i: usize = from;
    while i < line.len() && !whitespace(line[i])
        invariant
            from <= i <= line.len(),
            target_end(line@, from as int) == target_end(line@, i as int),
        decreases line.len() - i,
    {
        i += 1;
    }
    i
}

/// Reads method and target off a request line.
pub fn parse_request_line(line: &Vec<char>) -> (r: Option<(String, String)>)
    ensures
        named(r) == request_line(line@),
{
    let m = scan_method(line, 0);
    let g = scan_gap(line, m);
    let t = scan_target(line, g);
    if 0 < m && m < g && g < t {
        Some((to_string(line, 0, m), to_string(line, g, t)))
    } else {
        None
    }
}

/// Reads name and value off a header line.
pub fn parse_header(line: &Vec<char>) -> (r: Option<(String, String)>)
    ensures
        named(r) == header_of(line@),
{
    let start = skip_spaces(line, 0);
    let end = trim_back(line, start, line.len());
    let t = slice(line, start, end);
    let colon = find(&t, ':', 0);
    if colon < t.len() {
        Some((trimmed(&t, 0, colon), trimmed(&t, colon + 1, t.len())))
    } else {
        None
    }
}

fn find_separator(lines: &Vec<Vec<char>>, from: usize) -> (r: usize)
    requires
        from <= lines.len(),
    ensures
        r == next_separator(rows(lines@), from as int),
        from <= r <= lines.len(),
{
    let mut i: usize = from;
    while i < lines.len() && !separator(&lines[i])
        invariant
            from <= i <= lines.len(),
            next_separator(rows(lines@), from as int) == next_separator(rows(lines@), i as int),
        decreases lines.len() - i,
    {
        i += 1;
    }
    i
}

fn find_request_line(lines: &Vec<Vec<char>>, from: usize, stop: usize) -> (r: (
    usize,
    Option<(String, String)>,
))
    requires
        from <= stop <= lines.len(),
    ensures
        r.0 == first_request_line(rows(lines@), from as int, stop as int),
        from <= r.0 <= stop,
        r.0 < stop ==> named(r.1) == request_line(lines@[r.0 as int]@),
        r.0 < stop <==> r.1 is Some,
{
    let mut i: usize = from;
    while i < stop
        invariant
            from <= i <= stop <= lines.len(),
            first_request_line(rows(lines@), from as int, stop as int) == first_request_line(
                rows(lines@),
                i as int,
                stop as int,
            ),
        decreases stop - i,
    {
        let found = parse_request_line(&lines[i]);
        if found.is_some() {
            return (i, found);
        }
        i += 1;
    }
    (i, None)
}

fn find_block_end(lines: &Vec<Vec<char>>, start: usize, stop: usize) -> (r: usize)
    requires
        start < stop <= lines.len(),
    ensures
        r == last_content_line(rows(lines@), start as int, stop as int),
        start <= r < stop,
{
    let mut i: usize = stop;
    while start < i - 1 && blank(&lines[i - 1])
        invariant
            start < i <= stop <= lines.len(),
            last_content_line(rows(lines@), start as int, stop as int) == last_content_line(
                rows(lines@),
                start as int,
                i as int,
            ),
        decreases i - start,
    {
        i -= 1;
    }
    i - 1
}

/// Finds the request blocks of a document, in document order.
pub fn find_requests(source: &str) -> (requests: Vec<HttpRequest>)
    ensures
        boundaries(requests@) == boundaries_of(source@),
        forall|i: int| 0 <= i < requests.len() ==> (#[trigger] requests[i])@.well_formed(),
{
    let chars = to_chars(source);
    let mut lines = split_lines(&chars);
    if lines.len() > 0xFFFF_FFFF {
        lines.truncate(0xFFFF_FFFF);
    }
    assert(rows(lines@) == scanned_lines(source@));
    let ghost all = rows(lines@);
    let mut requests: Vec<HttpRequest> = Vec::new();
    let mut from: usize = 0;
    while from < lines.len()
        invariant
            from <= lines.len() <= 0xFFFF_FFFF,
            all == rows(lines@),
            boundaries_from(all, 0) == boundaries(requests@) + boundaries_from(all, from as int),
            forall|i: int| 0 <= i < requests.len() ==> (#[trigger] requests[i])@.well_formed(),
        decreases lines.len() - from,
    {
        let stop = find_separator(&lines, from);
        let (start, found) = find_request_line(&lines, from, stop);
        if let Some((method, url)) = found {
            let end = find_block_end(&lines, start, stop);
            let request = HttpRequest {
                start_line: start as u32,
                end_line: end as u32,
                method,
                url,
            };
            proof {
                lemma_boundary_at(all, start as int, stop as int);
            }
            requests.push(request);
        }
        if stop < lines.len() {
            from = stop + 1;
        } else {
            from = stop;
        }
    }
    requests
}

/// Reads the request of boundary `req` out of `source`: headers up to the
/// first blank line of the block, body after it. Returns `None` when the
/// block begins beyond the last line of `source`.
pub fn extract_full_request(source: &str, req: &HttpRequest) -> (r: Option<FullHttpRequest>)
    ensures
        view_of(r) == full_request(lines_of(source@), req@),
{
    let chars = to_chars(source);
    let lines = split_lines(&chars);
    let start: usize = req.start_line as usize;
    if start >= lines.len() {
        return None;
    }
    let last: usize = if (req.end_line as usize) < lines.len() {
        req.end_line as usize
    } else {
        lines.len() - 1
    };
    let first: usize = start + 1;
    let stop: usize = if start < last {
        last + 1
    } else {
        first
    };
    let ghost block = block_lines(rows(lines@), req@);
    let mut headers: Vec<(String, String)> = Vec::new();
    let mut i: usize = first;
    while i < stop && !blank(&lines[i])
        invariant
            first <= i <= stop <= lines.len(),
            block == rows(lines@).subrange(first as int, stop as int),
            first_blank(block, 0) == first_blank(block, i - first),
            pairs(headers@) == headers_of(block.take(i - first)),
        decreases stop - i,
    {
        let found = parse_header(&lines[i]);
        assert(block.take(i - first + 1).drop_last() == block.take(i - first));
        if let Some(header) = found {
            proof {
                lemma_pairs_push(headers@, header);
            }
            headers.push(header);
        }
        i += 1;
    }
    let body = if i < stop && i + 1 < stop {
        let mut text = String::new();
        push_joined(&mut text, &lines, i + 1, stop);
        assert(block.skip(i - first + 1) == rows(lines@).subrange(i + 1, stop as int));
        Some(text)
    } else {
        None
    };
    Some(FullHttpRequest { method: req.method.clone(), url: req.url.clone(), headers, body })
}

/// The model of an optional boundary.
pub open spec fn boundary_of(r: Option<HttpRequest>) -> Option<Boundary> {
    match r {
        Some(r) => Some(r@),
        None => None,
    }
}

/// Finds the request block of `source` that holds `line`.
pub fn find_request_at_line(source: &str, line: u32) -> (r: Option<HttpRequest>)
    ensures
        boundary_of(r) == boundary_at_line(source@, line as nat),
{
    let requests = find_requests(source);
    let ghost bs = boundaries_of(source@);
    let mut k: usize = 0;
    while k < requests.len()
        invariant
            k <= requests.len(),
            bs == boundaries_of(source@),
            boundaries(requests@) == bs,
            first_containing(bs, line as nat, 0) == first_containing(bs, line as nat, k as int),
        decreases requests.len() - k,
    {
        if requests[k].start_line <= line && line <= requests[k].end_line {
            assert(bs[k as int] == requests@[k as int]@);
            return Some(requests[k].clone());
        }
        k += 1;
    }
    None
}

/// Finds the request block of `source` that holds `line` and reads it in
/// full.
pub fn extract_request_at_line(source: &str, line: u32) -> (r: Option<FullHttpRequest>)
    ensures
        view_of(r) == request_at(source@, line as nat),
{
    match find_request_at_line(source, line) {
        Some(request) => extract_full_request(source, &request),
        None => None,
    }
}

} // verus!
