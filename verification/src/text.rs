//! Character-level text model: lines, trimming, joining and decimal rendering,
//! each given as a function on `Seq<char>` together with the executable code
//! that computes it.

use vstd::prelude::*;

verus! {

/// The characters that Unicode classes as white space.
pub open spec fn is_whitespace(c: char) -> bool {
    let u = c as u32;
    ||| 0x09 <= u <= 0x0D
    ||| u == 0x20
    ||| u == 0x85
    ||| u == 0xA0
    ||| u == 0x1680
    ||| 0x2000 <= u <= 0x200A
    ||| u == 0x2028
    ||| u == 0x2029
    ||| u == 0x202F
    ||| u == 0x205F
    ||| u == 0x3000
}

/// The rows of a vector of character vectors.
pub open spec fn rows(v: Seq<Vec<char>>) -> Seq<Seq<char>> {
    Seq::new(v.len(), |i: int| v[i]@)
}

/// The pairs of character sequences that a vector of string pairs stands for.
pub open spec fn pairs(v: Seq<(String, String)>) -> Seq<(Seq<char>, Seq<char>)> {
    Seq::new(v.len(), |i: int| (v[i].0@, v[i].1@))
}

/// Index of the first position at or after `from` that holds `c`, or the
/// length of `s` when there is none.
pub open spec fn find_char(s: Seq<char>, c: char, from: int) -> int
    decreases s.len() - from,
{
    if 0 <= from < s.len() && s[from] != c {
        find_char(s, c, from + 1)
    } else if from < s.len() {
        from
    } else {
        s.len() as int
    }
}

/// Index of the first position at or after `from` that holds no whitespace,
/// or the length of `s`.
pub open spec fn skip_whitespace(s: Seq<char>, from: int) -> int
    decreases s.len() - from,
{
    if 0 <= from < s.len() && is_whitespace(s[from]) {
        skip_whitespace(s, from + 1)
    } else if from < s.len() {
        from
    } else {
        s.len() as int
    }
}

/// The end of `s` once trailing whitespace is dropped, never below `floor`.
pub open spec fn trimmed_end(s: Seq<char>, floor: int, end: int) -> int
    decreases end - floor,
{
    if floor < end <= s.len() && is_whitespace(s[end - 1]) {
        trimmed_end(s, floor, end - 1)
    } else {
        end
    }
}

/// `s` without its leading and trailing whitespace.
pub open spec fn trim(s: Seq<char>) -> Seq<char> {
    let start = skip_whitespace(s, 0);
    s.subrange(start, trimmed_end(s, start, s.len() as int))
}

/// A line is blank when it holds nothing but whitespace.
pub open spec fn is_blank(s: Seq<char>) -> bool {
    skip_whitespace(s, 0) == s.len()
}

/// The text of one line: the characters `from..end`, without a carriage
/// return that stands directly before the line feed at `end`.
pub open spec fn line_text(s: Seq<char>, from: int, end: int) -> Seq<char> {
    if from < end < s.len() && s[end - 1] == '\r' {
        s.subrange(from, end - 1)
    } else {
        s.subrange(from, end)
    }
}

/// The lines of `s` that begin at or after `from`.
pub open spec fn lines_from(s: Seq<char>, from: int) -> Seq<Seq<char>>
    decreases s.len() - from,
    via lines_from_terminates
{
    if 0 <= from < s.len() {
        let end = find_char(s, '\n', from);
        if end < s.len() {
            seq![line_text(s, from, end)] + lines_from(s, end + 1)
        } else {
            seq![line_text(s, from, end)]
        }
    } else {
        Seq::empty()
    }
}

#[via_fn]
proof fn lines_from_terminates(s: Seq<char>, from: int) {
    if 0 <= from < s.len() {
        lemma_find_char_bounds(s, '\n', from);
    }
}

/// The lines of `s`. A line ends at a line feed, or at a carriage return
/// directly followed by one; the terminator is not part of the line, and a
/// terminator at the very end of the text opens no further line.
pub open spec fn lines_of(s: Seq<char>) -> Seq<Seq<char>> {
    lines_from(s, 0)
}

/// `lines` joined by single line feeds.
pub open spec fn join_lines(lines: Seq<Seq<char>>) -> Seq<char>
    decreases lines.len(),
{
    if lines.len() == 0 {
        Seq::empty()
    } else if lines.len() == 1 {
        lines[0]
    } else {
        join_lines(lines.drop_last()) + seq!['\n'] + lines.last()
    }
}

/// The character of a decimal digit.
pub open spec fn digit(d: nat) -> char
    recommends
        d < 10,
{
    (0x30 + d) as char
}

/// `n` in decimal, without leading zeros.
pub open spec fn decimal(n: nat) -> Seq<char>
    decreases n,
{
    if n < 10 {
        seq![digit(n)]
    } else {
        decimal(n / 10).push(digit(n % 10))
    }
}

/// Where `find_char` ends: at the first `c` from `from` on, or at the end.
pub proof fn lemma_find_char_bounds(s: Seq<char>, c: char, from: int)
    requires
        0 <= from <= s.len(),
    ensures
        from <= find_char(s, c, from) <= s.len(),
        find_char(s, c, from) < s.len() ==> s[find_char(s, c, from)] == c,
        forall|i: int| from <= i < find_char(s, c, from) ==> s[i] != c,
    decreases s.len() - from,
{
    if from < s.len() && s[from] != c {
        lemma_find_char_bounds(s, c, from + 1);
    }
}

/// The pairs of a vector with one more pair.
pub proof fn lemma_pairs_push(v: Seq<(String, String)>, p: (String, String))
    ensures
        pairs(v.push(p)) == pairs(v).push((p.0@, p.1@)),
{
}

/// `String::push` appends one character to the end of the string.
#[verifier::external_body]
fn push_char(s: &mut String, c: char)
    ensures
        final(s)@ == old(s)@.push(c),
{
    s.push(c)
}

/// The characters of a string, in order.
pub fn to_chars(s: &str) -> (out: Vec<char>)
    ensures
        out@ == s@,
{
    let mut out: Vec<char> = Vec::new();
    for c in it: s.chars()
        invariant
            out@ == it.seq().take(it.index() as int),
    {
        out.push(c);
    }
    out
}

/// The string made of the characters `chars[from..to]`.
pub fn to_string(chars: &Vec<char>, from: usize, to: usize) -> (out: String)
    requires
        from <= to <= chars.len(),
    ensures
        out@ == chars@.subrange(from as int, to as int),
{
    let mut out = String::new();
    let mut i: usize = from;
    while i < to
        invariant
            from <= i <= to <= chars.len(),
            out@ == chars@.subrange(from as int, i as int),
        decreases to - i,
    {
        push_char(&mut out, chars[i]);
        i += 1;
    }
    out
}

/// Tells whether `c` is whitespace.
pub fn whitespace(c: char) -> (r: bool)
    ensures
        r == is_whitespace(c),
{
    let u: u32 = c as u32;
    (0x09 <= u && u <= 0x0D) || u == 0x20 || u == 0x85 || u == 0xA0 || u == 0x1680 || (0x2000 <= u
        && u <= 0x200A) || u == 0x2028 || u == 0x2029 || u == 0x202F || u == 0x205F || u == 0x3000
}

/// Finds the first `c` in `s` at or after `from`.
pub fn find(s: &Vec<char>, c: char, from: usize) -> (r: usize)
    requires
        from <= s.len(),
    ensures
        r == find_char(s@, c, from as int),
        from <= r <= s.len(),
{
    let mut i: usize = from;
    while i < s.len() && s[i] != c
        invariant
            from <= i <= s.len(),
            find_char(s@, c, from as int) == find_char(s@, c, i as int),
        decreases s.len() - i,
    {
        i += 1;
    }
    i
}

/// Finds the first character of `s` at or after `from` that is no whitespace.
pub fn skip_spaces(s: &Vec<char>, from: usize) -> (r: usize)
    requires
        from <= s.len(),
    ensures
        r == skip_whitespace(s@, from as int),
        from <= r <= s.len(),
{
    let mut i: usize = from;
    while i < s.len() && whitespace(s[i])
        invariant
            from <= i <= s.len(),
            skip_whitespace(s@, from as int) == skip_whitespace(s@, i as int),
        decreases s.len() - i,
    {
        i += 1;
    }
    i
}

/// Drops trailing whitespace from `s[floor..end]` and returns the new end.
pub fn trim_back(s: &Vec<char>, floor: usize, end: usize) -> (r: usize)
    requires
        floor <= end <= s.len(),
    ensures
        r == trimmed_end(s@, floor as int, end as int),
        floor <= r <= end,
{
    let mut i: usize = end;
    while floor < i && whitespace(s[i - 1])
        invariant
            floor <= i <= end <= s.len(),
            trimmed_end(s@, floor as int, end as int) == trimmed_end(s@, floor as int, i as int),
        decreases i - floor,
    {
        i -= 1;
    }
    i
}

/// Tells whether `s` holds nothing but whitespace.
pub fn blank(s: &Vec<char>) -> (r: bool)
    ensures
        r == is_blank(s@),
{
    skip_spaces(s, 0) == s.len()
}

/// Appends the characters of `chars` to `out`.
pub fn push_chars(out: &mut String, chars: &Vec<char>)
    ensures
        final(out)@ == old(out)@ + chars@,
{
    let mut i: usize = 0;
    while i < chars.len()
        invariant
            i <= chars.len(),
            out@ == old(out)@ + chars@.take(i as int),
        decreases chars.len() - i,
    {
        push_char(out, chars[i]);
        i += 1;
    }
}

/// The characters `chars[from..to]` as a vector of their own.
pub fn slice(chars: &Vec<char>, from: usize, to: usize) -> (out: Vec<char>)
    requires
        from <= to <= chars.len(),
    ensures
        out@ == chars@.subrange(from as int, to as int),
{
    let mut out: Vec<char> = Vec::new();
    let mut i: usize = from;
    while i < to
        invariant
            from <= i <= to <= chars.len(),
            out@ == chars@.subrange(from as int, i as int),
        decreases to - i,
    {
        out.push(chars[i]);
        i += 1;
    }
    out
}

/// `s[from..to]` without its leading and trailing whitespace.
pub fn trimmed(s: &Vec<char>, from: usize, to: usize) -> (out: String)
    requires
        from <= to <= s.len(),
    ensures
        out@ == trim(s@.subrange(from as int, to as int)),
{
    let part = slice(s, from, to);
    let start = skip_spaces(&part, 0);
    let end = trim_back(&part, start, part.len());
    to_string(&part, start, end)
}

/// Splits `text` into its lines.
pub fn split_lines(text: &Vec<char>) -> (lines: Vec<Vec<char>>)
    ensures
        rows(lines@) == lines_of(text@),
{
    let mut lines: Vec<Vec<char>> = Vec::new();
    let mut i: usize = 0;
    while i < text.len()
        invariant
            i <= text.len(),
            lines_of(text@) == rows(lines@) + lines_from(text@, i as int),
        decreases text.len() - i,
    {
        let end = find(text, '\n', i);
        let stop: usize = if i < end && end < text.len() && text[end - 1] == '\r' {
            (end - 1) as usize
        } else {
            end
        };
        let line = slice(text, i, stop);
        lines.push(line);
        if end < text.len() {
            i = end + 1;
        } else {
            i = end;
        }
    }
    lines
}

/// Appends `lines[from..to]`, joined by line feeds, to `out`.
pub fn push_joined(out: &mut String, lines: &Vec<Vec<char>>, from: usize, to: usize)
    requires
        from <= to <= lines.len(),
    ensures
        final(out)@ == old(out)@ + join_lines(rows(lines@).subrange(from as int, to as int)),
{
    let ghost all = rows(lines@).subrange(from as int, to as int);
    let mut i: usize = from;
    while i < to
        invariant
            from <= i <= to <= lines.len(),
            all == rows(lines@).subrange(from as int, to as int),
            out@ == old(out)@ + join_lines(all.take(i - from)),
        decreases to - i,
    {
        if i > from {
            push_char(out, '\n');
        }
        push_chars(out, &lines[i]);
        assert(all.take(i - from + 1).drop_last() == all.take(i - from));
        i += 1;
    }
    assert(all.take(to - from) == all);
}

/// A copy of `v` that holds the same strings.
pub fn clone_pairs(v: &Vec<(String, String)>) -> (out: Vec<(String, String)>)
    ensures
        pairs(out@) == pairs(v@),
{
    let mut out: Vec<(String, String)> = Vec::new();
    let mut i: usize = 0;
    while i < v.len()
        invariant
            i <= v.len(),
            pairs(out@) == pairs(v@).take(i as int),
        decreases v.len() - i,
    {
        let name = v[i].0.clone();
        let value = v[i].1.clone();
        proof {
            lemma_pairs_push(out@, (name, value));
        }
        out.push((name, value));
        i += 1;
    }
    out
}

/// Appends `n` in decimal to `out`.
pub fn push_decimal(out: &mut String, n: u128)
    ensures
        final(out)@ == old(out)@ + decimal(n as nat),
    decreases n,
{
    if n >= 10 {
        push_decimal(out, n / 10);
    }
    let d: u8 = (n % 10) as u8;
    let c: char = (0x30u8 + d) as char;
    push_char(out, c);
}

/// Tells whether two character vectors hold the same text.
pub fn same_text(a: &Vec<char>, b: &Vec<char>) -> (r: bool)
    ensures
        r == (a@ == b@),
{
    if a.len() != b.len() {
        return false;
    }
    let mut i: usize = 0;
    while i < a.len()
        invariant
            i <= a.len(),
            a.len() == b.len(),
            a@.take(i as int) == b@.take(i as int),
        decreases a.len() - i,
    {
        if a[i] != b[i] {
            return false;
        }
        i += 1;
    }
    assert(a@.take(a.len() as int) == a@);
    assert(b@.take(b.len() as int) == b@);
    true
}

/// Tells whether `chars` spells `word`.
pub fn spells(chars: &Vec<char>, word: &str) -> (r: bool)
    ensures
        r == (chars@ == word@),
{
    let other = to_chars(word);
    same_text(chars, &other)
}

/// Tells whether `s[from..]` begins with `word`.
pub fn has_prefix_at(s: &Vec<char>, from: usize, word: &Vec<char>) -> (r: bool)
    requires
        from <= s.len(),
    ensures
        r == (from + word.len() <= s.len() && s@.subrange(from as int, from + word.len())
            == word@),
{
    if word.len() > s.len() - from {
        return false;
    }
    let part = slice(s, from, from + word.len());
    same_text(&part, word)
}

/// The characters that bytes stand for, each byte for the character of its
/// number.
pub open spec fn chars_of_bytes(bytes: Seq<u8>) -> Seq<char> {
    Seq::new(bytes.len(), |i: int| bytes[i] as char)
}

/// The string of the characters that `bytes` stand for.
pub fn bytes_to_string(bytes: &Vec<u8>) -> (out: String)
    ensures
        out@ == chars_of_bytes(bytes@),
{
    let mut out = String::new();
    let mut i: usize = 0;
    while i < bytes.len()
        invariant
            i <= bytes.len(),
            out@ == chars_of_bytes(bytes@.take(i as int)),
        decreases bytes.len() - i,
    {
        push_char(&mut out, bytes[i] as char);
        i += 1;
        assert(chars_of_bytes(bytes@.take(i as int)) =~= chars_of_bytes(bytes@.take(i - 1)).push(
            bytes@[i - 1] as char,
        ));
    }
    assert(bytes@.take(bytes.len() as int) == bytes@);
    out
}

} // verus!
