//! Recognition of single-line headings: a run of `#`, whitespace, then text.
use vstd::prelude::*;
use vstd::string::*;

verus! {

/// The characters that count as whitespace between the markers and the text
/// (Unicode `White_Space`).
pub open spec fn is_ws(c: char) -> bool {
    let v = c as u32;
    (9 <= v <= 13) || v == 32 || v == 0x85 || v == 0xa0 || v == 0x1680 || (0x2000 <= v
        <= 0x200a) || v == 0x2028 || v == 0x2029 || v == 0x202f || v == 0x205f || v == 0x3000
}

/// Number of consecutive `#` characters in `s` starting at position `i`.
pub open spec fn hash_run_from(s: Seq<char>, i: int) -> nat
    decreases s.len() - i,
{
    if 0 <= i < s.len() && s[i] == '#' {
        1 + hash_run_from(s, i + 1)
    } else {
        0
    }
}

/// Number of consecutive whitespace characters in `s` starting at position `i`.
pub open spec fn ws_run_from(s: Seq<char>, i: int) -> nat
    decreases s.len() - i,
{
    if 0 <= i < s.len() && is_ws(s[i]) {
        1 + ws_run_from(s, i + 1)
    } else {
        0
    }
}

/// The level of a line: how many `#` it starts with.
pub open spec fn level(line: Seq<char>) -> nat {
    hash_run_from(line, 0)
}

/// Where the text of a heading begins: after the markers and the whitespace.
pub open spec fn text_start(line: Seq<char>) -> nat {
    level(line) + ws_run_from(line, level(line) as int)
}

/// A heading is at least one `#`, at least one whitespace character, and
/// non-empty text after them.
pub open spec fn is_heading(line: Seq<char>) -> bool {
    &&& level(line) >= 1
    &&& ws_run_from(line, level(line) as int) >= 1
    &&& text_start(line) < line.len()
}

/// The text of a heading: everything after the markers and the whitespace.
pub open spec fn heading_text(line: Seq<char>) -> Seq<char> {
    line.subrange(text_start(line) as int, line.len() as int)
}

/// Whitespace test matching `is_ws`.
pub fn is_whitespace_char(c: char) -> (r: bool)
    ensures
        r == is_ws(c),
{
    let v = c as u32;
    (9 <= v && v <= 13) || v == 32 || v == 0x85 || v == 0xa0 || v == 0x1680 || (0x2000 <= v && v
        <= 0x200a) || v == 0x2028 || v == 0x2029 || v == 0x202f || v == 0x205f || v == 0x3000
}

/// Recognizes a heading line, returning its level and its text.
pub fn parse_heading(line: &str) -> (r: Option<(usize, String)>)
    ensures
        r is Some <==> is_heading(line@),
        r matches Some((l, t)) ==> l == level(line@) && t@ == heading_text(line@),
{
    let n = line.unicode_len();
    let mut i: usize = 0;
    while i < n && line.get_char(i) == '#'
        invariant
            i <= n == line@.len(),
            forall|j: int| 0 <= j < i ==> line@[j] == '#',
            hash_run_from(line@, 0) == i + hash_run_from(line@, i as int),
        decreases n - i,
    {
        i = i + 1;
    }
    let lvl = i;
    let mut k: usize = i;
    while k < n && is_whitespace_char(line.get_char(k))
        invariant
            lvl <= k <= n == line@.len(),
            lvl == level(line@),
            ws_run_from(line@, lvl as int) == (k - lvl) + ws_run_from(line@, k as int),
        decreases n - k,
    {
        k = k + 1;
    }
    if lvl >= 1 && k > lvl && k < n {
        let text = line.substring_char(k, n);
        Some((lvl, String::from_str(text)))
    } else {
        None
    }
}

} // verus!
