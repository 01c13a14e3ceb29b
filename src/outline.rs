//! The outline and body of a document, as a left-to-right scan over its lines.
use vstd::prelude::*;
use vstd::string::*;
use crate::heading::{is_heading, level, heading_text, parse_heading};

verus! {

/// `n` space characters.
pub open spec fn spaces(n: nat) -> Seq<char> {
    Seq::new(n, |i: int| ' ')
}

/// The outline entry of a heading line: its indentation, the bullet, its text.
pub open spec fn outline_entry(line: Seq<char>, tab: nat) -> Seq<char> {
    spaces(((level(line) - 1) * tab) as nat) + seq!['*', ' '] + heading_text(line)
}

/// The synthetic top entry of every outline.
pub open spec fn title_entry(title: Seq<char>) -> Seq<char> {
    seq!['#', ' '] + title
}

/// The views of a sequence of strings.
pub open spec fn views(v: Seq<String>) -> Seq<Seq<char>> {
    v.map_values(|s: String| s@)
}

/// Pushing a string pushes its view.
pub proof fn lemma_views_push(v: Seq<String>, s: String)
    ensures
        views(v.push(s)) == views(v).push(s@),
{
    assert(views(v.push(s)) =~= views(v).push(s@));
}

/// Where a scan stands after some prefix of the lines.
pub struct ScanState {
    pub outline: Seq<Seq<char>>,
    pub body: Seq<Seq<char>>,
    /// Inside the section of the first heading, which is being dropped.
    pub inside_skipped: bool,
    /// The first heading is still to come and is to be dropped.
    pub pending_skip: bool,
}

pub open spec fn scan_start(skip_first_title: bool) -> ScanState {
    ScanState { outline: seq![], body: seq![], inside_skipped: false, pending_skip: skip_first_title }
}

/// One line of the scan.
pub open spec fn scan_step(st: ScanState, line: Seq<char>, tab: nat) -> ScanState {
    if is_heading(line) {
        if st.pending_skip {
            ScanState { inside_skipped: true, pending_skip: false, ..st }
        } else {
            ScanState {
                outline: st.outline.push(outline_entry(line, tab)),
                body: st.body.push(line),
                inside_skipped: false,
                pending_skip: false,
            }
        }
    } else if st.inside_skipped {
        st
    } else {
        ScanState { body: st.body.push(line), ..st }
    }
}

/// The scan over all of `lines`.
pub open spec fn scan(lines: Seq<Seq<char>>, tab: nat, skip_first_title: bool) -> ScanState
    decreases lines.len(),
{
    if lines.len() == 0 {
        scan_start(skip_first_title)
    } else {
        scan_step(scan(lines.drop_last(), tab, skip_first_title), lines.last(), tab)
    }
}

/// The whole output: title entry, outline entries, one empty line, body.
pub open spec fn document(
    title: Seq<char>,
    lines: Seq<Seq<char>>,
    tab: nat,
    skip_first_title: bool,
) -> Seq<Seq<char>> {
    let st = scan(lines, tab, skip_first_title);
    seq![title_entry(title)] + st.outline + seq![Seq::<char>::empty()] + st.body
}

/// The text written out for a sequence of lines: each followed by a newline.
pub open spec fn terminated(lines: Seq<Seq<char>>) -> Seq<char>
    decreases lines.len(),
{
    if lines.len() == 0 {
        Seq::<char>::empty()
    } else {
        terminated(lines.drop_last()) + lines.last() + seq!['\n']
    }
}

/// Builds the outline entry of a heading of the given level and text.
pub fn make_outline_entry(lvl: usize, text: &str, tab: u8) -> (r: String)
    requires
        lvl >= 1,
    ensures
        r@ == spaces(((lvl - 1) * tab) as nat) + seq!['*', ' '] + text@,
{
    let mut unit = String::new();
    let mut j: u8 = 0;
    while j < tab
        invariant
            j <= tab,
            unit@ == spaces(j as nat),
        decreases tab - j,
    {
        proof { reveal_strlit(" "); }
        unit.append(" ");
        assert(unit@ =~= spaces((j + 1) as nat));
        j = j + 1;
    }
    let mut r = String::new();
    let mut k: usize = 0;
    while k < lvl - 1
        invariant
            k <= lvl - 1,
            unit@ == spaces(tab as nat),
            r@ == spaces((k * tab) as nat),
        decreases lvl - 1 - k,
    {
        r.append(unit.as_str());
        assert((k + 1) * tab == k * tab + tab) by (nonlinear_arith);
        assert(r@ =~= spaces(((k + 1) * tab) as nat));
        k = k + 1;
    }
    proof { reveal_strlit("* "); }
    r.append("* ");
    r.append(text);
    r
}

/// Scans `lines` once, returning the outline entries and the body lines.
pub fn scan_lines(lines: &Vec<String>, tab: u8, skip_first_title: bool) -> (r: (
    Vec<String>,
    Vec<String>,
))
    ensures
        views(r.0@) == scan(views(lines@), tab as nat, skip_first_title).outline,
        views(r.1@) == scan(views(lines@), tab as nat, skip_first_title).body,
{
    let mut outline: Vec<String> = Vec::new();
    let mut body: Vec<String> = Vec::new();
    let mut inside_skipped = false;
    let mut pending_skip = skip_first_title;
    let mut i: usize = 0;
    while i < lines.len()
        invariant
            i <= lines@.len(),
            ({
                let st = scan(views(lines@).take(i as int), tab as nat, skip_first_title);
                &&& views(outline@) == st.outline
                &&& views(body@) == st.body
                &&& inside_skipped == st.inside_skipped
                &&& pending_skip == st.pending_skip
            }),
        decreases lines.len() - i,
    {
        let line = &lines[i];
        let ghost pre = views(lines@).take(i as int);
        let ghost next = views(lines@).take(i + 1);
        assert(next.drop_last() =~= pre);
        assert(next.last() == line@);
        match parse_heading(line.as_str()) {
            Some((lvl, text)) => {
                if pending_skip {
                    inside_skipped = true;
                    pending_skip = false;
                } else {
                    inside_skipped = false;
                    let entry = make_outline_entry(lvl, text.as_str(), tab);
                    outline.push(entry);
                    body.push(line.clone());
                    assert(views(outline@) =~= scan(next, tab as nat, skip_first_title).outline);
                    assert(views(body@) =~= scan(next, tab as nat, skip_first_title).body);
                }
            },
            None => {
                if !inside_skipped {
                    body.push(line.clone());
                    assert(views(body@) =~= scan(next, tab as nat, skip_first_title).body);
                }
            },
        }
        i = i + 1;
    }
    assert(views(lines@).take(i as int) =~= views(lines@));
    (outline, body)
}

/// Joins lines into text, ending each one with a newline.
pub fn render_lines(lines: &Vec<String>) -> (r: String)
    ensures
        r@ == terminated(views(lines@)),
{
    let mut r = String::new();
    let mut i: usize = 0;
    while i < lines.len()
        invariant
            i <= lines@.len(),
            r@ == terminated(views(lines@).take(i as int)),
        decreases lines.len() - i,
    {
        let ghost next = views(lines@).take(i + 1);
        assert(next.drop_last() =~= views(lines@).take(i as int));
        proof { reveal_strlit("\n"); }
        r.append(lines[i].as_str());
        r.append("\n");
        i = i + 1;
    }
    assert(views(lines@).take(i as int) =~= views(lines@));
    r
}

} // verus!
