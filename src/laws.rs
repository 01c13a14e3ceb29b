//! What holds of every scan: which headings reach the outline, how they are
//! indented, and which lines reach the body.
use vstd::prelude::*;
use crate::heading::{is_heading, level, heading_text};
use crate::outline::{document, outline_entry, scan, spaces, title_entry};

verus! {

/// The heading lines among `lines`, in order.
pub open spec fn headings(lines: Seq<Seq<char>>) -> Seq<Seq<char>>
    decreases lines.len(),
{
    if lines.len() == 0 {
        Seq::<Seq<char>>::empty()
    } else if is_heading(lines.last()) {
        headings(lines.drop_last()).push(lines.last())
    } else {
        headings(lines.drop_last())
    }
}

/// The heading lines that get an outline entry: all of them, or all but the
/// first when the first section is skipped.
pub open spec fn outlined_headings(lines: Seq<Seq<char>>, skip_first_title: bool) -> Seq<
    Seq<char>,
> {
    let h = headings(lines);
    if skip_first_title && h.len() > 0 {
        h.drop_first()
    } else {
        h
    }
}

/// The outline entries of a sequence of heading lines.
pub open spec fn entries(hs: Seq<Seq<char>>, tab: nat) -> Seq<Seq<char>> {
    hs.map_values(|h: Seq<char>| outline_entry(h, tab))
}

proof fn lemma_headings_are_headings(lines: Seq<Seq<char>>)
    ensures
        forall|i: int| 0 <= i < headings(lines).len() ==> is_heading(#[trigger] headings(lines)[i]),
    decreases lines.len(),
{
    if lines.len() > 0 {
        let dl = lines.drop_last();
        lemma_headings_are_headings(dl);
        assert forall|i: int| 0 <= i < headings(lines).len() implies is_heading(
            #[trigger] headings(lines)[i],
        ) by {
            if i < headings(dl).len() {
                if is_heading(lines.last()) {
                    assert(headings(lines)[i] == headings(dl)[i]);
                }
            }
        }
    }
}

/// The outline of a scan holds one entry per outlined heading, in source order.
pub proof fn lemma_scan_outline(lines: Seq<Seq<char>>, tab: nat, skip_first_title: bool)
    ensures
        scan(lines, tab, skip_first_title).outline == entries(
            outlined_headings(lines, skip_first_title),
            tab,
        ),
        scan(lines, tab, skip_first_title).pending_skip == (skip_first_title && headings(
            lines,
        ).len() == 0),
    decreases lines.len(),
{
    if lines.len() == 0 {
        assert(entries(outlined_headings(lines, skip_first_title), tab) =~= Seq::<
            Seq<char>,
        >::empty());
    } else {
        let dl = lines.drop_last();
        let x = lines.last();
        lemma_scan_outline(dl, tab, skip_first_title);
        let hd = headings(dl);
        if is_heading(x) {
            if skip_first_title && hd.len() == 0 {
                assert(outlined_headings(lines, skip_first_title) =~= Seq::<Seq<char>>::empty());
                assert(outlined_headings(dl, skip_first_title) =~= Seq::<Seq<char>>::empty());
                assert(entries(outlined_headings(dl, skip_first_title), tab) =~= Seq::<
                    Seq<char>,
                >::empty());
                assert(entries(outlined_headings(lines, skip_first_title), tab) =~= Seq::<
                    Seq<char>,
                >::empty());
            } else {
                let od = outlined_headings(dl, skip_first_title);
                assert(outlined_headings(lines, skip_first_title) =~= od.push(x));
                assert(entries(od.push(x), tab) =~= entries(od, tab).push(outline_entry(x, tab)));
            }
        }
    }
}

/// One outline entry per heading line, leaving out the skipped first heading:
/// the outline below the title entry is as long as the count of headings
/// outside the skipped section.
pub proof fn lemma_outline_counts_headings(
    lines: Seq<Seq<char>>,
    tab: nat,
    skip_first_title: bool,
)
    ensures
        scan(lines, tab, skip_first_title).outline.len() == if skip_first_title && headings(
            lines,
        ).len() > 0 {
            headings(lines).len() - 1
        } else {
            headings(lines).len() as int
        },
{
    lemma_scan_outline(lines, tab, skip_first_title);
}

/// The entry of a heading at level L starts with exactly (L - 1) * tab
/// spaces, then the bullet `* `, then the heading's text; nothing else
/// bears on it.
pub proof fn lemma_outline_indent(lines: Seq<Seq<char>>, tab: nat, skip_first_title: bool, i: int)
    requires
        0 <= i < scan(lines, tab, skip_first_title).outline.len(),
    ensures
        ({
            let h = outlined_headings(lines, skip_first_title)[i];
            let e = scan(lines, tab, skip_first_title).outline[i];
            let n = ((level(h) - 1) * tab) as nat;
            &&& is_heading(h)
            &&& e.len() == n + 2 + heading_text(h).len()
            &&& forall|k: int| 0 <= k < n ==> e[k] == ' '
            &&& e[n as int] == '*'
            &&& e[n as int + 1] == ' '
            &&& e.subrange(n as int + 2, e.len() as int) == heading_text(h)
        }),
{
    lemma_scan_outline(lines, tab, skip_first_title);
    lemma_headings_are_headings(lines);
    let hs = outlined_headings(lines, skip_first_title);
    let h = hs[i];
    if skip_first_title && headings(lines).len() > 0 {
        assert(h == headings(lines)[i + 1]);
    }
    let n = ((level(h) - 1) * tab) as nat;
    let e = scan(lines, tab, skip_first_title).outline[i];
    assert(e == spaces(n) + seq!['*', ' '] + heading_text(h));
    assert(e.subrange(n as int + 2, e.len() as int) =~= heading_text(h));
}

proof fn lemma_scan_without_headings(lines: Seq<Seq<char>>, tab: nat, skip_first_title: bool)
    requires
        forall|j: int| 0 <= j < lines.len() ==> !is_heading(#[trigger] lines[j]),
    ensures
        scan(lines, tab, skip_first_title).outline == Seq::<Seq<char>>::empty(),
        scan(lines, tab, skip_first_title).body == lines,
        !scan(lines, tab, skip_first_title).inside_skipped,
        scan(lines, tab, skip_first_title).pending_skip == skip_first_title,
    decreases lines.len(),
{
    if lines.len() == 0 {
        assert(scan(lines, tab, skip_first_title).body =~= lines);
    } else {
        let dl = lines.drop_last();
        assert forall|j: int| 0 <= j < dl.len() implies !is_heading(#[trigger] dl[j]) by {
            assert(dl[j] == lines[j]);
        }
        lemma_scan_without_headings(dl, tab, skip_first_title);
        assert(!is_heading(lines[lines.len() - 1]));
        assert(dl.push(lines.last()) =~= lines);
    }
}

proof fn lemma_scan_no_skip(lines: Seq<Seq<char>>, tab: nat)
    ensures
        scan(lines, tab, false).body == lines,
        scan(lines, tab, false).outline == entries(headings(lines), tab),
        !scan(lines, tab, false).inside_skipped,
        !scan(lines, tab, false).pending_skip,
    decreases lines.len(),
{
    lemma_scan_outline(lines, tab, false);
    if lines.len() == 0 {
        assert(scan(lines, tab, false).body =~= lines);
    } else {
        let dl = lines.drop_last();
        lemma_scan_no_skip(dl, tab);
        assert(dl.push(lines.last()) =~= lines);
    }
}

/// Without skipping, every heading has its outline entry, and the output is
/// the outline block above the source unchanged.
pub proof fn lemma_no_skip_keeps_everything(title: Seq<char>, lines: Seq<Seq<char>>, tab: nat)
    ensures
        scan(lines, tab, false).outline == entries(headings(lines), tab),
        document(title, lines, tab, false) == seq![title_entry(title)] + entries(
            headings(lines),
            tab,
        ) + seq![Seq::<char>::empty()] + lines,
{
    lemma_scan_no_skip(lines, tab);
}

/// With skipping, when the first heading stands at `first` and the next one at
/// `next` (or there is none, and `next` is the line count), the lines from
/// `first` up to `next` are left out of the body, the first heading gets no
/// outline entry, and every other heading does.
pub proof fn lemma_skip_drops_first_section(
    lines: Seq<Seq<char>>,
    tab: nat,
    first: int,
    next: int,
)
    requires
        0 <= first < next <= lines.len(),
        is_heading(lines[first]),
        forall|j: int| 0 <= j < first ==> !is_heading(#[trigger] lines[j]),
        forall|j: int| first < j < next ==> !is_heading(#[trigger] lines[j]),
        next == lines.len() || is_heading(lines[next]),
    ensures
        scan(lines, tab, true).body == lines.take(first) + lines.skip(next),
        scan(lines, tab, true).outline == entries(headings(lines).drop_first(), tab),
        scan(lines, tab, true).inside_skipped == (next == lines.len()),
        !scan(lines, tab, true).pending_skip,
    decreases lines.len(),
{
    lemma_scan_outline(lines, tab, true);
    let dl = lines.drop_last();
    let x = lines.last();
    assert(dl.push(x) =~= lines);
    if lines.len() - 1 == first {
        assert forall|j: int| 0 <= j < dl.len() implies !is_heading(#[trigger] dl[j]) by {
            assert(dl[j] == lines[j]);
        }
        lemma_scan_without_headings(dl, tab, true);
        assert(lines.take(first) =~= dl);
        assert(lines.take(first) + lines.skip(next) =~= dl);
    } else {
        assert(lines.len() - 1 > first);
        if next == lines.len() {
            assert forall|j: int| first < j < dl.len() implies !is_heading(#[trigger] dl[j]) by {
                assert(dl[j] == lines[j]);
            }
            assert forall|j: int| 0 <= j < first implies !is_heading(#[trigger] dl[j]) by {
                assert(dl[j] == lines[j]);
            }
            lemma_skip_drops_first_section(dl, tab, first, dl.len() as int);
            assert(!is_heading(x));
            assert(lines.take(first) + lines.skip(next) =~= dl.take(first) + dl.skip(
                dl.len() as int,
            ));
        } else {
            let nd = if next == dl.len() {
                dl.len() as int
            } else {
                next
            };
            assert forall|j: int| first < j < nd implies !is_heading(#[trigger] dl[j]) by {
                assert(dl[j] == lines[j]);
            }
            assert forall|j: int| 0 <= j < first implies !is_heading(#[trigger] dl[j]) by {
                assert(dl[j] == lines[j]);
            }
            lemma_skip_drops_first_section(dl, tab, first, nd);
            assert(lines.take(first) + lines.skip(next) =~= (dl.take(first) + dl.skip(nd)).push(
                x,
            ));
        }
    }
}

/// A document without headings comes out as the title entry, an empty line,
/// and the document unchanged, whether or not skipping is asked for.
pub proof fn lemma_no_headings_round_trip(
    title: Seq<char>,
    lines: Seq<Seq<char>>,
    tab: nat,
    skip_first_title: bool,
)
    requires
        forall|j: int| 0 <= j < lines.len() ==> !is_heading(#[trigger] lines[j]),
    ensures
        document(title, lines, tab, skip_first_title) == seq![
            title_entry(title),
            Seq::<char>::empty(),
        ] + lines,
{
    lemma_scan_without_headings(lines, tab, skip_first_title);
    assert(document(title, lines, tab, skip_first_title) =~= seq![
        title_entry(title),
        Seq::<char>::empty(),
    ] + lines);
}

} // verus!
