use md_title_gen::heading::parse_heading;
use md_title_gen::outline::{make_outline_entry, render_lines, scan_lines};
use md_title_gen::MarkDownTitleGenerator;

fn strings(lines: &[&str]) -> Vec<String> {
    lines.iter().map(|s| s.to_string()).collect()
}

fn run(lines: &[&str], tab: u8, skip: bool) -> Vec<String> {
    let g = MarkDownTitleGenerator::new("doc.md", "Auto-Title:".to_string(), tab).unwrap();
    g.generate(&strings(lines), skip)
}

#[test]
fn intro_and_details_without_skip() {
    let out = run(&["# Intro", "hello", "## Details", "world"], 2, false);
    assert_eq!(
        out,
        strings(&["# Auto-Title:", "* Intro", "  * Details", "", "# Intro", "hello", "## Details", "world"])
    );
}

#[test]
fn intro_and_details_with_skip() {
    let out = run(&["# Intro", "hello", "## Details", "world"], 2, true);
    assert_eq!(out, strings(&["# Auto-Title:", "  * Details", "", "## Details", "world"]));
}

#[test]
fn outline_has_one_entry_per_kept_heading() {
    let src = ["# A", "x", "## B", "#not", "### C", "y", "# D"];
    let (outline, body) = scan_lines(&strings(&src), 4, false);
    assert_eq!(outline.len(), 4);
    assert_eq!(body, strings(&src));
    let (outline, _) = scan_lines(&strings(&src), 4, true);
    assert_eq!(outline.len(), 3);
}

#[test]
fn indent_depends_on_level_only() {
    let out = run(&["### Deep", "# Top", "##### Deeper"], 3, false);
    assert_eq!(out[1], "      * Deep");
    assert_eq!(out[2], "* Top");
    assert_eq!(out[3], "            * Deeper");
    let out = run(&["## Two"], 0, false);
    assert_eq!(out[1], "* Two");
}

#[test]
fn skip_drops_first_section_up_to_next_heading() {
    let out = run(&["preface", "# First", "a", "b", "# Second", "c"], 4, true);
    assert_eq!(out, strings(&["# Auto-Title:", "* Second", "", "preface", "# Second", "c"]));
}

#[test]
fn skip_with_single_heading_drops_to_end() {
    let out = run(&["# Only", "a", "b"], 4, true);
    assert_eq!(out, strings(&["# Auto-Title:", ""]));
}

#[test]
fn no_headings_round_trip() {
    let src = ["plain", "", "#hashtag", "text"];
    for skip in [false, true] {
        let out = run(&src, 4, skip);
        assert_eq!(out, strings(&["# Auto-Title:", "", "plain", "", "#hashtag", "text"]));
    }
    assert_eq!(run(&[], 4, false), strings(&["# Auto-Title:", ""]));
}

#[test]
fn heading_recognition() {
    assert_eq!(parse_heading("# Title"), Some((1, "Title".to_string())));
    assert_eq!(parse_heading("###   Deep  title "), Some((3, "Deep  title ".to_string())));
    assert_eq!(parse_heading("#\tTab"), Some((1, "Tab".to_string())));
    assert_eq!(parse_heading("## Über"), Some((2, "Über".to_string())));
    assert_eq!(parse_heading("#\u{3000}wide"), Some((1, "wide".to_string())));
    assert_eq!(parse_heading("#nospace"), None);
    assert_eq!(parse_heading("#   "), None);
    assert_eq!(parse_heading("#"), None);
    assert_eq!(parse_heading("plain"), None);
    assert_eq!(parse_heading(""), None);
    assert_eq!(parse_heading("  # indented"), None);
}

#[test]
fn outline_entry_text() {
    assert_eq!(make_outline_entry(3, "x", 2), "    * x");
    assert_eq!(make_outline_entry(1, "top", 8), "* top");
    assert_eq!(make_outline_entry(2, "y", 0), "* y");
}

#[test]
fn rendering_terminates_each_line() {
    assert_eq!(render_lines(&strings(&["a", "", "b"])), "a\n\nb\n");
    assert_eq!(render_lines(&Vec::new()), "");
    let out = run(&["# Intro", "hello"], 4, false);
    assert_eq!(render_lines(&out), "# Auto-Title:\n* Intro\n\n# Intro\nhello\n");
}

#[test]
fn title_message_is_used() {
    let g = MarkDownTitleGenerator::new("doc.md", "Contents".to_string(), 4).unwrap();
    assert_eq!(g.generate(&Vec::new(), false), strings(&["# Contents", ""]));
}
