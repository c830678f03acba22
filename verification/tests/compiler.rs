use filter_engine::compiler::{
    classify_line, collect_rule_lines, compile, compile_lines, push_rule_lines, CompileStats, LineKind,
};
use filter_engine::text::split_lines;

fn texts(list: &[&str]) -> Vec<String> {
    list.iter().map(|t| t.to_string()).collect()
}

#[test]
fn lines_are_split_at_line_feeds() {
    assert_eq!(split_lines(""), Vec::<String>::new());
    assert_eq!(split_lines("a"), texts(&["a"]));
    assert_eq!(split_lines("a\n"), texts(&["a"]));
    assert_eq!(split_lines("a\nb"), texts(&["a", "b"]));
    assert_eq!(split_lines("a\n\nb\n"), texts(&["a", "", "b"]));
    assert_eq!(split_lines("\n"), texts(&[""]));
    assert_eq!(split_lines("\n\n"), texts(&["", ""]));
}

#[test]
fn carriage_return_before_a_line_feed_belongs_to_the_ending() {
    assert_eq!(split_lines("a\r\nb\r\n"), texts(&["a", "b"]));
    assert_eq!(split_lines("a\r\n\r\nb"), texts(&["a", "", "b"]));
    assert_eq!(split_lines("\r\n"), texts(&[""]));
    // Only one carriage return is taken, and only before a line feed.
    assert_eq!(split_lines("a\r\r\nb"), texts(&["a\r", "b"]));
    assert_eq!(split_lines("a\rb\nc"), texts(&["a\rb", "c"]));
    assert_eq!(split_lines("a\r"), texts(&["a\r"]));
    assert_eq!(split_lines("a\n\r"), texts(&["a", "\r"]));
}

#[test]
fn lines_agree_with_the_standard_library() {
    for text in ["", "a", "a\n", "\n", "a\r\nb", "a\r", "\r", "\r\r\n\r", "x\n\ny\r\n\r\nz", "é€\r\n✓"] {
        let expected: Vec<String> = text.lines().map(|l| l.to_string()).collect();
        assert_eq!(split_lines(text), expected, "{:?}", text);
    }
}

#[test]
fn lines_are_classified_by_their_first_character() {
    assert_eq!(classify_line(""), LineKind::Blank);
    assert_eq!(classify_line("! comment"), LineKind::Comment);
    assert_eq!(classify_line("!"), LineKind::Comment);
    assert_eq!(classify_line("[Adblock Plus 2.0]"), LineKind::Comment);
    assert_eq!(classify_line("||example.com^"), LineKind::Rule);
    assert_eq!(classify_line("example.com##.ad"), LineKind::Rule);
    assert_eq!(classify_line(" "), LineKind::Rule);
    assert_eq!(classify_line(" ! not at the start"), LineKind::Rule);
    assert_eq!(classify_line("@@||example.com^"), LineKind::Rule);
}

#[test]
fn rule_lines_leave_out_blanks_comments_and_headers() {
    let mut out = vec!["kept".to_string()];
    push_rule_lines("[Adblock Plus 2.0]\n! Title: x\n\n||a.example^\r\n\nb.example##.ad\n!end", &mut out);
    assert_eq!(out, texts(&["kept", "||a.example^", "b.example##.ad"]));
    let all = collect_rule_lines(&texts(&["! one\n||a.example^\n", "", "||b.example^\n\n||c.example^"]));
    assert_eq!(all, texts(&["||a.example^", "||b.example^", "||c.example^"]));
    assert_eq!(collect_rule_lines(&vec![]), Vec::<String>::new());
}

#[test]
fn compile_counts_accepted_and_dropped_lines() {
    let list = "! Title: test\n[Adblock Plus 2.0]\n\n||doubleclick.net^\n||example.com^$nosuchoption\nexample.com##.ad\n   \n";
    let (rules, stats) = compile(&texts(&[list]));
    // Two lines parse; the unknown option and the line of spaces do not.
    assert_eq!(stats, CompileStats { accepted: 2, dropped: 2 });
    assert!(rules.check("https://doubleclick.net/x.js", "https://example.com", "script"));
}

#[test]
fn a_malformed_line_never_stops_the_compilation() {
    let (rules, stats) = compile(&texts(&["||a.example^$nosuchoption\n||b.example^\n$$$\n||c.example^"]));
    assert_eq!(stats.accepted + stats.dropped, 4);
    assert!(stats.dropped >= 1);
    assert!(rules.check("https://b.example/x.js", "https://example.com", "script"));
    assert!(rules.check("https://c.example/x.js", "https://example.com", "script"));
    assert!(!rules.check("https://a.example/x.js", "https://example.com", "script"));
}

#[test]
fn rules_of_all_texts_are_merged() {
    let (rules, stats) = compile(&texts(&["||a.example^", "||b.example^\n", "! only a comment"]));
    assert_eq!(stats, CompileStats { accepted: 2, dropped: 0 });
    assert!(rules.check("https://a.example/x.js", "https://example.com", "script"));
    assert!(rules.check("https://b.example/x.js", "https://example.com", "script"));
}

#[test]
fn nothing_to_compile_gives_empty_rules() {
    let (rules, stats) = compile(&vec![]);
    assert_eq!(stats, CompileStats { accepted: 0, dropped: 0 });
    assert!(!rules.check("https://a.example/x.js", "https://example.com", "script"));
    let (_, stats) = compile_lines(&vec![]);
    assert_eq!(stats, CompileStats { accepted: 0, dropped: 0 });
}

#[test]
fn compile_lines_offers_every_line() {
    // Unlike `compile`, nothing is skipped here: a comment is a line that the parser refuses.
    let (_, stats) = compile_lines(&texts(&["||a.example^", "! comment", ""]));
    assert_eq!(stats, CompileStats { accepted: 1, dropped: 2 });
}
