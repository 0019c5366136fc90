use notetui::highlight::{
    build_highlight_regex, highlight_line, highlight_pattern, highlight_spans, Segment,
};
use notetui::view::{highlight_body, render_tag_line};

fn segment_texts(segments: &[Segment]) -> Vec<String> {
    segments.iter().map(|segment| segment.text.clone()).collect()
}

#[test]
fn prefers_longer_tokens_first() {
    let regex = build_highlight_regex(&vec!["not".into(), "note".into()]).expect("regex");
    let matches: Vec<_> = regex.regex().find_iter("notebook").map(|m| m.as_str()).collect();
    assert_eq!(matches, vec!["note"]);
}

#[test]
fn deduplicates_case_insensitive_tokens() {
    let regex =
        build_highlight_regex(&vec!["Note".into(), "note".into(), "NOTE".into()]).expect("regex");
    let matches: Vec<_> = regex.regex().find_iter("note").map(|m| m.as_str()).collect();
    assert_eq!(matches, vec!["note"]);
}

#[test]
fn highlight_regex_prefers_longer_tokens_first() {
    let regex = build_highlight_regex(&vec!["not".into(), "note".into()]).expect("regex");
    let spans = highlight_line("notebook", Some(&regex));
    assert_eq!(segment_texts(&spans), vec![String::from("note"), String::from("book")]);
}

#[test]
fn highlight_regex_deduplicates_case_insensitive_tokens() {
    let regex =
        build_highlight_regex(&vec!["Note".into(), "note".into(), "NOTE".into()]).expect("regex");
    let spans = highlight_line("note", Some(&regex));
    assert_eq!(segment_texts(&spans), vec![String::from("note")]);
}

#[test]
fn highlight_pattern_escapes_and_orders_tokens() {
    assert_eq!(highlight_pattern(&Vec::new()), None);
    assert_eq!(highlight_pattern(&vec![String::new()]), None);
    let tokens = vec![
        "a.b".to_string(),
        String::new(),
        "longest".to_string(),
        "A.B".to_string(),
        "x+y".to_string(),
        "mid".to_string(),
    ];
    assert_eq!(highlight_pattern(&tokens), Some("longest|a\\.b|x\\+y|mid".to_string()));
    let pattern = build_highlight_regex(&tokens).unwrap();
    assert_eq!(pattern.as_str(), "longest|a\\.b|x\\+y|mid");
    assert!(pattern.matches("say A.B now"));
    assert!(!pattern.matches("say axb now"));
    assert!(build_highlight_regex(&Vec::new()).is_none());
}

#[test]
fn highlight_line_cuts_around_matches() {
    let pattern = build_highlight_regex(&vec!["\u{e9}t".to_string()]).unwrap();
    let segments = highlight_line("un \u{c9}T\u{e9} et \u{e9}t", Some(&pattern));
    let shown: Vec<(String, bool)> =
        segments.iter().map(|s| (s.text.clone(), s.highlighted)).collect();
    assert_eq!(
        shown,
        vec![
            ("un ".to_string(), false),
            ("\u{c9}T".to_string(), true),
            ("\u{e9} et ".to_string(), false),
            ("\u{e9}t".to_string(), true),
        ]
    );
    let plain = highlight_line("nothing here", None);
    assert_eq!(plain, vec![Segment { text: "nothing here".to_string(), highlighted: false }]);
    let none = highlight_line("", Some(&pattern));
    assert_eq!(none, vec![Segment { text: String::new(), highlighted: false }]);
}

#[test]
fn highlight_spans_handles_touching_spans() {
    let segments = highlight_spans("abcdef", &vec![(0, 2), (2, 3), (5, 6)]);
    let shown: Vec<(String, bool)> =
        segments.iter().map(|s| (s.text.clone(), s.highlighted)).collect();
    assert_eq!(
        shown,
        vec![
            ("ab".to_string(), true),
            ("c".to_string(), true),
            ("de".to_string(), false),
            ("f".to_string(), true),
        ]
    );
}

#[test]
fn body_and_tags_are_cut_line_by_line() {
    let pattern = build_highlight_regex(&vec!["tag".to_string()]).unwrap();
    let lines = highlight_body("a tag\n\nno", Some(&pattern));
    assert_eq!(lines.len(), 3);
    assert_eq!(segment_texts(&lines[0]), vec!["a ", "tag"]);
    assert_eq!(segment_texts(&lines[1]), vec![""]);
    assert_eq!(segment_texts(&lines[2]), vec!["no"]);
    assert_eq!(highlight_body("", None).len(), 1);

    assert!(render_tag_line(&Vec::new(), None).is_none());
    let line = render_tag_line(&vec!["tagged".to_string(), "x".to_string()], Some(&pattern)).unwrap();
    assert_eq!(segment_texts(&line), vec!["#", "tag", "ged", " ", "#x"]);
}
