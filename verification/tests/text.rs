use notetui::strings::{decimal, join, split_lines, split_words, trim, trim_end};
use notetui::text::{
    chars_of, column_at, is_blank, line_end, line_start, next_grapheme_boundary,
    position_for_column, prev_grapheme_boundary, snap_to_cluster, splice, string_of, substring,
};

#[test]
fn grapheme_boundaries_step_over_clusters() {
    let text = "a\u{310}e\u{301}\r\nz";
    assert_eq!(prev_grapheme_boundary(text, 0), 0);
    assert_eq!(prev_grapheme_boundary(text, 3), 0);
    assert_eq!(prev_grapheme_boundary(text, 6), 3);
    assert_eq!(prev_grapheme_boundary(text, 8), 6);
    assert_eq!(prev_grapheme_boundary(text, 9), 8);
    assert_eq!(next_grapheme_boundary(text, 0), 3);
    assert_eq!(next_grapheme_boundary(text, 3), 6);
    assert_eq!(next_grapheme_boundary(text, 6), 8);
    assert_eq!(next_grapheme_boundary(text, 8), 9);
    assert_eq!(next_grapheme_boundary(text, 9), 9);
    assert_eq!(next_grapheme_boundary(text, 40), 9);
}

#[test]
fn lines_start_after_and_end_at_line_feeds() {
    let text = "ab\n\ncd\u{e9}";
    assert_eq!(line_start(text, 0), 0);
    assert_eq!(line_start(text, 2), 0);
    assert_eq!(line_start(text, 3), 3);
    assert_eq!(line_start(text, 4), 4);
    assert_eq!(line_start(text, 8), 4);
    assert_eq!(line_end(text, 0), 2);
    assert_eq!(line_end(text, 2), 2);
    assert_eq!(line_end(text, 3), 3);
    assert_eq!(line_end(text, 4), 8);
    assert_eq!(line_end(text, 8), 8);
}

#[test]
fn columns_count_clusters() {
    let text = "x\ne\u{301}\u{1f600}z";
    assert_eq!(column_at(text, 2, 2), 0);
    assert_eq!(column_at(text, 2, 5), 1);
    assert_eq!(column_at(text, 2, 9), 2);
    assert_eq!(column_at(text, 2, 10), 3);
    assert_eq!(position_for_column(text, 2, 0), 2);
    assert_eq!(position_for_column(text, 2, 1), 5);
    assert_eq!(position_for_column(text, 2, 2), 9);
    assert_eq!(position_for_column(text, 2, 3), 10);
    assert_eq!(position_for_column(text, 2, 99), 10);
    assert_eq!(position_for_column(text, 0, 5), 1);
}

#[test]
fn blank_means_only_white_space() {
    assert!(is_blank(""));
    assert!(is_blank(" \t\n\u{a0}\u{3000}"));
    assert!(!is_blank(" x "));
    assert!(!is_blank("\u{200b}"));
}

#[test]
fn substring_and_splice_work_on_boundaries() {
    let text = "h\u{e9}llo";
    assert_eq!(substring(text, 1, 3), "\u{e9}");
    assert_eq!(substring(text, 0, 6), text);
    assert_eq!(substring(text, 3, 3), "");
    assert_eq!(splice(text, 1, 3, "e"), "hello");
    assert_eq!(splice(text, 6, 6, "!"), "h\u{e9}llo!");
    assert_eq!(splice(text, 0, 6, ""), "");
}

#[test]
fn snap_moves_back_to_a_cluster_boundary() {
    let text = "a\u{20ac}e\u{301}\r\nb";
    assert_eq!(snap_to_cluster(text, 0), 0);
    assert_eq!(snap_to_cluster(text, 1), 1);
    assert_eq!(snap_to_cluster(text, 2), 1);
    assert_eq!(snap_to_cluster(text, 3), 1);
    assert_eq!(snap_to_cluster(text, 4), 4);
    assert_eq!(snap_to_cluster(text, 5), 4);
    assert_eq!(snap_to_cluster(text, 6), 4);
    assert_eq!(snap_to_cluster(text, 7), 7);
    assert_eq!(snap_to_cluster(text, 8), 7);
    assert_eq!(snap_to_cluster(text, 9), 9);
    assert_eq!(snap_to_cluster(text, 10), 10);
    assert_eq!(snap_to_cluster(text, 50), 10);
    assert_eq!(snap_to_cluster("", 0), 0);
    assert_eq!(snap_to_cluster("", 3), 0);
}

#[test]
fn chars_round_trip() {
    let text = "a\u{e9}\u{1f600}";
    let chars = chars_of(text);
    assert_eq!(chars, vec!['a', '\u{e9}', '\u{1f600}']);
    assert_eq!(string_of(&chars), text);
}

#[test]
fn decimal_prints_every_integer() {
    assert_eq!(decimal(0), "0");
    assert_eq!(decimal(7), "7");
    assert_eq!(decimal(-7), "-7");
    assert_eq!(decimal(1234567890), "1234567890");
    assert_eq!(decimal(i64::MAX), "9223372036854775807");
    assert_eq!(decimal(i64::MIN), "-9223372036854775808");
}

#[test]
fn words_lines_and_trimming() {
    let words = split_words(&chars_of("  one\ttwo \u{3000}three\n"));
    assert_eq!(words, vec!["one".to_string(), "two".to_string(), "three".to_string()]);
    assert!(split_words(&chars_of(" \n ")).is_empty());
    let lines = split_lines(&chars_of("a\r\nb\n\nc\r"));
    assert_eq!(lines, vec!["a".to_string(), "b".to_string(), String::new(), "c\r".to_string()]);
    assert!(split_lines(&chars_of("")).is_empty());
    assert_eq!(split_lines(&chars_of("\n")), vec![String::new()]);
    assert_eq!(trim("  a b \n"), "a b");
    assert_eq!(trim(" \t "), "");
    assert_eq!(trim_end("  a b \n"), "  a b");
    assert_eq!(join(&vec!["a".to_string(), "b".to_string(), "c".to_string()], ", "), "a, b, c");
    assert_eq!(join(&Vec::new(), ", "), "");
}
