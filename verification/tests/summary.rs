use notetui::cli::{
    build_snippet, checked_merge, checked_plain_tag, checked_rename, checked_tag, checked_title,
    created_report, delete_report, eq_ignore_ascii_case, format_search_results, format_tags,
    merge_report, rename_report, search_request, tag_fits, CliError, SearchArgs, TagMergeArgs,
    TagRenameArgs,
};
use notetui::notes::{NoteRecord, TagDeleteOutcome, TagRenameOutcome};
use notetui::search::{RangeFilter, SearchQuery};
use notetui::stamp::{
    format_datetime, format_epoch_date, format_relative_time, format_time_short, format_timestamp,
};
use notetui::summary::{
    build_filter_chips, build_preview, build_recovery_preview, compute_trash_status,
    format_range_chip, summarize_record,
};

const NOW: i64 = 1_700_000_000;

fn record(snippet: Option<&str>, body: &str, deleted_at: Option<i64>) -> NoteRecord {
    NoteRecord {
        id: 12,
        title: "Title".to_string(),
        body: body.to_string(),
        snippet: snippet.map(|s| s.to_string()),
        created_at: 0,
        updated_at: 86_400,
        pinned: true,
        archived: false,
        tags: vec!["a".to_string(), "b".to_string()],
        deleted_at,
    }
}

#[test]
fn trash_status_manual_purge_only_when_retention_zero() {
    let now = NOW;
    let status = compute_trash_status(Some(now), 0, now).expect("status");
    assert_eq!(status.label, "Manual purge only");
    assert!(!status.expired);
    assert!(status.indefinite);
}

#[test]
fn trash_status_marks_expired_when_past_retention_window() {
    let now = NOW;
    let deleted_at = now - (86_400 * 2);
    let status = compute_trash_status(Some(deleted_at), 1, now).expect("status");
    assert!(status.expired);
    assert!(status.label.contains("Expired"));
    assert!(!status.indefinite);
}

#[test]
fn trash_status_reports_remaining_time() {
    let now = NOW;
    let deleted_at = now - (86_400 - 3_600); // about 1 hour remaining in a 1 day window
    let status = compute_trash_status(Some(deleted_at), 1, now).expect("status");
    assert!(!status.expired);
    assert!(!status.indefinite);
    assert!(
        status.label.contains("left"),
        "expected countdown label, got {}",
        status.label
    );
}

#[test]
fn trash_status_counts_down_in_days_hours_and_minutes() {
    let label = |remaining: i64| {
        compute_trash_status(Some(NOW + remaining - 86_400), 1, NOW).unwrap().label
    };
    assert!(compute_trash_status(None, 30, NOW).is_none());
    assert_eq!(label(3 * 86_400 + 5), "3d left");
    assert_eq!(label(2 * 86_400), "2d left");
    assert_eq!(label(2 * 86_400 - 1), "1d 24h left");
    assert_eq!(label(86_400 + 1), "1d 1h left");
    assert_eq!(label(86_400), "1d left");
    assert_eq!(label(86_399), "24h left");
    assert_eq!(label(3_600), "1h left");
    assert_eq!(label(3_599), "60m left");
    assert_eq!(label(61), "2m left");
    assert_eq!(label(1), "1m left");
    assert!(compute_trash_status(Some(NOW - 86_400), 1, NOW).unwrap().expired);
    let far = compute_trash_status(Some(i64::MAX), u32::MAX, i64::MIN).unwrap();
    assert_eq!(far.label, "213508277301896d left");
}

#[test]
fn previews_show_the_first_lines() {
    assert_eq!(build_preview("a  \nb\nc", 0), "");
    assert_eq!(build_preview("a  \nb\nc", 2), "a\nb\n\u{e2}\u{20ac}\u{a6}");
    assert_eq!(build_preview("a  \nb\nc", 3), "a\nb\nc");
    assert_eq!(build_preview("a\nb", 5), "a\nb");
    assert_eq!(build_preview("\n\nx", 1), "\u{e2}\u{20ac}\u{a6}");
    assert_eq!(build_preview("", 3), "");
}

#[test]
fn recovery_previews_skip_blank_lines_and_clip() {
    assert_eq!(build_recovery_preview(" \n\n"), vec!["(empty draft)"]);
    assert_eq!(build_recovery_preview("  a \n\nb\nc\nd\ne"), vec!["a", "b", "c", "d"]);
    let long = "x".repeat(81);
    let preview = build_recovery_preview(&long);
    assert_eq!(preview, vec![format!("{}\u{e2}\u{20ac}\u{a6}", "x".repeat(80))]);
    assert_eq!(build_recovery_preview(&"y".repeat(80)), vec!["y".repeat(80)]);
}

#[test]
fn instants_are_printed_by_the_calendar() {
    assert_eq!(format_timestamp(0), "1970-01-01T00:00:00Z");
    assert_eq!(format_timestamp(1_700_000_000), "2023-11-14T22:13:20Z");
    assert_eq!(format_timestamp(i64::MAX), "9223372036854775807");
    assert_eq!(format_timestamp(-62_198_755_200), "-62198755200");
    assert_eq!(format_epoch_date(0), "1970-01-01");
    assert_eq!(format_epoch_date(1_709_164_800), "2024-02-29");
    assert_eq!(format_epoch_date(i64::MIN), "-9223372036854775808");
    assert_eq!(format_datetime(1_500_000_000_500_000_000), "2017-07-14T02:40:00.5Z");
    assert_eq!(format_datetime(i128::MAX), "9223372036854775807");
    assert_eq!(format_time_short(1_500_000_000_500_000_000), "02:40:00");
    assert_eq!(format_time_short(i128::MIN), "-9223372036854775808");
}

#[test]
fn relative_times_step_through_the_units() {
    let second: i128 = 1_000_000_000;
    let at: i128 = 1_700_000_000 * second;
    let ago = |diff: i128| format_relative_time(at, at + diff);
    assert_eq!(ago(-5 * second), "just now");
    assert_eq!(ago(44 * second), "just now");
    assert_eq!(ago(45 * second), "1m ago");
    assert_eq!(ago(89 * 60 * second), "89m ago");
    assert_eq!(ago(90 * 60 * second), "1h ago");
    assert_eq!(ago(35 * 3600 * second), "35h ago");
    assert_eq!(ago(36 * 3600 * second), "1d ago");
    assert_eq!(ago(10 * 86_400 * second - 1), "9d ago");
    assert_eq!(ago(10 * 86_400 * second), "2023-11-14T22:13:20Z");
    assert_eq!(format_relative_time(i128::MIN, i128::MAX), "-9223372036854775808");
}

#[test]
fn records_are_summarised_for_the_list() {
    let summary = summarize_record(record(Some("  found here  "), "body\nmore", Some(NOW)), 1, 1, NOW);
    assert_eq!(summary.id, 12);
    assert_eq!(summary.title, "Title");
    assert_eq!(summary.updated_at, "1970-01-02T00:00:00Z");
    assert_eq!(summary.preview, "found here");
    assert_eq!(summary.body, "body\nmore");
    assert!(summary.pinned);
    assert_eq!(summary.tags, vec!["a", "b"]);
    assert_eq!(summary.deleted_label.as_deref(), Some("2023-11-14T22:13:20Z"));
    assert_eq!(summary.trash_status.unwrap().label, "1d left");

    let blank = summarize_record(record(Some("  "), "body\nmore", None), 1, 1, NOW);
    assert_eq!(blank.preview, "body\n\u{e2}\u{20ac}\u{a6}");
    assert!(blank.trash_status.is_none());
    assert!(blank.deleted_label.is_none());
    let hidden = summarize_record(record(Some("x"), "body", None), 0, 1, NOW);
    assert_eq!(hidden.preview, "");
}

#[test]
fn chips_name_the_filters() {
    let mut query = SearchQuery::default();
    assert!(build_filter_chips(&query).is_empty());
    query.tags = vec!["work".into(), "home".into()];
    query.created = RangeFilter { from: Some(0), to: Some(86_400) };
    query.updated = RangeFilter { from: None, to: Some(172_800) };
    assert_eq!(
        build_filter_chips(&query),
        vec!["tag:work", "tag:home", "created:1970-01-01..1970-01-02", "updated:..1970-01-03"]
    );
    assert_eq!(
        format_range_chip("created", &RangeFilter { from: Some(0), to: None }),
        Some("created:1970-01-01..".to_string())
    );
    assert_eq!(format_range_chip("created", &RangeFilter::default()), None);
}

#[test]
fn search_results_are_printed_in_blocks() {
    assert_eq!(format_search_results(&Vec::new()), "No matches found.\n");
    let mut second = record(Some("hit\nline "), "", None);
    second.id = 3;
    second.pinned = false;
    second.archived = true;
    second.tags.clear();
    let text = format_search_results(&vec![record(None, "  first  \n\nthird", None), second]);
    assert_eq!(
        text,
        "#12  Title  [PINNED]\n    updated 1970-01-02T00:00:00Z\n    tags    #a #b\n    first\n\n\
#3  Title  [ARCHIVED]\n    updated 1970-01-02T00:00:00Z\n    hit line\n\n"
    );
    assert_eq!(format_tags(&vec!["a".to_string(), "b".to_string()]), "#a #b");
    assert_eq!(format_tags(&Vec::new()), "");
}

#[test]
fn snippets_fall_back_to_the_body() {
    assert_eq!(build_snippet(&record(Some(" a\nb "), "body", None), 2), Some("a b".to_string()));
    assert_eq!(build_snippet(&record(Some(" \n "), "one\n two \nthree", None), 2), Some("one two".to_string()));
    assert_eq!(build_snippet(&record(None, "one\n\nthree", None), 2), Some("one".to_string()));
    assert_eq!(build_snippet(&record(None, "one", None), 0), None);
    assert_eq!(build_snippet(&record(None, " \n \nthree", None), 2), None);
    let long = "z".repeat(200);
    assert_eq!(build_snippet(&record(None, &long, None), 1), Some("z".repeat(160)));
}

#[test]
fn search_requests_are_checked() {
    let args = |words: &[&str], regex: bool| SearchArgs {
        query: words.iter().map(|w| w.to_string()).collect(),
        regex,
        limit: 20,
    };
    assert_eq!(search_request(&args(&[], false)).unwrap_err(), CliError::EmptyQuery);
    assert_eq!(search_request(&args(&["  "], false)).unwrap_err(), CliError::EmptyQuery);
    assert_eq!(search_request(&args(&["!!"], true)).unwrap_err(), CliError::NoTermsOrFilters);
    let plain = search_request(&args(&["foo", "tag:X"], false)).unwrap();
    assert_eq!(plain.terms, vec!["foo"]);
    assert_eq!(plain.tags, vec!["x"]);
    assert_eq!(plain.regex_pattern, None);
    let regex = search_request(&args(&["fo+", "tag:X"], true)).unwrap();
    assert!(regex.terms.is_empty());
    assert_eq!(regex.tags, vec!["x"]);
    assert_eq!(regex.regex_pattern, Some("fo+".to_string()));
    let only_tag = search_request(&args(&["tag:X"], true)).unwrap();
    assert_eq!(only_tag.regex_pattern, None);
    assert_eq!(CliError::EmptyQuery.message(), "search query cannot be empty");
    assert_eq!(CliError::SameMergeTags.message(), "source and target tags must differ");
}

#[test]
fn tags_are_checked_before_the_store_is_asked() {
    assert_eq!(checked_tag("  work "), Ok("work".to_string()));
    assert_eq!(checked_tag("   "), Err(CliError::EmptyTag));
    let long = "t".repeat(70);
    assert!(tag_fits(&long));
    assert_eq!(checked_tag(&long), Ok("t".repeat(64)));
    let awkward = format!("{}\u{e9}", "t".repeat(63));
    assert!(!tag_fits(&awkward));
    assert!(tag_fits("\u{e9}"));
    assert_eq!(checked_plain_tag(" x "), Ok("x".to_string()));
    assert_eq!(checked_plain_tag(""), Err(CliError::EmptyTag));
    assert_eq!(checked_title(" New note "), Ok("New note".to_string()));
    assert_eq!(checked_title(" "), Err(CliError::EmptyTitle));

    let rename = |from: &str, to: &str| {
        checked_rename(&TagRenameArgs { from: from.to_string(), to: to.to_string() })
    };
    assert_eq!(rename(" a ", " b "), Ok(("a".to_string(), "b".to_string())));
    assert_eq!(rename(" ", "b"), Err(CliError::EmptySourceTag));
    assert_eq!(rename("a", " "), Err(CliError::EmptyDestinationTag));
    assert_eq!(rename("Tag", "tAG"), Err(CliError::SameTags));
    let merge = |from: &str, into: &str| {
        checked_merge(&TagMergeArgs { from: from.to_string(), into: into.to_string() })
    };
    assert_eq!(merge("a", "b"), Ok(("a".to_string(), "b".to_string())));
    assert_eq!(merge("", "b"), Err(CliError::EmptySourceTag));
    assert_eq!(merge("a", ""), Err(CliError::EmptyTargetTag));
    assert_eq!(merge("a", "A"), Err(CliError::SameMergeTags));
    assert!(eq_ignore_ascii_case("Stra\u{df}e", "sTRA\u{df}E"));
    assert!(!eq_ignore_ascii_case("\u{e9}", "\u{c9}"));
}

#[test]
fn outcomes_are_reported() {
    let renamed = TagRenameOutcome::Renamed { from: "a".into(), to: "b".into() };
    let merged_one = TagRenameOutcome::Merged { from: "a".into(), to: "b".into(), reassigned: 1 };
    let merged = TagRenameOutcome::Merged { from: "a".into(), to: "b".into(), reassigned: 3 };
    assert_eq!(rename_report(&renamed), "Renamed tag 'a' to 'b'");
    assert_eq!(rename_report(&merged_one), "Merged tag 'a' into 'b' (relinked 1 note)");
    assert_eq!(merge_report(&merged), "Merged tag 'a' into 'b' (relinked 3 notes)");
    assert_eq!(
        merge_report(&renamed),
        "Renamed tag 'a' to 'b' (target was missing, renamed instead)"
    );
    assert_eq!(
        delete_report(&TagDeleteOutcome { tag: "x".into(), detached: 0 }),
        "Deleted tag 'x' (removed from 0 notes)"
    );
    assert_eq!(
        delete_report(&TagDeleteOutcome { tag: "x".into(), detached: 1 }),
        "Deleted tag 'x' (removed from 1 note)"
    );
    assert_eq!(created_report(5, false), "Created note #5");
    assert_eq!(created_report(5, true), "Created note #5 (pinned)");
}
