use notetui::notes::{
    apply_filters, build_clause, build_match_expression, parse_tags, prioritize_title_matches,
    title_contains_any, NoteRecord,
};
use notetui::search::{
    parse_date_range, parse_query, parse_single_date, regex_pattern_from_input, sanitize_term,
    RangeFilter, SearchQuery,
};
use notetui::store_query::{
    finish_scan, plan_search, rank_results, refine_results, scan_batch, SearchPlan, SearchPlanError,
};

fn note(id: i64, title: &str, body: &str, tags: &[&str], created_at: i64, updated_at: i64) -> NoteRecord {
    NoteRecord {
        id,
        title: title.to_string(),
        body: body.to_string(),
        snippet: None,
        created_at,
        updated_at,
        pinned: false,
        archived: false,
        tags: tags.iter().map(|t| t.to_string()).collect(),
        deleted_at: None,
    }
}

fn ids(notes: &[NoteRecord]) -> Vec<i64> {
    notes.iter().map(|n| n.id).collect()
}

#[test]
fn parse_query_sorts_words_into_terms_tags_and_ranges() {
    let query = parse_query("  rust tag:Work title:Plan! created:2024-01-02 updated:2024-01-01..2024-01-03 (x) ");
    assert_eq!(query.terms, vec!["rust", "x"]);
    assert_eq!(query.title_terms, vec!["Plan"]);
    assert_eq!(query.tags, vec!["work"]);
    assert_eq!(query.created, RangeFilter { from: Some(1_704_153_600), to: Some(1_704_240_000) });
    assert_eq!(query.updated, RangeFilter { from: Some(1_704_067_200), to: Some(1_704_326_400) });
    assert_eq!(query.regex_pattern, None);
    assert!(query.has_terms());
    assert!(query.has_filters());
    assert_eq!(query.highlight_terms(), vec!["rust", "x", "Plan"]);
}

#[test]
fn parse_query_drops_what_sanitising_empties() {
    let query = parse_query("!!! tag:?? title:");
    assert!(!query.has_terms());
    assert!(!query.has_filters());
    let empty = parse_query("");
    assert!(empty.terms.is_empty());
    assert!(!SearchQuery::default().has_terms());
}

#[test]
fn sanitize_keeps_letters_digits_and_four_marks() {
    assert_eq!(sanitize_term("a-b_c.d/e"), Some("a-b_c.d/e".to_string()));
    assert_eq!(sanitize_term("h\u{e9}llo, w\u{f6}rld!"), Some("h\u{e9}llow\u{f6}rld".to_string()));
    assert_eq!(sanitize_term("\u{664}2"), Some("\u{664}2".to_string()));
    assert_eq!(sanitize_term("()"), None);
    assert_eq!(sanitize_term(""), None);
}

#[test]
fn date_ranges_are_read_day_by_day() {
    assert_eq!(parse_single_date("1970-01-01"), Some((0, 86_400)));
    assert_eq!(parse_single_date("2024-02-29"), Some((1_709_164_800, 1_709_251_200)));
    assert_eq!(parse_single_date("2023-02-29"), None);
    assert_eq!(parse_single_date("yesterday"), None);
    assert_eq!(parse_single_date("9999-12-31"), None);
    assert_eq!(parse_single_date("9999-12-30"), Some((253_402_128_000, 253_402_214_400)));
    assert_eq!(
        parse_date_range("1970-01-01"),
        RangeFilter { from: Some(0), to: Some(86_400) }
    );
    assert_eq!(
        parse_date_range("1970-01-01..1970-01-02"),
        RangeFilter { from: Some(0), to: Some(172_800) }
    );
    assert_eq!(parse_date_range("1970-01-02.."), RangeFilter { from: Some(86_400), to: None });
    assert_eq!(parse_date_range("..1970-01-02"), RangeFilter { from: None, to: Some(172_800) });
    assert_eq!(parse_date_range(".."), RangeFilter { from: None, to: None });
    assert_eq!(parse_date_range("bad..1970-01-02"), RangeFilter { from: None, to: Some(172_800) });
    assert_eq!(
        parse_date_range("1970-01-01..1970-01-02..1970-01-03"),
        RangeFilter { from: None, to: None }
    );
    assert_eq!(parse_date_range(""), RangeFilter::default());
}

#[test]
fn range_merge_keeps_the_intersection() {
    let mut range = RangeFilter { from: Some(10), to: Some(100) };
    assert!(range.has_range());
    range.merge(RangeFilter { from: Some(5), to: Some(50) });
    assert_eq!(range, RangeFilter { from: Some(10), to: Some(50) });
    range.merge(RangeFilter { from: Some(20), to: None });
    assert_eq!(range, RangeFilter { from: Some(20), to: Some(50) });
    let mut open = RangeFilter::default();
    assert!(!open.has_range());
    open.merge(RangeFilter { from: None, to: Some(7) });
    assert_eq!(open, RangeFilter { from: None, to: Some(7) });
}

#[test]
fn regex_pattern_skips_filter_words() {
    assert_eq!(
        regex_pattern_from_input("foo[0-9]+ tag:x  bar title:y created:z updated:w"),
        Some("foo[0-9]+ bar".to_string())
    );
    assert_eq!(regex_pattern_from_input("tag:x"), None);
    assert_eq!(regex_pattern_from_input("   "), None);
    assert_eq!(regex_pattern_from_input("tagged:"), Some("tagged:".to_string()));
}

#[test]
fn tags_are_split_at_the_delimiter() {
    assert_eq!(parse_tags(""), Vec::<String>::new());
    assert_eq!(parse_tags("alpha"), vec!["alpha"]);
    assert_eq!(parse_tags("alpha|:|beta|:||:|gamma|:|"), vec!["alpha", "beta", "gamma"]);
    assert_eq!(parse_tags("a|b:|c"), vec!["a|b:|c"]);
}

#[test]
fn clauses_quote_phrases_and_star_prefixes() {
    let terms = vec![
        " nimbus ".to_string(),
        "two words".to_string(),
        "  ".to_string(),
        "say \"hi\"".to_string(),
        "a:b\"c".to_string(),
    ];
    assert_eq!(
        build_clause(None, &terms),
        Some("nimbus* AND \"two words\" AND \"say \"\"hi\"\"\" AND a b\"\"c*".to_string())
    );
    assert_eq!(
        build_clause(Some("title".to_string()), &terms[..2].to_vec()),
        Some("title:nimbus* AND title:\"two words\"".to_string())
    );
    assert_eq!(build_clause(None, &Vec::new()), None);
    assert_eq!(build_clause(None, &vec![" ".to_string()]), None);

    let mut query = SearchQuery::default();
    assert_eq!(build_match_expression(&query), None);
    query.terms = vec!["nimbus".into(), "project".into()];
    assert_eq!(build_match_expression(&query), Some("nimbus* AND project*".to_string()));
    query.title_terms = vec!["plan".into()];
    assert_eq!(
        build_match_expression(&query),
        Some("nimbus* AND project* AND title:plan*".to_string())
    );
    query.terms.clear();
    assert_eq!(build_match_expression(&query), Some("title:plan*".to_string()));
}

#[test]
fn title_matches_come_first() {
    let tokens = vec!["nimbus".to_string(), String::new()];
    assert!(title_contains_any("Nimbus Project Plan", &tokens));
    assert!(!title_contains_any("Weekly notes", &tokens));
    assert!(!title_contains_any("Nimbus", &Vec::new()));
    assert!(!title_contains_any("Nimbus", &vec!["Nimbus".to_string()]));
    let notes = vec![
        note(1, "Weekly notes", "nimbus", &[], 0, 0),
        note(2, "Nimbus plan", "", &[], 0, 0),
        note(3, "Other", "", &[], 0, 0),
        note(4, "The NIMBUS", "", &[], 0, 0),
    ];
    assert_eq!(ids(&prioritize_title_matches(notes.clone(), &tokens)), vec![2, 4, 1, 3]);
    assert_eq!(ids(&rank_results(notes.clone(), &Vec::new())), vec![1, 2, 3, 4]);
    assert_eq!(ids(&rank_results(notes, &tokens)), vec![2, 4, 1, 3]);
}

#[test]
fn filters_keep_notes_with_all_tags_in_range() {
    let notes = vec![
        note(1, "a", "", &["Work", "home"], 100, 200),
        note(2, "b", "", &["work"], 100, 200),
        note(3, "c", "", &["WORK", "Home"], 50, 200),
        note(4, "d", "", &["work", "home"], 100, 300),
    ];
    let mut query = SearchQuery::default();
    let mut all = notes.clone();
    apply_filters(&mut all, &query);
    assert_eq!(ids(&all), vec![1, 2, 3, 4]);

    query.tags = vec!["work".into(), "HOME".into()];
    let mut tagged = notes.clone();
    apply_filters(&mut tagged, &query);
    assert_eq!(ids(&tagged), vec![1, 3, 4]);

    query.created = RangeFilter { from: Some(100), to: None };
    query.updated = RangeFilter { from: None, to: Some(300) };
    let mut ranged = notes.clone();
    apply_filters(&mut ranged, &query);
    assert_eq!(ids(&ranged), vec![1]);
}

#[test]
fn search_plans_follow_the_query() {
    let mut query = SearchQuery::default();
    assert!(matches!(plan_search(&query, 7), Ok(SearchPlan::Recent { limit: 7 })));

    query.tags = vec!["x".into()];
    assert!(matches!(
        plan_search(&query, 7),
        Ok(SearchPlan::Filtered { fetch_limit: 200 })
    ));

    query.regex_pattern = Some("foo[0-9]+bar".into());
    match plan_search(&query, 500) {
        Ok(SearchPlan::Scan { batch_size, pattern }) => {
            assert_eq!(batch_size, 500);
            assert_eq!(pattern.as_str(), "foo[0-9]+bar");
        }
        other => panic!("expected a scan, got {other:?}"),
    }

    query.terms = vec!["Nimbus".into()];
    query.title_terms = vec!["Plan".into()];
    match plan_search(&query, 10) {
        Ok(SearchPlan::Terms { expression, fetch_limit, title_tokens, pattern }) => {
            assert_eq!(expression, Some("Nimbus* AND title:Plan*".to_string()));
            assert_eq!(fetch_limit, 200);
            assert_eq!(title_tokens, vec!["nimbus", "plan"]);
            assert!(pattern.is_some());
        }
        other => panic!("expected a term search, got {other:?}"),
    }

    query.regex_pattern = Some("(".into());
    assert!(matches!(plan_search(&query, 10), Err(SearchPlanError::BadPattern)));
}

#[test]
fn results_are_sifted_and_cut() {
    let notes = vec![
        note(1, "Very Old Regex Note", "foo123bar body", &["x"], 0, 0),
        note(2, "FOO9BAR", "no", &["x"], 0, 0),
        note(3, "filler", "no match", &["x"], 0, 0),
        note(4, "other", "foo1bar", &[], 0, 0),
        note(5, "last", "foo77bar", &["x"], 0, 0),
    ];
    let mut query = SearchQuery::default();
    query.tags = vec!["x".into()];
    query.regex_pattern = Some("foo[0-9]+bar".into());
    let pattern = match plan_search(&query, 2) {
        Ok(SearchPlan::Scan { pattern, .. }) => pattern,
        other => panic!("expected a scan, got {other:?}"),
    };
    let mut refined = notes.clone();
    refine_results(&mut refined, &query, Some(&pattern), 2);
    assert_eq!(ids(&refined), vec![1, 2]);
    let mut unbounded = notes.clone();
    refine_results(&mut unbounded, &query, None, 10);
    assert_eq!(ids(&unbounded), vec![1, 2, 3, 5]);

    let mut results = Vec::new();
    assert!(!scan_batch(&mut results, notes[..3].to_vec(), &query, &pattern, 3));
    assert_eq!(ids(&results), vec![1, 2]);
    assert!(scan_batch(&mut results, notes[3..].to_vec(), &query, &pattern, 3));
    assert_eq!(ids(&results), vec![1, 2, 5]);
    assert!(scan_batch(&mut results, Vec::new(), &query, &pattern, 10));
    finish_scan(&mut results, 2);
    assert_eq!(ids(&results), vec![1, 2]);
}
