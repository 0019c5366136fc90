use notetui::autosave::AutoSaveStatus;
use notetui::config::{
    AutoSaveConfig, ConfigLoader, ConfigPaths, KeybindingProfile, SortDirection, SortField,
    SortSpec, StorageOptions, ThemeName, ThemeRegistry,
};
use notetui::editor::EditorState;
use notetui::journal::RecoverySnapshot;
use notetui::notes::NoteRecord;
use notetui::state::{
    step_index, AppState, BulkTrashAction, FocusPane, NotesRequest, OverlayState, RecoveredDraft,
    TagEditorMode, TagInputKind,
};
use notetui::summary::NoteSummary;
use notetui::tag_editor::{sort_items, sort_names, text_le};
use notetui::view::{
    build_status_line, editor_cursor_screen_position, preview_body_offset, Area, Colour,
};

const NOW: i64 = 1_700_000_000;

fn record(id: i64, title: &str, body: &str, tags: &[&str]) -> NoteRecord {
    NoteRecord {
        id,
        title: title.to_string(),
        body: body.to_string(),
        snippet: None,
        created_at: 0,
        updated_at: 0,
        pinned: false,
        archived: false,
        tags: tags.iter().map(|t| t.to_string()).collect(),
        deleted_at: None,
    }
}

fn state() -> AppState {
    AppState::load(
        vec![
            record(1, "One", "first\nbody", &["beta", "Alpha"]),
            record(2, "Two", "second", &[]),
            record(3, "Three", "third", &["gamma"]),
        ],
        1,
        30,
        NOW,
    )
}

fn names(state: &AppState) -> Vec<String> {
    state.tag_editor_overlay().unwrap().items.iter().map(|item| item.name.clone()).collect()
}

fn flags(state: &AppState, name: &str) -> (bool, bool, bool) {
    let item = state
        .tag_editor_overlay()
        .unwrap()
        .items
        .iter()
        .find(|item| item.name == name)
        .expect("item");
    (item.selected, item.original, item.bulk_selected)
}

fn status(state: &AppState) -> Option<String> {
    state.tag_editor_overlay().unwrap().status.clone()
}

#[test]
fn load_summarises_and_selects_the_first_note() {
    let state = state();
    assert_eq!(state.len(), 3);
    assert!(!state.is_empty());
    assert_eq!(state.selected_note_id(), Some(1));
    assert_eq!(state.selected().unwrap().preview, "first\n\u{e2}\u{20ac}\u{a6}");
    assert_eq!(state.focus, FocusPane::List);
    assert!(state.wrap_enabled());
    assert!(!state.is_editing());
    assert!(matches!(state.autosave_status(), AutoSaveStatus::Inactive));
    assert_eq!(state.selected_tags(), vec!["beta", "Alpha"]);
    let empty = AppState::load(Vec::new(), 1, 30, NOW);
    assert!(empty.is_empty());
    assert_eq!(empty.selected_note_id(), None);
    assert!(empty.selected_tags().is_empty());
}

#[test]
fn selection_moves_inside_the_list() {
    let mut state = state();
    state.move_selection(1);
    assert_eq!(state.selected_note_id(), Some(2));
    state.move_selection(10);
    assert_eq!(state.selected_note_id(), Some(3));
    state.move_selection(-1);
    assert_eq!(state.selected_note_id(), Some(2));
    state.move_selection(isize::MIN);
    assert_eq!(state.selected_note_id(), Some(1));
    state.select_note_by_id(3);
    assert_eq!(state.selected, 2);
    state.selected = 9;
    state.select_note_by_id(77);
    assert_eq!(state.selected, 2);
    assert_eq!(step_index(usize::MAX, isize::MAX, 5), 4);
    assert_eq!(step_index(2, -3, 5), 0);
    assert_eq!(step_index(2, 2, 5), 4);
}

#[test]
fn small_toggles_and_overlays() {
    let mut state = state();
    state.toggle_focus();
    assert_eq!(state.focus, FocusPane::Reader);
    state.toggle_focus();
    assert_eq!(state.focus, FocusPane::List);
    assert!(!state.toggle_wrap());
    assert!(state.toggle_wrap());
    state.set_status_message(Some("hello".to_string()));
    assert_eq!(state.status_message.as_deref(), Some("hello"));
    state.clear_status_message();
    assert!(state.status_message.is_none());

    state.open_new_note();
    assert_eq!(state.new_note_overlay().unwrap().title, "");
    state.new_note_overlay_mut().unwrap().title.push('x');
    assert_eq!(state.new_note_overlay().unwrap().title, "x");
    assert!(state.rename_note_overlay().is_none());
    state.open_rename_note();
    assert_eq!(state.rename_note_overlay().unwrap().note_id, 1);
    assert_eq!(state.rename_note_overlay().unwrap().title, "One");
    state.rename_note_overlay_mut().unwrap().title.pop();
    assert_eq!(state.rename_note_overlay().unwrap().title, "On");
    state.open_delete_note();
    assert_eq!(state.delete_note_overlay().unwrap().title, "One");
    assert!(state.delete_note_overlay_mut().is_some());
    state.open_bulk_trash_overlay(BulkTrashAction::PurgeAll);
    assert_eq!(state.bulk_trash_action(), Some(BulkTrashAction::PurgeAll));
    state.bulk_trash_overlay_mut().unwrap().action = BulkTrashAction::RestoreAll;
    assert_eq!(state.bulk_trash_overlay().unwrap().action, BulkTrashAction::RestoreAll);
    assert!(matches!(state.overlay(), Some(OverlayState::BulkTrash(_))));
    assert!(state.overlay_mut().is_some());
    state.close_overlay();
    assert!(state.overlay().is_none());
    assert_eq!(state.bulk_trash_action(), None);

    state.selected = 5;
    state.open_rename_note();
    state.open_delete_note();
    assert!(state.overlay().is_none());
    assert!(state.selected_mut().is_none());
    state.selected = 1;
    state.selected_mut().unwrap().pinned = true;
    assert!(state.notes[1].pinned);
    state.toggle_archive(3, true);
    assert!(state.notes[2].archived);
    state.toggle_archive(9, true);
}

#[test]
fn editor_and_autosave_are_reflected_in_the_list() {
    let mut state = state();
    assert!(state.editor().is_none());
    assert_eq!(state.editor_buffer(), None);
    assert!(!state.editor_dirty());
    state.begin_editor(2, "draft\ntext".to_string());
    assert!(state.is_editing());
    assert_eq!(state.editor_buffer(), Some("draft\ntext"));
    assert_eq!(state.notes[1].body, "draft\ntext");
    assert_eq!(state.notes[1].preview, "draft\n\u{e2}\u{20ac}\u{a6}");
    state.editor_mut().unwrap().insert_char('!');
    assert!(state.editor_dirty());
    state.apply_editor_preview();
    assert_eq!(state.notes[1].body, "draft\ntext!");
    state.on_autosave_saved(2, 86_400_500_000_000);
    assert!(!state.editor_dirty());
    assert_eq!(state.notes[1].updated_at, "1970-01-02T00:00:00Z");
    state.editor_mut().unwrap().insert_char('?');
    state.on_autosave_saved(3, 0);
    assert!(state.editor_dirty());
    state.mark_editor_saved();
    assert!(!state.editor_dirty());
    assert!(!state.editor_mut().unwrap().undo());
    state.set_autosave_status(AutoSaveStatus::Disabled);
    assert!(matches!(state.autosave_status(), AutoSaveStatus::Disabled));
    state.close_editor();
    assert!(state.editor().is_none());
    state.apply_editor_preview();
    state.mark_editor_saved();
}

#[test]
fn search_line_decides_what_to_fetch() {
    let mut state = state();
    assert!(matches!(state.refresh(), NotesRequest::Recent { limit: 50 }));
    state.begin_search();
    assert!(state.is_search_active());
    for ch in "Rust".chars() {
        state.push_search_char(ch);
    }
    match state.push_search_char(' ') {
        NotesRequest::Search { query, limit } => {
            assert_eq!(limit, 200);
            assert_eq!(query.terms, vec!["Rust"]);
        }
        other => panic!("expected a search, got {other:?}"),
    }
    assert_eq!(state.search_query(), "Rust ");
    assert_eq!(state.search_tokens(), vec!["Rust"]);
    for ch in "tag:Work created:1970-01-01".chars() {
        state.push_search_char(ch);
    }
    assert_eq!(state.search_tags(), &vec!["work".to_string()]);
    assert_eq!(
        state.search_filter_chips(),
        &vec!["tag:work".to_string(), "created:1970-01-01..1970-01-02".to_string()]
    );
    assert_eq!(state.search_tokens(), vec!["Rust", "work"]);

    let toggle = state.toggle_regex_mode();
    assert!(toggle.enabled);
    assert!(!toggle.previous);
    assert!(state.is_regex_enabled());
    match toggle.request {
        Some(NotesRequest::Search { query, .. }) => {
            assert!(query.terms.is_empty());
            assert_eq!(query.regex_pattern, Some("Rust".to_string()));
            assert_eq!(query.tags, vec!["work"]);
        }
        other => panic!("expected a search, got {other:?}"),
    }
    state.revert_regex_mode(false);
    assert!(!state.is_regex_enabled());

    let request = state.refresh();
    let failed = state.complete_request(&request, Err("no such table".to_string()), NOW);
    assert_eq!(failed, Err("no such table".to_string()));
    assert_eq!(state.search_error(), Some("no such table"));
    state.selected = 2;
    let done = state.complete_request(&request, Ok(vec![record(9, "Nine", "b", &[])]), NOW);
    assert_eq!(done, Ok(()));
    assert_eq!(state.search_error(), None);
    assert_eq!(state.selected_note_id(), Some(9));
    state.finish_search();
    assert!(!state.is_search_active());
    assert!(state.cancel_search().is_none());

    state.begin_search();
    let request = state.cancel_search().expect("a request");
    assert!(matches!(request, NotesRequest::Recent { limit: 50 }));
    assert_eq!(state.search_query(), "");
    assert!(state.search_tokens().is_empty());
    state.selected = 7;
    state.complete_request(&request, Ok(vec![record(1, "One", "", &[]), record(2, "Two", "", &[])]), NOW)
        .unwrap();
    assert_eq!(state.selected, 1);
    assert!(state.pop_search_char().is_none());
}

#[test]
fn search_line_that_asks_nothing_lists_plainly() {
    let mut state = state();
    assert!(matches!(state.push_search_char('?'), NotesRequest::Recent { limit: 50 }));
    assert_eq!(state.search_query(), "?");
    assert!(matches!(state.refresh(), NotesRequest::Recent { limit: 50 }));
    assert!(matches!(state.pop_search_char(), Some(NotesRequest::Recent { limit: 50 })));
    assert!(matches!(state.set_trash_view(true), Some(NotesRequest::Trashed { limit: 50 })));
    assert!(state.show_trash);
    assert!(state.set_trash_view(true).is_none());
    assert_eq!(state.restore_selected_note(), Some(1));
    let toggle = state.toggle_regex_mode();
    assert!(toggle.enabled && toggle.request.is_none());
    state.push_search_char('a');
    state.push_search_char('b');
    match state.pop_search_char() {
        Some(NotesRequest::Search { query, .. }) => {
            assert_eq!(query.regex_pattern, Some("a".to_string()));
        }
        other => panic!("expected a search, got {other:?}"),
    }
}

#[test]
fn tag_editor_opens_sorted_with_suggestions() {
    let mut state = state();
    let known: Vec<String> =
        ["delta", "Alpha", "zeta", "beta", "eta", "iota", "kappa", "Chi"].iter().map(|t| t.to_string()).collect();
    state.notes[0].tags.push("orphan".to_string());
    state.open_tag_editor(&known);
    assert_eq!(
        names(&state),
        vec!["Alpha", "beta", "Chi", "delta", "eta", "iota", "kappa", "orphan", "zeta"]
    );
    assert_eq!(flags(&state, "Alpha"), (true, true, false));
    assert_eq!(flags(&state, "orphan"), (true, true, false));
    assert_eq!(flags(&state, "Chi"), (false, false, false));
    assert_eq!(
        state.tag_editor_overlay().unwrap().suggestions,
        vec!["Chi", "delta", "eta", "iota", "kappa"]
    );
    assert_eq!(state.tag_editor_mode(), TagEditorMode::Browse);
    assert_eq!(state.tag_editor_selected_name(), Some("Alpha".to_string()));
    assert_eq!(state.tag_editor_overlay().unwrap().note_id, 1);

    assert_eq!(state.tag_editor_apply_suggestion(9), None);
    assert_eq!(status(&state).as_deref(), Some("No suggestion in that slot"));
    assert_eq!(state.tag_editor_apply_suggestion(1), Some("delta".to_string()));
    assert_eq!(flags(&state, "delta"), (true, false, false));
    assert_eq!(state.tag_editor_selected_name(), Some("delta".to_string()));
    assert_eq!(status(&state).as_deref(), Some("Queued tag 'delta' (press Enter to save)"));
    assert_eq!(state.tag_editor_overlay().unwrap().suggestions.len(), 4);
    let (add, remove, note_id) = state.tag_editor_changes().unwrap();
    assert_eq!(add, vec!["delta"]);
    assert!(remove.is_empty());
    assert_eq!(note_id, 1);
}

#[test]
fn tag_editor_browses_adds_and_marks() {
    let mut state = state();
    state.tag_editor_toggle_selection();
    assert!(state.tag_editor_changes().is_none());
    assert_eq!(state.tag_editor_mode(), TagEditorMode::Browse);
    assert!(!state.tag_editor_begin_marked_merge());
    let known: Vec<String> = ["alpha", "beta", "gamma"].iter().map(|t| t.to_string()).collect();
    state.selected = 1;
    state.open_tag_editor(&known);
    state.tag_editor_move_selection(1);
    state.tag_editor_toggle_selection();
    assert_eq!(flags(&state, "beta"), (true, false, false));
    state.tag_editor_move_selection(5);
    assert_eq!(state.tag_editor_selected_name(), Some("gamma".to_string()));
    state.tag_editor_toggle_bulk_mark();
    assert_eq!(status(&state).as_deref(), Some("Marked 'gamma' for bulk actions"));
    assert!(!state.tag_editor_begin_marked_merge());
    assert_eq!(
        status(&state).as_deref(),
        Some("Mark at least two tags with 'v' before using bulk merge")
    );
    state.tag_editor_move_selection(-5);
    state.tag_editor_toggle_bulk_mark();
    assert!(state.tag_editor_begin_marked_merge());
    assert_eq!(
        state.tag_editor_mode(),
        TagEditorMode::Input(TagInputKind::Merge { sources: vec!["alpha".into(), "gamma".into()] })
    );
    state.tag_editor_cancel_input();
    assert_eq!(state.tag_editor_mode(), TagEditorMode::Browse);
    state.tag_editor_toggle_bulk_mark();
    assert_eq!(status(&state).as_deref(), Some("Unmarked 'alpha'"));
    state.tag_editor_clear_bulk_marks();
    assert_eq!(status(&state).as_deref(), Some("Cleared 1 bulk mark"));
    state.tag_editor_clear_bulk_marks();
    assert_eq!(status(&state).as_deref(), Some("No bulk marks to clear"));

    state.tag_editor_begin_add();
    assert_eq!(status(&state).as_deref(), Some("New tag: type name, Enter to add, Esc to cancel"));
    state.tag_editor_commit_input();
    assert_eq!(status(&state).as_deref(), Some("Tag cannot be empty"));
    for ch in " Beta!".chars() {
        state.tag_editor_push_char(ch);
    }
    state.tag_editor_pop_char();
    assert_eq!(state.tag_editor_input_value(), Some("Beta".to_string()));
    state.tag_editor_commit_input();
    assert_eq!(status(&state).as_deref(), Some("Tag selected"));
    assert_eq!(names(&state), vec!["alpha", "beta", "gamma"]);
    assert_eq!(state.tag_editor_input_value(), None);
    state.tag_editor_begin_add();
    for ch in "b\u{e9}ta".chars() {
        state.tag_editor_push_char(ch);
    }
    state.tag_editor_commit_input();
    assert_eq!(status(&state).as_deref(), Some("Tag added"));
    assert_eq!(names(&state), vec!["alpha", "beta", "b\u{e9}ta", "gamma"]);
    assert_eq!(state.tag_editor_selected_name(), Some("b\u{e9}ta".to_string()));
    let (add, remove, _) = state.tag_editor_changes().unwrap();
    assert_eq!(add, vec!["beta", "b\u{e9}ta"]);
    assert!(remove.is_empty());

    state.tag_editor_begin_add();
    for _ in 0..70 {
        state.tag_editor_push_char('x');
    }
    assert_eq!(state.tag_editor_overlay().unwrap().input.len(), 64);
    state.tag_editor_push_char('y');
    state.tag_editor_cancel_input();
    state.tag_editor_pop_char();
    state.tag_editor_set_status("done".to_string());
    assert_eq!(status(&state).as_deref(), Some("done"));
    assert!(state.tag_editor_overlay_mut().is_some());
}

#[test]
fn tag_editor_follows_renames_merges_and_deletes() {
    let mut state = state();
    let known: Vec<String> = ["alpha", "beta", "gamma"].iter().map(|t| t.to_string()).collect();
    state.open_tag_editor(&known);
    assert_eq!(names(&state), vec!["alpha", "Alpha", "beta", "gamma"]);
    assert_eq!(flags(&state, "alpha"), (false, false, false));
    state.tag_editor_move_selection(1);
    state.tag_editor_begin_rename();
    assert_eq!(
        state.tag_editor_mode(),
        TagEditorMode::Input(TagInputKind::Rename { original: "Alpha".into() })
    );
    assert_eq!(state.tag_editor_input_value(), Some("Alpha".to_string()));
    assert_eq!(
        status(&state).as_deref(),
        Some("Renaming 'Alpha': edit and press Enter, Esc to cancel")
    );
    state.tag_editor_finish_rename("Alpha", "omega");
    assert_eq!(names(&state), vec!["alpha", "beta", "gamma", "omega"]);
    assert_eq!(state.tag_editor_selected_name(), Some("omega".to_string()));
    assert_eq!(
        status(&state).as_deref(),
        Some("Renamed tag 'Alpha' \u{e2}\u{2020}\u{2019} 'omega'")
    );
    assert_eq!(flags(&state, "omega"), (true, true, false));

    state.tag_editor_begin_merge();
    assert_eq!(
        state.tag_editor_mode(),
        TagEditorMode::Input(TagInputKind::Merge { sources: vec!["omega".into()] })
    );
    assert_eq!(
        status(&state).as_deref(),
        Some("Merge 'omega' into existing tag: type target name")
    );
    state.tag_editor_finish_merge("omega", "GAMMA");
    assert_eq!(names(&state), vec!["alpha", "beta", "gamma"]);
    assert_eq!(flags(&state, "gamma"), (true, true, false));
    assert_eq!(state.tag_editor_selected_name(), Some("gamma".to_string()));
    assert_eq!(status(&state).as_deref(), Some("Merged 'omega' into 'GAMMA'"));
    state.tag_editor_finish_merge("beta", "new");
    assert_eq!(names(&state), vec!["alpha", "gamma", "new"]);
    assert_eq!(flags(&state, "new"), (true, true, false));

    state.tag_editor_begin_delete();
    assert_eq!(state.tag_editor_mode(), TagEditorMode::ConfirmDelete { tag: "new".into() });
    assert_eq!(
        status(&state).as_deref(),
        Some("Delete 'new'? Press y to confirm or n / Esc to cancel")
    );
    state.tag_editor_finish_delete("new");
    assert_eq!(names(&state), vec!["alpha", "gamma"]);
    assert_eq!(state.tag_editor_selected_name(), Some("gamma".to_string()));
    assert_eq!(status(&state).as_deref(), Some("Deleted tag 'new'"));
    state.tag_editor_finish_delete("alpha");
    state.tag_editor_finish_delete("gamma");
    assert_eq!(status(&state).as_deref(), Some("No tags remain"));
    state.tag_editor_move_selection(1);
    assert_eq!(state.tag_editor_selected_name(), None);
    let (add, remove, _) = state.tag_editor_changes().unwrap();
    assert!(add.is_empty() && remove.is_empty());
}

#[test]
fn names_sort_by_lower_case_and_stay_stable() {
    assert!(text_le("", "a"));
    assert!(text_le("a", "a"));
    assert!(text_le("a", "ab"));
    assert!(!text_le("ab", "a"));
    assert!(text_le("Z", "a"));
    assert!(text_le("z", "\u{e9}"));
    let sorted = sort_names(&vec!["b".to_string(), "A".to_string(), "a".to_string(), "B".to_string()]);
    assert_eq!(sorted, vec!["A", "a", "b", "B"]);
    assert!(sort_items(Vec::new()).is_empty());
}

#[test]
fn recovery_list_is_built_and_shrinks() {
    let mut state = state();
    state.open_recovery_overlay(&Vec::new(), 0);
    assert!(state.recovery_overlay().is_none());
    assert!(state.recovery_entries().is_empty());
    assert!(state.recovery_remove_selected().is_none());
    let second: i128 = 1_000_000_000;
    let draft = |note_id: i64, body: &str, title: Option<&str>| RecoveredDraft {
        snapshot: RecoverySnapshot { note_id, saved_at: 1_700_000_000 * second, body: body.to_string() },
        title: title.map(|t| t.to_string()),
    };
    let drafts = vec![
        draft(1, " one \n\n", Some("One")),
        draft(8, "", None),
        draft(1, "again", Some("One")),
        draft(3, "three", Some("Three")),
    ];
    state.open_recovery_overlay(&drafts, (1_700_000_000 + 120) * second);
    let entries = state.recovery_entries();
    assert_eq!(entries.len(), 4);
    assert_eq!(entries[0].title, "One");
    assert_eq!(entries[0].saved_at, "2023-11-14T22:13:20Z");
    assert_eq!(entries[0].saved_relative, "2m ago");
    assert_eq!(entries[0].preview, vec!["one"]);
    assert!(!entries[0].missing);
    assert_eq!(entries[1].title, "Recovered note #8 (missing)");
    assert_eq!(entries[1].preview, vec!["(empty draft)"]);
    assert!(entries[1].missing);
    assert_eq!(state.recovery_selected_entry().unwrap().note_id, 1);
    state.recovery_move_selection(10);
    assert_eq!(state.recovery_selected_entry().unwrap().note_id, 3);
    let removed = state.recovery_remove_selected().unwrap();
    assert_eq!(removed.note_id, 3);
    assert_eq!(state.recovery_overlay().unwrap().selected, 2);
    state.recovery_remove_for_note(1);
    assert_eq!(state.recovery_entries().len(), 1);
    assert_eq!(state.recovery_overlay().unwrap().selected, 0);
    state.recovery_move_selection(-3);
    assert!(state.recovery_overlay_mut().is_some());
    state.recovery_remove_for_note(8);
    assert!(state.overlay().is_none());
    state.recovery_remove_for_note(8);
    state.recovery_move_selection(1);
}

#[test]
fn cursor_is_placed_on_the_screen() {
    let area = Area { x: 10, y: 5, width: 12, height: 8 };
    let summary = |tags: &[&str]| NoteSummary {
        id: 1,
        title: String::new(),
        updated_at: String::new(),
        preview: String::new(),
        body: String::new(),
        pinned: false,
        archived: false,
        tags: tags.iter().map(|t| t.to_string()).collect(),
        deleted_at: None,
        deleted_label: None,
        trash_status: None,
    };
    assert_eq!(preview_body_offset(&summary(&[])), 3);
    assert_eq!(preview_body_offset(&summary(&["a"])), 4);
    let editor = EditorState::new(1, "ab\n\u{4e16}\u{754c}e\u{301}".to_string());
    assert_eq!(
        editor_cursor_screen_position(&editor, &summary(&[]), area, true),
        Some((10 + 1 + 5, 5 + 1 + 4))
    );
    assert_eq!(
        editor_cursor_screen_position(&editor, &summary(&["t"]), area, true),
        Some((16, 5 + 1 + 5))
    );
    let long = EditorState::new(1, "0123456789abcdef".to_string());
    assert_eq!(
        editor_cursor_screen_position(&long, &summary(&[]), area, true),
        Some((10 + 1 + 6, 5 + 1 + 4))
    );
    assert_eq!(
        editor_cursor_screen_position(&long, &summary(&[]), area, false),
        Some((10 + 1 + 9, 5 + 1 + 3))
    );
    let tall = EditorState::new(1, "\n\n\n\n\n\n\n\n".to_string());
    assert_eq!(
        editor_cursor_screen_position(&tall, &summary(&[]), area, true),
        Some((11, 5 + 1 + 6))
    );
    let narrow = Area { x: 0, y: 0, width: 2, height: 8 };
    assert_eq!(editor_cursor_screen_position(&long, &summary(&[]), narrow, true), None);
    let flat = Area { x: 0, y: 0, width: 8, height: 1 };
    assert_eq!(editor_cursor_screen_position(&long, &summary(&[]), flat, true), None);
}

#[test]
fn status_line_tells_the_state() {
    let mut state = state();
    let texts = |state: &AppState| -> Vec<String> {
        build_status_line(state)[0].iter().map(|span| span.text.clone()).collect()
    };
    let lines = build_status_line(&state);
    assert_eq!(lines.len(), 4);
    assert_eq!(lines[1][0].text, "Keys: ");
    assert!(lines[1][0].tone.bold);
    assert_eq!(lines[1][0].tone.colour, Colour::Gray);
    assert!(lines[2][0].text.contains("Ctrl-\u{2190}/\u{2192} word jump"));
    assert_eq!(
        texts(&state),
        vec![
            "Total: 3 ", " | Selected: ", "1/3", " | Focus: ", "List", " | Wrap: ", "on",
            " | Autosave: idle",
        ]
    );
    state.show_trash = true;
    state.begin_search();
    state.search.query = "q".to_string();
    state.search.regex_enabled = true;
    state.search.filter_chips = vec!["tag:x".to_string()];
    state.search.last_error = Some("bad".to_string());
    state.begin_editor(1, "text".to_string());
    state.editor_mut().unwrap().insert_char('!');
    state.toggle_wrap();
    state.set_autosave_status(AutoSaveStatus::Pending { note_id: 1, since: 3_600_000_000_000 });
    state.set_status_message(Some("Saved".to_string()));
    assert_eq!(
        texts(&state),
        vec![
            "Total: 3 ", " | Selected: ", "1/3", " | Focus: ", "List", " | View: ", "Trash",
            " | Purge: ", "n/a", " | Search ", "/", "q", " \u{258c}", " ", "[regex]", " ",
            "[tag:x]", " ", "! bad", " | Mode: ", "EDIT*", " | Wrap: ", "off", " | Autosave: ",
            "pending", " since ", "01:00:00", " | ", "Saved",
        ]
    );
    state.set_autosave_status(AutoSaveStatus::Error {
        note_id: 1,
        message: "disk".to_string(),
        occurred_at: 0,
    });
    assert!(texts(&state).contains(&"error (disk)".to_string()));
    state.set_autosave_status(AutoSaveStatus::Idle { note_id: 1, last_saved_at: Some(0) });
    assert!(texts(&state).contains(&"00:00:00".to_string()));
    let empty = AppState::load(Vec::new(), 1, 30, NOW);
    assert_eq!(texts(&empty)[2], "0/0");
}

#[test]
fn configuration_has_its_defaults() {
    let auto = AutoSaveConfig::default();
    assert_eq!(auto.debounce_ms, 800);
    assert!(auto.enabled && auto.crash_recovery);
    assert_eq!(auto.snapshot_retention_hours, 168);
    assert_eq!(ThemeName::default(), ThemeName::Dark);
    assert_eq!(KeybindingProfile::default(), KeybindingProfile::Vim);
    assert_eq!(SortField::default(), SortField::Updated);
    assert_eq!(SortDirection::default(), SortDirection::Descending);
    assert_eq!(
        SortSpec::default(),
        SortSpec { field: SortField::Updated, direction: SortDirection::Descending }
    );
    let registry = ThemeRegistry::default();
    assert!(registry.contains(&ThemeName::Solarized));
    assert!(registry.contains(&ThemeName::HighContrast));
    let mut all = registry.all();
    all.sort_by_key(|theme| format!("{theme:?}"));
    assert_eq!(
        all,
        vec![ThemeName::Dark, ThemeName::HighContrast, ThemeName::Light, ThemeName::Solarized]
    );

    let paths = ConfigPaths {
        config_dir: "c".into(),
        config_file: "c/config.toml".into(),
        data_dir: "d".into(),
        database_path: "d/notes.db".into(),
        cache_dir: "x".into(),
        backup_dir: "d/backups".into(),
        log_dir: "s/logs".into(),
        state_dir: "s".into(),
    };
    let mut options = StorageOptions::default();
    assert_eq!(options.wal_autocheckpoint, 1000);
    assert!(options.backup_on_exit);
    options.backup_dir = "elsewhere".to_string();
    options.resolve(&paths);
    assert_eq!(options.database_path, "d/notes.db");
    assert_eq!(options.backup_dir, "elsewhere");
    let loader = ConfigLoader::new(paths);
    assert_eq!(loader.paths().state_dir, "s");
}
