use notetui::editor::EditorState;

#[test]
fn editor_undo_redo_cycles() {
    let mut editor = EditorState::new(1, "hello".to_string());
    assert!(editor.insert_char('!'));
    assert_eq!(editor.buffer(), "hello!");
    assert!(editor.undo());
    assert_eq!(editor.buffer(), "hello");
    assert!(!editor.undo());
    assert!(editor.redo());
    assert_eq!(editor.buffer(), "hello!");
}

#[test]
fn editor_word_navigation_skips_whitespace() {
    let mut editor = EditorState::new(1, "alpha  beta".to_string());
    editor.move_end();
    assert!(editor.move_word_left());
    assert_eq!(editor.cursor(), 7); // start of "beta"
    assert!(editor.move_word_left());
    assert_eq!(editor.cursor(), 0);
    assert!(editor.move_word_right());
    assert_eq!(editor.cursor(), 7); // start of "beta"
}

#[test]
fn editor_mark_clean_resets_history() {
    let mut editor = EditorState::new(1, "seed".to_string());
    editor.insert_char('s');
    editor.mark_clean();
    assert!(!editor.is_dirty());
    assert!(!editor.undo());
}

#[test]
fn editor_starts_clean_with_cursor_at_end() {
    let editor = EditorState::new(7, "h\u{e9}llo".to_string());
    assert_eq!(editor.note_id(), 7);
    assert_eq!(editor.cursor(), 6);
    assert_eq!(editor.buffer(), "h\u{e9}llo");
    assert!(!editor.is_dirty());
}

#[test]
fn editor_insert_advances_by_encoded_length() {
    let mut editor = EditorState::new(1, String::new());
    assert!(editor.insert_char('a'));
    assert_eq!(editor.cursor(), 1);
    assert!(editor.insert_char('\u{e9}'));
    assert_eq!(editor.cursor(), 3);
    assert!(editor.insert_char('\u{20ac}'));
    assert_eq!(editor.cursor(), 6);
    assert!(editor.insert_char('\u{1f600}'));
    assert_eq!(editor.cursor(), 10);
    assert_eq!(editor.buffer(), "a\u{e9}\u{20ac}\u{1f600}");
    assert!(editor.is_dirty());
    assert!(editor.buffer().is_char_boundary(editor.cursor()));
}

#[test]
fn editor_insert_in_the_middle() {
    let mut editor = EditorState::new(1, "ac".to_string());
    assert!(editor.move_left());
    assert!(editor.insert_char('b'));
    assert_eq!(editor.buffer(), "abc");
    assert_eq!(editor.cursor(), 2);
    assert!(editor.insert_newline());
    assert_eq!(editor.buffer(), "ab\nc");
    assert_eq!(editor.cursor(), 3);
}

#[test]
fn editor_backspace_removes_whole_cluster() {
    let mut editor = EditorState::new(1, "ae\u{301}".to_string());
    assert!(editor.backspace());
    assert_eq!(editor.buffer(), "a");
    assert_eq!(editor.cursor(), 1);
    assert!(editor.backspace());
    assert_eq!(editor.buffer(), "");
    assert_eq!(editor.cursor(), 0);
    assert!(!editor.backspace());
    assert_eq!(editor.buffer(), "");
}

#[test]
fn editor_delete_removes_cluster_at_cursor() {
    let mut editor = EditorState::new(1, "\u{1f1f7}\u{1f1fa}x".to_string());
    assert!(!editor.delete());
    assert!(editor.move_home());
    assert_eq!(editor.cursor(), 0);
    assert!(editor.delete());
    assert_eq!(editor.buffer(), "x");
    assert_eq!(editor.cursor(), 0);
    assert!(editor.delete());
    assert_eq!(editor.buffer(), "");
    assert!(!editor.delete());
}

#[test]
fn editor_moves_by_grapheme_cluster() {
    let mut editor = EditorState::new(1, "a\u{310}e\u{301}o".to_string());
    assert_eq!(editor.cursor(), 7);
    assert!(!editor.move_right());
    assert!(editor.move_left());
    assert_eq!(editor.cursor(), 6);
    assert!(editor.move_left());
    assert_eq!(editor.cursor(), 3);
    assert!(editor.move_left());
    assert_eq!(editor.cursor(), 0);
    assert!(!editor.move_left());
    assert!(editor.move_right());
    assert_eq!(editor.cursor(), 3);
    assert!(editor.move_right());
    assert_eq!(editor.cursor(), 6);
}

#[test]
fn editor_home_and_end_stay_on_the_line() {
    let mut editor = EditorState::new(1, "one\ntwo\nthree".to_string());
    assert!(!editor.move_end());
    assert!(editor.move_home());
    assert_eq!(editor.cursor(), 8);
    assert!(!editor.move_home());
    assert!(editor.move_up());
    assert_eq!(editor.cursor(), 4);
    assert!(editor.move_end());
    assert_eq!(editor.cursor(), 7);
    assert!(!editor.move_end());
}

#[test]
fn editor_vertical_motion_keeps_the_column() {
    let mut editor = EditorState::new(1, "abcdef\nxy\nlonger line".to_string());
    // cursor at the end of the last line, column 11
    assert!(editor.move_up());
    assert_eq!(editor.cursor(), 9); // end of "xy"
    assert!(editor.move_up());
    assert_eq!(editor.cursor(), 6); // end of "abcdef", column 11 clamps to 6
    assert!(editor.move_up());
    assert_eq!(editor.cursor(), 0); // first line: start of the buffer
    assert!(!editor.move_up());
    assert!(editor.move_down());
    assert_eq!(editor.cursor(), 9);
    assert!(editor.move_down());
    assert_eq!(editor.cursor(), 21); // column 11 of "longer line"
    assert!(!editor.move_down());
}

#[test]
fn editor_vertical_motion_from_a_column() {
    let mut editor = EditorState::new(1, "abcd\nefgh".to_string());
    assert!(editor.move_left());
    assert!(editor.move_left());
    assert_eq!(editor.cursor(), 7);
    assert!(editor.move_up());
    assert_eq!(editor.cursor(), 2);
    assert!(editor.move_down());
    assert_eq!(editor.cursor(), 7);
    assert!(editor.move_down());
    assert_eq!(editor.cursor(), 9);
}

#[test]
fn editor_word_right_at_the_end_is_a_no_op() {
    let mut editor = EditorState::new(1, "alpha".to_string());
    assert!(!editor.move_word_right());
    let mut empty = EditorState::new(1, String::new());
    assert!(!empty.move_word_left());
    assert!(!empty.move_word_right());
}

#[test]
fn editor_word_motion_over_several_words() {
    let mut editor = EditorState::new(1, "  one\ttwo \u{3000}three".to_string());
    assert!(editor.move_home());
    assert!(editor.move_word_right());
    assert_eq!(editor.cursor(), 6); // start of "two"
    assert!(editor.move_word_right());
    assert_eq!(editor.cursor(), 13); // start of "three"
    assert!(editor.move_word_right());
    assert_eq!(editor.cursor(), 18);
    assert!(editor.move_word_left());
    assert_eq!(editor.cursor(), 13);
    assert!(editor.move_word_left());
    assert_eq!(editor.cursor(), 6);
    assert!(editor.move_word_left());
    assert_eq!(editor.cursor(), 2);
    assert!(editor.move_word_left());
    assert_eq!(editor.cursor(), 0);
}

#[test]
fn editor_undo_walks_back_one_edit_at_a_time() {
    let mut editor = EditorState::new(1, "a".to_string());
    editor.insert_char('b');
    editor.insert_char('c');
    editor.backspace();
    assert_eq!(editor.buffer(), "ab");
    assert!(editor.undo());
    assert_eq!(editor.buffer(), "abc");
    assert!(editor.undo());
    assert_eq!(editor.buffer(), "ab");
    assert!(editor.is_dirty());
    assert!(editor.undo());
    assert_eq!(editor.buffer(), "a");
    assert!(!editor.is_dirty());
    assert!(!editor.undo());
    assert!(editor.redo());
    assert!(editor.redo());
    assert!(editor.redo());
    assert_eq!(editor.buffer(), "ab");
    assert!(!editor.redo());
}

#[test]
fn editor_edit_after_undo_drops_the_redo_branch() {
    let mut editor = EditorState::new(1, "a".to_string());
    editor.insert_char('b');
    assert!(editor.undo());
    editor.insert_char('c');
    assert_eq!(editor.buffer(), "ac");
    assert!(!editor.redo());
    assert!(editor.undo());
    assert_eq!(editor.buffer(), "a");
}

#[test]
fn editor_history_is_bounded() {
    let mut editor = EditorState::new(1, String::new());
    for _ in 0..250 {
        editor.insert_char('x');
    }
    let mut undone = 0;
    while editor.undo() {
        undone += 1;
    }
    assert_eq!(undone, 199);
    assert_eq!(editor.buffer().len(), 51);
    assert!(editor.buffer().chars().all(|c| c == 'x'));
}

#[test]
fn editor_undo_keeps_the_cursor_on_a_boundary() {
    let mut editor = EditorState::new(1, "\u{e9}a".to_string());
    assert!(editor.move_left());
    assert!(editor.backspace());
    assert_eq!(editor.buffer(), "a");
    assert!(editor.insert_char('x'));
    assert_eq!(editor.cursor(), 1);
    assert!(editor.undo());
    assert!(editor.undo());
    assert_eq!(editor.buffer(), "\u{e9}a");
    assert!(editor.buffer().is_char_boundary(editor.cursor()));
    assert_eq!(editor.cursor(), 0);
    assert!(editor.insert_char('z'));
    assert_eq!(editor.buffer(), "z\u{e9}a");
}

#[test]
fn editor_mark_clean_then_redo_is_a_no_op() {
    let mut editor = EditorState::new(1, "seed".to_string());
    editor.insert_char('s');
    editor.undo();
    editor.mark_clean();
    assert!(!editor.redo());
    assert!(!editor.undo());
    assert_eq!(editor.buffer(), "seed");
}

#[test]
fn editor_undo_keeps_the_cursor_off_the_inside_of_a_cluster() {
    let mut editor = EditorState::new(1, "e\u{301}".to_string());
    assert!(editor.move_home());
    assert!(editor.insert_char('x'));
    assert_eq!(editor.buffer(), "xe\u{301}");
    assert_eq!(editor.cursor(), 1);
    assert!(editor.undo());
    assert_eq!(editor.buffer(), "e\u{301}");
    assert_eq!(editor.cursor(), 0);
    assert!(editor.redo());
    assert_eq!(editor.buffer(), "xe\u{301}");
    assert_eq!(editor.cursor(), 0);
}

#[test]
fn editor_redo_snaps_the_cursor_to_a_cluster_start() {
    let mut editor = EditorState::new(1, "ab".to_string());
    assert!(editor.move_left());
    assert!(editor.insert_char('\u{301}'));
    assert_eq!(editor.buffer(), "a\u{301}b");
    assert_eq!(editor.cursor(), 3);
    assert!(editor.undo());
    assert_eq!(editor.cursor(), 2);
    assert!(editor.move_left());
    assert_eq!(editor.cursor(), 1);
    assert!(editor.redo());
    assert_eq!(editor.buffer(), "a\u{301}b");
    assert_eq!(editor.cursor(), 0);
    assert!(editor.undo());
    assert_eq!(editor.buffer(), "ab");
    assert_eq!(editor.cursor(), 0);
}

#[test]
fn editor_kth_undo_brings_back_the_kth_last_text() {
    let mut editor = EditorState::new(1, "0".to_string());
    let mut texts = vec![editor.buffer().to_string()];
    for ch in ['a', 'b', 'c', 'd', 'e'] {
        assert!(editor.insert_char(ch));
        texts.push(editor.buffer().to_string());
    }
    assert!(editor.backspace());
    texts.push(editor.buffer().to_string());
    let n = texts.len() - 1;
    for k in 1..=n {
        assert!(editor.undo());
        assert_eq!(editor.buffer(), texts[n - k]);
    }
    assert!(!editor.undo());
}
