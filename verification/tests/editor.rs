use pipemind_rust::editor::TextEditor;

fn typed(text: &str) -> TextEditor {
    let mut editor = TextEditor::new();
    for c in text.chars() {
        editor.insert(c);
    }
    editor
}

#[test]
fn new_editor_is_empty() {
    let editor = TextEditor::new();
    assert!(editor.is_empty());
    assert!(editor.at_end());
    assert_eq!(editor.cursor(), 0);
    assert_eq!(editor.text(), "");
    assert!(!editor.is_command_mode());
}

#[test]
fn delete_forward_in_the_middle() {
    let mut editor = typed("abc");
    editor.move_cursor(-1);
    editor.move_cursor(-1);
    assert_eq!(editor.cursor(), 1);
    editor.delete_at_cursor();
    assert_eq!(editor.text(), "ac");
    assert_eq!(editor.cursor(), 1);
}

#[test]
fn insert_in_the_middle() {
    let mut editor = typed("ac");
    editor.move_cursor(-1);
    editor.insert('b');
    assert_eq!(editor.text(), "abc");
    assert_eq!(editor.cursor(), 2);
    assert_eq!(editor.text_before_cursor(), "ab");
    assert_eq!(editor.text_after_cursor(), "c");
    assert!(!editor.at_end());
}

#[test]
fn backspace_removes_before_cursor() {
    let mut editor = typed("abc");
    editor.move_cursor(-1);
    editor.delete_before_cursor();
    assert_eq!(editor.text(), "ac");
    assert_eq!(editor.cursor(), 1);
}

#[test]
fn backspace_at_start_is_a_no_op() {
    let mut editor = typed("abc");
    editor.move_to_start();
    editor.delete_before_cursor();
    assert_eq!(editor.text(), "abc");
    assert_eq!(editor.cursor(), 0);
}

#[test]
fn delete_at_end_is_a_no_op() {
    let mut editor = typed("abc");
    editor.delete_at_cursor();
    assert_eq!(editor.text(), "abc");
    assert_eq!(editor.cursor(), 3);
}

#[test]
fn move_cursor_is_clamped() {
    let mut editor = typed("hello");
    editor.move_cursor(1);
    assert_eq!(editor.cursor(), 5);
    editor.move_cursor(isize::MAX);
    assert_eq!(editor.cursor(), 5);
    editor.move_cursor(-3);
    assert_eq!(editor.cursor(), 2);
    editor.move_cursor(-100);
    assert_eq!(editor.cursor(), 0);
    editor.move_cursor(isize::MIN);
    assert_eq!(editor.cursor(), 0);
    editor.move_cursor(4);
    assert_eq!(editor.cursor(), 4);
    editor.move_cursor(0);
    assert_eq!(editor.cursor(), 4);
    assert_eq!(editor.text(), "hello");
}

#[test]
fn move_to_start_and_end() {
    let mut editor = typed("hello");
    editor.move_to_start();
    assert_eq!(editor.cursor(), 0);
    assert_eq!(editor.text(), "hello");
    editor.move_to_end();
    assert_eq!(editor.cursor(), 5);
    assert_eq!(editor.text(), "hello");
}

#[test]
fn kill_to_start_keeps_the_rest() {
    let mut editor = typed("hello world");
    editor.move_cursor(-5);
    editor.kill_to_start();
    assert_eq!(editor.text(), "world");
    assert_eq!(editor.cursor(), 0);
}

#[test]
fn kill_to_end_keeps_the_front() {
    let mut editor = typed("hello world");
    editor.move_cursor(-6);
    editor.kill_to_end();
    assert_eq!(editor.text(), "hello");
    assert_eq!(editor.cursor(), 5);
}

#[test]
fn slash_into_empty_line_starts_command_mode() {
    let mut editor = TextEditor::new();
    editor.insert('/');
    assert!(editor.is_command_mode());
    editor.insert('x');
    assert!(editor.is_command_mode());
}

#[test]
fn slash_into_non_empty_line_does_not_start_command_mode() {
    let mut editor = typed("a");
    editor.insert('/');
    assert!(!editor.is_command_mode());
    editor.move_to_start();
    editor.insert('/');
    assert_eq!(editor.text(), "/a/");
    assert!(!editor.is_command_mode());
}

#[test]
fn command_mode_is_sticky_until_the_line_is_empty() {
    let mut editor = typed("/ab");
    editor.move_to_start();
    editor.delete_at_cursor();
    assert_eq!(editor.text(), "ab");
    assert!(editor.is_command_mode());
    editor.delete_at_cursor();
    assert!(editor.is_command_mode());
    editor.delete_at_cursor();
    assert!(editor.is_empty());
    assert!(!editor.is_command_mode());
}

#[test]
fn backspace_to_empty_ends_command_mode() {
    let mut editor = typed("/");
    assert!(editor.is_command_mode());
    editor.delete_before_cursor();
    assert!(!editor.is_command_mode());
    editor.insert('a');
    assert!(!editor.is_command_mode());
}

#[test]
fn kills_end_command_mode_only_when_the_line_is_emptied() {
    let mut editor = typed("/help");
    editor.move_cursor(-2);
    editor.kill_to_end();
    assert_eq!(editor.text(), "/he");
    assert!(editor.is_command_mode());
    editor.kill_to_start();
    assert!(editor.is_empty());
    assert!(!editor.is_command_mode());

    let mut editor = typed("/help");
    editor.move_to_start();
    editor.kill_to_end();
    assert!(editor.is_empty());
    assert!(!editor.is_command_mode());
}

#[test]
fn clear_resets_everything() {
    let mut editor = typed("/abc");
    editor.move_cursor(-1);
    editor.clear();
    assert!(editor.is_empty());
    assert_eq!(editor.cursor(), 0);
    assert!(!editor.is_command_mode());
}

#[test]
fn offsets_count_characters_not_bytes() {
    let mut editor = typed("h\u{e9}llo \u{1F4F7}!");
    assert_eq!(editor.cursor(), 8);
    editor.move_cursor(-1);
    editor.delete_before_cursor();
    assert_eq!(editor.text(), "h\u{e9}llo !");
    assert_eq!(editor.cursor(), 6);
    editor.move_to_start();
    editor.move_cursor(2);
    editor.delete_before_cursor();
    assert_eq!(editor.text(), "hllo !");
    editor.insert('\u{e4}');
    assert_eq!(editor.text(), "h\u{e4}llo !");
    assert_eq!(editor.cursor(), 2);
    assert_eq!(editor.text_before_cursor(), "h\u{e4}");
}

#[test]
fn cursor_stays_in_line_over_a_long_run() {
    let mut editor = TextEditor::new();
    let mut seed: u32 = 12345;
    for _ in 0..2000 {
        seed = seed.wrapping_mul(1664525).wrapping_add(1013904223);
        match (seed >> 16) % 6 {
            0 | 1 => editor.insert('x'),
            2 => editor.delete_before_cursor(),
            3 => editor.delete_at_cursor(),
            4 => editor.move_cursor(-3),
            _ => editor.move_cursor(2),
        }
        assert!(editor.cursor() <= editor.text().chars().count());
        assert_eq!(
            editor.text(),
            format!("{}{}", editor.text_before_cursor(), editor.text_after_cursor())
        );
        assert_eq!(editor.cursor(), editor.text_before_cursor().chars().count());
    }
}

#[test]
fn flag_tracks_slash_when_typing_at_the_end() {
    let mut editor = TextEditor::new();
    for c in ['/', 'a', 'b'] {
        editor.insert(c);
        assert_eq!(editor.is_command_mode(), editor.text().starts_with('/'));
    }
    for _ in 0..3 {
        editor.delete_before_cursor();
        assert_eq!(editor.is_command_mode(), editor.text().starts_with('/'));
    }
    for c in ['a', '/', 'b'] {
        editor.insert(c);
        assert_eq!(editor.is_command_mode(), editor.text().starts_with('/'));
    }
}
