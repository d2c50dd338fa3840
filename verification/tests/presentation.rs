use pipemind_rust::app_state::AppState;
use pipemind_rust::focus::FocusArea;
use pipemind_rust::image_tools::{ImageToolsHandler, ImageToolsState, WELCOME_MESSAGE};
use pipemind_rust::presentation::{
    cursor_mark, highlighted_entry, image_tools_text, input_line_parts, input_title,
    navigation_title,
};
use pipemind_rust::text::{joined, owned, push_chars};

#[test]
fn welcome_message_text() {
    let state = ImageToolsState::new();
    assert!(state.welcome_message.starts_with("Welcome to the Prompt Peekery!\n\nDrop in a picture"));
    assert!(state.welcome_message.ends_with("\n\n\u{1F4F7} Chuck in an image to begin the poking."));
    assert!(state
        .welcome_message
        .contains("diffusion engine. We'll pry it open like a suspicious pie"));
    assert!(state.welcome_message.contains("\n- The _seed_ that sprouted its weird little face\n- Sampling"));
    assert_eq!(state.welcome_message.chars().count(), 504);
    assert_eq!(state.welcome_message, WELCOME_MESSAGE);
    assert_eq!(ImageToolsState::default().welcome_message, "");
}

#[test]
fn handler_gives_the_welcome_message() {
    let handler = ImageToolsHandler::new();
    assert_eq!(handler.get_welcome_message(), WELCOME_MESSAGE);
    assert_eq!(handler.state.welcome_message, WELCOME_MESSAGE);
}

#[test]
fn input_title_tells_command_from_text() {
    let mut app = AppState::new();
    assert_eq!(input_title(&app), "Input");
    app.insert('/');
    assert_eq!(input_title(&app), "Command");
    app.delete_before_cursor();
    assert_eq!(input_title(&app), "Input");
}

#[test]
fn cursor_mark_and_line_parts() {
    let mut app = AppState::new();
    assert_eq!(cursor_mark(&app), "\u{2588}");
    assert_eq!(input_line_parts(&app), (String::new(), String::new()));
    for c in "abc".chars() {
        app.insert(c);
    }
    assert_eq!(cursor_mark(&app), "\u{2588}");
    assert_eq!(input_line_parts(&app), ("abc".to_string(), String::new()));
    app.move_cursor(-2);
    assert_eq!(cursor_mark(&app), "\u{2502}");
    assert_eq!(input_line_parts(&app), ("a".to_string(), "bc".to_string()));
}

#[test]
fn navigation_title_names_the_parent() {
    let mut app = AppState::new();
    assert_eq!(navigation_title(&app), "Navigation");
    app.select_navigation_item(1);
    app.enter_submenu();
    assert_eq!(navigation_title(&app), "Navigation - Image Tools");
    app.exit_submenu();
    assert_eq!(navigation_title(&app), "Navigation");
}

#[test]
fn highlight_needs_the_menu_focus() {
    let mut app = AppState::new();
    app.select_navigation_item(3);
    assert_eq!(highlighted_entry(&app), Some(3));
    app.set_focus(FocusArea::Preview);
    assert_eq!(highlighted_entry(&app), None);
}

#[test]
fn image_tools_pane_text() {
    let mut app = AppState::new();
    assert_eq!(image_tools_text(&app), WELCOME_MESSAGE);
    app.insert('a');
    assert_eq!(image_tools_text(&app), WELCOME_MESSAGE);
    app.reset_input();
    app.insert('/');
    app.insert('x');
    assert_eq!(image_tools_text(&app), "Command Mode: /x");
}

#[test]
fn text_helpers_build_strings() {
    let mut wide = String::new();
    push_chars(&mut wide, &vec!['a', '\u{e9}', '\u{1F4F7}']);
    assert_eq!(wide, "a\u{e9}\u{1F4F7}");
    push_chars(&mut wide, &Vec::new());
    assert_eq!(wide, "a\u{e9}\u{1F4F7}");
    let mut s = String::from("x");
    push_chars(&mut s, &vec!['y', 'z']);
    assert_eq!(s, "xyz");
    assert_eq!(owned("abc"), "abc");
    assert_eq!(joined("ab", "cd"), "abcd");
    assert_eq!(joined("", ""), "");
}
