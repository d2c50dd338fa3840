//! From key presses to changes of the console's state.
//!
//! [`dispatch_key`] takes every key press. It answers the question whether
//! to quit, jumps between regions on the function keys, and hands the rest
//! to [`handle_key_event`] while the input region has the focus and to
//! [`handle_navigation`] otherwise.

use crate::app_state::{AppState, AppView};
use crate::focus::{Direction, FocusArea};
use crate::key::{KeyCode, KeyEvent};
use vstd::prelude::*;

verus! {

/// The console after `key` went to the line editor.
///
/// With the control key, `a` and `e` send the cursor to the start and to the
/// end of the line, `u` and `k` remove what is before and what is behind the
/// cursor. A character typed without any modifier is inserted; one typed
/// with another modifier is dropped.
pub open spec fn after_editor_key(app: AppView, key: KeyEvent) -> AppView {
    match key.code {
        KeyCode::Char(c) => {
            if key.modifiers.control && c == 'a' {
                app.move_cursor_to_start()
            } else if key.modifiers.control && c == 'e' {
                app.move_cursor_to_end()
            } else if key.modifiers.control && c == 'u' {
                app.kill_to_start()
            } else if key.modifiers.control && c == 'k' {
                app.kill_to_end()
            } else if key.modifiers.spec_is_empty() {
                app.insert(c)
            } else {
                app
            }
        },
        KeyCode::Backspace => app.delete_before_cursor(),
        KeyCode::Delete => app.delete_at_cursor(),
        KeyCode::Left => app.move_cursor(-1),
        KeyCode::Right => app.move_cursor(1),
        KeyCode::Home => app.move_cursor_to_start(),
        KeyCode::End => app.move_cursor_to_end(),
        KeyCode::Enter => app.submit(),
        _ => app,
    }
}

/// The console after `key` went to the menu and the focus.
///
/// `h`, `l`, `k` and `j` ask the focus to move left, right, up and down.
/// While the menu has the focus, Enter enters the submenu of the selected
/// entry, or leaves the submenu if its first entry is selected, and Esc
/// leaves the submenu.
pub open spec fn after_navigation_key(app: AppView, key: KeyEvent) -> AppView {
    match key.code {
        KeyCode::Char(c) => {
            if c == 'h' {
                app.move_focus(Direction::Left)
            } else if c == 'l' {
                app.move_focus(Direction::Right)
            } else if c == 'j' {
                app.move_focus(Direction::Down)
            } else if c == 'k' {
                app.move_focus(Direction::Up)
            } else {
                app
            }
        },
        KeyCode::Enter => {
            if app.focus != FocusArea::Navigation {
                app
            } else if app.nav.state is Submenu {
                if app.nav.selection == 0 {
                    app.exit_submenu()
                } else {
                    app
                }
            } else {
                app.enter_submenu()
            }
        },
        KeyCode::Esc => {
            if app.focus == FocusArea::Navigation {
                app.exit_submenu()
            } else {
                app
            }
        },
        _ => app,
    }
}

/// `key` asks whether to quit: `q` with the control key.
pub open spec fn is_quit_request(key: KeyEvent) -> bool {
    key.code == KeyCode::Char('q') && key.modifiers.control
}

/// `key` confirms quitting: `y`.
pub open spec fn is_quit_confirm(key: KeyEvent) -> bool {
    key.code == KeyCode::Char('y')
}

/// `key` declines quitting: `n`.
pub open spec fn is_quit_cancel(key: KeyEvent) -> bool {
    key.code == KeyCode::Char('n')
}

/// Whether the console is to end on `key`: the question whether to quit is
/// open, and `key` confirms it (and is not itself a new request).
pub open spec fn quits_on(app: AppView, key: KeyEvent) -> bool {
    !is_quit_request(key) && app.quit_pending && is_quit_confirm(key)
}

/// The console after `key`.
///
/// A request to quit opens the question whatever else is going on. While
/// the question is open, declining closes it and every other key changes
/// nothing. Otherwise the function keys 1 to 5 give the focus to a region,
/// and any other key goes to the line editor while the input region has the
/// focus, and to the menu and the focus while it has not.
pub open spec fn after_key(app: AppView, key: KeyEvent) -> AppView {
    if is_quit_request(key) {
        app.request_quit()
    } else if app.quit_pending {
        if is_quit_cancel(key) {
            app.cancel_quit()
        } else {
            app
        }
    } else {
        match key.code {
            KeyCode::F(n) => match FocusArea::spec_from_index(n) {
                Some(area) => app.set_focus(area),
                None => app,
            },
            _ => if app.focus == FocusArea::Input {
                after_editor_key(app, key)
            } else {
                after_navigation_key(app, key)
            },
        }
    }
}

/// Applies `key` to the line editor of `app_state`.
pub fn handle_key_event(app_state: &mut AppState, key: &KeyEvent)
    ensures
        final(app_state)@ == after_editor_key(old(app_state)@, *key),
{
    match key.code {
        KeyCode::Char(c) => {
            if key.modifiers.control && c == 'a' {
                app_state.move_cursor_to_start();
            } else if key.modifiers.control && c == 'e' {
                app_state.move_cursor_to_end();
            } else if key.modifiers.control && c == 'u' {
                app_state.kill_to_start();
            } else if key.modifiers.control && c == 'k' {
                app_state.kill_to_end();
            } else if key.modifiers.is_empty() {
                app_state.insert(c);
            }
        },
        KeyCode::Backspace => app_state.delete_before_cursor(),
        KeyCode::Delete => app_state.delete_at_cursor(),
        KeyCode::Left => app_state.move_cursor(-1),
        KeyCode::Right => app_state.move_cursor(1),
        KeyCode::Home => app_state.move_cursor_to_start(),
        KeyCode::End => app_state.move_cursor_to_end(),
        KeyCode::Enter => app_state.submit(),
        _ => {},
    }
}

/// Applies `key` to the menu and the focus of `app_state`.
pub fn handle_navigation(app_state: &mut AppState, key: &KeyEvent)
    ensures
        final(app_state)@ == after_navigation_key(old(app_state)@, *key),
{
    match key.code {
        KeyCode::Char(c) => {
            if c == 'h' {
                app_state.move_focus(Direction::Left);
            } else if c == 'l' {
                app_state.move_focus(Direction::Right);
            } else if c == 'j' {
                app_state.move_focus(Direction::Down);
            } else if c == 'k' {
                app_state.move_focus(Direction::Up);
            }
        },
        KeyCode::Enter => {
            if app_state.has_focus(FocusArea::Navigation) {
                if app_state.is_in_submenu() {
                    if app_state.get_current_selection_index() == 0 {
                        app_state.exit_submenu();
                    }
                } else {
                    app_state.enter_submenu();
                }
            }
        },
        KeyCode::Esc => {
            if app_state.has_focus(FocusArea::Navigation) {
                app_state.exit_submenu();
            }
        },
        _ => {},
    }
}

/// Applies one key press to `app_state` and tells whether the console is to
/// end.
pub fn dispatch_key(app_state: &mut AppState, key: &KeyEvent) -> (quit: bool)
    ensures
        final(app_state)@ == after_key(old(app_state)@, *key),
        quit == quits_on(old(app_state)@, *key),
        quit ==> final(app_state)@ == old(app_state)@,
{
    let requests_quit = match key.code {
        KeyCode::Char(c) => c == 'q' && key.modifiers.control,
        _ => false,
    };
    if requests_quit {
        app_state.request_quit();
        return false;
    }
    if app_state.show_quit_modal() {
        return match key.code {
            KeyCode::Char(c) => {
                if c == 'y' {
                    true
                } else {
                    if c == 'n' {
                        app_state.cancel_quit();
                    }
                    false
                }
            },
            _ => false,
        };
    }
    match key.code {
        KeyCode::F(n) => {
            match FocusArea::from_index(n) {
                Some(area) => app_state.set_focus(area),
                None => {},
            }
        },
        _ => {
            if app_state.has_focus(FocusArea::Input) {
                handle_key_event(app_state, key);
            } else {
                handle_navigation(app_state, key);
            }
        },
    }
    false
}

/// While the question whether to quit is open, a key that neither asks it
/// again nor answers it changes nothing and does not end the console.
pub proof fn lemma_pending_quit_ignores_other_keys(app: AppView, key: KeyEvent)
    requires
        app.quit_pending,
        !is_quit_request(key),
        !is_quit_confirm(key),
        !is_quit_cancel(key),
    ensures
        after_key(app, key) == app,
        !quits_on(app, key),
{
}

/// Asking whether to quit and declining gives back the console as it was
/// before the question: focus, menu, line, log and preview are untouched.
pub proof fn lemma_request_then_cancel_restores(app: AppView, request: KeyEvent, cancel: KeyEvent)
    requires
        !app.quit_pending,
        is_quit_request(request),
        is_quit_cancel(cancel),
        !is_quit_request(cancel),
    ensures
        after_key(app, request).quit_pending,
        after_key(after_key(app, request), cancel) == app,
{
}

/// No key takes the line's cursor out of the line or the menu's selection
/// off the level being browsed.
pub proof fn lemma_keys_keep_wf(app: AppView, key: KeyEvent)
    requires
        app.wf(),
    ensures
        after_key(app, key).wf(),
        after_editor_key(app, key).wf(),
        after_navigation_key(app, key).wf(),
{
}

/// The log only grows: after any key it holds what it held, and at most one
/// line more at its end.
pub proof fn lemma_log_is_append_only(app: AppView, key: KeyEvent)
    ensures
        after_key(app, key).output_log == app.output_log || after_key(app, key).output_log
            == app.output_log.push(app.editor.buffer),
{
}

/// The keys that ask the focus to move never give it to the input region
/// and never take it away: only a function key does.
pub proof fn lemma_input_region_needs_a_jump(app: AppView, key: KeyEvent)
    ensures
        after_navigation_key(app, key).focus == FocusArea::Input <==> app.focus
            == FocusArea::Input,
{
}

} // verus!
