//! What the screen shows of the console's state: the texts and marks that a
//! renderer puts on the screen, chosen here so that drawing is all that is
//! left to it.

use crate::app_state::{AppState, AppView};
use crate::focus::FocusArea;
use crate::navigation::NavigationState;
use crate::text::{joined, owned};
use vstd::prelude::*;

verus! {

/// The title of the input box while a command is typed.
pub const COMMAND_TITLE: &'static str = "Command";

/// The title of the input box while plain text is typed.
pub const INPUT_TITLE: &'static str = "Input";

/// The title of the menu on its top level.
pub const NAVIGATION_TITLE: &'static str = "Navigation";

/// What stands between the menu's title and the label of the entry whose
/// submenu is shown.
pub const NAVIGATION_TITLE_SEPARATOR: &'static str = "Navigation - ";

/// The cursor at the end of the line: a full block.
pub const CURSOR_AT_END: &'static str = "\u{2588}";

/// The cursor inside the line: a thin bar.
pub const CURSOR_INSIDE: &'static str = "\u{2502}";

/// What precedes the line in the image tools' pane while a command is typed.
pub const COMMAND_MODE_PREFIX: &'static str = "Command Mode: ";

/// The title of the input box.
pub open spec fn input_title_of(app: AppView) -> Seq<char> {
    if app.editor.command_mode {
        COMMAND_TITLE@
    } else {
        INPUT_TITLE@
    }
}

/// The mark that shows the cursor.
pub open spec fn cursor_mark_of(app: AppView) -> Seq<char> {
    if app.editor.cursor >= app.editor.buffer.len() {
        CURSOR_AT_END@
    } else {
        CURSOR_INSIDE@
    }
}

/// The title of the menu: on the top level its name, in a submenu its name
/// and the label of the entry that the submenu belongs to.
pub open spec fn navigation_title_of(app: AppView) -> Seq<char> {
    match app.nav.state {
        NavigationState::Main => NAVIGATION_TITLE@,
        NavigationState::Submenu { parent_index } => NAVIGATION_TITLE_SEPARATOR@
            + app.nav.items[parent_index as int].name,
    }
}

/// The entry of the menu to highlight: the selected one while the menu has
/// the focus, none otherwise.
pub open spec fn highlighted_entry_of(app: AppView) -> Option<usize> {
    if app.focus == FocusArea::Navigation {
        Some(app.nav.selection as usize)
    } else {
        None
    }
}

/// The text of the image tools' pane: the line under edit while a command
/// is typed, the welcome text otherwise.
pub open spec fn image_tools_text_of(app: AppView) -> Seq<char> {
    if app.editor.command_mode {
        COMMAND_MODE_PREFIX@ + app.editor.buffer
    } else {
        app.tools_welcome
    }
}

/// The title of the input box: it tells a command from plain text.
pub fn input_title(app: &AppState) -> (title: &'static str)
    ensures
        title@ == input_title_of(app@),
{
    if app.is_command_mode() {
        COMMAND_TITLE
    } else {
        INPUT_TITLE
    }
}

/// The mark that shows the cursor of the line: a block behind the last
/// character, a bar in front of any other.
pub fn cursor_mark(app: &AppState) -> (mark: &'static str)
    ensures
        mark@ == cursor_mark_of(app@),
{
    if app.editor().at_end() {
        CURSOR_AT_END
    } else {
        CURSOR_INSIDE
    }
}

/// The line under edit in two parts, before the cursor and from the cursor
/// on. The parts put together give the line.
pub fn input_line_parts(app: &AppState) -> (parts: (String, String))
    ensures
        parts.0@ == app@.editor.buffer.subrange(0, app@.editor.cursor as int),
        parts.1@ == app@.editor.buffer.subrange(
            app@.editor.cursor as int,
            app@.editor.buffer.len() as int,
        ),
        parts.0@ + parts.1@ == app@.editor.buffer,
        app@.editor.wf(),
{
    let before = app.editor().text_before_cursor();
    let after = app.editor().text_after_cursor();
    assert(before@ + after@ =~= app@.editor.buffer);
    (before, after)
}

/// The title of the menu.
pub fn navigation_title(app: &AppState) -> (title: String)
    ensures
        title@ == navigation_title_of(app@),
{
    match app.navigation().parent_name() {
        Some(label) => joined(NAVIGATION_TITLE_SEPARATOR, label.as_str()),
        None => owned(NAVIGATION_TITLE),
    }
}

/// The index of the entry to highlight in the menu, if any.
pub fn highlighted_entry(app: &AppState) -> (entry: Option<usize>)
    ensures
        entry == highlighted_entry_of(app@),
{
    if app.has_focus(FocusArea::Navigation) {
        Some(app.get_current_selection_index())
    } else {
        None
    }
}

/// The text of the image tools' pane.
pub fn image_tools_text(app: &AppState) -> (text: String)
    ensures
        text@ == image_tools_text_of(app@),
{
    if app.is_command_mode() {
        let line = app.input_buffer();
        joined(COMMAND_MODE_PREFIX, line.as_str())
    } else {
        app.image_tools_state().welcome_message.clone()
    }
}

} // verus!
