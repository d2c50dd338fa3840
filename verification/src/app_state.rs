//! The state of the whole console: who has the focus, the menu, the line
//! under edit, the log of submitted lines, the preview and the question
//! whether to quit.

use crate::command::{handle_command, response};
use crate::editor::{EditorView, TextEditor};
use crate::focus::{Direction, FocusArea};
use crate::image_tools::{ImageToolsState, WELCOME_MESSAGE};
use crate::navigation::{ItemView, NavView, NavigationItem, NavigationState, NavigationTree};
use crate::text::{joined, owned};
use vstd::prelude::*;

verus! {

/// Shown while the first entry of the top level is selected.
pub const HOME_WELCOME: &'static str = "Welcome to Pipemind Console!";

/// Shown for a top-level entry that has no text of its own.
pub const MENU_HINT: &'static str = "Select an option from the menu.";

/// Shown for the second entry of a submenu.
pub const OPEN_HINT: &'static str = "Select an image file to analyze...";

/// Shown for the third entry of a submenu.
pub const CLOSE_HINT: &'static str = "Close the current image...";

/// Shown for a submenu entry that has no text of its own.
pub const SUBMENU_HINT: &'static str = "Select an option from the submenu.";

/// What precedes the line in the preview while a command is typed.
pub const COMMAND_PREFIX: &'static str = "Command: ";

/// What precedes the line in the preview while plain text is typed.
pub const ECHO_PREFIX: &'static str = "Echo: ";

/// The index of the image tools among the top-level entries.
pub const IMAGE_TOOLS_INDEX: usize = 1;

/// The preview that belongs to a place in the menu. It depends on the level
/// and on the index selected there, and on nothing else: `tools_welcome` is
/// the text of the image tools.
pub open spec fn preview_for(state: NavigationState, selection: nat, tools_welcome: Seq<char>) -> Seq<
    char,
> {
    match state {
        NavigationState::Main => {
            if selection == IMAGE_TOOLS_INDEX {
                tools_welcome
            } else if selection == 0 {
                HOME_WELCOME@
            } else {
                MENU_HINT@
            }
        },
        NavigationState::Submenu { .. } => {
            if selection == 0 {
                tools_welcome
            } else if selection == 1 {
                OPEN_HINT@
            } else if selection == 2 {
                CLOSE_HINT@
            } else {
                SUBMENU_HINT@
            }
        },
    }
}

/// The menu that the console is made with.
pub open spec fn catalog() -> Seq<ItemView> {
    seq![
        ItemView { name: "Home"@, children: None },
        ItemView { name: "Image Tools"@, children: Some(seq!["Home"@, "Open"@, "Close"@]) },
        ItemView { name: "Settings"@, children: None },
        ItemView { name: "Local LLMs"@, children: None },
        ItemView { name: "Help"@, children: None },
        ItemView { name: "About"@, children: None },
    ]
}

/// What an [`AppState`] holds, as mathematics.
pub struct AppView {
    /// The region that has the focus.
    pub focus: FocusArea,
    /// The line under edit.
    pub editor: EditorView,
    /// The menu.
    pub nav: NavView,
    /// The lines submitted so far, oldest first.
    pub output_log: Seq<Seq<char>>,
    /// The text of the preview.
    pub preview: Seq<char>,
    /// Whether the user has been asked to confirm quitting.
    pub quit_pending: bool,
    /// The text of the image tools.
    pub tools_welcome: Seq<char>,
}

impl AppView {
    /// The console as it starts.
    pub open spec fn initial() -> AppView {
        AppView {
            focus: FocusArea::Navigation,
            editor: EditorView::empty(),
            nav: NavView::initial(catalog()),
            output_log: Seq::empty(),
            preview: HOME_WELCOME@,
            quit_pending: false,
            tools_welcome: WELCOME_MESSAGE@,
        }
    }

    /// The line is in bounds and the menu is well formed.
    pub open spec fn wf(self) -> bool {
        self.editor.wf() && self.nav.wf()
    }

    /// The preview that belongs to the place selected in the menu.
    pub open spec fn nav_preview(self) -> Seq<char> {
        preview_for(self.nav.state, self.nav.selection, self.tools_welcome)
    }

    /// The preview that belongs to the line under edit.
    pub open spec fn editor_preview(self) -> Seq<char> {
        if self.editor.command_mode {
            COMMAND_PREFIX@ + self.editor.buffer
        } else {
            ECHO_PREFIX@ + self.editor.buffer
        }
    }

    /// The preview taken from the menu.
    pub open spec fn update_preview_based_on_navigation(self) -> AppView {
        AppView { preview: self.nav_preview(), ..self }
    }

    /// The preview taken from the line under edit.
    pub open spec fn update_preview_from_editor(self) -> AppView {
        AppView { preview: self.editor_preview(), ..self }
    }

    /// The focus on `area`.
    pub open spec fn set_focus(self, area: FocusArea) -> AppView {
        AppView { focus: area, ..self }
    }

    /// The entry with index `index` selected, or the nearest there is; the
    /// preview follows.
    pub open spec fn select_navigation_item(self, index: int) -> AppView {
        AppView { nav: self.nav.select(index), ..self }.update_preview_based_on_navigation()
    }

    /// The selection moved by `delta` entries; the preview follows.
    pub open spec fn move_selection(self, delta: int) -> AppView {
        self.select_navigation_item(self.nav.selection + delta)
    }

    /// The submenu of the selected entry entered; the preview follows.
    /// Nothing changes, the preview neither, where there is nothing to enter.
    pub open spec fn enter_submenu(self) -> AppView {
        if self.nav.can_enter() {
            AppView { nav: self.nav.enter_submenu(), ..self }.update_preview_based_on_navigation()
        } else {
            self
        }
    }

    /// The submenu left; the preview follows. Nothing changes, the preview
    /// neither, on the top level.
    pub open spec fn exit_submenu(self) -> AppView {
        if self.nav.state is Submenu {
            AppView { nav: self.nav.exit_submenu(), ..self }.update_preview_based_on_navigation()
        } else {
            self
        }
    }

    /// The focus asked to move in direction `dir`. While the menu has the
    /// focus, up and down move the selection instead.
    pub open spec fn move_focus(self, dir: Direction) -> AppView {
        if self.focus == FocusArea::Navigation && dir == Direction::Down {
            self.move_selection(1)
        } else if self.focus == FocusArea::Navigation && dir == Direction::Up {
            self.move_selection(-1)
        } else {
            self.set_focus(self.focus.spec_neighbour(dir))
        }
    }

    /// `c` typed at the cursor; the preview shows the line.
    pub open spec fn insert(self, c: char) -> AppView {
        AppView { editor: self.editor.insert(c), ..self }.update_preview_from_editor()
    }

    /// Backspace. Where a character went, the preview shows the line.
    pub open spec fn delete_before_cursor(self) -> AppView {
        if self.editor.cursor == 0 {
            self
        } else {
            AppView {
                editor: self.editor.delete_before_cursor(),
                ..self
            }.update_preview_from_editor()
        }
    }

    /// Forward delete. Where a character went, the preview shows the line.
    pub open spec fn delete_at_cursor(self) -> AppView {
        if self.editor.cursor >= self.editor.buffer.len() {
            self
        } else {
            AppView { editor: self.editor.delete_at_cursor(), ..self }.update_preview_from_editor()
        }
    }

    /// The cursor moved by `delta` characters. The preview stays.
    pub open spec fn move_cursor(self, delta: int) -> AppView {
        AppView { editor: self.editor.move_cursor(delta), ..self }
    }

    /// The cursor at the start of the line. The preview stays.
    pub open spec fn move_cursor_to_start(self) -> AppView {
        AppView { editor: self.editor.move_to_start(), ..self }
    }

    /// The cursor at the end of the line. The preview stays.
    pub open spec fn move_cursor_to_end(self) -> AppView {
        AppView { editor: self.editor.move_to_end(), ..self }
    }

    /// Everything before the cursor removed; the preview shows the line.
    pub open spec fn kill_to_start(self) -> AppView {
        AppView { editor: self.editor.kill_to_start(), ..self }.update_preview_from_editor()
    }

    /// Everything from the cursor on removed; the preview shows the line.
    pub open spec fn kill_to_end(self) -> AppView {
        AppView { editor: self.editor.kill_to_end(), ..self }.update_preview_from_editor()
    }

    /// The line submitted: in command mode the preview becomes the
    /// interpreter's response, the line joins the log whatever it holds, and
    /// the editor starts over with the empty line.
    pub open spec fn submit(self) -> AppView {
        AppView {
            preview: if self.editor.command_mode {
                response(self.editor.buffer)
            } else {
                self.preview
            },
            output_log: self.output_log.push(self.editor.buffer),
            editor: EditorView::empty(),
            ..self
        }
    }

    /// The user asked whether to quit.
    pub open spec fn request_quit(self) -> AppView {
        AppView { quit_pending: true, ..self }
    }

    /// The question whether to quit withdrawn.
    pub open spec fn cancel_quit(self) -> AppView {
        AppView { quit_pending: false, ..self }
    }
}

/// The console.
pub struct AppState {
    focus: FocusArea,
    editor: TextEditor,
    nav: NavigationTree,
    output_log: Vec<String>,
    show_quit_modal: bool,
    preview_content: String,
    image_tools_state: ImageToolsState,
}

impl View for AppState {
    type V = AppView;

    closed spec fn view(&self) -> AppView {
        AppView {
            focus: self.focus,
            editor: self.editor@,
            nav: self.nav@,
            output_log: self.output_log.deep_view(),
            preview: self.preview_content@,
            quit_pending: self.show_quit_modal,
            tools_welcome: self.image_tools_state.welcome_message@,
        }
    }
}

/// The entries of the menu that the console is made with.
fn build_catalog() -> (items: Vec<NavigationItem>)
    ensures
        crate::navigation::item_views(items@) == catalog(),
{
    let mut tools: Vec<NavigationItem> = Vec::new();
    tools.push(NavigationItem::new("Home"));
    tools.push(NavigationItem::new("Open"));
    tools.push(NavigationItem::new("Close"));
    assert(crate::navigation::labels(tools@) =~= seq!["Home"@, "Open"@, "Close"@]);
    let mut items: Vec<NavigationItem> = Vec::new();
    items.push(NavigationItem::new("Home"));
    items.push(NavigationItem::with_submenu("Image Tools", tools));
    items.push(NavigationItem::new("Settings"));
    items.push(NavigationItem::new("Local LLMs"));
    items.push(NavigationItem::new("Help"));
    items.push(NavigationItem::new("About"));
    assert(crate::navigation::item_views(items@) =~= catalog());
    items
}

impl AppState {
    /// The console as it starts: the menu has the focus and shows its top
    /// level with the first entry selected, the line is empty, nothing has
    /// been logged, and the preview welcomes the user.
    pub fn new() -> (app: AppState)
        ensures
            app@ == AppView::initial(),
            app@.wf(),
    {
        let mut app = AppState {
            focus: FocusArea::Navigation,
            editor: TextEditor::new(),
            nav: NavigationTree::new(build_catalog()),
            output_log: Vec::new(),
            show_quit_modal: false,
            preview_content: owned(HOME_WELCOME),
            image_tools_state: ImageToolsState::new(),
        };
        assert(app.output_log.deep_view() =~= Seq::<Seq<char>>::empty());
        app.update_preview_based_on_navigation();
        app
    }

    /// The region that has the focus.
    pub fn focus(&self) -> (area: FocusArea)
        ensures
            area == self@.focus,
    {
        self.focus
    }

    /// The line under edit.
    pub fn input_buffer(&self) -> (line: String)
        ensures
            line@ == self@.editor.buffer,
    {
        self.editor.text()
    }

    /// The number of characters of the line before the cursor.
    pub fn cursor_position(&self) -> (offset: usize)
        ensures
            offset == self@.editor.cursor,
            offset <= self@.editor.buffer.len(),
    {
        self.editor.cursor()
    }

    /// Whether the line is being read as a command.
    pub fn is_command_mode(&self) -> (on: bool)
        ensures
            on == self@.editor.command_mode,
    {
        self.editor.is_command_mode()
    }

    /// The editor that holds the line.
    pub fn editor(&self) -> (editor: &TextEditor)
        ensures
            editor@ == self@.editor,
    {
        &self.editor
    }

    /// The menu.
    pub fn navigation(&self) -> (nav: &NavigationTree)
        ensures
            nav@ == self@.nav,
    {
        &self.nav
    }

    /// The lines submitted so far, oldest first.
    pub fn output_log(&self) -> (log: &Vec<String>)
        ensures
            log.deep_view() == self@.output_log,
    {
        &self.output_log
    }

    /// The text of the preview.
    pub fn preview_content(&self) -> (text: &str)
        ensures
            text@ == self@.preview,
    {
        self.preview_content.as_str()
    }

    /// Whether the user has been asked to confirm quitting.
    pub fn show_quit_modal(&self) -> (pending: bool)
        ensures
            pending == self@.quit_pending,
    {
        self.show_quit_modal
    }

    /// The level of the menu that is being browsed.
    pub fn navigation_state(&self) -> (state: NavigationState)
        ensures
            state == self@.nav.state,
            self@.nav.wf(),
    {
        self.nav.state()
    }

    /// The state of the image tools.
    pub fn image_tools_state(&self) -> (state: &ImageToolsState)
        ensures
            state.welcome_message@ == self@.tools_welcome,
    {
        &self.image_tools_state
    }

    /// Empties the line and leaves command mode.
    pub fn reset_input(&mut self)
        ensures
            final(self)@ == (AppView { editor: EditorView::empty(), ..old(self)@ }),
    {
        self.editor.clear();
    }

    /// Appends `message` to the log.
    pub fn log_output(&mut self, message: String)
        ensures
            final(self)@ == (AppView {
                output_log: old(self)@.output_log.push(message@),
                ..old(self)@
            }),
    {
        self.output_log.push(message);
        assert(self.output_log.deep_view() =~= old(self).output_log.deep_view().push(message@));
    }

    /// Gives the focus to `area`, whichever region had it.
    pub fn set_focus(&mut self, area: FocusArea)
        ensures
            final(self)@ == old(self)@.set_focus(area),
    {
        self.focus = area;
    }

    /// Whether `area` has the focus.
    pub fn has_focus(&self, area: FocusArea) -> (focused: bool)
        ensures
            focused == (self@.focus == area),
    {
        self.focus == area
    }

    /// Replaces the text of the preview by `content`.
    pub fn update_preview(&mut self, content: String)
        ensures
            final(self)@ == (AppView { preview: content@, ..old(self)@ }),
    {
        self.preview_content = content;
    }

    /// Sets the preview to the text that belongs to the place selected in
    /// the menu.
    pub fn update_preview_based_on_navigation(&mut self)
        ensures
            final(self)@ == old(self)@.update_preview_based_on_navigation(),
    {
        let selection = self.nav.selection();
        let content = match self.nav.state() {
            NavigationState::Main => {
                if selection == IMAGE_TOOLS_INDEX {
                    self.image_tools_state.welcome_message.clone()
                } else if selection == 0 {
                    owned(HOME_WELCOME)
                } else {
                    owned(MENU_HINT)
                }
            },
            NavigationState::Submenu { .. } => {
                if selection == 0 {
                    self.image_tools_state.welcome_message.clone()
                } else if selection == 1 {
                    owned(OPEN_HINT)
                } else if selection == 2 {
                    owned(CLOSE_HINT)
                } else {
                    owned(SUBMENU_HINT)
                }
            },
        };
        self.preview_content = content;
    }

    /// Sets the preview to the line under edit, behind the word that tells
    /// a command from plain text.
    pub fn update_preview_from_editor(&mut self)
        ensures
            final(self)@ == old(self)@.update_preview_from_editor(),
    {
        let line = self.editor.text();
        let content = if self.editor.is_command_mode() {
            joined(COMMAND_PREFIX, line.as_str())
        } else {
            joined(ECHO_PREFIX, line.as_str())
        };
        self.preview_content = content;
    }

    /// The labels on the level of the menu that is being browsed.
    pub fn get_current_navigation_items(&self) -> (names: Vec<String>)
        ensures
            names.deep_view() == self@.nav.current_names(),
    {
        self.nav.current_items()
    }

    /// The number of entries on the level of the menu that is being browsed.
    pub fn get_current_navigation_count(&self) -> (count: usize)
        ensures
            count == self@.nav.current_count(),
    {
        self.nav.current_count()
    }

    /// The index of the selected entry on the level being browsed.
    pub fn get_current_selection_index(&self) -> (index: usize)
        ensures
            index == self@.nav.selection,
            self@.nav.wf(),
    {
        self.nav.selection()
    }

    /// Whether a submenu is being browsed.
    pub fn is_in_submenu(&self) -> (inside: bool)
        ensures
            inside == (self@.nav.state is Submenu),
    {
        self.nav.is_in_submenu()
    }

    /// Enters the submenu of the selected entry, selects its first entry
    /// and lets the preview follow. Does nothing unless the top level is
    /// being browsed and the selected entry has a submenu with entries.
    pub fn enter_submenu(&mut self)
        ensures
            final(self)@ == old(self)@.enter_submenu(),
            final(self)@.nav.wf(),
    {
        if self.nav.enter_submenu() {
            self.update_preview_based_on_navigation();
        }
    }

    /// Leaves the submenu, selects the entry it belongs to and lets the
    /// preview follow. Does nothing on the top level.
    pub fn exit_submenu(&mut self)
        ensures
            final(self)@ == old(self)@.exit_submenu(),
            final(self)@.nav.wf(),
    {
        if self.nav.exit_submenu() {
            self.update_preview_based_on_navigation();
        }
    }

    /// Selects the entry with index `index` and lets the preview follow. An
    /// index past the last entry selects the last entry.
    pub fn select_navigation_item(&mut self, index: usize)
        ensures
            final(self)@ == old(self)@.select_navigation_item(index as int),
            final(self)@.nav.wf(),
    {
        self.nav.select(index);
        self.update_preview_based_on_navigation();
    }

    /// Moves the selection by `delta` entries and lets the preview follow.
    /// The selection stops at the first and at the last entry.
    pub fn move_selection(&mut self, delta: isize)
        ensures
            final(self)@ == old(self)@.move_selection(delta as int),
            final(self)@.nav.wf(),
    {
        self.nav.move_selection(delta);
        self.update_preview_based_on_navigation();
    }

    /// Asks the focus to move in direction `dir`. While the menu has the
    /// focus, up and down move the selection instead; the input region is
    /// neither entered nor left this way.
    pub fn move_focus(&mut self, dir: Direction)
        ensures
            final(self)@ == old(self)@.move_focus(dir),
    {
        if self.focus == FocusArea::Navigation && dir == Direction::Down {
            self.move_selection(1);
        } else if self.focus == FocusArea::Navigation && dir == Direction::Up {
            self.move_selection(-1);
        } else {
            self.focus = self.focus.neighbour(dir);
        }
    }

    /// Types `c` at the cursor; the preview shows the line.
    pub fn insert(&mut self, c: char)
        ensures
            final(self)@ == old(self)@.insert(c),
            final(self)@.editor.wf(),
    {
        self.editor.insert(c);
        self.update_preview_from_editor();
    }

    /// Backspace: removes the character before the cursor. Where there was
    /// one, the preview shows the line.
    pub fn delete_before_cursor(&mut self)
        ensures
            final(self)@ == old(self)@.delete_before_cursor(),
            final(self)@.editor.wf(),
    {
        if self.editor.cursor() > 0 {
            self.editor.delete_before_cursor();
            self.update_preview_from_editor();
        }
    }

    /// Forward delete: removes the character at the cursor. Where there
    /// was one, the preview shows the line.
    pub fn delete_at_cursor(&mut self)
        ensures
            final(self)@ == old(self)@.delete_at_cursor(),
            final(self)@.editor.wf(),
    {
        if !self.editor.at_end() {
            self.editor.delete_at_cursor();
            self.update_preview_from_editor();
        }
    }

    /// Moves the cursor by `delta` characters, stopping at either end of
    /// the line.
    pub fn move_cursor(&mut self, delta: isize)
        ensures
            final(self)@ == old(self)@.move_cursor(delta as int),
            final(self)@.editor.wf(),
    {
        self.editor.move_cursor(delta);
    }

    /// Moves the cursor to the start of the line.
    pub fn move_cursor_to_start(&mut self)
        ensures
            final(self)@ == old(self)@.move_cursor_to_start(),
            final(self)@.editor.wf(),
    {
        self.editor.move_to_start();
    }

    /// Moves the cursor to the end of the line.
    pub fn move_cursor_to_end(&mut self)
        ensures
            final(self)@ == old(self)@.move_cursor_to_end(),
            final(self)@.editor.wf(),
    {
        self.editor.move_to_end();
    }

    /// Removes everything before the cursor; the preview shows the line.
    pub fn kill_to_start(&mut self)
        ensures
            final(self)@ == old(self)@.kill_to_start(),
            final(self)@.editor.wf(),
    {
        self.editor.kill_to_start();
        self.update_preview_from_editor();
    }

    /// Removes everything from the cursor on; the preview shows the line.
    pub fn kill_to_end(&mut self)
        ensures
            final(self)@ == old(self)@.kill_to_end(),
            final(self)@.editor.wf(),
    {
        self.editor.kill_to_end();
        self.update_preview_from_editor();
    }

    /// Submits the line. In command mode the interpreter's response becomes
    /// the preview. The line is appended to the log as it stands, the empty
    /// line too, and the editor starts over.
    pub fn submit(&mut self)
        ensures
            final(self)@ == old(self)@.submit(),
    {
        let line = self.editor.text();
        if self.editor.is_command_mode() {
            let reply = handle_command(line.as_str());
            self.update_preview(reply);
        }
        self.log_output(line);
        self.reset_input();
    }

    /// Asks the user whether to quit, whatever else is going on.
    pub fn request_quit(&mut self)
        ensures
            final(self)@ == old(self)@.request_quit(),
    {
        self.show_quit_modal = true;
    }

    /// Withdraws the question whether to quit.
    pub fn cancel_quit(&mut self)
        ensures
            final(self)@ == old(self)@.cancel_quit(),
    {
        self.show_quit_modal = false;
    }
}

/// Entering a submenu from the top level and leaving it at once gives back
/// the menu as it was, with the same entry selected, and touches nothing
/// but the preview.
pub proof fn lemma_enter_then_exit_restores_menu(app: AppView)
    requires
        app.nav.wf(),
        app.nav.state is Main,
    ensures
        app.enter_submenu().exit_submenu().nav == app.nav,
        app.enter_submenu().exit_submenu().nav.selection == app.nav.selection,
        app.enter_submenu().exit_submenu() == (AppView {
            preview: app.enter_submenu().exit_submenu().preview,
            ..app
        }),
        app.nav.can_enter() ==> app.enter_submenu().exit_submenu().preview == app.nav_preview(),
        !app.nav.can_enter() ==> app.enter_submenu().exit_submenu() == app,
{
}

/// At the last entry a move down leaves the selection where it is, and a
/// second move changes nothing at all; at the first entry the same holds of
/// a move up.
pub proof fn lemma_move_selection_is_idempotent_at_bound(app: AppView, delta: int)
    requires
        app.nav.wf(),
        (delta >= 0 && app.nav.selection + 1 >= app.nav.current_count()) || (delta <= 0
            && app.nav.selection == 0),
    ensures
        app.move_selection(delta).nav == app.nav,
        app.move_selection(delta).move_selection(delta) == app.move_selection(delta),
{
}

/// The preview is a function of the place in the menu: whenever the menu
/// was the last to change the console, the preview is the text of that
/// place.
pub proof fn lemma_preview_follows_menu(app: AppView, index: int, delta: int)
    ensures
        app.select_navigation_item(index).preview == app.select_navigation_item(
            index,
        ).nav_preview(),
        app.move_selection(delta).preview == app.move_selection(delta).nav_preview(),
        app.nav.can_enter() ==> app.enter_submenu().preview == app.enter_submenu().nav_preview(),
        app.nav.state is Submenu ==> app.exit_submenu().preview == app.exit_submenu().nav_preview(),
{
}

impl Default for AppState {
    fn default() -> (app: AppState)
        ensures
            app@ == AppView::initial(),
    {
        AppState::new()
    }
}

} // verus!
