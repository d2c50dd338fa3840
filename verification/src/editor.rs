//! The line editor: a buffer of characters, a cursor between them, and the
//! command-mode flag.
//!
//! Offsets count characters, never bytes, so no edit can split a character.

use crate::text::push_chars;
use vstd::prelude::*;

verus! {

/// What a [`TextEditor`] holds, as mathematics.
pub struct EditorView {
    /// The characters of the line, in order.
    pub buffer: Seq<char>,
    /// The number of characters before the cursor.
    pub cursor: nat,
    /// Whether the line is being read as a command.
    pub command_mode: bool,
}

/// One step of editing, as a value: what the laws below quantify over.
pub enum EditStep {
    Insert(char),
    DeleteBeforeCursor,
    DeleteAtCursor,
    MoveCursor(isize),
    MoveToStart,
    MoveToEnd,
    KillToStart,
    KillToEnd,
    Clear,
}

impl EditorView {
    /// The cursor lies between two characters, or at either end.
    pub open spec fn wf(self) -> bool {
        self.cursor <= self.buffer.len()
    }

    /// The empty line, out of command mode.
    pub open spec fn empty() -> EditorView {
        EditorView { buffer: Seq::empty(), cursor: 0, command_mode: false }
    }

    /// The line is not empty and begins with a slash.
    pub open spec fn starts_with_slash(self) -> bool {
        self.buffer.len() > 0 && self.buffer[0] == '/'
    }

    /// The flag says what the buffer says: command mode is on exactly when
    /// the line begins with a slash.
    pub open spec fn flag_matches(self) -> bool {
        self.command_mode <==> self.starts_with_slash()
    }

    /// The flag once a removal has left `buffer`: an emptied buffer clears
    /// it, anything else leaves it as it was.
    pub open spec fn flag_after(self, buffer: Seq<char>) -> bool {
        self.command_mode && buffer.len() > 0
    }

    /// `c` typed at the cursor. A slash typed into the empty line turns
    /// command mode on.
    pub open spec fn insert(self, c: char) -> EditorView {
        EditorView {
            buffer: self.buffer.insert(self.cursor as int, c),
            cursor: self.cursor + 1,
            command_mode: self.command_mode || (self.buffer.len() == 0 && c == '/'),
        }
    }

    /// Backspace: the character before the cursor goes, and the cursor
    /// follows it. Nothing happens at the start of the line.
    pub open spec fn delete_before_cursor(self) -> EditorView {
        if self.cursor == 0 {
            self
        } else {
            let buffer = self.buffer.remove(self.cursor - 1);
            EditorView {
                buffer,
                cursor: (self.cursor - 1) as nat,
                command_mode: self.flag_after(buffer),
            }
        }
    }

    /// Forward delete: the character at the cursor goes, and the cursor
    /// stays. Nothing happens at the end of the line.
    pub open spec fn delete_at_cursor(self) -> EditorView {
        if self.cursor >= self.buffer.len() {
            self
        } else {
            let buffer = self.buffer.remove(self.cursor as int);
            EditorView { buffer, cursor: self.cursor, command_mode: self.flag_after(buffer) }
        }
    }

    /// The cursor moved by `delta` characters, stopped at either end of the
    /// line.
    pub open spec fn move_cursor(self, delta: int) -> EditorView {
        let target = self.cursor + delta;
        let cursor = if target < 0 {
            0nat
        } else if target > self.buffer.len() {
            self.buffer.len()
        } else {
            target as nat
        };
        EditorView { cursor, ..self }
    }

    /// The cursor at the start of the line.
    pub open spec fn move_to_start(self) -> EditorView {
        EditorView { cursor: 0, ..self }
    }

    /// The cursor at the end of the line.
    pub open spec fn move_to_end(self) -> EditorView {
        EditorView { cursor: self.buffer.len(), ..self }
    }

    /// Everything before the cursor goes; the cursor ends at the start.
    pub open spec fn kill_to_start(self) -> EditorView {
        let buffer = self.buffer.subrange(self.cursor as int, self.buffer.len() as int);
        EditorView { buffer, cursor: 0, command_mode: self.flag_after(buffer) }
    }

    /// Everything from the cursor on goes; the cursor stays.
    pub open spec fn kill_to_end(self) -> EditorView {
        let buffer = self.buffer.subrange(0, self.cursor as int);
        EditorView { buffer, cursor: self.cursor, command_mode: self.flag_after(buffer) }
    }

    /// The line after `step`.
    pub open spec fn step(self, step: EditStep) -> EditorView {
        match step {
            EditStep::Insert(c) => self.insert(c),
            EditStep::DeleteBeforeCursor => self.delete_before_cursor(),
            EditStep::DeleteAtCursor => self.delete_at_cursor(),
            EditStep::MoveCursor(delta) => self.move_cursor(delta as int),
            EditStep::MoveToStart => self.move_to_start(),
            EditStep::MoveToEnd => self.move_to_end(),
            EditStep::KillToStart => self.kill_to_start(),
            EditStep::KillToEnd => self.kill_to_end(),
            EditStep::Clear => EditorView::empty(),
        }
    }

    /// The line after all of `steps`, first to last.
    pub open spec fn run(self, steps: Seq<EditStep>) -> EditorView
        decreases steps.len(),
    {
        if steps.len() == 0 {
            self
        } else {
            self.run(steps.drop_last()).step(steps.last())
        }
    }

    /// Going from `self` to `after` did not change whether the line begins
    /// with a slash, unless one of the two lines is empty.
    pub open spec fn keeps_leading_slash(self, after: EditorView) -> bool {
        self.buffer.len() == 0 || after.buffer.len() == 0 || (self.starts_with_slash()
            <==> after.starts_with_slash())
    }
}

/// A line of text under edit.
///
/// The characters are kept in two parts, those before the cursor and those
/// after it, so that the cursor is inside the line by construction.
pub struct TextEditor {
    before: Vec<char>,
    after: Vec<char>,
    command_mode: bool,
}

impl View for TextEditor {
    type V = EditorView;

    closed spec fn view(&self) -> EditorView {
        EditorView {
            buffer: self.before@ + self.after@,
            cursor: self.before@.len(),
            command_mode: self.command_mode,
        }
    }
}

impl TextEditor {
    /// An editor holding the empty line.
    pub fn new() -> (editor: TextEditor)
        ensures
            editor@ == EditorView::empty(),
    {
        TextEditor { before: Vec::new(), after: Vec::new(), command_mode: false }
    }

    /// The number of characters before the cursor.
    pub fn cursor(&self) -> (offset: usize)
        ensures
            offset == self@.cursor,
            self@.wf(),
    {
        self.before.len()
    }

    /// Whether the line is being read as a command.
    pub fn is_command_mode(&self) -> (on: bool)
        ensures
            on == self@.command_mode,
    {
        self.command_mode
    }

    /// Whether the line holds no character.
    pub fn is_empty(&self) -> (empty: bool)
        ensures
            empty == (self@.buffer.len() == 0),
    {
        self.before.len() == 0 && self.after.len() == 0
    }

    /// Whether the cursor stands behind the last character.
    pub fn at_end(&self) -> (at_end: bool)
        ensures
            at_end == (self@.cursor == self@.buffer.len()),
            self@.wf(),
    {
        self.after.len() == 0
    }

    /// The whole line.
    pub fn text(&self) -> (s: String)
        ensures
            s@ == self@.buffer,
    {
        let mut s = String::new();
        push_chars(&mut s, &self.before);
        push_chars(&mut s, &self.after);
        s
    }

    /// The part of the line before the cursor.
    pub fn text_before_cursor(&self) -> (s: String)
        ensures
            self@.wf(),
            s@ == self@.buffer.subrange(0, self@.cursor as int),
    {
        let mut s = String::new();
        push_chars(&mut s, &self.before);
        assert(s@ == (self.before@ + self.after@).subrange(0, self.before@.len() as int));
        s
    }

    /// The part of the line from the cursor on.
    pub fn text_after_cursor(&self) -> (s: String)
        ensures
            self@.wf(),
            s@ == self@.buffer.subrange(self@.cursor as int, self@.buffer.len() as int),
    {
        let mut s = String::new();
        push_chars(&mut s, &self.after);
        assert(s@ == (self.before@ + self.after@).subrange(
            self.before@.len() as int,
            (self.before@ + self.after@).len() as int,
        ));
        s
    }

    /// Inserts `c` at the cursor and steps the cursor over it. A slash typed
    /// into the empty line turns command mode on.
    pub fn insert(&mut self, c: char)
        ensures
            final(self)@ == old(self)@.insert(c),
            final(self)@.wf(),
    {
        if self.is_empty() && c == '/' {
            self.command_mode = true;
        }
        self.before.push(c);
        assert(self.before@ + self.after@ == (old(self).before@ + old(self).after@).insert(
            old(self).before@.len() as int,
            c,
        ));
    }

    /// Removes the character before the cursor and steps the cursor back.
    /// Does nothing at the start of the line. Command mode ends when the
    /// line becomes empty.
    pub fn delete_before_cursor(&mut self)
        ensures
            final(self)@ == old(self)@.delete_before_cursor(),
            final(self)@.wf(),
    {
        if self.before.len() > 0 {
            self.before.pop();
            assert(self.before@ + self.after@ == (old(self).before@ + old(self).after@).remove(
                old(self).before@.len() - 1,
            ));
            self.settle_flag();
        }
    }

    /// Removes the character at the cursor; the cursor stays. Does nothing
    /// at the end of the line. Command mode ends when the line becomes
    /// empty.
    pub fn delete_at_cursor(&mut self)
        ensures
            final(self)@ == old(self)@.delete_at_cursor(),
            final(self)@.wf(),
    {
        if self.after.len() > 0 {
            self.after.remove(0);
            assert(self.before@ + self.after@ == (old(self).before@ + old(self).after@).remove(
                old(self).before@.len() as int,
            ));
            self.settle_flag();
        }
    }

    /// Moves the cursor by `delta` characters, to the right for a positive
    /// `delta` and to the left for a negative one. However large `delta`
    /// is, the cursor stops at the end of the line it runs into.
    pub fn move_cursor(&mut self, delta: isize)
        ensures
            final(self)@ == old(self)@.move_cursor(delta as int),
            final(self)@.wf(),
    {
        if delta >= 0 {
            let wanted: usize = delta as usize;
            let count: usize = if wanted < self.after.len() {
                wanted
            } else {
                self.after.len()
            };
            let rest = self.after.split_off(count);
            self.before.append(&mut self.after);
            self.after = rest;
        } else {
            let wanted: usize = (-(delta + 1)) as usize + 1;
            let count: usize = if wanted < self.before.len() {
                wanted
            } else {
                self.before.len()
            };
            let mut moved = self.before.split_off(self.before.len() - count);
            moved.append(&mut self.after);
            self.after = moved;
        }
        assert(self.before@ + self.after@ == old(self).before@ + old(self).after@);
    }

    /// Moves the cursor to the start of the line.
    pub fn move_to_start(&mut self)
        ensures
            final(self)@ == old(self)@.move_to_start(),
            final(self)@.wf(),
    {
        self.before.append(&mut self.after);
        let mut whole: Vec<char> = Vec::new();
        whole.append(&mut self.before);
        self.after = whole;
        assert(self.before@ + self.after@ == old(self).before@ + old(self).after@);
    }

    /// Moves the cursor to the end of the line.
    pub fn move_to_end(&mut self)
        ensures
            final(self)@ == old(self)@.move_to_end(),
            final(self)@.wf(),
    {
        self.before.append(&mut self.after);
        assert(self.before@ + self.after@ == old(self).before@ + old(self).after@);
    }

    /// Removes everything before the cursor. Command mode ends when the
    /// line becomes empty.
    pub fn kill_to_start(&mut self)
        ensures
            final(self)@ == old(self)@.kill_to_start(),
            final(self)@.wf(),
    {
        self.before.clear();
        assert(self.before@ + self.after@ == (old(self).before@ + old(self).after@).subrange(
            old(self).before@.len() as int,
            (old(self).before@ + old(self).after@).len() as int,
        ));
        self.settle_flag();
    }

    /// Removes everything from the cursor on. Command mode ends when the
    /// line becomes empty.
    pub fn kill_to_end(&mut self)
        ensures
            final(self)@ == old(self)@.kill_to_end(),
            final(self)@.wf(),
    {
        self.after.clear();
        assert(self.before@ + self.after@ == (old(self).before@ + old(self).after@).subrange(
            0,
            old(self).before@.len() as int,
        ));
        self.settle_flag();
    }

    /// Empties the line and leaves command mode.
    pub fn clear(&mut self)
        ensures
            final(self)@ == EditorView::empty(),
    {
        self.before.clear();
        self.after.clear();
        self.command_mode = false;
        assert(self.before@ + self.after@ == Seq::<char>::empty());
    }

    /// Ends command mode if the line has become empty.
    fn settle_flag(&mut self)
        ensures
            final(self).before == old(self).before,
            final(self).after == old(self).after,
            final(self).command_mode == (old(self).command_mode && (old(self).before@
                + old(self).after@).len() > 0),
    {
        if self.is_empty() {
            self.command_mode = false;
        }
    }
}

/// Every editor has its cursor inside its line.
pub proof fn lemma_cursor_in_line(editor: TextEditor)
    ensures
        editor@.wf(),
{
}

/// One editing step leaves the cursor inside the line.
pub proof fn lemma_step_keeps_cursor_in_line(line: EditorView, step: EditStep)
    requires
        line.wf(),
    ensures
        line.step(step).wf(),
{
}

/// However many characters are typed and deleted, and wherever the cursor is
/// sent in between, the cursor stays inside the line.
pub proof fn lemma_run_keeps_cursor_in_line(line: EditorView, steps: Seq<EditStep>)
    requires
        line.wf(),
    ensures
        line.run(steps).wf(),
    decreases steps.len(),
{
    if steps.len() > 0 {
        lemma_run_keeps_cursor_in_line(line, steps.drop_last());
        lemma_step_keeps_cursor_in_line(line.run(steps.drop_last()), steps.last());
    }
}

/// Moving the cursor changes nothing but the cursor, and never takes it out
/// of the line, whatever the distance asked for.
pub proof fn lemma_move_cursor_stays_in_line(line: EditorView, delta: int)
    ensures
        line.move_cursor(delta).cursor <= line.buffer.len(),
        line.move_cursor(delta).buffer == line.buffer,
        line.move_cursor(delta).command_mode == line.command_mode,
        line.wf() && 0 <= line.cursor + delta <= line.buffer.len() ==> line.move_cursor(
            delta,
        ).cursor == line.cursor + delta,
{
}

/// The command-mode flag is kept step by step, not computed afresh. Starting
/// from a line whose flag says what its buffer says, the flag still does so
/// after a step exactly when the step has not changed whether the line
/// begins with a slash (or has emptied the line, or began from the empty
/// line).
pub proof fn lemma_flag_tracks_leading_slash(line: EditorView, step: EditStep)
    requires
        line.wf(),
        line.flag_matches(),
    ensures
        line.step(step).flag_matches() <==> line.keeps_leading_slash(line.step(step)),
{
}

/// Typing and deleting at the end of the line, the usual way to write one,
/// keeps the flag in step with the buffer.
pub proof fn lemma_flag_matches_when_typing_at_end(line: EditorView, c: char)
    requires
        line.wf(),
        line.flag_matches(),
        line.cursor == line.buffer.len(),
    ensures
        line.insert(c).flag_matches(),
        line.delete_before_cursor().flag_matches(),
        line.insert(c).cursor == line.insert(c).buffer.len(),
        line.delete_before_cursor().cursor == line.delete_before_cursor().buffer.len(),
{
}

} // verus!
