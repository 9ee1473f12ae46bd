//! The text being typed and the cursor in it, edited by whole characters.

use crate::text::string_of;
use vstd::prelude::*;

verus! {

/// The state of an input buffer: its characters and the cursor, an offset
/// counted in characters.
pub struct InputView {
    pub text: Seq<char>,
    pub cursor: nat,
}

impl InputView {
    /// The cursor lies within the text or at its end.
    pub open spec fn wf(self) -> bool {
        self.cursor <= self.text.len()
    }

    /// The empty buffer, cursor at the start.
    pub open spec fn empty() -> InputView {
        InputView { text: Seq::empty(), cursor: 0 }
    }

    /// `pos` bounded to the positions of the text, its end included.
    pub open spec fn clamp(self, pos: nat) -> nat {
        if pos <= self.text.len() {
            pos
        } else {
            self.text.len()
        }
    }

    /// The cursor one character to the left, unless it is at the start.
    pub open spec fn move_left(self) -> InputView {
        let moved = if self.cursor == 0 {
            0
        } else {
            (self.cursor - 1) as nat
        };
        InputView { cursor: self.clamp(moved), ..self }
    }

    /// The cursor one character to the right, unless it is at the end.
    pub open spec fn move_right(self) -> InputView {
        InputView { cursor: self.clamp(self.cursor + 1), ..self }
    }

    /// The cursor at the start, the text as it was.
    pub open spec fn reset_cursor(self) -> InputView {
        InputView { cursor: 0, ..self }
    }

    /// `c` inserted at the cursor, and the cursor behind it.
    pub open spec fn insert(self, c: char) -> InputView {
        InputView { text: self.text.insert(self.cursor as int, c), cursor: self.cursor + 1 }
    }

    /// The character before the cursor removed and the cursor one to the
    /// left; the same state where the cursor is at the start.
    pub open spec fn delete_before_cursor(self) -> InputView {
        if self.cursor == 0 {
            self
        } else {
            InputView {
                text: self.text.remove(self.cursor - 1),
                cursor: (self.cursor - 1) as nat,
            }
        }
    }

    /// The state after one editing operation.
    pub open spec fn apply(self, op: EditOp) -> InputView {
        match op {
            EditOp::MoveLeft => self.move_left(),
            EditOp::MoveRight => self.move_right(),
            EditOp::ResetCursor => self.reset_cursor(),
            EditOp::Insert(c) => self.insert(c),
            EditOp::DeleteBeforeCursor => self.delete_before_cursor(),
            EditOp::Clear => InputView::empty(),
        }
    }

    /// The state after a sequence of editing operations, applied in order.
    pub open spec fn apply_all(self, ops: Seq<EditOp>) -> InputView
        decreases ops.len(),
    {
        if ops.len() == 0 {
            self
        } else {
            self.apply_all(ops.drop_last()).apply(ops.last())
        }
    }
}

/// The editing operations of an input buffer.
pub enum EditOp {
    MoveLeft,
    MoveRight,
    ResetCursor,
    Insert(char),
    DeleteBeforeCursor,
    Clear,
}

/// The text being typed, held as whole characters, and the cursor in it.
///
/// A buffer is valid when its cursor lies within the text or at its end
/// (`wf` of its view). `new` makes a valid buffer and every operation keeps
/// it valid.
pub struct InputBuffer {
    text: Vec<char>,
    cursor: usize,
}

impl View for InputBuffer {
    type V = InputView;

    closed spec fn view(&self) -> InputView {
        InputView { text: self.text@, cursor: self.cursor as nat }
    }
}

impl InputBuffer {
    /// An empty buffer with the cursor at the start.
    pub fn new() -> (buffer: InputBuffer)
        ensures
            buffer@ == InputView::empty(),
            buffer@.wf(),
    {
        InputBuffer { text: Vec::new(), cursor: 0 }
    }

    /// The characters of the text.
    pub fn chars(&self) -> (chars: &Vec<char>)
        ensures
            chars@ == self@.text,
    {
        &self.text
    }

    /// The text as a string.
    pub fn text(&self) -> (text: String)
        ensures
            text@ == self@.text,
    {
        string_of(&self.text)
    }

    /// The number of characters in the text.
    pub fn len(&self) -> (len: usize)
        ensures
            len == self@.text.len(),
    {
        self.text.len()
    }

    /// Whether the text is empty.
    pub fn is_empty(&self) -> (empty: bool)
        ensures
            empty <==> self@.text.len() == 0,
    {
        self.text.len() == 0
    }

    /// The cursor, an offset in characters between 0 and the length of the
    /// text.
    pub fn cursor(&self) -> (cursor: usize)
        ensures
            cursor == self@.cursor,
    {
        self.cursor
    }

    /// Bounds `pos` to the positions of the text, its end included.
    pub fn clamp(&self, pos: usize) -> (clamped: usize)
        ensures
            clamped == self@.clamp(pos as nat),
            clamped <= self@.text.len() <= usize::MAX,
    {
        if pos <= self.text.len() {
            pos
        } else {
            self.text.len()
        }
    }

    /// Moves the cursor one character to the left; at the start it stays.
    pub fn move_left(&mut self)
        requires
            old(self)@.wf(),
        ensures
            final(self)@ == old(self)@.move_left(),
            final(self)@.wf(),
    {
        let moved = self.cursor.saturating_sub(1);
        self.cursor = self.clamp(moved);
    }

    /// Moves the cursor one character to the right; at the end it stays.
    pub fn move_right(&mut self)
        requires
            old(self)@.wf(),
        ensures
            final(self)@ == old(self)@.move_right(),
            final(self)@.wf(),
    {
        let moved = self.cursor.saturating_add(1);
        self.cursor = self.clamp(moved);
    }

    /// Puts the cursor at the start and leaves the text as it is.
    pub fn reset_cursor(&mut self)
        requires
            old(self)@.wf(),
        ensures
            final(self)@ == old(self)@.reset_cursor(),
            final(self)@.wf(),
    {
        self.cursor = 0;
    }

    /// Inserts `c` at the cursor and moves the cursor behind it.
    pub fn insert(&mut self, c: char)
        requires
            old(self)@.wf(),
        ensures
            final(self)@ == old(self)@.insert(c),
            final(self)@.wf(),
    {
        self.text.insert(self.cursor, c);
        self.move_right();
    }

    /// Removes the character before the cursor and moves the cursor one to
    /// the left. With the cursor at the start nothing changes.
    pub fn delete_before_cursor(&mut self)
        requires
            old(self)@.wf(),
        ensures
            final(self)@ == old(self)@.delete_before_cursor(),
            final(self)@.wf(),
    {
        if self.cursor != 0 {
            self.move_left();
            self.text.remove(self.cursor);
        }
    }

    /// Empties the text and puts the cursor at the start.
    pub fn clear(&mut self)
        requires
            old(self)@.wf(),
        ensures
            final(self)@ == InputView::empty(),
            final(self)@.wf(),
    {
        self.text.clear();
        self.cursor = 0;
    }
}

/// Every editing operation keeps the cursor within the text.
pub proof fn lemma_edit_keeps_cursor_in_text(state: InputView, op: EditOp)
    requires
        state.wf(),
    ensures
        state.apply(op).wf(),
{
}

/// After any sequence of editing operations the cursor lies within the text.
pub proof fn lemma_edits_keep_cursor_in_text(state: InputView, ops: Seq<EditOp>)
    requires
        state.wf(),
    ensures
        state.apply_all(ops).wf(),
    decreases ops.len(),
{
    if ops.len() > 0 {
        lemma_edits_keep_cursor_in_text(state, ops.drop_last());
        lemma_edit_keeps_cursor_in_text(state.apply_all(ops.drop_last()), ops.last());
    }
}

/// Deleting before the cursor removes exactly one character and keeps every
/// other character, in order.
pub proof fn lemma_delete_removes_one_character(state: InputView)
    requires
        state.wf(),
        state.cursor > 0,
    ensures
        state.delete_before_cursor().text.len() == state.text.len() - 1,
        state.delete_before_cursor().cursor == state.cursor - 1,
        forall|i: int|
            0 <= i < state.cursor - 1 ==> state.delete_before_cursor().text[i] == state.text[i],
        forall|i: int|
            state.cursor - 1 <= i < state.text.len() - 1 ==> state.delete_before_cursor().text[i]
                == state.text[i + 1],
{
}

} // verus!
