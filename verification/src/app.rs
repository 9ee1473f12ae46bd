//! The session: its input mode, the active layout, the input buffer and the
//! prompt queue, and the state machine that key events drive.

use crate::input_buffer::{InputBuffer, InputView};
use crate::keyboard_mapping::KeyboardType;
use crate::prompt_queue::{PromptQueue, QueueView};
use vstd::prelude::*;
use vstd::string::StringExecFns;

verus! {

/// The mode that decides what a key does.
#[derive(Clone, Copy, Debug, PartialEq, Eq, Structural)]
pub enum InputMode {
    /// Keys control the session.
    Normal,
    /// Keys edit the input.
    Editing,
}

/// The identity of a key.
#[derive(Clone, Copy, Debug, PartialEq, Eq, Structural)]
pub enum Key {
    /// A character key, with the character it produces under Qwerty.
    Char(char),
    Enter,
    Backspace,
    Left,
    Right,
    Esc,
    /// Any other key.
    Other,
}

/// What happened to a key.
#[derive(Clone, Copy, Debug, PartialEq, Eq, Structural)]
pub enum KeyKind {
    Press,
    Repeat,
    Release,
}

/// One key event.
#[derive(Clone, Copy, Debug, PartialEq, Eq, Structural)]
pub struct KeyEvent {
    pub key: Key,
    pub kind: KeyKind,
}

/// What the session does after a key event.
#[derive(Clone, Copy, Debug, PartialEq, Eq, Structural)]
pub enum Step {
    /// The session goes on.
    Continue,
    /// The session ends.
    Quit,
}

/// The key that enters editing, in normal mode.
pub const EDIT_KEY: char = 'e';

/// The key that ends the session, in normal mode.
pub const QUIT_KEY: char = 'q';

/// The key that selects the next layout, in normal mode.
pub const LAYOUT_KEY: char = 'p';

/// The key that submits the input, in editing mode. It is never inserted.
pub const SUBMIT_KEY: char = ' ';

/// The state of a session.
pub struct AppView {
    pub input: InputView,
    pub mode: InputMode,
    pub queue: QueueView,
    pub layout: KeyboardType,
}

impl AppView {
    /// The cursor lies within the input.
    pub open spec fn wf(self) -> bool {
        self.input.wf()
    }

    /// The state after the input was submitted: where the queue accepts it,
    /// the queue has advanced and the input is empty; where it does not,
    /// nothing has changed.
    pub open spec fn submit(self) -> AppView {
        if self.queue.accepts(self.input.text) {
            AppView {
                queue: self.queue.submit(self.input.text),
                input: InputView::empty(),
                ..self
            }
        } else {
            self
        }
    }

    /// The state after a key event in normal mode.
    pub open spec fn step_normal(self, key: Key) -> AppView {
        match key {
            Key::Char(c) => if c == EDIT_KEY {
                AppView { mode: InputMode::Editing, ..self }
            } else if c == LAYOUT_KEY {
                AppView { layout: self.layout.spec_next(), ..self }
            } else {
                self
            },
            _ => self,
        }
    }

    /// The state after a key press in editing mode.
    pub open spec fn step_editing(self, key: Key) -> AppView {
        match key {
            Key::Enter => self.submit(),
            Key::Char(c) => if c == SUBMIT_KEY {
                self.submit()
            } else {
                AppView { input: self.input.insert(self.layout.spec_map_key(c)), ..self }
            },
            Key::Backspace => AppView { input: self.input.delete_before_cursor(), ..self },
            Key::Left => AppView { input: self.input.move_left(), ..self },
            Key::Right => AppView { input: self.input.move_right(), ..self },
            Key::Esc => AppView { mode: InputMode::Normal, ..self },
            Key::Other => self,
        }
    }

    /// The state after a key event. Normal mode reacts to every kind of
    /// event, editing mode to presses only.
    pub open spec fn step(self, event: KeyEvent) -> AppView {
        match self.mode {
            InputMode::Normal => self.step_normal(event.key),
            InputMode::Editing => if event.kind == KeyKind::Press {
                self.step_editing(event.key)
            } else {
                self
            },
        }
    }

    /// Whether a key event ends the session.
    pub open spec fn quits(self, event: KeyEvent) -> bool {
        self.mode == InputMode::Normal && event.key == Key::Char(QUIT_KEY)
    }

    /// The state after a sequence of key events, taken in order.
    pub open spec fn run(self, events: Seq<KeyEvent>) -> AppView
        decreases events.len(),
    {
        if events.len() == 0 {
            self
        } else {
            self.run(events.drop_last()).step(events.last())
        }
    }

    /// The status line: the mode and the name of the active layout.
    pub open spec fn status_line(self) -> Seq<char> {
        (match self.mode {
            InputMode::Normal => "Viewing: Current layout: "@,
            InputMode::Editing => "Editing: Current layout: "@,
        }) + self.layout.spec_name()
    }

    /// Where to show the cursor: at the cursor's offset while editing,
    /// nowhere otherwise.
    pub open spec fn cursor_hint(self) -> Option<nat> {
        match self.mode {
            InputMode::Normal => None,
            InputMode::Editing => Some(self.input.cursor),
        }
    }
}

/// A typing session.
///
/// A session is valid when its input buffer is (`wf` of its view). `new`
/// makes a valid session and every operation keeps it valid.
pub struct App {
    /// The text being typed and the cursor in it.
    pub input: InputBuffer,
    /// The current input mode.
    pub input_mode: InputMode,
    /// The prompts to type and the history of submitted prompts.
    pub prompts: PromptQueue,
    /// The active keyboard layout.
    pub keyboard_type: KeyboardType,
}

impl View for App {
    type V = AppView;

    open spec fn view(&self) -> AppView {
        AppView {
            input: self.input@,
            mode: self.input_mode,
            queue: self.prompts@,
            layout: self.keyboard_type,
        }
    }
}

impl App {
    /// A session at its start: normal mode, the Qwerty layout, an empty
    /// input, and the given queue of prompts.
    pub fn new(prompts: PromptQueue) -> (app: App)
        ensures
            app@ == (AppView {
                input: InputView::empty(),
                mode: InputMode::Normal,
                queue: prompts@,
                layout: KeyboardType::Qwerty,
            }),
            app@.wf(),
    {
        App {
            input: InputBuffer::new(),
            input_mode: InputMode::Normal,
            prompts,
            keyboard_type: KeyboardType::Qwerty,
        }
    }

    /// Moves the cursor one character to the left; at the start it stays.
    pub fn move_cursor_left(&mut self)
        requires
            old(self)@.wf(),
        ensures
            final(self)@ == (AppView { input: old(self)@.input.move_left(), ..old(self)@ }),
            final(self)@.wf(),
    {
        self.input.move_left();
    }

    /// Moves the cursor one character to the right; at the end it stays.
    pub fn move_cursor_right(&mut self)
        requires
            old(self)@.wf(),
        ensures
            final(self)@ == (AppView { input: old(self)@.input.move_right(), ..old(self)@ }),
            final(self)@.wf(),
    {
        self.input.move_right();
    }

    /// Inserts `new_char` at the cursor and moves the cursor behind it.
    pub fn enter_char(&mut self, new_char: char)
        requires
            old(self)@.wf(),
        ensures
            final(self)@ == (AppView { input: old(self)@.input.insert(new_char), ..old(self)@ }),
            final(self)@.wf(),
    {
        self.input.insert(new_char);
    }

    /// Removes the character before the cursor and moves the cursor one to
    /// the left. With the cursor at the start nothing changes.
    pub fn delete_char(&mut self)
        requires
            old(self)@.wf(),
        ensures
            final(self)@ == (AppView {
                input: old(self)@.input.delete_before_cursor(),
                ..old(self)@
            }),
            final(self)@.wf(),
    {
        self.input.delete_before_cursor();
    }

    /// Bounds a cursor position to the positions of the input, its end
    /// included.
    pub fn clamp_cursor(&self, new_cursor_pos: usize) -> (clamped: usize)
        ensures
            clamped == self@.input.clamp(new_cursor_pos as nat),
            clamped <= self@.input.text.len(),
    {
        self.input.clamp(new_cursor_pos)
    }

    /// Puts the cursor at the start and leaves the input as it is.
    pub fn reset_cursor(&mut self)
        requires
            old(self)@.wf(),
        ensures
            final(self)@ == (AppView { input: old(self)@.input.reset_cursor(), ..old(self)@ }),
            final(self)@.wf(),
    {
        self.input.reset_cursor();
    }

    /// Submits the input against the current prompt. Where the two are equal
    /// character for character, the prompt leaves the queue for the history
    /// and the input is emptied. Otherwise nothing changes.
    pub fn submit_message(&mut self)
        requires
            old(self)@.wf(),
        ensures
            final(self)@ == old(self)@.submit(),
            final(self)@.wf(),
    {
        let candidate = self.input.text();
        if self.prompts.try_submit(candidate.as_str()) {
            self.input.clear();
        }
    }

    /// Takes one key event: changes the session as the state machine says
    /// and tells whether the session goes on.
    pub fn handle_key(&mut self, event: KeyEvent) -> (step: Step)
        requires
            old(self)@.wf(),
        ensures
            final(self)@ == old(self)@.step(event),
            step == Step::Quit <==> old(self)@.quits(event),
            final(self)@.wf(),
    {
        match self.input_mode {
            InputMode::Normal => match event.key {
                Key::Char(c) => {
                    if c == EDIT_KEY {
                        self.input_mode = InputMode::Editing;
                    } else if c == QUIT_KEY {
                        return Step::Quit;
                    } else if c == LAYOUT_KEY {
                        self.keyboard_type = self.keyboard_type.next();
                    }
                },
                _ => {},
            },
            InputMode::Editing => match event.kind {
                KeyKind::Press => match event.key {
                    Key::Enter => self.submit_message(),
                    Key::Char(to_insert) => {
                        if to_insert == SUBMIT_KEY {
                            self.submit_message();
                        } else {
                            let mapped = self.keyboard_type.map_key(to_insert);
                            self.enter_char(mapped);
                        }
                    },
                    Key::Backspace => self.delete_char(),
                    Key::Left => self.move_cursor_left(),
                    Key::Right => self.move_cursor_right(),
                    Key::Esc => {
                        self.input_mode = InputMode::Normal;
                    },
                    Key::Other => {},
                },
                _ => {},
            },
        }
        Step::Continue
    }

    /// The status line: the mode and the name of the active layout.
    pub fn status_line(&self) -> (line: String)
        ensures
            line@ == self@.status_line(),
    {
        let label = match self.input_mode {
            InputMode::Normal => "Viewing: Current layout: ",
            InputMode::Editing => "Editing: Current layout: ",
        };
        String::from_str(label).concat(self.keyboard_type.name())
    }

    /// Where to show the cursor: at the cursor's offset while editing,
    /// nowhere otherwise.
    pub fn cursor_hint(&self) -> (hint: Option<usize>)
        ensures
            match hint {
                Some(offset) => self@.cursor_hint() == Some(offset as nat),
                None => self@.cursor_hint() is None,
            },
    {
        match self.input_mode {
            InputMode::Normal => None,
            InputMode::Editing => Some(self.input.cursor()),
        }
    }
}

/// A key event keeps the cursor within the input.
pub proof fn lemma_step_keeps_cursor_in_text(state: AppView, event: KeyEvent)
    requires
        state.wf(),
    ensures
        state.step(event).wf(),
{
}

/// After any sequence of key events the cursor lies within the input.
pub proof fn lemma_run_keeps_cursor_in_text(state: AppView, events: Seq<KeyEvent>)
    requires
        state.wf(),
    ensures
        state.run(events).wf(),
    decreases events.len(),
{
    if events.len() > 0 {
        lemma_run_keeps_cursor_in_text(state, events.drop_last());
        lemma_step_keeps_cursor_in_text(state.run(events.drop_last()), events.last());
    }
}

} // verus!
