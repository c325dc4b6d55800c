use vstd::prelude::*;
use crate::change::{Change, ChangeSpec};
use crate::model::{AppState, NibbleInput, Session, is_hex_digit};
use crate::state::{App, hex_value_of};

verus! {

/// A key as the editor tells keys apart.
#[derive(Clone, Copy, PartialEq, Eq, Structural, Debug)]
pub enum Key {
    Char(char),
    Left,
    Right,
    Up,
    Down,
    PageUp,
    PageDown,
    Esc,
    Backspace,
    Other,
}

/// The modifier keys held with a key.
#[derive(Clone, Copy, PartialEq, Eq, Structural, Debug)]
pub enum Modifiers {
    /// No modifier at all.
    Plain,
    /// Shift and nothing else.
    Shift,
    /// Any other combination.
    Other,
}

/// One key press.
#[derive(Clone, Copy, PartialEq, Eq, Structural, Debug)]
pub struct KeyPress {
    pub key: Key,
    pub modifiers: Modifiers,
}

/// Work that a key press asks of the caller, beyond the session itself.
#[derive(Clone, Copy, PartialEq, Eq, Structural, Debug)]
pub enum Action {
    Nothing,
    /// Write the buffer back to the file.
    Save,
}

impl Session {
    /// `v` starts a selection anchored at the cursor, or ends the one there is.
    pub open spec fn toggle_selection(self) -> Session {
        if self.is_selecting {
            Session { is_selecting: false, ..self }
        } else {
            Session { is_selecting: true, selection_start: self.idx, ..self }
        }
    }

    /// The typed byte written at the cursor: inserted in insert mode,
    /// overwriting the byte under the cursor otherwise, or appended without a
    /// history entry on the append slot. The cursor then moves right.
    pub open spec fn commit_byte(self) -> Session {
        let b = self.buffer->Complete_0;
        let at = self.idx;
        let s = Session { state: AppState::Move, ..self };
        let s2 = if s.is_inserting {
            s.do_change(ChangeSpec::Insert(at as nat, seq![b]))
        } else if at >= s.len() {
            Session { data: s.data.push(b), ..s }
        } else {
            s.do_change(ChangeSpec::Edit(at as nat, seq![s.data[at]], seq![b]))
        };
        Session { buffer: NibbleInput::Empty, is_inserting: false, ..s2.move_right() }
    }

    /// A digit typed while a byte is being entered; the second one writes it.
    pub open spec fn edit_digit(self, c: char) -> Session {
        let s = self.insert_to_buffer(c);
        if s.buffer is Complete {
            s.commit_byte()
        } else {
            s
        }
    }

    /// What a key press does to the session.
    pub open spec fn on_key(self, k: KeyPress) -> Session {
        match self.state {
            AppState::Move => match k.key {
                Key::Char('q') => Session { running: false, ..self },
                Key::Right => self.move_right(),
                Key::Left => self.move_left(),
                Key::Up => self.move_up(),
                Key::Down => self.move_down(),
                Key::PageUp => self.move_page_up(),
                Key::PageDown => self.move_page_down(),
                Key::Char('v') => self.toggle_selection(),
                Key::Esc => Session { is_selecting: false, ..self },
                Key::Char('y') => self.yank(),
                Key::Char('p') => self.paste(),
                Key::Backspace => self.delete_selection(),
                Key::Char(c) => {
                    if k.modifiers == Modifiers::Plain && is_hex_digit(c) {
                        Session {
                            is_selecting: false,
                            state: AppState::Edit,
                            is_inserting: false,
                            ..self
                        }.insert_to_buffer(c)
                    } else if c == 'i' {
                        Session {
                            is_selecting: false,
                            state: AppState::Edit,
                            is_inserting: true,
                            ..self
                        }
                    } else if k.modifiers == Modifiers::Plain && (c == 'u' || c == 'U') {
                        Session { is_selecting: false, ..self }.undo()
                    } else if k.modifiers == Modifiers::Shift && (c == 'u' || c == 'U') {
                        Session { is_selecting: false, ..self }.redo()
                    } else if c == 'h' || c == 'H' {
                        Session { is_selecting: false, state: AppState::Help, ..self }
                    } else {
                        self
                    }
                },
                Key::Other => self,
            },
            AppState::Edit => match k.key {
                Key::Esc | Key::Backspace => Session {
                    state: AppState::Move,
                    buffer: NibbleInput::Empty,
                    ..self
                },
                Key::Char(c) => {
                    if is_hex_digit(c) {
                        self.edit_digit(c)
                    } else {
                        self
                    }
                },
                _ => self,
            },
            AppState::Help => Session { state: AppState::Move, ..self },
        }
    }

    /// A key press asks for the buffer to be saved: `s` while moving around.
    pub open spec fn save_requested(self, k: KeyPress) -> bool {
        self.state == AppState::Move && (k.key == Key::Char('s') || k.key == Key::Char('S'))
    }
}

impl App {
    /// Starts a selection anchored at the cursor, or ends the current one.
    pub fn toggle_selection(&mut self)
        requires
            old(self).wf(),
        ensures
            final(self).wf(),
            final(self)@ == old(self)@.toggle_selection(),
    {
        if self.is_selecting {
            self.is_selecting = false;
        } else {
            self.is_selecting = true;
            self.selection_start = self.get_idx();
        }
    }

    /// Copies the selection to the clipboard and ends the selection.
    pub fn yank(&mut self)
        requires
            old(self).wf(),
        ensures
            final(self).wf(),
            final(self)@ == old(self)@.yank(),
    {
        self.clipboard = self.get_selection_data();
        self.is_selecting = false;
    }

    /// Inserts the clipboard at the cursor as one history entry and selects
    /// it, leaving the cursor on its last byte.
    pub fn paste(&mut self)
        requires
            old(self).wf(),
        ensures
            final(self).wf(),
            final(self)@ == old(self)@.paste(),
    {
        let at = self.get_idx();
        let clip = self.clipboard.clone();
        assert(clip@ =~= self.clipboard@);
        self.do_change(Change::Insert(at, clip));
        self.selection_start = at;
        self.is_selecting = true;
        let n = self.clipboard.len();
        if n > 0 {
            self.set_idx(at + n - 1);
        }
    }

    /// Deletes the selection, or the byte under the cursor, as one history
    /// entry, and keeps the cursor on a byte; on the append slot with nothing
    /// selected it moves the cursor left instead.
    pub fn delete_selection(&mut self)
        requires
            old(self).wf(),
        ensures
            final(self).wf(),
            final(self)@ == old(self)@.delete_selection(),
    {
        let idx = self.get_idx();
        let (x, y) = self.selection_range();
        if x == y && y == self.data.len() {
            self.move_left();
            return;
        }
        let old = self.get_selection_data();
        self.do_change(Change::Delete(x, old));
        let len = self.data.len();
        let last = if len > 0 {
            len - 1
        } else {
            0
        };
        self.set_idx(if idx < last {
            idx
        } else {
            last
        });
    }

    /// Writes the byte whose two digits have been typed.
    pub fn commit_byte(&mut self)
        requires
            old(self).wf(),
            old(self).buffer is Complete,
        ensures
            final(self).wf(),
            final(self)@ == old(self)@.commit_byte(),
    {
        self.state = AppState::Move;
        let idx = self.get_idx();
        let new = self.buffer_to_u8();
        if self.is_inserting {
            let v = vec![new];
            assert(v@ =~= seq![new]);
            self.do_change(Change::Insert(idx, v));
        } else if idx >= self.data.len() {
            self.data.push(new);
        } else {
            let old = self.data[idx];
            let ov = vec![old];
            let nv = vec![new];
            assert(ov@ =~= seq![old]);
            assert(nv@ =~= seq![new]);
            self.do_change(Change::Edit(idx, ov, nv));
        }
        self.buffer = NibbleInput::Empty;
        self.move_right();
        self.is_inserting = false;
    }

    /// Handles one key press, and says whether the caller should save.
    pub fn on_key_event(&mut self, key: KeyPress) -> (r: Action)
        requires
            old(self).wf(),
        ensures
            final(self).wf(),
            final(self)@ == old(self)@.on_key(key),
            r == (if old(self)@.save_requested(key) {
                Action::Save
            } else {
                Action::Nothing
            }),
    {
        match self.state {
            AppState::Move => {
                match key.key {
                    Key::Char('q') => self.quit(),
                    Key::Right => self.move_right(),
                    Key::Left => self.move_left(),
                    Key::Up => self.move_up(),
                    Key::Down => self.move_down(),
                    Key::PageUp => self.move_page_up(),
                    Key::PageDown => self.move_page_down(),
                    Key::Char('v') => self.toggle_selection(),
                    Key::Esc => {
                        self.is_selecting = false;
                    },
                    Key::Char('y') => self.yank(),
                    Key::Char('p') => self.paste(),
                    Key::Backspace => self.delete_selection(),
                    Key::Char(c) => {
                        let plain = key.modifiers == Modifiers::Plain;
                        if plain && hex_value_of(c).is_some() {
                            self.is_selecting = false;
                            self.state = AppState::Edit;
                            self.is_inserting = false;
                            self.insert_to_buffer(c);
                        } else if c == 'i' {
                            self.is_selecting = false;
                            self.state = AppState::Edit;
                            self.is_inserting = true;
                        } else if plain && (c == 'u' || c == 'U') {
                            self.is_selecting = false;
                            self.undo();
                        } else if key.modifiers == Modifiers::Shift && (c == 'u' || c == 'U') {
                            self.is_selecting = false;
                            self.redo();
                        } else if c == 's' || c == 'S' {
                            return Action::Save;
                        } else if c == 'h' || c == 'H' {
                            self.is_selecting = false;
                            self.state = AppState::Help;
                        }
                    },
                    Key::Other => {},
                }
            },
            AppState::Edit => {
                match key.key {
                    Key::Esc | Key::Backspace => {
                        self.state = AppState::Move;
                        self.buffer = NibbleInput::Empty;
                    },
                    Key::Char(c) => {
                        if hex_value_of(c).is_some() {
                            self.insert_to_buffer(c);
                            if let NibbleInput::Complete(_) = self.buffer {
                                self.commit_byte();
                            }
                        }
                    },
                    _ => {},
                }
            },
            AppState::Help => {
                self.state = AppState::Move;
            },
        }
        Action::Nothing
    }
}

} // verus!
