use vstd::prelude::*;
use crate::change::ChangeSpec;

verus! {

/// Which kind of input the editor is waiting for.
#[derive(Clone, Copy, PartialEq, Eq, Structural, Debug)]
pub enum AppState {
    Move,
    Edit,
    Help,
}

/// The hexadecimal digits typed so far for the byte being entered.
#[derive(Clone, Copy, PartialEq, Eq, Structural, Debug)]
pub enum NibbleInput {
    Empty,
    OneDigit(u8),
    Complete(u8),
}

/// The value of a hexadecimal digit, either case (`0`-`9` are code points
/// 48-57, `a`-`f` 97-102, `A`-`F` 65-70).
pub open spec fn hex_value(c: char) -> Option<u8> {
    let u = c as u32;
    if 48 <= u <= 57 {
        Some((u - 48) as u8)
    } else if 97 <= u <= 102 {
        Some((u - 87) as u8)
    } else if 65 <= u <= 70 {
        Some((u - 55) as u8)
    } else {
        None
    }
}

pub open spec fn is_hex_digit(c: char) -> bool {
    hex_value(c) is Some
}

/// The nibble input after the digit `c` is typed: a first digit is held, a
/// second completes the byte, anything more (or a non-digit) is ignored.
pub open spec fn nibble_step(n: NibbleInput, c: char) -> NibbleInput {
    match hex_value(c) {
        None => n,
        Some(v) => match n {
            NibbleInput::Empty => NibbleInput::OneDigit(v),
            NibbleInput::OneDigit(h) => NibbleInput::Complete((h * 16 + v) as u8),
            NibbleInput::Complete(_) => n,
        },
    }
}

pub open spec fn min(a: int, b: int) -> int {
    if a <= b {
        a
    } else {
        b
    }
}

pub open spec fn max(a: int, b: int) -> int {
    if a <= b {
        b
    } else {
        a
    }
}

/// The first visible row once the cursor's row is kept at least five rows
/// away from the top and bottom of a view `height` rows high.
pub open spec fn scrolled_start(row: int, start: int, height: int) -> int {
    let s1 = if row < start + 5 {
        max(row - 5, 0)
    } else {
        start
    };
    let span = max(height - 6, 0);
    if row > s1 + span {
        max(row - span, 0)
    } else {
        s1
    }
}

/// Everything an editing session holds, as plain values.
pub struct Session {
    pub file_name: Seq<char>,
    pub data: Seq<u8>,
    /// The cursor's offset; `data.len()` is the append slot.
    pub idx: int,
    pub starting_line: int,
    pub frame_height: int,
    pub running: bool,
    pub state: AppState,
    pub buffer: NibbleInput,
    /// Applied changes, most recent last.
    pub changes: Seq<ChangeSpec>,
    /// Undone changes, most recent last.
    pub made_changes: Seq<ChangeSpec>,
    pub is_inserting: bool,
    pub is_selecting: bool,
    pub selection_start: int,
    pub clipboard: Seq<u8>,
}

impl Session {
    /// A fresh session over the loaded bytes: cursor on the first offset,
    /// nothing selected, empty history and clipboard.
    pub open spec fn initial(file_name: Seq<char>, data: Seq<u8>) -> Session {
        Session {
            file_name,
            data,
            idx: 0,
            starting_line: 0,
            frame_height: 0,
            running: true,
            state: AppState::Move,
            buffer: NibbleInput::Empty,
            changes: Seq::empty(),
            made_changes: Seq::empty(),
            is_inserting: false,
            is_selecting: false,
            selection_start: 0,
            clipboard: Seq::empty(),
        }
    }

    pub open spec fn len(self) -> int {
        self.data.len() as int
    }

    pub open spec fn with_idx(self, idx: int) -> Session {
        Session { idx, ..self }
    }

    /// The cursor pulled back inside the buffer after it has shrunk.
    pub open spec fn clamp_cursor(self) -> Session {
        self.with_idx(min(self.idx, self.len()))
    }

    /// `c` carried out and recorded; whatever was undone can no longer be redone.
    pub open spec fn do_change(self, c: ChangeSpec) -> Session {
        Session {
            data: c.forward(self.data),
            changes: self.changes.push(c),
            made_changes: Seq::empty(),
            ..self
        }.clamp_cursor()
    }

    /// The inverse of `c` carried out, and `c` kept for redo.
    pub open spec fn undo_change(self, c: ChangeSpec) -> Session {
        Session {
            data: c.backward(self.data),
            made_changes: self.made_changes.push(c),
            ..self
        }.clamp_cursor()
    }

    pub open spec fn undo(self) -> Session {
        if self.changes.len() == 0 {
            self
        } else {
            Session { changes: self.changes.drop_last(), ..self }.undo_change(self.changes.last())
        }
    }

    pub open spec fn redo(self) -> Session {
        if self.made_changes.len() == 0 {
            self
        } else {
            Session { made_changes: self.made_changes.drop_last(), ..self }.do_change(
                self.made_changes.last(),
            )
        }
    }

    pub open spec fn move_left(self) -> Session {
        self.with_idx(max(self.idx - 1, 0))
    }

    pub open spec fn move_right(self) -> Session {
        self.with_idx(min(self.idx + 1, self.len()))
    }

    pub open spec fn move_up(self) -> Session {
        self.with_idx(max(self.idx - 16, 0))
    }

    pub open spec fn move_down(self) -> Session {
        self.with_idx(min(self.idx + 16, self.len()))
    }

    pub open spec fn move_page_up(self) -> Session {
        self.with_idx(max(self.idx - 16 * self.frame_height, 0))
    }

    pub open spec fn move_page_down(self) -> Session {
        self.with_idx(min(self.idx + 16 * self.frame_height, self.len()))
    }

    /// The selected offsets, both ends included. Without a selection it is the
    /// cursor alone; with one, both ends are kept at or below the last offset,
    /// and an empty buffer gives `(0, 0)`.
    pub open spec fn selection_range(self) -> (int, int) {
        if !self.is_selecting {
            (self.idx, self.idx)
        } else if self.len() == 0 {
            (0, 0)
        } else {
            let last = self.len() - 1;
            (
                min(min(self.selection_start, self.idx), last),
                min(max(self.selection_start, self.idx), last),
            )
        }
    }

    /// With a selection over a non-empty buffer, both ends of the range lie
    /// inside the buffer, the lower first, whatever the anchor and cursor are.
    pub proof fn lemma_selection_bounds(self)
        requires
            self.is_selecting,
            self.len() > 0,
            self.idx >= 0,
            self.selection_start >= 0,
        ensures
            0 <= self.selection_range().0 <= self.selection_range().1 <= self.len() - 1,
    {
    }

    /// The bytes of the selection range that lie inside the buffer.
    pub open spec fn selection_bytes(self) -> Seq<u8> {
        let (lo, hi) = self.selection_range();
        self.data.subrange(min(lo, self.len()), min(hi + 1, self.len()))
    }

    pub open spec fn set_startingline(self) -> Session {
        Session {
            starting_line: scrolled_start(self.idx / 16, self.starting_line, self.frame_height),
            ..self
        }
    }

    pub open spec fn insert_to_buffer(self, c: char) -> Session {
        Session { buffer: nibble_step(self.buffer, c), ..self }
    }

    pub open spec fn yank(self) -> Session {
        Session { clipboard: self.selection_bytes(), is_selecting: false, ..self }
    }

    /// The clipboard inserted at the cursor and selected, with the cursor on
    /// its last byte.
    pub open spec fn paste(self) -> Session {
        let at = self.idx;
        let s = self.do_change(ChangeSpec::Insert(at as nat, self.clipboard));
        Session {
            selection_start: at,
            is_selecting: true,
            idx: if self.clipboard.len() == 0 {
                at
            } else {
                at + self.clipboard.len() - 1
            },
            ..s
        }
    }


    /// Backspace: the selection (or the byte under the cursor) is deleted and
    /// the cursor kept on a byte; on the append slot with nothing selected the
    /// cursor steps left instead.
    pub open spec fn delete_selection(self) -> Session {
        let (lo, hi) = self.selection_range();
        if lo == hi && hi == self.len() {
            self.move_left()
        } else {
            let s = self.do_change(ChangeSpec::Delete(lo as nat, self.selection_bytes()));
            s.with_idx(min(self.idx, max(s.len() - 1, 0)))
        }
    }

}

} // verus!
