use vstd::prelude::*;
use crate::change::{Change, ChangeSpec, delete_spec, insert_spec, replace_spec};
use crate::model::{AppState, NibbleInput, Session, hex_value, min};

verus! {

/// What the editor is started with.
pub struct Args {
    pub file: String,
}

/// An editing session over one file's bytes.
pub struct App {
    pub file_name: String,
    pub data: Vec<u8>,
    /// First row shown on screen.
    pub starting_line: usize,
    /// Cursor column, below the row width.
    pub cursor_x: usize,
    /// Cursor row.
    pub cursor_y: usize,
    /// Rows visible on screen.
    pub frame_height: usize,
    pub running: bool,
    pub state: AppState,
    /// Hexadecimal digits typed so far for the byte being entered.
    pub buffer: NibbleInput,
    /// Applied changes, most recent last.
    pub changes: Vec<Change>,
    /// Undone changes, most recent last.
    pub made_changes: Vec<Change>,
    pub is_inserting: bool,
    pub is_selecting: bool,
    /// The selection's anchor offset.
    pub selection_start: usize,
    pub clipboard: Vec<u8>,
}

pub open spec fn changes_view(v: Seq<Change>) -> Seq<ChangeSpec> {
    v.map_values(|c: Change| c@)
}

impl View for App {
    type V = Session;

    open spec fn view(&self) -> Session {
        Session {
            file_name: self.file_name@,
            data: self.data@,
            idx: self.cursor_y * 16 + self.cursor_x,
            starting_line: self.starting_line as int,
            frame_height: self.frame_height as int,
            running: self.running,
            state: self.state,
            buffer: self.buffer,
            changes: changes_view(self.changes@),
            made_changes: changes_view(self.made_changes@),
            is_inserting: self.is_inserting,
            is_selecting: self.is_selecting,
            selection_start: self.selection_start as int,
            clipboard: self.clipboard@,
        }
    }
}

pub(crate) fn hex_value_of(c: char) -> (r: Option<u8>)
    ensures
        r == hex_value(c),
{
    let u = c as u32;
    if 48 <= u && u <= 57 {
        Some((u - 48) as u8)
    } else if 97 <= u && u <= 102 {
        Some((u - 87) as u8)
    } else if 65 <= u && u <= 70 {
        Some((u - 55) as u8)
    } else {
        None
    }
}

impl App {
    /// The cursor is a column below the row width on a row that keeps its
    /// offset at most the buffer's length, and a half-typed byte holds one
    /// hexadecimal digit.
    pub open spec fn wf(&self) -> bool {
        &&& self.cursor_x < 16
        &&& self.cursor_y * 16 + self.cursor_x <= self.data.len()
        &&& (self.buffer matches NibbleInput::OneDigit(h) ==> h < 16)
    }

    /// A session over `data`, loaded from the file that `args` names.
    pub fn new(args: Args, data: Vec<u8>) -> (r: App)
        ensures
            r.wf(),
            r@ == Session::initial(args.file@, data@),
    {
        let r = App {
            file_name: args.file,
            data,
            starting_line: 0,
            cursor_x: 0,
            cursor_y: 0,
            frame_height: 0,
            running: true,
            state: AppState::Move,
            buffer: NibbleInput::Empty,
            changes: Vec::new(),
            made_changes: Vec::new(),
            is_inserting: false,
            is_selecting: false,
            selection_start: 0,
            clipboard: Vec::new(),
        };
        assert(changes_view(r.changes@) =~= Seq::empty());
        assert(changes_view(r.made_changes@) =~= Seq::empty());
        r
    }

    pub fn quit(&mut self)
        requires
            old(self).wf(),
        ensures
            final(self).wf(),
            final(self)@ == (Session { running: false, ..old(self)@ }),
    {
        self.running = false;
    }

    /// Scrolls so that the cursor's row stays five rows away from the top
    /// and the bottom of the view where it can.
    pub fn set_startingline(&mut self)
        requires
            old(self).wf(),
        ensures
            final(self).wf(),
            final(self)@ == old(self)@.set_startingline(),
    {
        let row = self.cursor_y;
        assert(row as int == self@.idx / 16) by (nonlinear_arith)
            requires
                self@.idx == self.cursor_y * 16 + self.cursor_x,
                self.cursor_x < 16,
                row == self.cursor_y,
        ;
        let mut start = self.starting_line;
        if row < 5 || row - 5 < start {
            start = if row >= 5 {
                row - 5
            } else {
                0
            };
        }
        let span = if self.frame_height >= 6 {
            self.frame_height - 6
        } else {
            0
        };
        if row > start && row - start > span {
            start = row - span;
        }
        self.starting_line = start;
    }

    /// The cursor's offset.
    pub fn get_idx(&self) -> (r: usize)
        requires
            self.wf(),
        ensures
            r == self@.idx,
    {
        self.cursor_y * 16 + self.cursor_x
    }

    /// Puts the cursor on offset `idx`.
    pub fn set_idx(&mut self, idx: usize)
        requires
            old(self).wf(),
            idx <= old(self).data.len(),
        ensures
            final(self).wf(),
            final(self)@ == old(self)@.with_idx(idx as int),
    {
        self.cursor_y = idx / 16;
        self.cursor_x = idx % 16;
    }

    pub fn move_up(&mut self)
        requires
            old(self).wf(),
        ensures
            final(self).wf(),
            final(self)@ == old(self)@.move_up(),
    {
        let i = self.get_idx();
        if i >= 16 {
            self.set_idx(i - 16);
        } else {
            self.set_idx(0);
        }
    }

    pub fn move_down(&mut self)
        requires
            old(self).wf(),
        ensures
            final(self).wf(),
            final(self)@ == old(self)@.move_down(),
    {
        let i = self.get_idx();
        let len = self.data.len();
        if len - i >= 16 {
            self.set_idx(i + 16);
        } else {
            self.set_idx(len);
        }
    }

    /// Moves up by as many rows as are visible, stopping at the first offset.
    pub fn move_page_up(&mut self)
        requires
            old(self).wf(),
        ensures
            final(self).wf(),
            final(self)@ == old(self)@.move_page_up(),
    {
        let i = self.get_idx();
        let h = self.frame_height;
        if h <= i / 16 {
            assert(16 * h <= i) by (nonlinear_arith)
                requires
                    h <= i / 16,
            ;
            self.set_idx(i - 16 * h);
        } else {
            assert(16 * h > i) by (nonlinear_arith)
                requires
                    h > i / 16,
            ;
            self.set_idx(0);
        }
    }

    /// Moves down by as many rows as are visible, stopping at the append slot.
    pub fn move_page_down(&mut self)
        requires
            old(self).wf(),
        ensures
            final(self).wf(),
            final(self)@ == old(self)@.move_page_down(),
    {
        let i = self.get_idx();
        let h = self.frame_height;
        let len = self.data.len();
        let room = len - i;
        if h <= room / 16 {
            assert(16 * h <= room) by (nonlinear_arith)
                requires
                    h <= room / 16,
            ;
            self.set_idx(i + 16 * h);
        } else {
            assert(16 * h > room) by (nonlinear_arith)
                requires
                    h > room / 16,
            ;
            self.set_idx(len);
        }
    }

    /// One offset right; the append slot is as far as the cursor goes.
    pub fn move_right(&mut self)
        requires
            old(self).wf(),
        ensures
            final(self).wf(),
            final(self)@ == old(self)@.move_right(),
            old(self)@.idx == old(self)@.len() ==> final(self)@.idx == old(self)@.idx,
    {
        let i = self.get_idx();
        if i < self.data.len() {
            self.set_idx(i + 1);
        }
    }

    /// One offset left; the first offset is as far as the cursor goes.
    pub fn move_left(&mut self)
        requires
            old(self).wf(),
        ensures
            final(self).wf(),
            final(self)@ == old(self)@.move_left(),
            old(self)@.idx == 0 ==> final(self)@.idx == 0,
    {
        let i = self.get_idx();
        if i > 0 {
            self.set_idx(i - 1);
        }
    }

    /// The selected offsets, both ends included; with a selection over a
    /// non-empty buffer both lie inside it.
    pub fn selection_range(&self) -> (r: (usize, usize))
        requires
            self.wf(),
        ensures
            (r.0 as int, r.1 as int) == self@.selection_range(),
            self.is_selecting && self.data.len() > 0 ==> r.0 <= r.1 && r.1 < self.data.len(),
    {
        let i = self.get_idx();
        if !self.is_selecting {
            (i, i)
        } else if self.data.len() == 0 {
            (0, 0)
        } else {
            let last = self.data.len() - 1;
            let a = self.selection_start;
            let lo = if a < i {
                a
            } else {
                i
            };
            let hi = if a < i {
                i
            } else {
                a
            };
            (
                if lo < last {
                    lo
                } else {
                    last
                },
                if hi < last {
                    hi
                } else {
                    last
                },
            )
        }
    }

    /// A copy of the selected bytes.
    pub fn get_selection_data(&self) -> (r: Vec<u8>)
        requires
            self.wf(),
        ensures
            r@ == self@.selection_bytes(),
    {
        let (lo, hi) = self.selection_range();
        let len = self.data.len();
        let start = if lo < len {
            lo
        } else {
            len
        };
        let end = if hi < len {
            hi + 1
        } else {
            len
        };
        let mut r: Vec<u8> = Vec::new();
        let mut i: usize = start;
        while i < end
            invariant
                start <= i <= end <= len,
                len == self.data.len(),
                r@ == self.data@.subrange(start as int, i as int),
            decreases end - i,
        {
            r.push(self.data[i]);
            i = i + 1;
            assert(r@ =~= self.data@.subrange(start as int, i as int));
        }
        r
    }

    /// Writes `new` over the buffer from `idx` on, appending what runs past
    /// the end; the buffer never shrinks.
    pub fn replace_data(&mut self, idx: usize, new: &Vec<u8>)
        requires
            old(self).wf(),
        ensures
            final(self).wf(),
            final(self)@ == (Session {
                data: replace_spec(old(self).data@, idx as int, new@),
                ..old(self)@
            }),
            final(self).data.len() >= old(self).data.len(),
    {
        let ghost d = self.data@;
        let len0 = self.data.len();
        let k = if idx < len0 {
            idx
        } else {
            len0
        };
        let n = new.len();
        let mut i: usize = 0;
        while i < n
            invariant
                self.wf(),
                0 <= i <= n,
                n == new.len(),
                k <= len0,
                len0 == d.len(),
                self@ == (Session { data: self.data@, ..old(self)@ }),
                self.data@ == d.subrange(0, k as int) + new@.subrange(0, i as int) + d.subrange(
                    min(k + i, len0 as int),
                    len0 as int,
                ),
            decreases n - i,
        {
            let pos = k + i;
            if pos < self.data.len() {
                self.data.set(pos, new[i]);
            } else {
                self.data.push(new[i]);
            }
            i = i + 1;
            assert(self.data@ =~= d.subrange(0, k as int) + new@.subrange(0, i as int) + d.subrange(
                min(k + i, len0 as int),
                len0 as int,
            ));
        }
        assert(new@.subrange(0, n as int) =~= new@);
    }

    /// Inserts `new` at `idx`, shifting the bytes from there on to the right;
    /// an offset past the end appends.
    pub fn insert_data(&mut self, idx: usize, new: &Vec<u8>)
        requires
            old(self).wf(),
        ensures
            final(self).wf(),
            final(self)@ == (Session {
                data: insert_spec(old(self).data@, idx as int, new@),
                ..old(self)@
            }),
            final(self).data.len() == old(self).data.len() + new.len(),
    {
        let ghost d = self.data@;
        let len0 = self.data.len();
        let k = if idx < len0 {
            idx
        } else {
            len0
        };
        let n = new.len();
        let mut i: usize = 0;
        while i < n
            invariant
                self.wf(),
                0 <= i <= n,
                n == new.len(),
                k <= len0,
                len0 == d.len(),
                self@ == (Session { data: self.data@, ..old(self)@ }),
                self.data@ == d.subrange(0, k as int) + new@.subrange(0, i as int) + d.subrange(
                    k as int,
                    len0 as int,
                ),
            decreases n - i,
        {
            self.data.insert(k + i, new[i]);
            i = i + 1;
            assert(self.data@ =~= d.subrange(0, k as int) + new@.subrange(0, i as int) + d.subrange(
                k as int,
                len0 as int,
            ));
        }
        assert(new@.subrange(0, n as int) =~= new@);
    }

    /// Removes up to `amt` bytes at `idx`, stopping at the end of the buffer;
    /// the cursor is then pulled back inside the shorter buffer.
    pub fn delete_data(&mut self, idx: usize, amt: usize)
        requires
            old(self).wf(),
        ensures
            final(self).wf(),
            final(self)@ == (Session {
                data: delete_spec(old(self).data@, idx as int, amt as int),
                ..old(self)@
            }).clamp_cursor(),
            idx <= old(self).data.len() ==> final(self).data.len() == old(self).data.len() - min(
                amt as int,
                old(self).data.len() - idx,
            ),
    {
        let ghost d = self.data@;
        let ghost cur = self@.idx;
        let len0 = self.data.len();
        let count = if idx >= len0 {
            0
        } else if amt < len0 - idx {
            amt
        } else {
            len0 - idx
        };
        let mut j: usize = 0;
        while j < count
            invariant
                0 <= j <= count,
                count == 0 || idx + count <= len0,
                len0 == d.len(),
                self.cursor_x == old(self).cursor_x,
                self.cursor_y == old(self).cursor_y,
                self@ == (Session { data: self.data@, ..old(self)@ }),
                count == 0 ==> self.data@ == d,
                count > 0 ==> self.data@ == d.subrange(0, idx as int) + d.subrange(
                    idx + j,
                    len0 as int,
                ),
            decreases count - j,
        {
            self.data.remove(idx);
            j = j + 1;
            assert(self.data@ =~= d.subrange(0, idx as int) + d.subrange(idx + j, len0 as int));
        }
        assert(self.data@ =~= delete_spec(d, idx as int, amt as int));
        let len = self.data.len();
        if self.cursor_y * 16 + self.cursor_x > len {
            self.cursor_y = len / 16;
            self.cursor_x = len % 16;
        }
    }

    /// Carries out `change` and records it; what was undone can no longer be
    /// redone.
    pub fn do_change(&mut self, change: Change)
        requires
            old(self).wf(),
        ensures
            final(self).wf(),
            final(self)@ == old(self)@.do_change(change@),
    {
        match &change {
            Change::Edit(o, _, new) => self.replace_data(*o, new),
            Change::Insert(o, new) => self.insert_data(*o, new),
            Change::Delete(o, old) => self.delete_data(*o, old.len()),
        }
        let ghost before = self.changes@;
        self.changes.push(change);
        self.made_changes = Vec::new();
        assert(changes_view(self.changes@) =~= changes_view(before).push(change@));
        assert(changes_view(self.made_changes@) =~= Seq::empty());
    }

    /// Carries out the inverse of `change` and keeps it for redo.
    pub fn undo_change(&mut self, change: Change)
        requires
            old(self).wf(),
        ensures
            final(self).wf(),
            final(self)@ == old(self)@.undo_change(change@),
    {
        match &change {
            Change::Edit(o, old, _) => self.replace_data(*o, old),
            Change::Insert(o, new) => self.delete_data(*o, new.len()),
            Change::Delete(o, old) => self.insert_data(*o, old),
        }
        let ghost before = self.made_changes@;
        self.made_changes.push(change);
        assert(changes_view(self.made_changes@) =~= changes_view(before).push(change@));
    }

    /// Reverts the most recent change, if there is one.
    pub fn undo(&mut self)
        requires
            old(self).wf(),
        ensures
            final(self).wf(),
            final(self)@ == old(self)@.undo(),
    {
        let ghost before = self.changes@;
        if let Some(change) = self.changes.pop() {
            assert(changes_view(self.changes@) =~= changes_view(before).drop_last());
            self.undo_change(change);
        }
    }

    /// Carries out again the most recently undone change, if there is one.
    pub fn redo(&mut self)
        requires
            old(self).wf(),
        ensures
            final(self).wf(),
            final(self)@ == old(self)@.redo(),
    {
        let ghost before = self.made_changes@;
        if let Some(change) = self.made_changes.pop() {
            assert(changes_view(self.made_changes@) =~= changes_view(before).drop_last());
            self.do_change(change);
        }
    }

    /// Takes a typed character: a hexadecimal digit fills the next free
    /// nibble, anything else is ignored.
    pub fn insert_to_buffer(&mut self, c: char)
        requires
            old(self).wf(),
        ensures
            final(self).wf(),
            final(self)@ == old(self)@.insert_to_buffer(c),
    {
        if let Some(v) = hex_value_of(c) {
            match self.buffer {
                NibbleInput::Empty => {
                    self.buffer = NibbleInput::OneDigit(v);
                },
                NibbleInput::OneDigit(h) => {
                    self.buffer = NibbleInput::Complete(h * 16 + v);
                },
                NibbleInput::Complete(_) => {},
            }
        }
    }

    /// The byte that the two typed digits make.
    pub fn buffer_to_u8(&self) -> (r: u8)
        requires
            self.buffer is Complete,
        ensures
            r == self.buffer->Complete_0,
    {
        match self.buffer {
            NibbleInput::Complete(b) => b,
            _ => 0,
        }
    }
}

} // verus!
