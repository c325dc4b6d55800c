use vstd::prelude::*;
use crate::model::{AppState, Session};
use crate::state::App;

verus! {

/// What a cell of the byte grid shows.
#[derive(Clone, Copy, PartialEq, Eq, Structural, Debug)]
pub enum CellKind {
    /// The digits typed so far for the byte being entered, at the cursor.
    Pending,
    /// The byte at this offset.
    Byte(usize),
    /// The empty append slot under the cursor.
    Slot,
}

/// One shown cell of a grid row.
#[derive(Clone, Copy, PartialEq, Eq, Structural, Debug)]
pub struct Cell {
    /// Column in the row, below the row width.
    pub col: usize,
    pub kind: CellKind,
    /// The cursor is on this cell.
    pub cursor: bool,
    /// A selected byte that the cursor is not on.
    pub highlighted: bool,
    /// The gap after the cell lies inside the selection.
    pub gap_highlighted: bool,
}

/// One shown row of the grid: its row number and its cells.
pub struct GridRow {
    pub row: usize,
    pub cells: Vec<Cell>,
}

impl Session {
    /// Column `j` of row `i`, where `off` cells before it were shifted right
    /// to show a byte being inserted: the cell shown there, if any, and the
    /// shift for the cells after it.
    pub open spec fn grid_cell(self, i: int, j: int, off: int) -> (Option<Cell>, int) {
        let pos = i * 16 + j - off;
        let cursor_here = i * 16 + j == self.idx;
        let (lo, hi) = self.selection_range();
        let gap = self.is_selecting && lo <= pos < hi;
        if self.state == AppState::Edit && cursor_here && off == 0 {
            (
                Some(
                    Cell {
                        col: j as usize,
                        kind: CellKind::Pending,
                        cursor: true,
                        highlighted: false,
                        gap_highlighted: gap,
                    },
                ),
                if self.is_inserting {
                    1
                } else {
                    0
                },
            )
        } else if pos < self.len() {
            (
                Some(
                    Cell {
                        col: j as usize,
                        kind: CellKind::Byte(pos as usize),
                        cursor: cursor_here,
                        highlighted: !cursor_here && self.is_selecting && lo <= pos <= hi,
                        gap_highlighted: gap,
                    },
                ),
                off,
            )
        } else if cursor_here {
            (
                Some(
                    Cell {
                        col: j as usize,
                        kind: CellKind::Slot,
                        cursor: true,
                        highlighted: false,
                        gap_highlighted: gap,
                    },
                ),
                off,
            )
        } else {
            (None, off)
        }
    }

    /// The cells of row `i` from column `j` on, and the shift after them; the
    /// row ends at the first offset past the append slot.
    pub open spec fn grid_row_from(self, i: int, j: int, off: int) -> (Seq<Cell>, int)
        decreases 16 - j,
    {
        if j >= 16 || i * 16 + j < off || i * 16 + j - off > self.len() {
            (Seq::empty(), off)
        } else {
            let (c, off2) = self.grid_cell(i, j, off);
            let (rest, off3) = self.grid_row_from(i, j + 1, off2);
            (
                match c {
                    Some(cell) => seq![cell] + rest,
                    None => rest,
                },
                off3,
            )
        }
    }

    /// Up to `n` rows from row `i` on, each with its cells; rows that start
    /// past the append slot are not shown.
    pub open spec fn grid_from(self, i: int, n: nat, off: int) -> Seq<(int, Seq<Cell>)>
        decreases n,
    {
        if n == 0 || i * 16 > self.len() {
            Seq::empty()
        } else {
            let (cells, off2) = self.grid_row_from(i, 0, off);
            seq![(i, cells)] + self.grid_from(i + 1, (n - 1) as nat, off2)
        }
    }

    /// The rows shown in a view `height` rows high.
    pub open spec fn grid(self, height: nat) -> Seq<(int, Seq<Cell>)> {
        self.grid_from(self.starting_line, height, 0)
    }
}

pub open spec fn grid_view(rows: Seq<GridRow>) -> Seq<(int, Seq<Cell>)> {
    rows.map_values(|r: GridRow| (r.row as int, r.cells@))
}

impl App {
    fn grid_cell(&self, i: usize, j: usize, off: usize, lo: usize, hi: usize) -> (r: (Option<Cell>, usize))
        requires
            self.wf(),
            j < 16,
            off <= 1,
            i * 16 <= self.data.len(),
            i * 16 + j >= off,
            i * 16 + j - off <= self.data.len(),
            (lo as int, hi as int) == self@.selection_range(),
        ensures
            (r.0, r.1 as int) == self@.grid_cell(i as int, j as int, off as int),
            r.1 <= 1,
    {
        let pos = if j >= off {
            i * 16 + (j - off)
        } else {
            i * 16 - off
        };
        let idx = self.get_idx();
        let cursor_here = if off == 0 {
            pos == idx
        } else {
            idx >= 1 && pos == idx - 1
        };
        let gap = self.is_selecting && lo <= pos && pos < hi;
        if self.state == AppState::Edit && cursor_here && off == 0 {
            (
                Some(
                    Cell {
                        col: j,
                        kind: CellKind::Pending,
                        cursor: true,
                        highlighted: false,
                        gap_highlighted: gap,
                    },
                ),
                if self.is_inserting {
                    1
                } else {
                    0
                },
            )
        } else if pos < self.data.len() {
            (
                Some(
                    Cell {
                        col: j,
                        kind: CellKind::Byte(pos),
                        cursor: cursor_here,
                        highlighted: !cursor_here && self.is_selecting && lo <= pos && pos <= hi,
                        gap_highlighted: gap,
                    },
                ),
                off,
            )
        } else if cursor_here {
            (
                Some(
                    Cell {
                        col: j,
                        kind: CellKind::Slot,
                        cursor: true,
                        highlighted: false,
                        gap_highlighted: gap,
                    },
                ),
                off,
            )
        } else {
            (None, off)
        }
    }

    fn grid_row(&self, i: usize, off0: usize, lo: usize, hi: usize) -> (r: (Vec<Cell>, usize))
        requires
            self.wf(),
            off0 <= 1,
            i * 16 <= self.data.len(),
            (lo as int, hi as int) == self@.selection_range(),
        ensures
            (r.0@, r.1 as int) == self@.grid_row_from(i as int, 0, off0 as int),
            r.1 <= 1,
    {
        let ghost s = self@;
        let mut cells: Vec<Cell> = Vec::new();
        let mut off = off0;
        let mut j: usize = 0;
        while j < 16
            invariant
                self.wf(),
                s == self@,
                j <= 16,
                off <= 1,
                i * 16 <= self.data.len(),
                (lo as int, hi as int) == s.selection_range(),
                cells@ + s.grid_row_from(i as int, j as int, off as int).0 == s.grid_row_from(
                    i as int,
                    0,
                    off0 as int,
                ).0,
                s.grid_row_from(i as int, j as int, off as int).1 == s.grid_row_from(
                    i as int,
                    0,
                    off0 as int,
                ).1,
            ensures
                s.grid_row_from(i as int, j as int, off as int) == (Seq::<Cell>::empty(), off as int),
            decreases 16 - j,
        {
            let room = self.data.len() - i * 16;
            if (off == 1 && i == 0 && j == 0) || (room < 16 && j > room + off) {
                proof {
                    assert(s.grid_row_from(i as int, j as int, off as int) == (
                    Seq::<Cell>::empty(),
                    off as int,
                    ));
                }
                break;
            }
            let (c, off2) = self.grid_cell(i, j, off, lo, hi);
            let ghost old_cells = cells@;
            proof {
                let rest = s.grid_row_from(i as int, j + 1, off2 as int);
                assert(s.grid_row_from(i as int, j as int, off as int) == (
                match c {
                    Some(cell) => seq![cell] + rest.0,
                    None => rest.0,
                },
                rest.1,
                ));
            }
            match c {
                Some(cell) => {
                    cells.push(cell);
                    assert(cells@ + s.grid_row_from(i as int, j + 1, off2 as int).0 =~= old_cells
                        + s.grid_row_from(i as int, j as int, off as int).0);
                },
                None => {},
            }
            off = off2;
            j = j + 1;
        }
        proof {
            assert(cells@ =~= cells@ + s.grid_row_from(i as int, j as int, off as int).0);
        }
        (cells, off)
    }

    /// The rows shown in a view `height` rows high, from the first visible
    /// row on: for each, the cells it shows. A byte being inserted shows at
    /// the cursor and shifts the bytes after it one cell right.
    pub fn grid(&self, height: usize) -> (r: Vec<GridRow>)
        requires
            self.wf(),
        ensures
            grid_view(r@) == self@.grid(height as nat),
    {
        let ghost s = self@;
        let (lo, hi) = self.selection_range();
        let len = self.data.len();
        let mut rows: Vec<GridRow> = Vec::new();
        let mut i = self.starting_line;
        let mut off: usize = 0;
        let mut k: usize = 0;
        while k < height
            invariant
                self.wf(),
                s == self@,
                len == self.data.len(),
                k <= height,
                off <= 1,
                i == self.starting_line + k,
                (lo as int, hi as int) == s.selection_range(),
                grid_view(rows@) + s.grid_from(i as int, (height - k) as nat, off as int) == s.grid(
                    height as nat,
                ),
            ensures
                s.grid_from(i as int, (height - k) as nat, off as int) == Seq::<(int, Seq<Cell>)>::empty(),
            decreases height - k,
        {
            if i > len / 16 {
                assert(i * 16 > len) by (nonlinear_arith)
                    requires
                        i > len / 16,
                ;
                break;
            }
            assert(i * 16 <= len) by (nonlinear_arith)
                requires
                    i <= len / 16,
            ;
            let (cells, off2) = self.grid_row(i, off, lo, hi);
            let ghost old_rows = grid_view(rows@);
            rows.push(GridRow { row: i, cells });
            assert(grid_view(rows@) =~= old_rows.push((i as int, cells@)));
            assert(grid_view(rows@) + s.grid_from(i + 1, (height - k - 1) as nat, off2 as int)
                =~= old_rows + s.grid_from(i as int, (height - k) as nat, off as int));
            off = off2;
            i = i + 1;
            k = k + 1;
        }
        proof {
            assert(grid_view(rows@) =~= grid_view(rows@) + s.grid_from(
                i as int,
                (height - k) as nat,
                off as int,
            ));
        }
        rows
    }
}

} // verus!
