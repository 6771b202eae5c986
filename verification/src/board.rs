//! Game board representation and collision detection.

use vstd::prelude::*;

use crate::tetromino::{PieceColor, TetrominoType};

verus! {

/// Standard board width in columns.
pub const BOARD_WIDTH: usize = 10;

/// Visible board height in rows.
pub const BOARD_HEIGHT: usize = 20;

/// Hidden rows above the visible board for spawning.
pub const BUFFER_HEIGHT: usize = 4;

/// Total grid height: visible rows plus the hidden buffer.
pub const TOTAL_HEIGHT: usize = BOARD_HEIGHT + BUFFER_HEIGHT;

/// A cell on the board - either empty or filled with a color.
#[derive(Debug, Clone, Copy, PartialEq, Eq, Structural, Default)]
pub enum Cell {
    #[default]
    Empty,
    Filled(PieceColor),
}

impl Cell {
    /// Whether the cell is empty.
    pub open spec fn spec_is_empty(self) -> bool {
        self is Empty
    }

    pub fn is_empty(&self) -> (r: bool)
        ensures
            r == self.spec_is_empty(),
    {
        matches!(self, Cell::Empty)
    }

    pub fn is_filled(&self) -> (r: bool)
        ensures
            r == !self.spec_is_empty(),
    {
        matches!(self, Cell::Filled(_))
    }
}

/// A row is full iff every cell in it is filled.
pub open spec fn spec_row_full(row: Seq<Cell>) -> bool {
    forall|c: int| 0 <= c < row.len() ==> !(#[trigger] row[c]).spec_is_empty()
}

/// A row is blank iff every cell in it is empty.
pub open spec fn spec_row_blank(row: Seq<Cell>) -> bool {
    forall|c: int| 0 <= c < row.len() ==> (#[trigger] row[c]).spec_is_empty()
}

/// A blank row of the board's width.
pub open spec fn spec_empty_row() -> Seq<Cell> {
    Seq::new(BOARD_WIDTH as nat, |c: int| Cell::Empty)
}

/// A default board is a new empty board.
impl Default for Board {
    fn default() -> (b: Board)
        ensures
            b.wf(),
            b.spec_is_empty(),
    {
        Board::new()
    }
}

/// A position is valid on a grid iff its column is on the board, its row
/// is not below the floor, and it is either above the whole grid (spawn
/// headroom) or an empty cell.
pub open spec fn grid_is_valid_position(grid: Seq<Seq<Cell>>, row: int, col: int) -> bool {
    &&& 0 <= col < BOARD_WIDTH
    &&& 0 <= row
    &&& (row >= TOTAL_HEIGHT || grid[row][col].spec_is_empty())
}

/// All positions of a set are valid on a grid.
pub open spec fn grid_positions_valid(grid: Seq<Seq<Cell>>, positions: Seq<(i32, i32)>) -> bool {
    forall|k: int|
        0 <= k < positions.len() ==> grid_is_valid_position(
            grid,
            (#[trigger] positions[k]).0 as int,
            positions[k].1 as int,
        )
}

/// A grid is entirely empty.
pub open spec fn grid_is_empty(grid: Seq<Seq<Cell>>) -> bool {
    forall|r: int| 0 <= r < grid.len() ==> spec_row_blank(#[trigger] grid[r])
}

/// What a grid holds after locking four cells of a color: filled at each
/// locked position, unchanged elsewhere.
pub open spec fn grid_locked(
    grid: Seq<Seq<Cell>>,
    positions: Seq<(i32, i32)>,
    color: PieceColor,
) -> Seq<Seq<Cell>> {
    Seq::new(
        grid.len(),
        |r: int|
            Seq::new(
                grid[r].len(),
                |c: int|
                    if exists|k: int|
                        0 <= k < positions.len() && (#[trigger] positions[k]).0 == r
                            && positions[k].1 == c {
                        Cell::Filled(color)
                    } else {
                        grid[r][c]
                    },
            ),
    )
}

/// The rows of a grid kept by a line clear: every row that is not full, in
/// their original bottom-to-top order.
pub open spec fn grid_kept_rows(grid: Seq<Seq<Cell>>) -> Seq<Seq<Cell>> {
    grid.filter(|row: Seq<Cell>| !spec_row_full(row))
}

/// What a grid holds after a line clear: the kept rows compacted to the
/// bottom in original order, blank rows above them.
pub open spec fn grid_cleared(grid: Seq<Seq<Cell>>) -> Seq<Seq<Cell>> {
    grid_kept_rows(grid) + Seq::new(
        (grid.len() - grid_kept_rows(grid).len()) as nat,
        |i: int| spec_empty_row(),
    )
}

/// The game board.
///
/// The grid is stored as rows of cells; row 0 is the bottom and rows
/// increase upward. Only `lock_piece`, `set` and `clear_lines` mutate it.
#[derive(Debug, Clone)]
pub struct Board {
    cells: Vec<Vec<Cell>>,
}

impl Board {
    /// The mathematical view of the grid: a sequence of rows, each a
    /// sequence of cells, bottom row first.
    pub closed spec fn grid(self) -> Seq<Seq<Cell>> {
        self.cells@.map_values(|r: Vec<Cell>| r@)
    }

    /// Well-formedness: the grid is exactly TOTAL_HEIGHT rows of
    /// BOARD_WIDTH cells.
    pub open spec fn wf(self) -> bool {
        &&& self.grid().len() == TOTAL_HEIGHT
        &&& forall|r: int|
            0 <= r < self.grid().len() ==> (#[trigger] self.grid()[r]).len() == BOARD_WIDTH
    }

    /// The cell at an in-bounds position.
    pub open spec fn cell_at(self, row: int, col: int) -> Cell {
        self.grid()[row][col]
    }

    /// What `get` returns: the cell for in-bounds coordinates, absent
    /// otherwise.
    pub open spec fn spec_get(self, row: int, col: int) -> Option<Cell> {
        if 0 <= row < TOTAL_HEIGHT && 0 <= col < BOARD_WIDTH {
            Some(self.cell_at(row, col))
        } else {
            None
        }
    }

    /// A position is valid iff its column is on the board, its row is not
    /// below the floor, and it is either above the whole grid (spawn
    /// headroom) or an empty cell.
    pub open spec fn spec_is_valid_position(self, row: int, col: int) -> bool {
        grid_is_valid_position(self.grid(), row, col)
    }

    /// All positions of a set are valid.
    pub open spec fn spec_positions_valid(self, positions: Seq<(i32, i32)>) -> bool {
        grid_positions_valid(self.grid(), positions)
    }

    /// The grid is entirely empty.
    pub open spec fn spec_is_empty(self) -> bool {
        grid_is_empty(self.grid())
    }

    /// Create a new empty board.
    pub fn new() -> (b: Board)
        ensures
            b.wf(),
            b.spec_is_empty(),
    {
        let mut cells: Vec<Vec<Cell>> = Vec::new();
        let mut r: usize = 0;
        while r < TOTAL_HEIGHT
            invariant
                cells@.len() == r,
                r <= TOTAL_HEIGHT,
                forall|i: int|
                    0 <= i < r ==> (#[trigger] cells@[i])@.len() == BOARD_WIDTH && spec_row_blank(
                        cells@[i]@,
                    ),
            decreases TOTAL_HEIGHT - r,
        {
            let mut row: Vec<Cell> = Vec::new();
            let mut c: usize = 0;
            while c < BOARD_WIDTH
                invariant
                    row@.len() == c,
                    c <= BOARD_WIDTH,
                    forall|j: int| 0 <= j < c ==> (#[trigger] row@[j]).spec_is_empty(),
                decreases BOARD_WIDTH - c,
            {
                row.push(Cell::Empty);
                c += 1;
            }
            cells.push(row);
            r += 1;
        }
        Board { cells }
    }

    /// Get the cell at a position (row, col).
    /// Returns None if out of bounds.
    pub fn get(&self, row: i32, col: i32) -> (r: Option<Cell>)
        requires
            self.wf(),
        ensures
            r == self.spec_get(row as int, col as int),
    {
        if row < 0 || col < 0 {
            return None;
        }
        let row = row as usize;
        let col = col as usize;
        if row >= TOTAL_HEIGHT || col >= BOARD_WIDTH {
            return None;
        }
        Some(self.cells[row][col])
    }

    /// Set a cell at a position.
    /// Returns false without mutation if out of bounds.
    pub fn set(&mut self, row: i32, col: i32, cell: Cell) -> (ok: bool)
        requires
            old(self).wf(),
        ensures
            final(self).wf(),
            ok == (0 <= row < TOTAL_HEIGHT && 0 <= col < BOARD_WIDTH),
            ok ==> final(self).grid() == old(self).grid().update(
                row as int,
                old(self).grid()[row as int].update(col as int, cell),
            ),
            !ok ==> *final(self) == *old(self),
    {
        if row < 0 || col < 0 {
            return false;
        }
        let row = row as usize;
        let col = col as usize;
        if row >= TOTAL_HEIGHT || col >= BOARD_WIDTH {
            return false;
        }
        proof {
            assert(self.grid()[row as int] == self.cells@[row as int]@);
        }
        let row_vec: &mut Vec<Cell> = &mut self.cells[row];
        row_vec.set(col, cell);
        proof {
            assert(final(self).grid() =~= old(self).grid().update(
                row as int,
                old(self).grid()[row as int].update(col as int, cell),
            ));
        }
        true
    }

    /// Check if a position is valid (on the board and empty, or above the
    /// grid).
    pub fn is_valid_position(&self, row: i32, col: i32) -> (r: bool)
        requires
            self.wf(),
        ensures
            r == self.spec_is_valid_position(row as int, col as int),
    {
        if col < 0 || col >= BOARD_WIDTH as i32 {
            return false;
        }
        if row < 0 {
            return false;
        }
        if row >= TOTAL_HEIGHT as i32 {
            // Above the board is valid (for spawning)
            return true;
        }
        proof {
            assert(self.grid()[row as int] == self.cells@[row as int]@);
        }
        self.cells[row as usize][col as usize].is_empty()
    }

    /// Check if a set of block positions are all valid.
    pub fn are_positions_valid(&self, positions: &[(i32, i32)]) -> (r: bool)
        requires
            self.wf(),
        ensures
            r == self.spec_positions_valid(positions@),
    {
        let mut k: usize = 0;
        while k < positions.len()
            invariant
                self.wf(),
                k <= positions@.len(),
                forall|i: int|
                    0 <= i < k ==> self.spec_is_valid_position(
                        (#[trigger] positions@[i]).0 as int,
                        positions@[i].1 as int,
                    ),
            decreases positions@.len() - k,
        {
            let (row, col) = positions[k];
            if !self.is_valid_position(row, col) {
                return false;
            }
            k += 1;
        }
        true
    }

    /// What the grid holds after locking a piece: filled with the piece's
    /// color at each in-bounds locked position, unchanged elsewhere.
    pub open spec fn spec_locked_grid(
        self,
        positions: Seq<(i32, i32)>,
        color: PieceColor,
    ) -> Seq<Seq<Cell>> {
        grid_locked(self.grid(), positions, color)
    }

    /// Lock a piece onto the board: write its color into each of its
    /// positions. Positions above the grid are ignored, as in `set`: only
    /// in-grid cells are committed.
    pub fn lock_piece(&mut self, positions: &[(i32, i32)], piece_type: TetrominoType)
        requires
            old(self).wf(),
            old(self).spec_positions_valid(positions@),
        ensures
            final(self).wf(),
            final(self).grid() == old(self).spec_locked_grid(
                positions@,
                piece_type.spec_color(),
            ),
    {
        let color = piece_type.color();
        let ghost orig = *self;
        proof {
            assert(self.grid() =~~= orig.spec_locked_grid(positions@.subrange(0, 0), color));
        }
        let mut k: usize = 0;
        while k < positions.len()
            invariant
                self.wf(),
                orig.wf(),
                k <= positions@.len(),
                orig.spec_positions_valid(positions@),
                self.grid() == orig.spec_locked_grid(positions@.subrange(0, k as int), color),
            decreases positions@.len() - k,
        {
            let (row, col) = positions[k];
            let ghost before = *self;
            let ok = self.set(row, col, Cell::Filled(color));
            proof {
                assert(orig.spec_is_valid_position(row as int, col as int));
                assert(ok == (row < TOTAL_HEIGHT));
                let sub_next = positions@.subrange(0, k as int + 1);
                assert forall|r: int, c: int|
                    0 <= r < self.grid().len() && 0 <= c < self.grid()[r].len() implies self.grid()[r][c]
                    == orig.spec_locked_grid(sub_next, color)[r][c] by {
                    if r == row as int && c == col as int {
                        assert(sub_next[k as int] == (row, col));
                    } else {
                        assert(forall|i: int|
                            0 <= i < k ==> sub_next[i] == #[trigger] positions@.subrange(
                                0,
                                k as int,
                            )[i]);
                        assert(before.grid()[r][c] == orig.spec_locked_grid(
                            positions@.subrange(0, k as int),
                            color,
                        )[r][c]);
                        if !ok {
                            assert(self.grid()[r][c] == before.grid()[r][c]);
                        }
                    }
                }
                assert(self.grid() =~~= orig.spec_locked_grid(sub_next, color));
            }
            k += 1;
        }
        proof {
            assert(positions@.subrange(0, positions@.len() as int) =~= positions@);
        }
    }

    /// The rows kept by a line clear: every row that is not full, in their
    /// original bottom-to-top order.
    pub open spec fn spec_kept_rows(self) -> Seq<Seq<Cell>> {
        grid_kept_rows(self.grid())
    }

    /// What the grid holds after a line clear: the kept rows compacted to
    /// the bottom in original order, blank rows above them.
    pub open spec fn spec_cleared_grid(self) -> Seq<Seq<Cell>> {
        grid_cleared(self.grid())
    }

    /// Clear completed lines and return the number cleared.
    ///
    /// Scans bottom-to-top; kept rows are copied downward in their original
    /// order (a gravity-consistent single pass) and the vacated rows at the
    /// top are blanked.
    pub fn clear_lines(&mut self) -> (n: usize)
        requires
            old(self).wf(),
        ensures
            final(self).wf(),
            final(self).grid() == old(self).spec_cleared_grid(),
            n == old(self).grid().len() - old(self).spec_kept_rows().len(),
    {
        let ghost orig = *self;
        let mut lines_cleared: usize = 0;
        let mut write_row: usize = 0;

        let mut read_row: usize = 0;
        while read_row < TOTAL_HEIGHT
            invariant
                self.wf(),
                orig.wf(),
                read_row <= TOTAL_HEIGHT,
                write_row + lines_cleared == read_row,
                orig.grid().subrange(0, read_row as int).filter(
                    |row: Seq<Cell>| !spec_row_full(row),
                ).len() == write_row,
                forall|i: int|
                    0 <= i < write_row ==> self.grid()[i] == orig.grid().subrange(
                        0,
                        read_row as int,
                    ).filter(|row: Seq<Cell>| !spec_row_full(row))[i],
                forall|i: int| read_row <= i < TOTAL_HEIGHT ==> self.grid()[i] == orig.grid()[i],
            decreases TOTAL_HEIGHT - read_row,
        {
            let ghost pre = orig.grid().subrange(0, read_row as int);
            let ghost post = orig.grid().subrange(0, read_row as int + 1);
            proof {
                assert(post.drop_last() =~= pre);
                assert(post.last() == orig.grid()[read_row as int]);
                // unfold one step of filter on the extended prefix
                reveal_with_fuel(Seq::filter, 2);
            }
            if !self.is_line_full(read_row) {
                // Keep this line
                if write_row != read_row {
                    let row_copy = self.copy_row(read_row);
                    let ghost g_before = self.grid();
                    self.cells.set(write_row, row_copy);
                    proof {
                        assert(self.grid() =~= g_before.update(
                            write_row as int,
                            orig.grid()[read_row as int],
                        ));
                    }
                }
                write_row += 1;
            } else {
                lines_cleared += 1;
            }
            read_row += 1;
            proof {
                let f = |row: Seq<Cell>| !spec_row_full(row);
                assert(orig.grid().subrange(0, read_row as int) =~= post);
            }
        }

        proof {
            assert(orig.grid().subrange(0, TOTAL_HEIGHT as int) =~= orig.grid());
        }

        // Fill the vacated top rows with blank rows
        let ghost kept = orig.spec_kept_rows();
        let mut row = write_row;
        while row < TOTAL_HEIGHT
            invariant
                self.wf(),
                orig.wf(),
                write_row <= row <= TOTAL_HEIGHT,
                kept.len() == write_row,
                forall|i: int| 0 <= i < write_row ==> self.grid()[i] == kept[i],
                forall|i: int|
                    write_row <= i < row ==> #[trigger] self.grid()[i] =~= spec_empty_row(),
            decreases TOTAL_HEIGHT - row,
        {
            let blank = self.blank_row();
            let ghost g_before = self.grid();
            self.cells.set(row, blank);
            proof {
                assert(self.grid() =~= g_before.update(row as int, blank@));
            }
            row += 1;
        }

        proof {
            assert(final(self).grid() =~~= orig.spec_cleared_grid());
        }
        lines_cleared
    }

    /// Copy of one row of the grid.
    fn copy_row(&self, row: usize) -> (r: Vec<Cell>)
        requires
            self.wf(),
            row < TOTAL_HEIGHT,
        ensures
            r@ == self.grid()[row as int],
    {
        let mut r: Vec<Cell> = Vec::new();
        let mut c: usize = 0;
        while c < BOARD_WIDTH
            invariant
                self.wf(),
                row < TOTAL_HEIGHT,
                c <= BOARD_WIDTH,
                r@ =~= self.grid()[row as int].subrange(0, c as int),
            decreases BOARD_WIDTH - c,
        {
            proof {
                assert(self.grid()[row as int] == self.cells@[row as int]@);
            }
            r.push(self.cells[row][c]);
            proof {
                assert(r@ =~= self.grid()[row as int].subrange(0, c as int + 1));
            }
            c += 1;
        }
        proof {
            assert(self.grid()[row as int].subrange(0, BOARD_WIDTH as int) =~= self.grid()[row as int]);
        }
        r
    }

    /// A fresh blank row.
    fn blank_row(&self) -> (r: Vec<Cell>)
        ensures
            r@ =~= spec_empty_row(),
    {
        let mut r: Vec<Cell> = Vec::new();
        let mut c: usize = 0;
        while c < BOARD_WIDTH
            invariant
                c <= BOARD_WIDTH,
                r@.len() == c,
                forall|j: int| 0 <= j < c ==> (#[trigger] r@[j]) == Cell::Empty,
            decreases BOARD_WIDTH - c,
        {
            r.push(Cell::Empty);
            c += 1;
        }
        r
    }

    /// Check if a line is completely filled.
    fn is_line_full(&self, row: usize) -> (r: bool)
        requires
            self.wf(),
            row < TOTAL_HEIGHT,
        ensures
            r == spec_row_full(self.grid()[row as int]),
    {
        let mut c: usize = 0;
        while c < BOARD_WIDTH
            invariant
                self.wf(),
                row < TOTAL_HEIGHT,
                c <= BOARD_WIDTH,
                forall|j: int|
                    0 <= j < c ==> !(#[trigger] self.grid()[row as int][j]).spec_is_empty(),
            decreases BOARD_WIDTH - c,
        {
            proof {
                assert(self.grid()[row as int] == self.cells@[row as int]@);
            }
            if self.cells[row][c].is_empty() {
                return false;
            }
            c += 1;
        }
        true
    }

    /// Check if the board is completely empty (for all-clear detection).
    pub fn is_empty(&self) -> (r: bool)
        requires
            self.wf(),
        ensures
            r == self.spec_is_empty(),
    {
        let mut row: usize = 0;
        while row < TOTAL_HEIGHT
            invariant
                self.wf(),
                row <= TOTAL_HEIGHT,
                forall|i: int| 0 <= i < row ==> spec_row_blank(#[trigger] self.grid()[i]),
            decreases TOTAL_HEIGHT - row,
        {
            let mut c: usize = 0;
            while c < BOARD_WIDTH
                invariant
                    self.wf(),
                    row < TOTAL_HEIGHT,
                    c <= BOARD_WIDTH,
                    forall|j: int|
                        0 <= j < c ==> (#[trigger] self.grid()[row as int][j]).spec_is_empty(),
                decreases BOARD_WIDTH - c,
            {
                proof {
                    assert(self.grid()[row as int] == self.cells@[row as int]@);
                }
                if self.cells[row][c].is_filled() {
                    return false;
                }
                c += 1;
            }
            row += 1;
        }
        true
    }

    /// A locked block sits at or above the visible area.
    pub open spec fn spec_topped_out(self) -> bool {
        exists|r: int, c: int|
            BOARD_HEIGHT <= r < TOTAL_HEIGHT && 0 <= c < BOARD_WIDTH && !self.cell_at(
                r,
                c,
            ).spec_is_empty()
    }

    /// Check if the game is over: any filled cell in the buffer rows above
    /// the visible board.
    pub fn is_topped_out(&self) -> (r: bool)
        requires
            self.wf(),
        ensures
            r == self.spec_topped_out(),
    {
        let mut row: usize = BOARD_HEIGHT;
        while row < TOTAL_HEIGHT
            invariant
                self.wf(),
                BOARD_HEIGHT <= row <= TOTAL_HEIGHT,
                forall|i: int, j: int|
                    BOARD_HEIGHT <= i < row && 0 <= j < BOARD_WIDTH ==> (#[trigger] self.grid()[i][j]).spec_is_empty(),
            decreases TOTAL_HEIGHT - row,
        {
            let mut c: usize = 0;
            while c < BOARD_WIDTH
                invariant
                    self.wf(),
                    BOARD_HEIGHT <= row < TOTAL_HEIGHT,
                    c <= BOARD_WIDTH,
                    forall|j: int|
                        0 <= j < c ==> (#[trigger] self.grid()[row as int][j]).spec_is_empty(),
                decreases BOARD_WIDTH - c,
            {
                proof {
                    assert(self.grid()[row as int] == self.cells@[row as int]@);
                }
                if self.cells[row][c].is_filled() {
                    proof {
                        let (wr, wc) = (row as int, c as int);
                        assert(BOARD_HEIGHT <= wr < TOTAL_HEIGHT && 0 <= wc < BOARD_WIDTH
                            && !self.cell_at(wr, wc).spec_is_empty());
                    }
                    return true;
                }
                c += 1;
            }
            row += 1;
        }
        false
    }

    /// The cells of one visible row, bottom-to-top indexing.
    /// Offered in place of a row iterator for rendering layers.
    pub fn visible_row(&self, row: usize) -> (r: Vec<Cell>)
        requires
            self.wf(),
            row < BOARD_HEIGHT,
        ensures
            r@ == self.grid()[row as int],
    {
        self.copy_row(row)
    }
}

} // verus!
