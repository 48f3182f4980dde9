//! The executable engine: a universe owning a fixed-size toroidal grid of
//! cells, advanced one generation at a time and rendered as text.

use vstd::prelude::*;

use crate::cell::Cell;
use crate::grid::DEFAULT_HEIGHT;
use crate::grid::DEFAULT_WIDTH;
use crate::grid::GridView;
use crate::grid::alive_at;
use crate::grid::default_cell;
use crate::grid::default_grid;
use crate::grid::grid_wf;
use crate::grid::lemma_row_major_bound;
use crate::grid::live_neighbors;
use crate::grid::next_cell;
use crate::grid::next_grid;
use crate::grid::render_char;
use crate::grid::render_grid;
use vstd::string::StringExecFns;
use vstd::arithmetic::div_mod::lemma_fundamental_div_mod_converse;

verus! {

/// Why a universe could not be constructed.
#[derive(Clone, Copy, Debug, PartialEq, Eq, Structural)]
pub enum UniverseError {
    /// The requested width or height is zero.
    InvalidDimension,
    /// The supplied pattern's length does not equal `width * height`.
    PatternSizeMismatch,
}

/// A fixed-size toroidal grid of cells. The dimensions never change after
/// construction; only `tick` replaces the cells, and it replaces them all
/// at once.
#[derive(Debug)]
pub struct Universe {
    width: u32,
    height: u32,
    cells: Vec<Cell>,
}

impl View for Universe {
    type V = GridView;

    closed spec fn view(&self) -> GridView {
        GridView { width: self.width as nat, height: self.height as nat, cells: self.cells@ }
    }
}

impl Universe {
    /// A universe is valid when its grid is well formed and its cell count
    /// fits the machine's addressable size.
    pub open spec fn inv(&self) -> bool {
        &&& grid_wf(self@)
        &&& self@.width * self@.height <= usize::MAX
    }

    /// Constructs the default universe: 64 by 64, with the fixed,
    /// documented seed of `default_grid` (alive exactly at the positions
    /// divisible by 2 or by 7), so every run starts from the same pattern.
    pub fn new() -> (universe: Universe)
        ensures
            universe.inv(),
            universe@ == default_grid(),
    {
        let total: usize = (DEFAULT_WIDTH * DEFAULT_HEIGHT) as usize;
        let mut cells: Vec<Cell> = Vec::new();
        let mut k: usize = 0;
        while k < total
            invariant
                k <= total,
                total == DEFAULT_WIDTH * DEFAULT_HEIGHT,
                cells@.len() == k,
                forall|j: int| 0 <= j < k ==> cells@[j] == default_cell(j),
            decreases total - k,
        {
            if k % 2 == 0 || k % 7 == 0 {
                cells.push(Cell::Alive);
            } else {
                cells.push(Cell::Dead);
            }
            k = k + 1;
        }
        let universe = Universe { width: DEFAULT_WIDTH, height: DEFAULT_HEIGHT, cells };
        proof {
            assert(universe@ =~= default_grid());
        }
        universe
    }

    /// Constructs a universe with the given dimensions and initial
    /// pattern, given in row-major order. Fails with `InvalidDimension`
    /// when the width or the height is zero, and with
    /// `PatternSizeMismatch` when the pattern's length is not
    /// `width * height`; otherwise the universe holds exactly the given
    /// pattern. The pattern is moved in, so no live reference to it stays
    /// with the caller.
    pub fn with_pattern(width: u32, height: u32, pattern: Vec<Cell>) -> (result: Result<
        Universe,
        UniverseError,
    >)
        ensures
            width > 0 && height > 0 && pattern@.len() == width as int * height as int <==> (
            result matches Ok(u) && u.inv() && u@ == (GridView {
                width: width as nat,
                height: height as nat,
                cells: pattern@,
            })),
            width == 0 || height == 0 <==> (result matches Err(e) && e
                == UniverseError::InvalidDimension),
            width > 0 && height > 0 && pattern@.len() != width as int * height as int <==> (
            result matches Err(e) && e == UniverseError::PatternSizeMismatch),
    {
        if width == 0 || height == 0 {
            return Err(UniverseError::InvalidDimension);
        }
        proof {
            assert(width as int * height as int <= u64::MAX) by (nonlinear_arith)
                requires
                    width <= u32::MAX,
                    height <= u32::MAX,
            ;
        }
        let expected: u64 = width as u64 * height as u64;
        if pattern.len() as u64 != expected {
            return Err(UniverseError::PatternSizeMismatch);
        }
        Ok(Universe { width, height, cells: pattern })
    }

    /// How many of the 8 positions surrounding `(row, col)` hold a live
    /// cell, with offsets wrapped modulo the grid's dimensions (toroidal
    /// topology).
    pub fn live_neighbor_count(&self, row: u32, col: u32) -> (count: u8)
        requires
            self.inv(),
            row < self@.height,
            col < self@.width,
        ensures
            count == live_neighbors(self@, row as int, col as int),
            count <= 8,
    {
        let row_up = wrap_add(row, self.height - 1, self.height);
        let row_down = wrap_add(row, 1, self.height);
        let col_left = wrap_add(col, self.width - 1, self.width);
        let col_right = wrap_add(col, 1, self.width);
        let mut count: u8 = 0;
        if self.is_alive(row_up, col_left) {
            count = count + 1;
        }
        if self.is_alive(row_up, col) {
            count = count + 1;
        }
        if self.is_alive(row_up, col_right) {
            count = count + 1;
        }
        if self.is_alive(row, col_left) {
            count = count + 1;
        }
        if self.is_alive(row, col_right) {
            count = count + 1;
        }
        if self.is_alive(row_down, col_left) {
            count = count + 1;
        }
        if self.is_alive(row_down, col) {
            count = count + 1;
        }
        if self.is_alive(row_down, col_right) {
            count = count + 1;
        }
        count
    }

    /// Advances the universe by exactly one generation. The whole next
    /// generation is computed from a read-only view of the current one,
    /// then installed as a single atomic replacement of the cell buffer,
    /// so every cell's rule is evaluated against the pre-tick grid. The
    /// dimensions never change, and the result is total: no input grid
    /// makes it fail.
    pub fn tick(&mut self)
        requires
            old(self).inv(),
        ensures
            final(self).inv(),
            final(self)@ == next_grid(old(self)@),
            final(self)@.width == old(self)@.width,
            final(self)@.height == old(self)@.height,
    {
        let ghost g = self@;
        let ghost target = next_grid(g).cells;
        let width = self.width;
        let height = self.height;
        let mut next: Vec<Cell> = Vec::new();
        proof {
            assert(next@ =~= target.subrange(0, 0));
        }
        let mut row: u32 = 0;
        while row < height
            invariant
                self.inv(),
                g == self@,
                width == self.width,
                height == self.height,
                target == next_grid(g).cells,
                row <= height,
                next@.len() == row as int * width as int,
                next@ == target.subrange(0, row as int * width as int),
            decreases height - row,
        {
            let mut col: u32 = 0;
            while col < width
                invariant
                    self.inv(),
                    g == self@,
                    width == self.width,
                    height == self.height,
                    target == next_grid(g).cells,
                    row < height,
                    col <= width,
                    next@.len() == row as int * width as int + col as int,
                    next@ == target.subrange(0, row as int * width as int + col as int),
                decreases width - col,
            {
                let neighbors = self.live_neighbor_count(row, col);
                let idx = self.get_index(row, col);
                let current = self.cells[idx];
                let cell = advance_cell(current, neighbors);
                next.push(cell);
                proof {
                    let k = row as int * width as int + col as int;
                    lemma_row_major_bound(row as int, col as int, width as int, height as int);
                    lemma_fundamental_div_mod_converse(k, width as int, row as int, col as int);
                    assert(target[k] == next_cell(g.cells[k], live_neighbors(g, row as int, col as int)));
                    assert(next@ =~= target.subrange(0, k + 1));
                }
                col = col + 1;
            }
            proof {
                assert((row as int + 1) * width as int == row as int * width as int
                    + width as int) by (nonlinear_arith);
            }
            row = row + 1;
        }
        proof {
            assert(height as int * width as int == width as int * height as int) by (nonlinear_arith);
            assert(next@ =~= target);
        }
        self.cells = next;
        proof {
            assert(self@ =~= next_grid(g));
        }
    }

    /// Renders the current grid as text: one line per row, `width` glyphs
    /// per line (a filled square for a live cell, a hollow square for a
    /// dead one), each line terminated by a newline. The text is a pure
    /// projection of the current state, so two calls with no intervening
    /// `tick` return identical text.
    pub fn render(&self) -> (text: String)
        requires
            self.inv(),
        ensures
            text@ == render_grid(self@),
    {
        let ghost g = self@;
        let ghost target = render_grid(g);
        let width = self.width;
        let height = self.height;
        let mut text = String::new();
        proof {
            assert(text@ =~= target.subrange(0, 0));
        }
        let mut row: u32 = 0;
        while row < height
            invariant
                self.inv(),
                g == self@,
                width == self.width,
                height == self.height,
                target == render_grid(g),
                row <= height,
                text@.len() == row as int * (width as int + 1),
                text@ == target.subrange(0, row as int * (width as int + 1)),
            decreases height - row,
        {
            let mut col: u32 = 0;
            while col < width
                invariant
                    self.inv(),
                    g == self@,
                    width == self.width,
                    height == self.height,
                    target == render_grid(g),
                    row < height,
                    col <= width,
                    text@.len() == row as int * (width as int + 1) + col as int,
                    text@ == target.subrange(0, row as int * (width as int + 1) + col as int),
                decreases width - col,
            {
                if self.is_alive(row, col) {
                    text.append("■");
                } else {
                    text.append("□");
                }
                proof {
                    reveal_strlit("■");
                    reveal_strlit("□");
                    let stride = width as int + 1;
                    let k = row as int * stride + col as int;
                    lemma_row_major_bound(row as int, col as int, stride, height as int);
                    lemma_fundamental_div_mod_converse(k, stride, row as int, col as int);
                    assert(target[k] == render_char(g, k));
                    assert(text@ =~= target.subrange(0, k + 1));
                }
                col = col + 1;
            }
            text.append("\n");
            proof {
                reveal_strlit("\n");
                let stride = width as int + 1;
                let k = row as int * stride + width as int;
                lemma_row_major_bound(row as int, width as int, stride, height as int);
                lemma_fundamental_div_mod_converse(k, stride, row as int, width as int);
                assert(target[k] == render_char(g, k));
                assert((row as int + 1) * stride == row as int * stride + stride)
                    by (nonlinear_arith);
                assert(text@ =~= target.subrange(0, k + 1));
            }
            row = row + 1;
        }
        proof {
            assert(text@ =~= target);
        }
        text
    }

    /// The flat row-major index of `(row, col)`.
    fn get_index(&self, row: u32, col: u32) -> (idx: usize)
        requires
            self.inv(),
            row < self@.height,
            col < self@.width,
        ensures
            idx == row as int * self@.width + col as int,
            idx < self@.cells.len(),
    {
        proof {
            lemma_row_major_bound(
                row as int,
                col as int,
                self@.width as int,
                self@.height as int,
            );
        }
        let idx64: u64 = row as u64 * self.width as u64 + col as u64;
        idx64 as usize
    }

    /// Whether the cell at `(row, col)` is alive.
    fn is_alive(&self, row: u32, col: u32) -> (alive: bool)
        requires
            self.inv(),
            row < self@.height,
            col < self@.width,
        ensures
            alive == alive_at(self@, row as int, col as int),
    {
        let idx = self.get_index(row, col);
        self.cells[idx] == Cell::Alive
    }
}

/// `(i + d) mod n`, computed without overflow.
fn wrap_add(i: u32, d: u32, n: u32) -> (r: u32)
    requires
        n > 0,
    ensures
        r == (i as int + d as int) % (n as int),
        r < n,
{
    let sum: u64 = i as u64 + d as u64;
    let r: u64 = sum % (n as u64);
    r as u32
}

/// The generation-transition rule for one cell.
fn advance_cell(current: Cell, neighbors: u8) -> (next: Cell)
    ensures
        next == next_cell(current, neighbors as nat),
{
    match current {
        Cell::Alive => {
            if neighbors < 2 {
                Cell::Dead
            } else if neighbors == 2 || neighbors == 3 {
                Cell::Alive
            } else {
                Cell::Dead
            }
        },
        Cell::Dead => {
            if neighbors == 3 {
                Cell::Alive
            } else {
                Cell::Dead
            }
        },
    }
}

} // verus!
