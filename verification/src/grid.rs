//! The mathematical model of the engine: a grid as a flat row-major
//! sequence of cells with fixed dimensions, toroidal neighbor counting,
//! the generation-transition rule, and the rendered text of a grid.

use vstd::prelude::*;

use crate::cell::Cell;
use crate::cell::live_weight;

verus! {

/// The abstract state of a universe: fixed dimensions and the cells in
/// row-major order (the cell at `(row, col)` is `cells[row * width + col]`).
#[verifier::ext_equal]
pub ghost struct GridView {
    pub width: nat,
    pub height: nat,
    pub cells: Seq<Cell>,
}

/// A well-formed grid has positive dimensions and exactly `width * height`
/// cells.
pub open spec fn grid_wf(g: GridView) -> bool {
    &&& g.width > 0
    &&& g.height > 0
    &&& g.cells.len() == g.width * g.height
}

/// Whether the cell at `(row, col)` is alive.
pub open spec fn alive_at(g: GridView, row: int, col: int) -> bool {
    g.cells[row * g.width + col] == Cell::Alive
}

/// The weight (0 or 1) of the cell at `(row, col)`.
pub open spec fn weight_at(g: GridView, row: int, col: int) -> nat {
    live_weight(g.cells[row * g.width + col])
}

/// How many of the 8 positions surrounding `(row, col)` hold a live cell.
/// Offsets of -1 and +1 are taken modulo the dimension, so the grid is a
/// torus: the last row's southern neighbor is the first row, and likewise
/// for columns. On a dimension smaller than 3 the wrapped positions
/// coincide, and a cell standing at several of the 8 offsets is counted
/// once per offset.
pub open spec fn live_neighbors(g: GridView, row: int, col: int) -> nat {
    let h = g.height as int;
    let w = g.width as int;
    let rm = (row + h - 1) % h;
    let rp = (row + 1) % h;
    let cm = (col + w - 1) % w;
    let cp = (col + 1) % w;
    (weight_at(g, rm, cm) + weight_at(g, rm, col) + weight_at(g, rm, cp) + weight_at(g, row, cm)
        + weight_at(g, row, cp) + weight_at(g, rp, cm) + weight_at(g, rp, col) + weight_at(
        g,
        rp,
        cp,
    )) as nat
}

/// The generation-transition rule for one cell, from its current state and
/// its live-neighbor count: a live cell dies of underpopulation below 2
/// and of overpopulation above 3, and survives on 2 or 3; a dead cell is
/// born on exactly 3 and otherwise stays dead.
pub open spec fn next_cell(current: Cell, neighbors: nat) -> Cell {
    if current == Cell::Alive {
        if neighbors < 2 {
            Cell::Dead
        } else if neighbors == 2 || neighbors == 3 {
            Cell::Alive
        } else {
            Cell::Dead
        }
    } else {
        if neighbors == 3 {
            Cell::Alive
        } else {
            Cell::Dead
        }
    }
}

/// One generation step of the whole grid: every cell is replaced according
/// to `next_cell`, evaluated against the pre-step grid, so the update is
/// simultaneous. Dimensions are unchanged.
pub open spec fn next_grid(g: GridView) -> GridView {
    GridView {
        width: g.width,
        height: g.height,
        cells: Seq::new(
            g.width * g.height,
            |k: int| next_cell(g.cells[k], live_neighbors(g, k / g.width as int, k % g.width as int)),
        ),
    }
}

/// `n` generation steps of the whole grid.
pub open spec fn step_grid(g: GridView, n: nat) -> GridView
    decreases n,
{
    if n == 0 {
        g
    } else {
        next_grid(step_grid(g, (n - 1) as nat))
    }
}

/// The glyph that renders one cell: a filled square for a live cell, a
/// hollow square for a dead one.
pub open spec fn glyph(c: Cell) -> char {
    if c == Cell::Alive {
        '■'
    } else {
        '□'
    }
}

/// The character at flat position `k` of the rendered text. Each row
/// occupies `width + 1` characters: the `width` glyphs of its cells, then
/// a newline.
pub open spec fn render_char(g: GridView, k: int) -> char {
    let stride = g.width as int + 1;
    if k % stride == g.width as int {
        '\n'
    } else {
        glyph(g.cells[(k / stride) * g.width as int + k % stride])
    }
}

/// The rendered text of a grid: `height` lines of `width` glyphs, each
/// line terminated by a newline.
pub open spec fn render_grid(g: GridView) -> Seq<char> {
    Seq::new(g.height * (g.width + 1), |k: int| render_char(g, k))
}

/// The width of the default universe.
pub const DEFAULT_WIDTH: u32 = 64;

/// The height of the default universe.
pub const DEFAULT_HEIGHT: u32 = 64;

/// The fixed default seed, by flat row-major position: every position
/// whose index is divisible by 2 or by 7 starts alive, every other one
/// dead.
pub open spec fn default_cell(k: int) -> Cell {
    if k % 2 == 0 || k % 7 == 0 {
        Cell::Alive
    } else {
        Cell::Dead
    }
}

/// The default universe's grid: 64 by 64, seeded by `default_cell`.
pub open spec fn default_grid() -> GridView {
    GridView {
        width: DEFAULT_WIDTH as nat,
        height: DEFAULT_HEIGHT as nat,
        cells: Seq::new((DEFAULT_WIDTH * DEFAULT_HEIGHT) as nat, |k: int| default_cell(k)),
    }
}

/// A flat row-major index stays within a `width * height` grid.
pub proof fn lemma_row_major_bound(row: int, col: int, width: int, height: int)
    by (nonlinear_arith)
    requires
        0 <= row < height,
        0 <= col < width,
    ensures
        0 <= row * width + col < height * width,
        row * width + col < width * height,
{
}

/// After one step, the cell at `(row, col)` is exactly the transition
/// rule applied to that cell's pre-step state and pre-step live-neighbor
/// count: a live cell dies below 2 or above 3 live neighbors and survives
/// on 2 or 3, a dead cell is born on exactly 3.
pub proof fn lemma_next_grid_at(g: GridView, row: int, col: int)
    requires
        grid_wf(g),
        0 <= row < g.height,
        0 <= col < g.width,
    ensures
        next_grid(g).cells[row * g.width + col] == next_cell(
            g.cells[row * g.width + col],
            live_neighbors(g, row, col),
        ),
{
    let w = g.width as int;
    let k = row * w + col;
    lemma_row_major_bound(row, col, w, g.height as int);
    vstd::arithmetic::div_mod::lemma_fundamental_div_mod_converse(k, w, row, col);
}

/// A step keeps the grid well formed and never changes its dimensions:
/// this holds across any number of steps.
pub proof fn lemma_step_preserves_shape(g: GridView, n: nat)
    requires
        grid_wf(g),
    ensures
        grid_wf(step_grid(g, n)),
        step_grid(g, n).width == g.width,
        step_grid(g, n).height == g.height,
    decreases n,
{
    if n > 0 {
        lemma_step_preserves_shape(g, (n - 1) as nat);
    }
}

/// The engine is deterministic: grids with identical dimensions and
/// identical cells render identically after the same number of steps.
pub proof fn lemma_step_deterministic(a: GridView, b: GridView, n: nat)
    requires
        a == b,
    ensures
        step_grid(a, n) == step_grid(b, n),
        render_grid(step_grid(a, n)) == render_grid(step_grid(b, n)),
{
}

/// The shape of the rendered text of a well-formed grid: its length is
/// `height` rows of `width + 1` characters, a newline stands exactly at
/// the end of each row, and every other position holds one of the two
/// cell glyphs.
pub proof fn lemma_render_shape(g: GridView)
    requires
        grid_wf(g),
    ensures
        render_grid(g).len() == g.height * (g.width + 1),
        forall|k: int|
            0 <= k < render_grid(g).len() ==> (#[trigger] render_grid(g)[k] == '\n' <==> k % (
            g.width as int + 1) == g.width as int),
        forall|k: int|
            0 <= k < render_grid(g).len() ==> (#[trigger] render_grid(g)[k] == '\n'
                || render_grid(g)[k] == glyph(Cell::Alive) || render_grid(g)[k] == glyph(
                Cell::Dead,
            )),
{
    assert forall|k: int| 0 <= k < render_grid(g).len() implies (#[trigger] render_grid(g)[k]
        == '\n' <==> k % (g.width as int + 1) == g.width as int) && (render_grid(g)[k] == '\n'
        || render_grid(g)[k] == glyph(Cell::Alive) || render_grid(g)[k] == glyph(Cell::Dead)) by {
        assert(render_grid(g)[k] == render_char(g, k));
    }
}

} // verus!
