//! The cellular-automaton rules, stated over a flat row-major grid model.
//!
//! A grid of width `w` and height `h` is a `Seq<bool>` of length `w * h`;
//! cell `(x, y)` lives at index `y * w + x`. Neighbor coordinates wrap
//! toroidally in both axes, so edges and corners neighbor the opposite
//! edge or corner.

use vstd::prelude::*;

verus! {

/// One cell's contribution to a live-neighbor count.
pub open spec fn b2i(b: bool) -> int {
    if b {
        1
    } else {
        0
    }
}

/// The coordinate one step toward zero, wrapping to the far edge at zero.
pub open spec fn wrap_dec(i: int, n: int) -> int {
    if i == 0 {
        n - 1
    } else {
        i - 1
    }
}

/// The coordinate one step away from zero, wrapping to zero at the far edge.
pub open spec fn wrap_inc(i: int, n: int) -> int {
    if i + 1 == n {
        0
    } else {
        i + 1
    }
}

/// Row-major position of cell (x, y) in a flat grid of width w.
pub open spec fn cell_index(w: int, x: int, y: int) -> int {
    y * w + x
}

/// Whether cell (x, y) is alive in the flat grid g of width w.
pub open spec fn cell_at(g: Seq<bool>, w: int, x: int, y: int) -> bool {
    g[cell_index(w, x, y)]
}

/// Number of live cells among the eight Moore neighbors of (x, y), with
/// toroidal wraparound in both axes; the cell itself is not counted.
pub open spec fn neighbor_count(g: Seq<bool>, w: int, h: int, x: int, y: int) -> int {
    let xl = wrap_dec(x, w);
    let xr = wrap_inc(x, w);
    let yu = wrap_dec(y, h);
    let yd = wrap_inc(y, h);
    b2i(cell_at(g, w, xl, yu)) + b2i(cell_at(g, w, x, yu)) + b2i(cell_at(g, w, xr, yu)) + b2i(
        cell_at(g, w, xl, y),
    ) + b2i(cell_at(g, w, xr, y)) + b2i(cell_at(g, w, xl, yd)) + b2i(cell_at(g, w, x, yd)) + b2i(
        cell_at(g, w, xr, yd),
    )
}

/// The Game of Life rule: a live cell survives with exactly two or three
/// live neighbors; a dead cell comes alive with exactly three; every other
/// combination yields a dead cell.
pub open spec fn next_state(alive: bool, live_neighbors: int) -> bool {
    if alive {
        live_neighbors == 2 || live_neighbors == 3
    } else {
        live_neighbors == 3
    }
}

/// State of cell (x, y) after one generation of the grid g.
pub open spec fn step_cell(g: Seq<bool>, w: int, h: int, x: int, y: int) -> bool {
    next_state(cell_at(g, w, x, y), neighbor_count(g, w, h, x, y))
}

/// Every cell of the flat grid is dead.
pub open spec fn all_dead(g: Seq<bool>) -> bool {
    forall|i: int| 0 <= i < g.len() ==> #[trigger] g[i] == false
}

/// The grid after toggling cell (x, y): flipped if (x, y) is in bounds,
/// the grid unchanged otherwise.
pub open spec fn toggle_spec(g: Seq<bool>, w: int, h: int, x: int, y: int) -> Seq<bool> {
    if 0 <= x < w && 0 <= y < h {
        g.update(cell_index(w, x, y), !cell_at(g, w, x, y))
    } else {
        g
    }
}

/// The five cells of the glider seeded at engine construction.
pub open spec fn glider_seed(x: int, y: int) -> bool {
    ||| x == 2 && y == 1
    ||| x == 3 && y == 2
    ||| x == 1 && y == 3
    ||| x == 2 && y == 3
    ||| x == 3 && y == 3
}

/// The row-major index of an in-bounds cell lies within the flat grid.
pub proof fn lemma_cell_index_in_range(w: int, h: int, x: int, y: int)
    requires
        0 <= x < w,
        0 <= y < h,
    ensures
        0 <= cell_index(w, x, y) < w * h,
{
    assert(0 <= y * w + x < w * h) by (nonlinear_arith)
        requires
            0 <= x < w,
            0 <= y < h,
    ;
}

/// Distinct in-bounds coordinates occupy distinct row-major positions.
pub proof fn lemma_cell_index_injective(w: int, x1: int, y1: int, x2: int, y2: int)
    requires
        0 <= x1 < w,
        0 <= x2 < w,
        cell_index(w, x1, y1) == cell_index(w, x2, y2),
    ensures
        x1 == x2,
        y1 == y2,
{
    assert(x1 == x2 && y1 == y2) by (nonlinear_arith)
        requires
            0 <= x1 < w,
            0 <= x2 < w,
            y1 * w + x1 == y2 * w + x2,
    ;
}

/// Updating one cell leaves every other in-bounds cell as it was.
proof fn lemma_update_preserves_other_cells(
    g: Seq<bool>,
    w: int,
    h: int,
    x0: int,
    y0: int,
    v: bool,
    x: int,
    y: int,
)
    requires
        g.len() == w * h,
        0 <= x0 < w,
        0 <= y0 < h,
        0 <= x < w,
        0 <= y < h,
        x != x0 || y != y0,
    ensures
        cell_at(g.update(cell_index(w, x0, y0), v), w, x, y) == cell_at(g, w, x, y),
{
    lemma_cell_index_in_range(w, h, x0, y0);
    lemma_cell_index_in_range(w, h, x, y);
    if cell_index(w, x, y) == cell_index(w, x0, y0) {
        lemma_cell_index_injective(w, x, y, x0, y0);
    }
}

/// Underpopulation and overpopulation: a live cell with at most one or at
/// least four live neighbors is dead in the next generation.
pub proof fn lemma_sparse_or_crowded_live_cell_dies(g: Seq<bool>, w: int, h: int, x: int, y: int)
    requires
        cell_at(g, w, x, y),
        neighbor_count(g, w, h, x, y) <= 1 || neighbor_count(g, w, h, x, y) >= 4,
    ensures
        !step_cell(g, w, h, x, y),
{
}

/// Reproduction: a dead cell comes alive in the next generation exactly
/// when it has three live neighbors; with any other count it stays dead.
pub proof fn lemma_dead_cell_births_on_three(g: Seq<bool>, w: int, h: int, x: int, y: int)
    requires
        !cell_at(g, w, x, y),
    ensures
        step_cell(g, w, h, x, y) == (neighbor_count(g, w, h, x, y) == 3),
{
}

/// Toroidal wrap at the left edge: raising the cell (0, y) from dead to
/// alive raises the neighbor count of (w - 1, y), the cell across the seam
/// in the same row, by exactly one.
pub proof fn lemma_wrap_left_edge_contributes(g: Seq<bool>, w: int, h: int, y: int)
    requires
        g.len() == w * h,
        3 <= w,
        3 <= h,
        0 <= y < h,
        !cell_at(g, w, 0, y),
    ensures
        neighbor_count(toggle_spec(g, w, h, 0, y), w, h, w - 1, y) == neighbor_count(
            g,
            w,
            h,
            w - 1,
            y,
        ) + 1,
{
    lemma_flip_changes_count_by_one(g, w, h, 0, y, w - 1, y);
}

/// Toroidal wrap at the right edge: raising the cell (w - 1, y) from dead
/// to alive raises the neighbor count of (0, y) by exactly one.
pub proof fn lemma_wrap_right_edge_contributes(g: Seq<bool>, w: int, h: int, y: int)
    requires
        g.len() == w * h,
        3 <= w,
        3 <= h,
        0 <= y < h,
        !cell_at(g, w, w - 1, y),
    ensures
        neighbor_count(toggle_spec(g, w, h, w - 1, y), w, h, 0, y) == neighbor_count(
            g,
            w,
            h,
            0,
            y,
        ) + 1,
{
    lemma_flip_changes_count_by_one(g, w, h, w - 1, y, 0, y);
}

/// Flipping a dead same-row horizontal neighbor of (x, y) to alive raises
/// the neighbor count of (x, y) by exactly one, wrap included.
proof fn lemma_flip_changes_count_by_one(g: Seq<bool>, w: int, h: int, x0: int, y0: int, x: int, y: int)
    requires
        g.len() == w * h,
        3 <= w,
        3 <= h,
        0 <= x0 < w,
        0 <= y0 < h,
        0 <= x < w,
        0 <= y < h,
        y0 == y,
        x0 == wrap_inc(x, w) || x0 == wrap_dec(x, w),
        x0 != x,
        !cell_at(g, w, x0, y0),
    ensures
        neighbor_count(toggle_spec(g, w, h, x0, y0), w, h, x, y) == neighbor_count(g, w, h, x, y)
            + 1,
{
    let g2 = toggle_spec(g, w, h, x0, y0);
    let i0 = cell_index(w, x0, y0);
    lemma_cell_index_in_range(w, h, x0, y0);
    assert(g2 == g.update(i0, true));
    let xl = wrap_dec(x, w);
    let xr = wrap_inc(x, w);
    let yu = wrap_dec(y, h);
    let yd = wrap_inc(y, h);
    // The eight neighbor coordinates are in bounds; with w, h >= 3 the
    // wrapped rows above and below differ from y, so (x0, y) is read by
    // exactly one of the eight terms.
    assert(0 <= xl < w && 0 <= xr < w && 0 <= yu < h && 0 <= yd < h);
    assert(yu != y && yd != y);
    lemma_update_preserves_other_cells(g, w, h, x0, y0, true, xl, yu);
    lemma_update_preserves_other_cells(g, w, h, x0, y0, true, x, yu);
    lemma_update_preserves_other_cells(g, w, h, x0, y0, true, xr, yu);
    lemma_update_preserves_other_cells(g, w, h, x0, y0, true, xl, yd);
    lemma_update_preserves_other_cells(g, w, h, x0, y0, true, x, yd);
    lemma_update_preserves_other_cells(g, w, h, x0, y0, true, xr, yd);
    if x0 == xr {
        lemma_update_preserves_other_cells(g, w, h, x0, y0, true, xl, y);
        assert(cell_at(g2, w, xr, y));
    } else {
        lemma_update_preserves_other_cells(g, w, h, x0, y0, true, xr, y);
        assert(cell_at(g2, w, xl, y));
    }
}

/// An all-dead grid is a fixed point of generation advance: every cell of
/// it is dead again in the next generation.
pub proof fn lemma_all_dead_fixed_point(g: Seq<bool>, w: int, h: int, x: int, y: int)
    requires
        g.len() == w * h,
        1 <= w,
        1 <= h,
        all_dead(g),
        0 <= x < w,
        0 <= y < h,
    ensures
        !step_cell(g, w, h, x, y),
{
    let xl = wrap_dec(x, w);
    let xr = wrap_inc(x, w);
    let yu = wrap_dec(y, h);
    let yd = wrap_inc(y, h);
    assert(0 <= xl < w && 0 <= xr < w && 0 <= yu < h && 0 <= yd < h);
    lemma_cell_index_in_range(w, h, x, y);
    lemma_cell_index_in_range(w, h, xl, yu);
    lemma_cell_index_in_range(w, h, x, yu);
    lemma_cell_index_in_range(w, h, xr, yu);
    lemma_cell_index_in_range(w, h, xl, y);
    lemma_cell_index_in_range(w, h, xr, y);
    lemma_cell_index_in_range(w, h, xl, yd);
    lemma_cell_index_in_range(w, h, x, yd);
    lemma_cell_index_in_range(w, h, xr, yd);
    assert(neighbor_count(g, w, h, x, y) == 0);
}

/// Toggling a cell is its own inverse: toggling the same coordinate twice
/// restores the grid, and an out-of-bounds toggle leaves it unchanged.
pub proof fn lemma_toggle_involution(g: Seq<bool>, w: int, h: int, x: int, y: int)
    requires
        g.len() == w * h,
    ensures
        toggle_spec(toggle_spec(g, w, h, x, y), w, h, x, y) == g,
        !(0 <= x < w && 0 <= y < h) ==> toggle_spec(g, w, h, x, y) == g,
{
    if 0 <= x < w && 0 <= y < h {
        lemma_cell_index_in_range(w, h, x, y);
        let i = cell_index(w, x, y);
        assert(toggle_spec(toggle_spec(g, w, h, x, y), w, h, x, y) =~= g);
    }
}

} // verus!
