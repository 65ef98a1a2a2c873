//! The simulation engine: grid state, generation advance, and the
//! interactive controls that mutate the simulation parameters.
//!
//! The engine owns a current grid and a same-shaped buffer; a generation
//! advance writes the next state into the buffer and then swaps the two,
//! so generation turnover is O(1). Timing parameters are held in whole
//! milliseconds.

use vstd::pervasive::VecAdditionalExecFns;
use vstd::prelude::*;
use crate::life::all_dead;
use crate::life::cell_at;
use crate::life::cell_index;
use crate::life::glider_seed;
use crate::life::lemma_cell_index_in_range;
use crate::life::lemma_cell_index_injective;
use crate::life::neighbor_count;
use crate::life::step_cell;
use crate::life::toggle_spec;
use crate::rng::random_u32;

verus! {

/// Default grid width, in cells.
pub const GRID_WIDTH: usize = 120;

/// Default grid height, in cells.
pub const GRID_HEIGHT: usize = 90;

/// Default of both `update_delay` and `delay_step`, in milliseconds.
pub const DEFAULT_DELAY_MS: u64 = 100;

/// Hard lower bound on `update_delay`, in milliseconds: a decrease that
/// would land at or below it is rejected.
pub const MIN_UPDATE_DELAY_MS: u64 = 100;

/// Lower clamp bound on `delay_step`, in milliseconds.
pub const MIN_DELAY_STEP_MS: u64 = 10;

/// Upper clamp bound on `delay_step`, in milliseconds.
pub const MAX_DELAY_STEP_MS: u64 = 100;

/// The fixed unit by which `delay_step` is adjusted, in milliseconds.
pub const DELAY_STEP_UNIT_MS: u64 = 10;

/// `update_delay` after an increase: raised by the step, saturating at the
/// numeric maximum.
pub open spec fn increased_delay(delay: u64, step: u64) -> u64 {
    if delay + step <= u64::MAX {
        (delay + step) as u64
    } else {
        u64::MAX
    }
}

/// `update_delay` after a decrease: lowered by the step, unless that would
/// land at or below the minimum floor, in which case nothing changes.
pub open spec fn decreased_delay(delay: u64, step: u64) -> u64 {
    if delay - step > MIN_UPDATE_DELAY_MS {
        (delay - step) as u64
    } else {
        delay
    }
}

/// `update_delay` after one adjustment in the given direction.
pub open spec fn adjusted_delay(delay: u64, step: u64, increase: bool) -> u64 {
    if increase {
        increased_delay(delay, step)
    } else {
        decreased_delay(delay, step)
    }
}

/// `delay_step` after one adjustment: moved by the fixed unit, with a
/// no-op wherever the move would leave the clamp range.
pub open spec fn adjusted_step(step: u64, increase: bool) -> u64 {
    if increase {
        if step + DELAY_STEP_UNIT_MS <= MAX_DELAY_STEP_MS {
            (step + DELAY_STEP_UNIT_MS) as u64
        } else {
            step
        }
    } else {
        if step - DELAY_STEP_UNIT_MS >= MIN_DELAY_STEP_MS {
            (step - DELAY_STEP_UNIT_MS) as u64
        } else {
            step
        }
    }
}

/// The simulation engine and all of its state.
pub struct MainState {
    width: usize,
    height: usize,
    grid: Vec<bool>,
    next_grid: Vec<bool>,
    paused: bool,
    update_delay_ms: u64,
    delay_step_ms: u64,
}

impl MainState {
    /// Grid width, in cells.
    pub closed spec fn spec_width(self) -> int {
        self.width as int
    }

    /// Grid height, in cells.
    pub closed spec fn spec_height(self) -> int {
        self.height as int
    }

    /// The current grid contents, flat in row-major order.
    pub closed spec fn grid_view(self) -> Seq<bool> {
        self.grid@
    }

    /// Length of the generation buffer, which mirrors the grid's shape.
    pub closed spec fn buffer_len(self) -> int {
        self.next_grid@.len() as int
    }

    /// Whether the simulation is paused.
    pub closed spec fn spec_paused(self) -> bool {
        self.paused
    }

    /// The interval between automatic generation advances, in milliseconds.
    pub closed spec fn spec_update_delay(self) -> u64 {
        self.update_delay_ms
    }

    /// The unit applied when the user adjusts the update delay, in
    /// milliseconds.
    pub closed spec fn spec_delay_step(self) -> u64 {
        self.delay_step_ms
    }

    /// Whether cell (x, y) of the current grid is alive.
    pub open spec fn cell(self, x: int, y: int) -> bool {
        cell_at(self.grid_view(), self.spec_width(), x, y)
    }

    /// Well-formedness: the grid and the buffer share the fixed dimensions,
    /// the flat length fits the machine, and the timing parameters sit
    /// within their documented bounds.
    pub open spec fn wf(self) -> bool {
        &&& 4 <= self.spec_width()
        &&& 4 <= self.spec_height()
        &&& self.spec_width() * self.spec_height() <= usize::MAX as int
        &&& self.grid_view().len() == self.spec_width() * self.spec_height()
        &&& self.buffer_len() == self.spec_width() * self.spec_height()
        &&& MIN_UPDATE_DELAY_MS <= self.spec_update_delay()
        &&& MIN_DELAY_STEP_MS <= self.spec_delay_step() <= MAX_DELAY_STEP_MS
    }

    /// The two engines have the same grid dimensions.
    pub open spec fn same_dims(self, other: MainState) -> bool {
        self.spec_width() == other.spec_width() && self.spec_height() == other.spec_height()
    }

    /// The two engines have the same timing parameters.
    pub open spec fn same_timing(self, other: MainState) -> bool {
        self.spec_update_delay() == other.spec_update_delay() && self.spec_delay_step()
            == other.spec_delay_step()
    }

    /// Create a new engine: grid and buffer of the given dimensions, all
    /// cells dead but for the five-cell glider seed, paused so the user can
    /// edit the pattern, and both timing parameters at their default.
    pub fn new(width: usize, height: usize) -> (s: MainState)
        requires
            4 <= width,
            4 <= height,
            width * height <= usize::MAX,
        ensures
            s.wf(),
            s.spec_width() == width,
            s.spec_height() == height,
            s.spec_paused(),
            s.spec_update_delay() == DEFAULT_DELAY_MS,
            s.spec_delay_step() == DEFAULT_DELAY_MS,
            forall|x: int, y: int|
                0 <= x < width && 0 <= y < height ==> #[trigger] s.cell(x, y) == glider_seed(x, y),
    {
        let grid = dead_cells(width, height);
        let next_grid = dead_cells(width, height);
        let ghost base = grid@;
        let mut s = MainState {
            width,
            height,
            grid,
            next_grid,
            paused: true,
            update_delay_ms: DEFAULT_DELAY_MS,
            delay_step_ms: DEFAULT_DELAY_MS,
        };
        s.set_cell(2, 1, true);
        s.set_cell(3, 2, true);
        s.set_cell(1, 3, true);
        s.set_cell(2, 3, true);
        s.set_cell(3, 3, true);
        proof {
            let w = width as int;
            let h = height as int;
            assert forall|x: int, y: int| 0 <= x < width && 0 <= y < height implies #[trigger] s
                .cell(x, y) == glider_seed(x, y) by {
                lemma_cell_index_in_range(w, h, x, y);
                lemma_cell_index_in_range(w, h, 2, 1);
                lemma_cell_index_in_range(w, h, 3, 2);
                lemma_cell_index_in_range(w, h, 1, 3);
                lemma_cell_index_in_range(w, h, 2, 3);
                lemma_cell_index_in_range(w, h, 3, 3);
                // The five seed indices are pairwise distinct: with w >= 4
                // they sit in strictly increasing row-major order.
                assert(cell_index(w, 2, 1) == w + 2);
                assert(cell_index(w, 3, 2) == 2 * w + 3);
                assert(cell_index(w, 1, 3) == 3 * w + 1);
                assert(cell_index(w, 2, 3) == 3 * w + 2);
                assert(cell_index(w, 3, 3) == 3 * w + 3);
                assert(base[cell_index(w, x, y)] == false);
                if cell_index(w, x, y) == cell_index(w, 2, 1) {
                    lemma_cell_index_injective(w, x, y, 2, 1);
                }
                if cell_index(w, x, y) == cell_index(w, 3, 2) {
                    lemma_cell_index_injective(w, x, y, 3, 2);
                }
                if cell_index(w, x, y) == cell_index(w, 1, 3) {
                    lemma_cell_index_injective(w, x, y, 1, 3);
                }
                if cell_index(w, x, y) == cell_index(w, 2, 3) {
                    lemma_cell_index_injective(w, x, y, 2, 3);
                }
                if cell_index(w, x, y) == cell_index(w, 3, 3) {
                    lemma_cell_index_injective(w, x, y, 3, 3);
                }
            }
        }
        s
    }

    /// Write one in-bounds cell of the current grid.
    fn set_cell(&mut self, x: usize, y: usize, v: bool)
        requires
            old(self).wf(),
            x < old(self).spec_width(),
            y < old(self).spec_height(),
        ensures
            final (self).wf(),
            final (self).grid_view() == old(self).grid_view().update(
                cell_index(old(self).spec_width(), x as int, y as int),
                v,
            ),
            final (self).same_dims(*old(self)),
            final (self).same_timing(*old(self)),
            final (self).spec_paused() == old(self).spec_paused(),
    {
        proof {
            lemma_cell_index_in_range(
                self.spec_width(),
                self.spec_height(),
                x as int,
                y as int,
            );
        }
        let i = y * self.width + x;
        self.grid.set(i, v);
    }

    /// Read one in-bounds cell of the current grid.
    fn cell_live(&self, x: usize, y: usize) -> (b: bool)
        requires
            self.wf(),
            x < self.spec_width(),
            y < self.spec_height(),
        ensures
            b == self.cell(x as int, y as int),
    {
        proof {
            lemma_cell_index_in_range(
                self.spec_width(),
                self.spec_height(),
                x as int,
                y as int,
            );
        }
        self.grid[y * self.width + x]
    }

    /// Count the live cells among the eight Moore neighbors of (x, y),
    /// with explicit toroidal wraparound in both axes.
    fn live_neighbor_count(&self, x: usize, y: usize) -> (count: usize)
        requires
            self.wf(),
            x < self.spec_width(),
            y < self.spec_height(),
        ensures
            count == neighbor_count(
                self.grid_view(),
                self.spec_width(),
                self.spec_height(),
                x as int,
                y as int,
            ),
    {
        let xl = if x == 0 {
            self.width - 1
        } else {
            x - 1
        };
        let xr = if x + 1 == self.width {
            0
        } else {
            x + 1
        };
        let yu = if y == 0 {
            self.height - 1
        } else {
            y - 1
        };
        let yd = if y + 1 == self.height {
            0
        } else {
            y + 1
        };
        let mut count: usize = 0;
        if self.cell_live(xl, yu) {
            count = count + 1;
        }
        if self.cell_live(x, yu) {
            count = count + 1;
        }
        if self.cell_live(xr, yu) {
            count = count + 1;
        }
        if self.cell_live(xl, y) {
            count = count + 1;
        }
        if self.cell_live(xr, y) {
            count = count + 1;
        }
        if self.cell_live(xl, yd) {
            count = count + 1;
        }
        if self.cell_live(x, yd) {
            count = count + 1;
        }
        if self.cell_live(xr, yd) {
            count = count + 1;
        }
        count
    }

    /// Advance the simulation one generation: the next state of every cell
    /// is computed from the current grid into the buffer, reading only the
    /// pre-swap grid throughout the pass, and the two buffers are then
    /// swapped, so generation turnover is O(1).
    pub fn advance_generation(&mut self)
        requires
            old(self).wf(),
        ensures
            final (self).wf(),
            final (self).same_dims(*old(self)),
            final (self).same_timing(*old(self)),
            final (self).spec_paused() == old(self).spec_paused(),
            forall|x: int, y: int|
                0 <= x < old(self).spec_width() && 0 <= y < old(self).spec_height()
                    ==> #[trigger] final (self).cell(x, y) == step_cell(
                    old(self).grid_view(),
                    old(self).spec_width(),
                    old(self).spec_height(),
                    x,
                    y,
                ),
    {
        let ghost prev = *self;
        let ghost g0 = self.grid@;
        let w = self.width;
        let h = self.height;
        let mut y: usize = 0;
        while y < h
            invariant
                prev.wf(),
                y <= h,
                w == prev.spec_width(),
                h == prev.spec_height(),
                g0 == prev.grid_view(),
                self.width == prev.width,
                self.height == prev.height,
                self.grid@ == g0,
                self.next_grid@.len() == w * h,
                self.paused == prev.paused,
                self.update_delay_ms == prev.update_delay_ms,
                self.delay_step_ms == prev.delay_step_ms,
                computed_upto(self.next_grid@, g0, w as int, h as int, 0, y as int),
            decreases h - y,
        {
            let mut x: usize = 0;
            while x < w
                invariant
                    prev.wf(),
                    y < h,
                    x <= w,
                    w == prev.spec_width(),
                    h == prev.spec_height(),
                    g0 == prev.grid_view(),
                    self.width == prev.width,
                    self.height == prev.height,
                    self.grid@ == g0,
                    self.next_grid@.len() == w * h,
                    self.paused == prev.paused,
                    self.update_delay_ms == prev.update_delay_ms,
                    self.delay_step_ms == prev.delay_step_ms,
                    computed_upto(self.next_grid@, g0, w as int, h as int, x as int, y as int),
                decreases w - x,
            {
                let n = self.live_neighbor_count(x, y);
                let alive = self.cell_live(x, y);
                let v = if alive {
                    n == 2 || n == 3
                } else {
                    n == 3
                };
                proof {
                    lemma_cell_index_in_range(w as int, h as int, x as int, y as int);
                }
                let i = y * w + x;
                self.next_grid.set(i, v);
                proof {
                    assert forall|a: int, b: int|
                        (0 <= a < w && 0 <= b < y as int) || (0 <= a < x as int + 1 && b
                            == y as int) implies self.next_grid@[cell_index(w as int, a, b)]
                        == #[trigger] step_cell(g0, w as int, h as int, a, b) by {
                        lemma_cell_index_in_range(w as int, h as int, a, b);
                        if !(a == x as int && b == y as int) && cell_index(w as int, a, b)
                            == cell_index(w as int, x as int, y as int) {
                            lemma_cell_index_injective(w as int, a, b, x as int, y as int);
                        }
                    }
                }
                x = x + 1;
            }
            y = y + 1;
        }
        core::mem::swap(&mut self.grid, &mut self.next_grid);
        proof {
            assert forall|x: int, y: int|
                0 <= x < prev.spec_width() && 0 <= y < prev.spec_height() implies #[trigger] self
                .cell(x, y) == step_cell(g0, w as int, h as int, x, y) by {
                lemma_cell_index_in_range(w as int, h as int, x, y);
            }
        }
    }

    /// Flip the paused flag.
    pub fn toggle_pause(&mut self)
        ensures
            final (self).spec_paused() == !old(self).spec_paused(),
            final (self).grid_view() == old(self).grid_view(),
            final (self).same_dims(*old(self)),
            final (self).same_timing(*old(self)),
            old(self).wf() ==> final (self).wf(),
    {
        self.paused = !self.paused;
    }

    /// Flip the alive/dead state of cell (x, y) if it is in bounds; an
    /// out-of-bounds coordinate is silently ignored.
    pub fn toggle_cell(&mut self, x: usize, y: usize)
        requires
            old(self).wf(),
        ensures
            final (self).wf(),
            final (self).grid_view() == toggle_spec(
                old(self).grid_view(),
                old(self).spec_width(),
                old(self).spec_height(),
                x as int,
                y as int,
            ),
            final (self).same_dims(*old(self)),
            final (self).same_timing(*old(self)),
            final (self).spec_paused() == old(self).spec_paused(),
    {
        if x < self.width && y < self.height {
            proof {
                lemma_cell_index_in_range(
                    self.spec_width(),
                    self.spec_height(),
                    x as int,
                    y as int,
                );
            }
            let i = y * self.width + x;
            let cur = self.grid[i];
            self.grid.set(i, !cur);
        }
    }

    /// Set every cell of the current grid to dead; the paused flag and the
    /// timing parameters are untouched.
    pub fn clear(&mut self)
        requires
            old(self).wf(),
        ensures
            final (self).wf(),
            all_dead(final (self).grid_view()),
            final (self).grid_view().len() == old(self).grid_view().len(),
            final (self).same_dims(*old(self)),
            final (self).same_timing(*old(self)),
            final (self).spec_paused() == old(self).spec_paused(),
    {
        let ghost prev = *self;
        let n = self.grid.len();
        let mut i: usize = 0;
        while i < n
            invariant
                i <= n,
                self.grid@.len() == n,
                self.width == prev.width,
                self.height == prev.height,
                self.next_grid@.len() == prev.next_grid@.len(),
                self.paused == prev.paused,
                self.update_delay_ms == prev.update_delay_ms,
                self.delay_step_ms == prev.delay_step_ms,
                forall|j: int| 0 <= j < i ==> #[trigger] self.grid@[j] == false,
            decreases n - i,
        {
            self.grid.set(i, false);
            i = i + 1;
        }
    }

    /// Set every cell's alive/dead state by an independent uniform draw:
    /// alive with probability about one half when dense, about one tenth
    /// when sparse. The draws are random, so the contract pins the shape of
    /// the state, not the cell values; the per-cell decision itself is the
    /// verified `draw_to_cell`.
    pub fn randomize(&mut self, dense: bool)
        requires
            old(self).wf(),
        ensures
            final (self).wf(),
            final (self).grid_view().len() == old(self).grid_view().len(),
            final (self).same_dims(*old(self)),
            final (self).same_timing(*old(self)),
            final (self).spec_paused() == old(self).spec_paused(),
    {
        let ghost prev = *self;
        let n = self.grid.len();
        let mut i: usize = 0;
        while i < n
            invariant
                i <= n,
                self.grid@.len() == n,
                self.width == prev.width,
                self.height == prev.height,
                self.next_grid@.len() == prev.next_grid@.len(),
                self.paused == prev.paused,
                self.update_delay_ms == prev.update_delay_ms,
                self.delay_step_ms == prev.delay_step_ms,
            decreases n - i,
        {
            let draw = random_u32();
            let alive = draw_to_cell(draw, dense);
            self.grid.set(i, alive);
            i = i + 1;
        }
    }

    /// Whether cell (x, y) is alive; false for an out-of-bounds coordinate.
    pub fn is_alive(&self, x: usize, y: usize) -> (alive: bool)
        requires
            self.wf(),
        ensures
            alive == (x < self.spec_width() && y < self.spec_height() && self.cell(
                x as int,
                y as int,
            )),
    {
        if x < self.width && y < self.height {
            proof {
                lemma_cell_index_in_range(
                    self.spec_width(),
                    self.spec_height(),
                    x as int,
                    y as int,
                );
            }
            self.grid[y * self.width + x]
        } else {
            false
        }
    }

    /// Grid width, in cells.
    pub fn width(&self) -> (w: usize)
        ensures
            w == self.spec_width(),
    {
        self.width
    }

    /// Grid height, in cells.
    pub fn height(&self) -> (h: usize)
        ensures
            h == self.spec_height(),
    {
        self.height
    }

    /// Whether the simulation is paused.
    pub fn paused(&self) -> (p: bool)
        ensures
            p == self.spec_paused(),
    {
        self.paused
    }

    /// The interval between automatic generation advances, in milliseconds.
    pub fn update_delay_ms(&self) -> (d: u64)
        ensures
            d == self.spec_update_delay(),
    {
        self.update_delay_ms
    }

    /// The adjustment unit for the update delay, in milliseconds.
    pub fn delay_step_ms(&self) -> (s: u64)
        ensures
            s == self.spec_delay_step(),
    {
        self.delay_step_ms
    }

    /// Move `delay_step` by the fixed unit, clamped to its range: an
    /// adjustment that would leave the range is a no-op.
    pub fn adjust_delay_step(&mut self, increase: bool)
        requires
            old(self).wf(),
        ensures
            final (self).wf(),
            final (self).spec_delay_step() == adjusted_step(old(self).spec_delay_step(), increase),
            final (self).spec_update_delay() == old(self).spec_update_delay(),
            final (self).grid_view() == old(self).grid_view(),
            final (self).same_dims(*old(self)),
            final (self).spec_paused() == old(self).spec_paused(),
    {
        if increase {
            if self.delay_step_ms + DELAY_STEP_UNIT_MS <= MAX_DELAY_STEP_MS {
                self.delay_step_ms = self.delay_step_ms + DELAY_STEP_UNIT_MS;
            }
        } else {
            if self.delay_step_ms - DELAY_STEP_UNIT_MS >= MIN_DELAY_STEP_MS {
                self.delay_step_ms = self.delay_step_ms - DELAY_STEP_UNIT_MS;
            }
        }
    }

    /// Move `update_delay` by the current `delay_step`: an increase
    /// saturates at the numeric maximum, a decrease that would land at or
    /// below the minimum floor is rejected as a no-op.
    pub fn adjust_update_delay(&mut self, increase: bool)
        requires
            old(self).wf(),
        ensures
            final (self).wf(),
            final (self).spec_update_delay() == adjusted_delay(
                old(self).spec_update_delay(),
                old(self).spec_delay_step(),
                increase,
            ),
            final (self).spec_delay_step() == old(self).spec_delay_step(),
            final (self).grid_view() == old(self).grid_view(),
            final (self).same_dims(*old(self)),
            final (self).spec_paused() == old(self).spec_paused(),
    {
        if increase {
            if self.update_delay_ms <= u64::MAX - self.delay_step_ms {
                self.update_delay_ms = self.update_delay_ms + self.delay_step_ms;
            } else {
                self.update_delay_ms = u64::MAX;
            }
        } else {
            if self.update_delay_ms - self.delay_step_ms > MIN_UPDATE_DELAY_MS {
                self.update_delay_ms = self.update_delay_ms - self.delay_step_ms;
            }
        }
    }

    /// Restore both `update_delay` and `delay_step` to the default,
    /// whatever adjustments came before.
    pub fn reset_delay(&mut self)
        ensures
            final (self).spec_update_delay() == DEFAULT_DELAY_MS,
            final (self).spec_delay_step() == DEFAULT_DELAY_MS,
            final (self).grid_view() == old(self).grid_view(),
            final (self).same_dims(*old(self)),
            final (self).spec_paused() == old(self).spec_paused(),
            old(self).wf() ==> final (self).wf(),
    {
        self.update_delay_ms = DEFAULT_DELAY_MS;
        self.delay_step_ms = DEFAULT_DELAY_MS;
    }
}

/// The cutoff on a uniform 32-bit draw below which a randomized cell is
/// alive: half of the value range when dense, a tenth of it (rounded down)
/// when sparse.
pub open spec fn alive_cutoff(dense: bool) -> u32 {
    if dense {
        0x8000_0000u32
    } else {
        429496729u32
    }
}

/// Decide one randomized cell from one uniform 32-bit draw: alive exactly
/// when the draw falls below the cutoff for the chosen density.
pub fn draw_to_cell(draw: u32, dense: bool) -> (alive: bool)
    ensures
        alive == (draw < alive_cutoff(dense)),
{
    if dense {
        draw < 0x8000_0000
    } else {
        draw < 429496729
    }
}

/// The buffer holds the stepped value of every cell of each row before y,
/// and of the first x cells of row y itself.
spec fn computed_upto(next: Seq<bool>, g: Seq<bool>, w: int, h: int, x: int, y: int) -> bool {
    forall|a: int, b: int|
        (0 <= a < w && 0 <= b < y) || (0 <= a < x && b == y) ==> next[cell_index(w, a, b)]
            == #[trigger] step_cell(g, w, h, a, b)
}

/// A flat all-dead grid of the given dimensions.
fn dead_cells(width: usize, height: usize) -> (cells: Vec<bool>)
    requires
        width * height <= usize::MAX,
    ensures
        cells@.len() == width * height,
        all_dead(cells@),
{
    let n = width * height;
    let mut cells: Vec<bool> = Vec::new();
    let mut i: usize = 0;
    while i < n
        invariant
            i <= n,
            cells@.len() == i,
            forall|j: int| 0 <= j < i ==> #[trigger] cells@[j] == false,
        decreases n - i,
    {
        cells.push(false);
        i = i + 1;
    }
    cells
}

/// Repeated decreases never drive the update delay to or below the floor:
/// from any valid state the adjusted delay stays at or above the minimum,
/// and a decrease that changes the delay at all leaves it strictly above.
pub proof fn lemma_update_delay_floor(delay: u64, step: u64, increase: bool)
    requires
        MIN_UPDATE_DELAY_MS <= delay,
        MIN_DELAY_STEP_MS <= step <= MAX_DELAY_STEP_MS,
    ensures
        MIN_UPDATE_DELAY_MS <= adjusted_delay(delay, step, increase),
        decreased_delay(delay, step) != delay ==> decreased_delay(delay, step)
            > MIN_UPDATE_DELAY_MS,
{
}

/// Repeated adjustments never drive the delay step outside its clamp
/// range: from any valid value the adjusted step stays within it.
pub proof fn lemma_delay_step_bounds(step: u64, increase: bool)
    requires
        MIN_DELAY_STEP_MS <= step <= MAX_DELAY_STEP_MS,
    ensures
        MIN_DELAY_STEP_MS <= adjusted_step(step, increase) <= MAX_DELAY_STEP_MS,
{
}

} // verus!
