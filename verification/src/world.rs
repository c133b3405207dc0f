//! The grid engine: a double-buffered world of cells stored in `ndarray`
//! arrays, with the step transition verified against the model in
//! `crate::model`.

use vstd::prelude::*;

use rand::Rng;

use crate::model::{
    alive_indicator, all_dead, grid_dom, in_range, is_cell, model_wf, neighbor_count, next_cell,
    step_model, GridModel, ALIVE, DEAD,
};

verus! {

/// One cell buffer: an `ndarray::Array2<u8>` held opaquely, since Verus
/// cannot read that type's own declaration. All access goes through the
/// trusted functions below, whose contracts speak of `grid_dim` and
/// `grid_cells`.
#[verifier::external_body]
pub struct CellBuffer {
    inner: ndarray::Array2<u8>,
}

/// The (rows, cols) shape a buffer was created with.
pub uninterp spec fn grid_dim(a: CellBuffer) -> (int, int);

/// What the buffer holds: the element at each in-shape coordinate.
pub uninterp spec fn grid_cells(a: CellBuffer) -> Map<(int, int), u8>;

/// Relies on ndarray::ArrayBase::zeros: a rows x cols array with every
/// element 0. It panics only when the product of the non-zero axis lengths
/// overflows isize, which the preconditions rule out.
#[verifier::external_body]
fn array_zeros(rows: usize, cols: usize) -> (a: CellBuffer)
    requires
        (rows as int) <= isize::MAX as int,
        (cols as int) <= isize::MAX as int,
        (rows as int) * (cols as int) <= isize::MAX as int,
    ensures
        grid_dim(a) == (rows as int, cols as int),
        grid_cells(a) == Map::new(
            |p: (int, int)| 0 <= p.0 < rows as int && 0 <= p.1 < cols as int,
            |p: (int, int)| DEAD,
        ),
{
    CellBuffer { inner: ndarray::Array2::zeros((rows, cols)) }
}

/// Relies on ndarray's Index impl for [usize; 2]: returns the element at
/// [row, col]. It panics out of bounds, which the precondition rules out.
#[verifier::external_body]
fn array_get(a: &CellBuffer, row: usize, col: usize) -> (v: u8)
    requires
        (row as int) < grid_dim(*a).0,
        (col as int) < grid_dim(*a).1,
    ensures
        v == grid_cells(*a)[(row as int, col as int)],
{
    a.inner[[row, col]]
}

/// Relies on ndarray's IndexMut impl for [usize; 2]: overwrites the element
/// at [row, col] and nothing else. It panics out of bounds, which the
/// precondition rules out.
#[verifier::external_body]
fn array_set(a: &mut CellBuffer, row: usize, col: usize, v: u8)
    requires
        (row as int) < grid_dim(*old(a)).0,
        (col as int) < grid_dim(*old(a)).1,
    ensures
        grid_dim(*final(a)) == grid_dim(*old(a)),
        grid_cells(*final(a)) == grid_cells(*old(a)).insert((row as int, col as int), v),
{
    a.inner[[row, col]] = v;
}

/// Relies on rand::Rng::gen::<bool> on the thread-local generator: draws one
/// boolean. Nothing is promised of the value.
#[verifier::external_body]
fn random_bool() -> bool {
    rand::thread_rng().gen()
}

/// The world: two same-shape buffers of cells. `present` is the current
/// generation; `future` is the scratch buffer the next generation is written
/// into before the two swap roles.
pub struct World {
    pub present: CellBuffer,
    pub future: CellBuffer,
    pub rows: usize,
    pub cols: usize,
}

impl View for World {
    type V = GridModel;

    open spec fn view(&self) -> GridModel {
        GridModel {
            rows: self.rows as int,
            cols: self.cols as int,
            cells: grid_cells(self.present),
        }
    }
}

impl World {
    /// Both buffers have the world's shape, cover exactly the in-range
    /// coordinates, and hold only the two cell states. The dimensions fit
    /// isize, and as soon as any coordinate is in range at all they also fit
    /// i32, so that the neighbor scan's i32 coordinate arithmetic is exact;
    /// a degenerate grid with a zero dimension carries no such bound on the
    /// other one.
    pub open spec fn wf(self) -> bool {
        &&& grid_dim(self.present) == (self.rows as int, self.cols as int)
        &&& grid_dim(self.future) == (self.rows as int, self.cols as int)
        &&& grid_cells(self.present).dom() == grid_dom(self.rows as int, self.cols as int)
        &&& grid_cells(self.future).dom() == grid_dom(self.rows as int, self.cols as int)
        &&& model_wf(self@)
        &&& forall|r: int, c: int|
            0 <= r < self.rows as int && 0 <= c < self.cols as int ==> is_cell(
                #[trigger] grid_cells(self.future)[(r, c)],
            )
        &&& (self.rows as int) <= isize::MAX as int
        &&& (self.cols as int) <= isize::MAX as int
        &&& self.rows > 0 && self.cols > 0 ==> (self.rows as int) <= i32::MAX as int && (
        self.cols as int) <= i32::MAX as int
    }

    /// A fresh world of the given shape, every cell dead in both buffers.
    /// Degenerate shapes with a zero dimension are permitted and behave as
    /// empty; the bounds asked of the inputs are machine limits only: the
    /// cell count must fit isize for the allocation, and dimensions a
    /// coordinate can actually take must fit i32 for the neighbor scan.
    pub fn new(rows: usize, cols: usize) -> (w: World)
        requires
            (rows as int) <= isize::MAX as int,
            (cols as int) <= isize::MAX as int,
            (rows as int) * (cols as int) <= isize::MAX as int,
            rows > 0 && cols > 0 ==> (rows as int) <= i32::MAX as int && (cols as int)
                <= i32::MAX as int,
        ensures
            w.wf(),
            w.rows == rows,
            w.cols == cols,
            all_dead(w@),
            forall|r: int, c: int|
                0 <= r < rows as int && 0 <= c < cols as int ==> #[trigger] grid_cells(
                    w.future,
                )[(r, c)] == DEAD,
    {
        let w = World {
            present: array_zeros(rows, cols),
            future: array_zeros(rows, cols),
            rows,
            cols,
        };
        w
    }

    /// The state of cell (row, col) of the current generation.
    pub fn get(&self, row: usize, col: usize) -> (v: u8)
        requires
            self.wf(),
            row < self.rows,
            col < self.cols,
        ensures
            v == self@.cells[(row as int, col as int)],
            is_cell(v),
    {
        array_get(&self.present, row, col)
    }

    /// Overwrite cell (row, col) of the current generation with the given
    /// state; every other cell and the scratch buffer are untouched.
    pub fn set(&mut self, row: usize, col: usize, v: u8)
        requires
            old(self).wf(),
            row < old(self).rows,
            col < old(self).cols,
            is_cell(v),
        ensures
            final(self).wf(),
            final(self).rows == old(self).rows,
            final(self).cols == old(self).cols,
            final(self).future == old(self).future,
            final(self)@.cells == old(self)@.cells.insert((row as int, col as int), v),
    {
        array_set(&mut self.present, row, col, v);
        proof {
            assert(grid_cells(self.present).dom() =~= grid_dom(
                self.rows as int,
                self.cols as int,
            ));
        }
    }

    /// Overwrite cell (row, col) of the scratch buffer; the current
    /// generation is untouched.
    fn set_future(&mut self, row: usize, col: usize, v: u8)
        requires
            old(self).wf(),
            row < old(self).rows,
            col < old(self).cols,
            is_cell(v),
        ensures
            final(self).wf(),
            final(self).rows == old(self).rows,
            final(self).cols == old(self).cols,
            final(self).present == old(self).present,
            grid_cells(final(self).future) == grid_cells(old(self).future).insert(
                (row as int, col as int),
                v,
            ),
    {
        array_set(&mut self.future, row, col, v);
        proof {
            assert(grid_cells(self.future).dom() =~= grid_dom(
                self.rows as int,
                self.cols as int,
            ));
        }
    }

    /// Does the coordinate lie on the grid? Off-grid coordinates are what the
    /// neighbor count must skip: the edges are hard, nothing wraps around.
    fn within_world(&self, row: i32, col: i32) -> (r: bool)
        requires
            self.wf(),
        ensures
            r == in_range(self@, row as int, col as int),
    {
        col >= 0 && (col as i64) < (self.cols as i64) && row >= 0 && (row as i64) < (
        self.rows as i64)
    }

    /// 1 if the coordinate is on the grid and alive in the current
    /// generation, else 0.
    fn alive_at(&self, row: i32, col: i32) -> (n: i32)
        requires
            self.wf(),
        ensures
            n == alive_indicator(self@, row as int, col as int),
    {
        if self.within_world(row, col) {
            if self.get(row as usize, col as usize) == ALIVE {
                1
            } else {
                0
            }
        } else {
            0
        }
    }

    /// How many of the 8 Moore neighbors of (row, col) are alive in the
    /// current generation. Neighbors that fall off the grid are excluded
    /// from the count.
    pub fn count_alive_neighbors(&self, row: usize, col: usize) -> (n: i32)
        requires
            self.wf(),
            row < self.rows,
            col < self.cols,
        ensures
            n == neighbor_count(self@, row as int, col as int),
            0 <= n <= 8,
    {
        let ri: i32 = row as i32;
        let ci: i32 = col as i32;
        let mut count: i32 = 0;
        count += self.alive_at(ri - 1, ci - 1);
        count += self.alive_at(ri - 1, ci);
        count += self.alive_at(ri - 1, ci + 1);
        count += self.alive_at(ri, ci - 1);
        count += self.alive_at(ri, ci + 1);
        count += self.alive_at(ri + 1, ci - 1);
        count += self.alive_at(ri + 1, ci);
        count += self.alive_at(ri + 1, ci + 1);
        count
    }

    /// Set every cell of the current generation independently to one of the
    /// two states, drawn from the thread-local random source. The scratch
    /// buffer is untouched. Which states come out is not specified: only
    /// that every cell ends in a valid state.
    pub fn populate_random(&mut self)
        requires
            old(self).wf(),
        ensures
            final(self).wf(),
            final(self).rows == old(self).rows,
            final(self).cols == old(self).cols,
            final(self).future == old(self).future,
            forall|r: int, c: int|
                in_range(final(self)@, r, c) ==> is_cell(#[trigger] final(self)@.cells[(r, c)]),
    {
        let mut r: usize = 0;
        while r < self.rows
            invariant
                self.wf(),
                self.rows == old(self).rows,
                self.cols == old(self).cols,
                self.future == old(self).future,
                r <= self.rows,
            decreases self.rows - r,
        {
            let mut c: usize = 0;
            while c < self.cols
                invariant
                    self.wf(),
                    self.rows == old(self).rows,
                    self.cols == old(self).cols,
                    self.future == old(self).future,
                    r < self.rows,
                    c <= self.cols,
                decreases self.cols - c,
            {
                let v = if random_bool() {
                    ALIVE
                } else {
                    DEAD
                };
                self.set(r, c, v);
                c += 1;
            }
            r += 1;
        }
    }

    /// One synchronous step: every cell of the next generation is computed
    /// from the same snapshot of the current one, written into the scratch
    /// buffer, and the two buffers then swap roles. Afterwards the current
    /// generation is exactly `step_model` of the old one, and the scratch
    /// buffer holds the old generation.
    pub fn step(&mut self)
        requires
            old(self).wf(),
        ensures
            final(self).wf(),
            final(self).rows == old(self).rows,
            final(self).cols == old(self).cols,
            final(self)@ == step_model(old(self)@),
            grid_cells(final(self).future) == old(self)@.cells,
    {
        let ghost g0 = self@;
        let rows: usize = self.rows;
        let cols: usize = self.cols;
        let mut ci: usize = 0;
        while ci < cols
            invariant
                self.wf(),
                self.rows == rows,
                self.cols == cols,
                self.present == old(self).present,
                g0 == old(self)@,
                self@ == g0,
                ci <= cols,
                forall|r: int, c: int|
                    0 <= r < rows as int && 0 <= c < ci as int ==> #[trigger] grid_cells(
                        self.future,
                    )[(r, c)] == next_cell(g0, r, c),
            decreases cols - ci,
        {
            let mut ri: usize = 0;
            while ri < rows
                invariant
                    self.wf(),
                    self.rows == rows,
                    self.cols == cols,
                    self.present == old(self).present,
                    g0 == old(self)@,
                    self@ == g0,
                    ci < cols,
                    ri <= rows,
                    forall|r: int, c: int|
                        0 <= r < rows as int && 0 <= c < ci as int ==> #[trigger] grid_cells(
                            self.future,
                        )[(r, c)] == next_cell(g0, r, c),
                    forall|r: int|
                        0 <= r < ri as int ==> #[trigger] grid_cells(self.future)[(r, ci as int)]
                            == next_cell(g0, r, ci as int),
                decreases rows - ri,
            {
                let n = self.count_alive_neighbors(ri, ci);
                let cur = self.get(ri, ci);
                let v = if cur == ALIVE {
                    if n == 2 || n == 3 {
                        ALIVE
                    } else {
                        DEAD
                    }
                } else {
                    if n == 3 {
                        ALIVE
                    } else {
                        DEAD
                    }
                };
                proof {
                    assert(v == next_cell(g0, ri as int, ci as int));
                }
                self.set_future(ri, ci, v);
                ri += 1;
            }
            ci += 1;
        }
        proof {
            assert(grid_cells(self.future) =~= step_model(g0).cells);
        }
        core::mem::swap(&mut self.present, &mut self.future);
        proof {
            assert(self@ == step_model(g0));
        }
    }
}

} // verus!
