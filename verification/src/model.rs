//! The mathematical model of the cellular automaton: a generation is a
//! rectangular map from coordinates to cell states, and the step rule is a
//! pure function on such maps.

use vstd::prelude::*;

verus! {

/// State of a living cell.
pub const ALIVE: u8 = 1;

/// State of a dead cell.
pub const DEAD: u8 = 0;

/// One generation of the automaton: the dimensions and the state of every
/// in-range cell.
#[verifier::ext_equal]
pub struct GridModel {
    pub rows: int,
    pub cols: int,
    pub cells: Map<(int, int), u8>,
}

/// The set of coordinates of a `rows` by `cols` grid.
pub open spec fn grid_dom(rows: int, cols: int) -> Set<(int, int)> {
    Set::new(|p: (int, int)| 0 <= p.0 < rows && 0 <= p.1 < cols)
}

/// A value is one of the two cell states.
pub open spec fn is_cell(v: u8) -> bool {
    v == ALIVE || v == DEAD
}

/// The coordinate lies on the grid.
pub open spec fn in_range(g: GridModel, r: int, c: int) -> bool {
    0 <= r < g.rows && 0 <= c < g.cols
}

/// A well-formed generation: non-negative dimensions, exactly the in-range
/// coordinates mapped, and every cell in one of the two states.
pub open spec fn model_wf(g: GridModel) -> bool {
    &&& g.rows >= 0
    &&& g.cols >= 0
    &&& g.cells.dom() == grid_dom(g.rows, g.cols)
    &&& forall|r: int, c: int| in_range(g, r, c) ==> is_cell(#[trigger] g.cells[(r, c)])
}

/// 1 if the coordinate is on the grid and alive, else 0. Coordinates off the
/// grid count as dead: the edges are hard, there is no wraparound.
pub open spec fn alive_indicator(g: GridModel, r: int, c: int) -> int {
    if in_range(g, r, c) && g.cells[(r, c)] == ALIVE {
        1
    } else {
        0
    }
}

/// How many of the 8 Moore neighbors of (r, c) are alive.
pub open spec fn neighbor_count(g: GridModel, r: int, c: int) -> int {
    alive_indicator(g, r - 1, c - 1) + alive_indicator(g, r - 1, c) + alive_indicator(g, r - 1, c + 1)
        + alive_indicator(g, r, c - 1) + alive_indicator(g, r, c + 1)
        + alive_indicator(g, r + 1, c - 1) + alive_indicator(g, r + 1, c) + alive_indicator(g, r + 1, c + 1)
}

/// The state of cell (r, c) in the next generation: a live cell survives with
/// 2 or 3 live neighbors, a dead cell is born with exactly 3.
pub open spec fn next_cell(g: GridModel, r: int, c: int) -> u8 {
    let n = neighbor_count(g, r, c);
    if g.cells[(r, c)] == ALIVE {
        if n == 2 || n == 3 {
            ALIVE
        } else {
            DEAD
        }
    } else {
        if n == 3 {
            ALIVE
        } else {
            DEAD
        }
    }
}

/// The whole next generation, every cell computed from the same snapshot.
pub open spec fn step_model(g: GridModel) -> GridModel {
    GridModel {
        rows: g.rows,
        cols: g.cols,
        cells: Map::new(
            |p: (int, int)| 0 <= p.0 < g.rows && 0 <= p.1 < g.cols,
            |p: (int, int)| next_cell(g, p.0, p.1),
        ),
    }
}

/// Generation `n`, obtained from `g` by `n` synchronous steps.
pub open spec fn generation(g: GridModel, n: nat) -> GridModel
    decreases n,
{
    if n == 0 {
        g
    } else {
        step_model(generation(g, (n - 1) as nat))
    }
}

/// Every in-range cell of the generation is dead.
pub open spec fn all_dead(g: GridModel) -> bool {
    forall|r: int, c: int| in_range(g, r, c) ==> #[trigger] g.cells[(r, c)] == DEAD
}

/// Every in-range cell of the generation is alive.
pub open spec fn all_alive(g: GridModel) -> bool {
    forall|r: int, c: int| in_range(g, r, c) ==> #[trigger] g.cells[(r, c)] == ALIVE
}

/// The step rule preserves well-formedness: the next generation has the same
/// dimensions and again holds only the two cell states.
pub proof fn lemma_model_wf_step(g: GridModel)
    requires
        model_wf(g),
    ensures
        model_wf(step_model(g)),
{
    assert(step_model(g).cells.dom() =~= grid_dom(g.rows, g.cols));
    assert forall|r: int, c: int| in_range(step_model(g), r, c) implies is_cell(
        #[trigger] step_model(g).cells[(r, c)],
    ) by {
        assert(step_model(g).cells[(r, c)] == next_cell(g, r, c));
    }
}

/// On an all-dead generation the neighbor count is 0 at every coordinate,
/// interior or edge alike.
pub proof fn lemma_count_all_dead(g: GridModel, r: int, c: int)
    requires
        all_dead(g),
    ensures
        neighbor_count(g, r, c) == 0,
{
}

/// On an all-alive generation the neighbor count at any interior coordinate
/// is 8: the whole Moore neighborhood lies on the grid.
pub proof fn lemma_count_all_alive_interior(g: GridModel, r: int, c: int)
    requires
        all_alive(g),
        1 <= r < g.rows - 1,
        1 <= c < g.cols - 1,
    ensures
        neighbor_count(g, r, c) == 8,
{
}

/// An all-dead generation is a fixed point of the step rule: with no live
/// neighbors anywhere, no cell is born.
pub proof fn lemma_empty_step_fixed(g: GridModel)
    requires
        model_wf(g),
        all_dead(g),
    ensures
        step_model(g) == g,
{
    assert forall|r: int, c: int| in_range(g, r, c) implies step_model(g).cells[(r, c)]
        == g.cells[(r, c)] by {
        lemma_count_all_dead(g, r, c);
    }
    assert(step_model(g).cells =~= g.cells);
}

/// Iterated stepping composes: stepping m + n times from g is the same as
/// first computing generation m and then stepping n more times. In
/// particular each step is computed purely from the generation before it,
/// with no dependence on how that generation was reached.
pub proof fn lemma_generation_add(g: GridModel, m: nat, n: nat)
    ensures
        generation(g, m + n) == generation(generation(g, m), n),
    decreases n,
{
    if n != 0 {
        lemma_generation_add(g, m, (n - 1) as nat);
    }
}

/// Well-formedness is preserved along the whole evolution.
pub proof fn lemma_model_wf_generation(g: GridModel, n: nat)
    requires
        model_wf(g),
    ensures
        model_wf(generation(g, n)),
    decreases n,
{
    if n != 0 {
        lemma_model_wf_generation(g, (n - 1) as nat);
        lemma_model_wf_step(generation(g, (n - 1) as nat));
    }
}

} // verus!
