//! The cell matrix, neighbor counting, and the generation stepper.
//!
//! A grid is a non-empty rectangular matrix of booleans; the simulation
//! works on square grids. Neighbor counting clips at the edges: a
//! coordinate outside the matrix counts as dead, never wraps around.

use vstd::prelude::*;

verus! {

/// The matrix as a sequence of rows.
pub open spec fn grid_view(g: Vec<Vec<bool>>) -> Seq<Seq<bool>> {
    Seq::new(g@.len(), |y: int| g@[y]@)
}

/// A non-empty rectangular matrix: every row is as long as the first.
pub open spec fn grid_wf(g: Seq<Seq<bool>>) -> bool {
    &&& g.len() > 0
    &&& forall|y: int| 0 <= y < g.len() ==> #[trigger] g[y].len() == g[0].len()
}

/// A square matrix: as many columns as rows.
pub open spec fn grid_square(g: Seq<Seq<bool>>) -> bool {
    grid_wf(g) && g[0].len() == g.len()
}

/// Whether (y, x) lies inside the matrix.
pub open spec fn in_bounds(g: Seq<Seq<bool>>, y: int, x: int) -> bool {
    0 <= y < g.len() && 0 <= x < g[y].len()
}

/// The cell at (y, x), with every coordinate outside the matrix read as
/// dead: the boundary is clipped, not toroidal.
pub open spec fn alive(g: Seq<Seq<bool>>, y: int, x: int) -> bool {
    in_bounds(g, y, x) && g[y][x]
}

/// 1 for true, 0 for false; lets cell states be summed.
pub open spec fn ind(b: bool) -> int {
    if b {
        1
    } else {
        0
    }
}

/// Number of live cells among the eight Moore neighbors of (y, x),
/// with out-of-bounds neighbors counting as dead.
pub open spec fn neighbor_count(g: Seq<Seq<bool>>, y: int, x: int) -> int {
    ind(alive(g, y - 1, x - 1)) + ind(alive(g, y - 1, x)) + ind(alive(g, y - 1, x + 1)) + ind(
        alive(g, y, x - 1),
    ) + ind(alive(g, y, x + 1)) + ind(alive(g, y + 1, x - 1)) + ind(alive(g, y + 1, x)) + ind(
        alive(g, y + 1, x + 1),
    )
}

/// Number of the eight Moore neighbor positions of (y, x) that lie inside
/// the matrix: 8 for interior cells, fewer along the boundary.
pub open spec fn candidate_count(g: Seq<Seq<bool>>, y: int, x: int) -> int {
    ind(in_bounds(g, y - 1, x - 1)) + ind(in_bounds(g, y - 1, x)) + ind(
        in_bounds(g, y - 1, x + 1),
    ) + ind(in_bounds(g, y, x - 1)) + ind(in_bounds(g, y, x + 1)) + ind(
        in_bounds(g, y + 1, x - 1),
    ) + ind(in_bounds(g, y + 1, x)) + ind(in_bounds(g, y + 1, x + 1))
}

/// The fate of one cell under the B3/S23 rule: a live cell survives with
/// 2 or 3 live neighbors, a dead cell is born with exactly 3.
pub open spec fn next_cell(cur: bool, n: int) -> bool {
    if cur {
        n == 2 || n == 3
    } else {
        n == 3
    }
}

/// One generation of a square grid: every cell is rewritten by `next_cell`,
/// all of them reading only the previous generation.
pub open spec fn step_spec(g: Seq<Seq<bool>>) -> Seq<Seq<bool>> {
    Seq::new(
        g.len(),
        |y: int| Seq::new(g.len(), |x: int| next_cell(g[y][x], neighbor_count(g, y, x))),
    )
}

/// `n` generations of a square grid.
pub open spec fn step_n(g: Seq<Seq<bool>>, n: nat) -> Seq<Seq<bool>>
    decreases n,
{
    if n == 0 {
        g
    } else {
        step_spec(step_n(g, (n - 1) as nat))
    }
}

/// Count the live cells among the up-to-eight Moore neighbors of (y, x);
/// neighbors falling outside the matrix are treated as dead.
pub fn get_num_neighbors(grid: &Vec<Vec<bool>>, y: usize, x: usize) -> (count: u8)
    requires
        grid_wf(grid_view(*grid)),
        y < grid_view(*grid).len(),
        x < grid_view(*grid)[y as int].len(),
    ensures
        count == neighbor_count(grid_view(*grid), y as int, x as int),
{
    let ghost g = grid_view(*grid);
    let rows = grid.len();
    let cols = grid[0].len();
    proof {
        assert forall|yy: int| 0 <= yy < grid@.len() implies #[trigger] grid@[yy]@.len()
            == cols as int by {
            assert(g[yy] == grid@[yy]@);
            assert(g[yy].len() == g[0].len());
        }
    }
    let mut count: u8 = 0;
    if y > 0 {
        if x > 0 && grid[y - 1][x - 1] {
            count = count + 1;
        }
        if grid[y - 1][x] {
            count = count + 1;
        }
        if x + 1 < cols && grid[y - 1][x + 1] {
            count = count + 1;
        }
    }
    if x > 0 && grid[y][x - 1] {
        count = count + 1;
    }
    if x + 1 < cols && grid[y][x + 1] {
        count = count + 1;
    }
    if y + 1 < rows {
        if x > 0 && grid[y + 1][x - 1] {
            count = count + 1;
        }
        if grid[y + 1][x] {
            count = count + 1;
        }
        if x + 1 < cols && grid[y + 1][x + 1] {
            count = count + 1;
        }
    }
    count
}

/// Compute the next generation of a square grid. The result is a fresh
/// grid of the same dimensions; the argument is never written, so every
/// cell's fate is decided by the previous generation alone.
pub fn step_simulation(grid: &Vec<Vec<bool>>) -> (next: Vec<Vec<bool>>)
    requires
        grid_square(grid_view(*grid)),
    ensures
        grid_view(next) == step_spec(grid_view(*grid)),
        grid_square(grid_view(next)),
        next@.len() == grid@.len(),
{
    let ghost g = grid_view(*grid);
    let side = grid.len();
    let mut next: Vec<Vec<bool>> = Vec::new();
    let mut y: usize = 0;
    while y < side
        invariant
            grid_square(g),
            g == grid_view(*grid),
            side == grid@.len(),
            y <= side,
            next@.len() == y,
            forall|yy: int| 0 <= yy < y ==> #[trigger] next@[yy]@ == step_spec(g)[yy],
        decreases side - y,
    {
        proof {
            assert(g[y as int] == grid@[y as int]@);
            assert(g[y as int].len() == g[0].len());
        }
        let mut row: Vec<bool> = Vec::new();
        let mut x: usize = 0;
        while x < side
            invariant
                grid_square(g),
                g == grid_view(*grid),
                side == grid@.len(),
                grid@[y as int]@.len() == side,
                y < side,
                x <= side,
                row@.len() == x,
                forall|xx: int|
                    0 <= xx < x ==> #[trigger] row@[xx] == next_cell(
                        g[y as int][xx],
                        neighbor_count(g, y as int, xx),
                    ),
            decreases side - x,
        {
            let cell = grid[y][x];
            let n = get_num_neighbors(grid, y, x);
            let fate = if cell {
                n == 2 || n == 3
            } else {
                n == 3
            };
            row.push(fate);
            x = x + 1;
        }
        proof {
            assert(row@ =~= step_spec(g)[y as int]);
        }
        next.push(row);
        y = y + 1;
    }
    proof {
        assert(grid_view(next) =~~= step_spec(g));
    }
    next
}

/// A square all-dead grid of the given side length.
pub fn new_false_grid(side_length: usize) -> (grid: Vec<Vec<bool>>)
    requires
        side_length > 0,
    ensures
        grid@.len() == side_length,
        grid_square(grid_view(grid)),
        forall|y: int, x: int|
            0 <= y < side_length && 0 <= x < side_length ==> !(#[trigger] grid_view(grid)[y][x]),
{
    let mut grid: Vec<Vec<bool>> = Vec::new();
    let mut y: usize = 0;
    while y < side_length
        invariant
            y <= side_length,
            grid@.len() == y,
            forall|yy: int| 0 <= yy < y ==> #[trigger] grid@[yy]@ =~= Seq::new(
                side_length as nat,
                |x: int| false,
            ),
        decreases side_length - y,
    {
        let mut row: Vec<bool> = Vec::new();
        let mut x: usize = 0;
        while x < side_length
            invariant
                x <= side_length,
                row@.len() == x,
                forall|xx: int| 0 <= xx < x ==> !(#[trigger] row@[xx]),
            decreases side_length - x,
        {
            row.push(false);
            x = x + 1;
        }
        proof {
            assert(row@ =~= Seq::new(side_length as nat, |x: int| false));
        }
        grid.push(row);
        y = y + 1;
    }
    grid
}

/// The glyph a cell is drawn with: '#' for a live cell, a blank for a
/// dead one.
pub fn cell_glyph(cell: bool) -> (c: char)
    ensures
        c == (if cell {
            '#'
        } else {
            ' '
        }),
{
    if cell {
        '#'
    } else {
        ' '
    }
}

/// Neighbor counting is clipped at the boundary: only positions inside
/// the matrix can contribute, so the count never exceeds the number of
/// in-bounds neighbor positions. A corner cell has at most 3 such
/// positions, an edge (non-corner) cell at most 5, and an interior cell
/// exactly 8.
pub proof fn lemma_neighbor_count_boundary(g: Seq<Seq<bool>>, y: int, x: int)
    requires
        grid_wf(g),
        0 <= y < g.len(),
        0 <= x < g[y].len(),
    ensures
        0 <= neighbor_count(g, y, x),
        neighbor_count(g, y, x) <= candidate_count(g, y, x),
        candidate_count(g, y, x) <= 8,
        ((y == 0 || y == g.len() - 1) && (x == 0 || x == g[y].len() - 1)) ==> candidate_count(
            g,
            y,
            x,
        ) <= 3,
        ((y == 0 || y == g.len() - 1 || x == 0 || x == g[y].len() - 1) && !((y == 0 || y == g.len()
            - 1) && (x == 0 || x == g[y].len() - 1))) ==> candidate_count(g, y, x) <= 5,
        (0 < y < g.len() - 1 && 0 < x < g[y].len() - 1) ==> candidate_count(g, y, x) == 8,
{
    if y > 0 {
        assert(g[y - 1].len() == g[0].len());
    }
    assert(g[y].len() == g[0].len());
    if y + 1 < g.len() {
        assert(g[y + 1].len() == g[0].len());
    }
}

/// The stepping rule read pointwise: after one step a cell is alive
/// exactly when it was live with 2 or 3 live neighbors (survival), or
/// dead with exactly 3 live neighbors (birth); in every other case it is
/// dead afterwards.
pub proof fn lemma_step_rule(g: Seq<Seq<bool>>, y: int, x: int)
    requires
        grid_square(g),
        0 <= y < g.len(),
        0 <= x < g.len(),
    ensures
        alive(g, y, x) ==> (alive(step_spec(g), y, x) <==> (neighbor_count(g, y, x) == 2
            || neighbor_count(g, y, x) == 3)),
        !alive(g, y, x) ==> (alive(step_spec(g), y, x) <==> neighbor_count(g, y, x) == 3),
{
    assert(g[y].len() == g[0].len());
    assert(step_spec(g)[y][x] == next_cell(g[y][x], neighbor_count(g, y, x)));
}

/// A grid that one step leaves unchanged is unchanged by any number of
/// steps: a fixed point of `step_spec` is a fixed point of `step_n`.
pub proof fn lemma_fixed_point_iterate(g: Seq<Seq<bool>>, n: nat)
    requires
        step_spec(g) == g,
    ensures
        step_n(g, n) == g,
    decreases n,
{
    if n > 0 {
        lemma_fixed_point_iterate(g, (n - 1) as nat);
    }
}

/// The classic still-life "block": a 2x2 square of live cells, here
/// centered in a 4x4 grid.
pub open spec fn block_grid() -> Seq<Seq<bool>> {
    seq![
        seq![false, false, false, false],
        seq![false, true, true, false],
        seq![false, true, true, false],
        seq![false, false, false, false],
    ]
}

/// One step leaves the block unchanged.
pub proof fn lemma_block_fixed_point()
    ensures
        step_spec(block_grid()) == block_grid(),
{
    let b = block_grid();
    assert forall|y: int, x: int| 0 <= y < 4 && 0 <= x < 4 implies step_spec(b)[y][x] == b[y][x] by {
        assert(step_spec(b)[y][x] == next_cell(b[y][x], neighbor_count(b, y, x)));
    }
    assert(step_spec(b) =~~= b);
}

/// The block is a still life: any number of steps leaves it unchanged.
pub proof fn lemma_block_still_life(n: nat)
    ensures
        step_n(block_grid(), n) == block_grid(),
{
    lemma_block_fixed_point();
    lemma_fixed_point_iterate(block_grid(), n);
}

/// Set the cell at (y, x) alive, leaving every other cell as it was.
pub fn set_alive(grid: &mut Vec<Vec<bool>>, y: usize, x: usize)
    requires
        grid_wf(grid_view(*old(grid))),
        y < grid_view(*old(grid)).len(),
        x < grid_view(*old(grid))[y as int].len(),
    ensures
        grid_view(*final(grid)) == grid_view(*old(grid)).update(
            y as int,
            grid_view(*old(grid))[y as int].update(x as int, true),
        ),
        final(grid)@.len() == old(grid)@.len(),
        grid_wf(grid_view(*final(grid))),
{
    let ghost g0 = grid_view(*old(grid));
    grid[y][x] = true;
    proof {
        assert(grid_view(*grid) =~~= g0.update(y as int, g0[y as int].update(x as int, true)));
    }
}

} // verus!
