use vstd::prelude::*;

use crate::cell::Cell;

verus! {

/// The states of a grid's cells, row by row.
pub open spec fn board_of(grid: Seq<Vec<Cell>>) -> Seq<Seq<bool>> {
    Seq::new(grid.len(), |x: int| Seq::new(grid[x]@.len(), |y: int| grid[x]@[y]@))
}

/// All rows are as long as the first.
pub open spec fn is_rectangular(b: Seq<Seq<bool>>) -> bool {
    forall|x: int| 0 <= x < b.len() ==> #[trigger] b[x].len() == b[0].len()
}

/// The number of cells in each row of a rectangular board.
pub open spec fn width_of(b: Seq<Seq<bool>>) -> nat {
    if b.len() == 0 {
        0
    } else {
        b[0].len()
    }
}

/// The board has `height` rows of `width` cells.
pub open spec fn has_size(b: Seq<Seq<bool>>, width: nat, height: nat) -> bool {
    &&& b.len() == height
    &&& forall|x: int| 0 <= x < b.len() ==> #[trigger] b[x].len() == width
}

/// Every cell of the board is in state `alive`.
pub open spec fn all_cells(b: Seq<Seq<bool>>, alive: bool) -> bool {
    forall|x: int, y: int| 0 <= x < b.len() && 0 <= y < b[x].len() ==> #[trigger] b[x][y] == alive
}

/// `(x, y)` lies inside the board and its cell is alive. Positions outside
/// the board count as dead: the board has hard edges.
pub open spec fn live_at(b: Seq<Seq<bool>>, x: int, y: int) -> bool {
    0 <= x < b.len() && 0 <= y < b[x].len() && b[x][y]
}

pub open spec fn count(alive: bool) -> nat {
    if alive {
        1
    } else {
        0
    }
}

/// How many of the eight positions around `(x, y)` hold a live cell.
pub open spec fn live_neighbors(b: Seq<Seq<bool>>, x: int, y: int) -> nat {
    count(live_at(b, x - 1, y - 1)) + count(live_at(b, x - 1, y)) + count(live_at(b, x - 1, y + 1))
        + count(live_at(b, x, y - 1)) + count(live_at(b, x, y + 1)) + count(
        live_at(b, x + 1, y - 1),
    ) + count(live_at(b, x + 1, y)) + count(live_at(b, x + 1, y + 1))
}

/// The rule of Life: a live cell survives with two or three live neighbours,
/// a dead cell is born with exactly three.
pub open spec fn next_state(alive: bool, neighbors: nat) -> bool {
    (alive && (neighbors == 2 || neighbors == 3)) || (!alive && neighbors == 3)
}

/// The next generation: every cell follows the rule, reading only the current board.
pub open spec fn next_board(b: Seq<Seq<bool>>) -> Seq<Seq<bool>> {
    Seq::new(
        b.len(),
        |x: int| Seq::new(b[x].len(), |y: int| next_state(b[x][y], live_neighbors(b, x, y))),
    )
}

/// Whether the neighbour of `(x, y)` at offset `(dx, dy)` lies inside the grid and is alive.
fn neighbor_alive(
    grid: &[Vec<Cell>],
    rows: usize,
    cols: usize,
    x: usize,
    y: usize,
    dx: i8,
    dy: i8,
) -> (r: bool)
    requires
        rows == grid@.len(),
        is_rectangular(board_of(grid@)),
        x < rows,
        y < cols,
        cols == board_of(grid@)[0].len(),
        -1 <= dx <= 1,
        -1 <= dy <= 1,
    ensures
        r == live_at(board_of(grid@), x + dx, y + dy),
{
    let ghost b = board_of(grid@);
    if (dx < 0 && x == 0) || (dx > 0 && x + 1 >= rows) || (dy < 0 && y == 0) || (dy > 0 && y + 1
        >= cols) {
        false
    } else {
        let nx: usize = if dx < 0 {
            x - 1
        } else if dx > 0 {
            x + 1
        } else {
            x
        };
        let ny: usize = if dy < 0 {
            y - 1
        } else if dy > 0 {
            y + 1
        } else {
            y
        };
        assert(b[nx as int].len() == cols);
        grid[nx][ny].is_alive()
    }
}

/// Applies the rule of Life to the cell at `(x, y)`: `true` when it is alive
/// in the next generation.
pub fn tick(rows: usize, cols: usize, current_grid: &[Vec<Cell>], x: usize, y: usize) -> (r: bool)
    requires
        rows == current_grid@.len(),
        is_rectangular(board_of(current_grid@)),
        x < rows,
        y < cols,
        cols == board_of(current_grid@)[0].len(),
    ensures
        r == next_state(
            board_of(current_grid@)[x as int][y as int],
            live_neighbors(board_of(current_grid@), x as int, y as int),
        ),
{
    let ghost b = board_of(current_grid@);
    assert(b[x as int].len() == cols);
    let alive = current_grid[x][y].is_alive();
    let mut n: u8 = 0;
    if neighbor_alive(current_grid, rows, cols, x, y, -1, -1) {
        n = n + 1;
    }
    if neighbor_alive(current_grid, rows, cols, x, y, -1, 0) {
        n = n + 1;
    }
    if neighbor_alive(current_grid, rows, cols, x, y, -1, 1) {
        n = n + 1;
    }
    if neighbor_alive(current_grid, rows, cols, x, y, 0, -1) {
        n = n + 1;
    }
    if neighbor_alive(current_grid, rows, cols, x, y, 0, 1) {
        n = n + 1;
    }
    if neighbor_alive(current_grid, rows, cols, x, y, 1, -1) {
        n = n + 1;
    }
    if neighbor_alive(current_grid, rows, cols, x, y, 1, 0) {
        n = n + 1;
    }
    if neighbor_alive(current_grid, rows, cols, x, y, 1, 1) {
        n = n + 1;
    }
    assert(n == live_neighbors(b, x as int, y as int));
    (alive && (n == 2 || n == 3)) || (!alive && n == 3)
}

/// Computes the next generation of a rectangular grid into a fresh grid of
/// the same dimensions; the input is left as it is.
pub fn next_generation(current_grid: &[Vec<Cell>]) -> (r: Vec<Vec<Cell>>)
    requires
        is_rectangular(board_of(current_grid@)),
    ensures
        board_of(r@) == next_board(board_of(current_grid@)),
{
    let ghost b = board_of(current_grid@);
    let rows = current_grid.len();
    let cols = if rows > 0 {
        current_grid[0].len()
    } else {
        0
    };
    let mut next: Vec<Vec<Cell>> = Vec::new();
    for x in 0..rows
        invariant
            rows == current_grid@.len(),
            b == board_of(current_grid@),
            is_rectangular(b),
            rows > 0 ==> cols == b[0].len(),
            next@.len() == x,
            forall|i: int| 0 <= i < x ==> #[trigger] next@[i]@.len() == cols,
            forall|i: int, j: int|
                0 <= i < x && 0 <= j < cols ==> #[trigger] next@[i]@[j]@ == next_board(b)[i][j],
    {
        assert(b[x as int].len() == cols);
        let mut row: Vec<Cell> = Vec::new();
        for y in 0..cols
            invariant
                rows == current_grid@.len(),
                b == board_of(current_grid@),
                is_rectangular(b),
                x < rows,
                cols == b[0].len(),
                row@.len() == y,
                forall|j: int| 0 <= j < y ==> #[trigger] row@[j]@ == next_board(b)[x as int][j],
        {
            assert(b[x as int].len() == cols);
            let alive = tick(rows, cols, current_grid, x, y);
            row.push(Cell::new(alive));
        }
        next.push(row);
    }
    assert forall|i: int| 0 <= i < rows implies #[trigger] b[i].len() == cols by {}
    assert(board_of(next@) =~~= next_board(b));
    next
}

/// Advancing twice depends on the states of the cells alone: grids whose cells
/// are in the same states have equal second generations, and each generation
/// of a rectangular grid is again rectangular with the same dimensions.
pub proof fn lemma_advance_twice_depends_on_states(g1: Seq<Vec<Cell>>, g2: Seq<Vec<Cell>>)
    requires
        board_of(g1) == board_of(g2),
        is_rectangular(board_of(g1)),
    ensures
        next_board(next_board(board_of(g1))) == next_board(next_board(board_of(g2))),
        is_rectangular(next_board(board_of(g1))),
        next_board(board_of(g1)).len() == g1.len(),
        width_of(next_board(board_of(g1))) == width_of(board_of(g1)),
{
}

/// A live cell stays alive exactly when it has two or three live neighbours;
/// with any other count it dies.
pub proof fn lemma_survival(b: Seq<Seq<bool>>, x: int, y: int)
    requires
        0 <= x < b.len(),
        0 <= y < b[x].len(),
        b[x][y],
    ensures
        next_board(b)[x][y] <==> (live_neighbors(b, x, y) == 2 || live_neighbors(b, x, y) == 3),
{
}

/// A dead cell comes alive exactly when it has three live neighbours;
/// otherwise it stays dead.
pub proof fn lemma_birth(b: Seq<Seq<bool>>, x: int, y: int)
    requires
        0 <= x < b.len(),
        0 <= y < b[x].len(),
        !b[x][y],
    ensures
        next_board(b)[x][y] <==> live_neighbors(b, x, y) == 3,
{
}

/// The cell in the corner `(0, 0)` counts only its three neighbours that lie
/// inside the grid.
pub proof fn lemma_corner_neighbors(b: Seq<Seq<bool>>)
    ensures
        live_neighbors(b, 0, 0) == count(live_at(b, 0, 1)) + count(live_at(b, 1, 0)) + count(
            live_at(b, 1, 1),
        ),
{
}

} // verus!
