use vstd::prelude::*;

use crate::cell::Cell;
use crate::decode::{decode_pattern, decoded};
use crate::error::Error;
use crate::generation::board_of;
use crate::pattern::{Pattern, PatternView};

verus! {

/// Rows of dead cells above a pattern of `pattern_height` rows centred in
/// `grid_height` rows: half the spare rows, rounded down.
pub open spec fn top_pad(pattern_height: int, grid_height: int) -> int {
    (grid_height - pattern_height) / 2
}

/// Columns of dead cells left of a pattern of `pattern_width` columns
/// centred in `grid_width` columns: half the spare columns, rounded down.
pub open spec fn left_pad(pattern_width: int, grid_width: int) -> int {
    (grid_width - pattern_width) / 2
}

/// The grid of `grid_height` rows of `grid_width` cells that holds `p` centred,
/// every other cell dead. Odd spare rows or columns go to the bottom and right.
pub open spec fn centered_board(p: PatternView, grid_width: int, grid_height: int) -> Seq<
    Seq<bool>,
> {
    let top = top_pad(p.height as int, grid_height);
    let left = left_pad(p.width as int, grid_width);
    Seq::new(
        grid_height as nat,
        |r: int|
            Seq::new(
                grid_width as nat,
                |c: int|
                    top <= r < top + p.height && left <= c < left + p.width && p.rows[r
                        - top][c - left],
            ),
    )
}

/// What placing `p` into a grid of `grid_width` by `grid_height` gives: the
/// centred grid when the pattern fits, else the error that names both sizes.
pub open spec fn placed(p: PatternView, grid_width: int, grid_height: int, r: Result<
    Vec<Vec<Cell>>,
    Error,
>) -> bool {
    if p.width > grid_width || p.height > grid_height {
        r matches Err(Error::PatternTooLarge { pattern_width, pattern_height, grid_width: gw, grid_height: gh })
            && pattern_width == p.width && pattern_height == p.height && gw == grid_width && gh
            == grid_height
    } else {
        r matches Ok(g) && board_of(g@) == centered_board(p, grid_width, grid_height)
    }
}

/// The state of the pattern's cell at row `r`, column `c`.
fn pattern_cell(p: &Pattern, r: usize, c: usize) -> (b: bool)
    requires
        r < p.height,
        c < p.width,
    ensures
        b == p.cell(r as int, c as int),
{
    let w = p.width as u128;
    assert((r as u128) * w <= 0xffff_ffff_ffff_ffffu128 * 0xffff_ffff_ffff_ffffu128) by (
    nonlinear_arith)
        requires
            r <= 0xffff_ffff_ffff_ffffu128,
            w <= 0xffff_ffff_ffff_ffffu128,
    ;
    let i = (r as u128) * w + (c as u128);
    if i < p.cells.len() as u128 {
        p.cells[i as usize]
    } else {
        false
    }
}

/// Places a pattern into a fresh grid of `grid_height` rows of `grid_width`
/// cells, centred: `top_pad` dead rows, then the pattern's rows shifted right
/// by `left_pad` dead cells, then dead rows down to the bottom.
pub fn padding_grid(pattern: &Pattern, grid_width: usize, grid_height: usize) -> (r: Result<
    Vec<Vec<Cell>>,
    Error,
>)
    ensures
        placed(pattern@, grid_width as int, grid_height as int, r),
{
    let pattern_width = pattern.width;
    let pattern_height = pattern.height;
    if pattern_width > grid_width || pattern_height > grid_height {
        return Err(
            Error::PatternTooLarge {
                pattern_width,
                pattern_height,
                grid_width,
                grid_height,
            },
        );
    }
    let top = (grid_height - pattern_height) / 2;
    let left = (grid_width - pattern_width) / 2;
    let ghost b = centered_board(pattern@, grid_width as int, grid_height as int);
    let mut grid: Vec<Vec<Cell>> = Vec::new();
    for r in 0..grid_height
        invariant
            b == centered_board(pattern@, grid_width as int, grid_height as int),
            pattern_width == pattern.width <= grid_width,
            pattern_height == pattern.height <= grid_height,
            top == top_pad(pattern_height as int, grid_height as int),
            left == left_pad(pattern_width as int, grid_width as int),
            grid@.len() == r,
            forall|i: int| 0 <= i < r ==> #[trigger] grid@[i]@.len() == grid_width,
            forall|i: int, j: int|
                0 <= i < r && 0 <= j < grid_width ==> #[trigger] grid@[i]@[j]@ == b[i][j],
    {
        let mut row: Vec<Cell> = Vec::new();
        for c in 0..grid_width
            invariant
                b == centered_board(pattern@, grid_width as int, grid_height as int),
                pattern_width == pattern.width <= grid_width,
                pattern_height == pattern.height <= grid_height,
                top == top_pad(pattern_height as int, grid_height as int),
                left == left_pad(pattern_width as int, grid_width as int),
                r < grid_height,
                row@.len() == c,
                forall|j: int| 0 <= j < c ==> #[trigger] row@[j]@ == b[r as int][j],
        {
            let inside = top <= r && r < top + pattern_height && left <= c && c < left
                + pattern_width;
            let alive = inside && pattern_cell(pattern, r - top, c - left);
            row.push(Cell::new(alive));
        }
        grid.push(row);
    }
    assert(board_of(grid@) =~~= b);
    Ok(grid)
}

/// Decodes a pattern text and centres it in a grid of `grid_width` by
/// `grid_height`.
pub fn import_pattern(text: &str, grid_width: usize, grid_height: usize) -> (r: Result<
    Vec<Vec<Cell>>,
    Error,
>)
    ensures
        match decoded(text@) {
            None => r matches Err(Error::PatternFormat(_)),
            Some(p) => placed(p, grid_width as int, grid_height as int, r),
        },
{
    let pattern = decode_pattern(text)?;
    padding_grid(&pattern, grid_width, grid_height)
}

/// Centering: a pattern that fits lands with its top-left corner at row
/// `(grid_height - height) / 2` and column `(grid_width - width) / 2`, both
/// rounded down, and every cell outside the placed region is dead.
pub proof fn lemma_centering(p: PatternView, grid_width: int, grid_height: int, r: int, c: int)
    requires
        p.width <= grid_width,
        p.height <= grid_height,
        0 <= r < grid_height,
        0 <= c < grid_width,
    ensures
        ({
            let top = (grid_height - p.height) / 2;
            let left = (grid_width - p.width) / 2;
            let b = centered_board(p, grid_width, grid_height);
            &&& b.len() == grid_height
            &&& b[r].len() == grid_width
            &&& (top <= r < top + p.height && left <= c < left + p.width) ==> b[r][c] == p.rows[r
                - top][c - left]
            &&& !(top <= r < top + p.height && left <= c < left + p.width) ==> !b[r][c]
        }),
{
}

/// Reads pattern texts into grids of a fixed size.
pub struct Parser {
    width: usize,
    height: usize,
}

impl Parser {
    pub fn new(width: usize, height: usize) -> (r: Self)
        ensures
            r.width() == width,
            r.height() == height,
    {
        Parser { width, height }
    }

    pub closed spec fn width(&self) -> usize {
        self.width
    }

    pub closed spec fn height(&self) -> usize {
        self.height
    }

    /// Decodes `input` and centres the pattern in this parser's grid size.
    pub fn parse(&mut self, input: &str) -> (r: Result<Vec<Vec<Cell>>, Error>)
        ensures
            *final(self) == *old(self),
            match decoded(input@) {
                None => r matches Err(Error::PatternFormat(_)),
                Some(p) => placed(p, old(self).width() as int, old(self).height() as int, r),
            },
    {
        import_pattern(input, self.width, self.height)
    }
}

} // verus!
