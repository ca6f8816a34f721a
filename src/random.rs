use vstd::prelude::*;

use rand::rngs::StdRng;
use rand::{Rng, SeedableRng};

use crate::cell::Cell;
use crate::error::{Error, Parameter};
use crate::generation::{all_cells, board_of, has_size};

verus! {

#[verifier::external_type_specification]
#[verifier::external_body]
pub struct ExStdRng(StdRng);

/// Relies on rand's `SeedableRng::seed_from_u64` for `StdRng`: a generator
/// whose stream the seed fixes.
#[verifier::external_body]
fn seeded_rng(seed: u64) -> StdRng {
    StdRng::seed_from_u64(seed)
}

/// Relies on rand's `Rng::random_ratio`: `true` with a chance of `numerator`
/// in `denominator`, never for a numerator of 0 and always when numerator and
/// denominator are equal. It panics on a zero denominator or a numerator
/// above the denominator.
#[verifier::external_body]
fn draw_ratio(rng: &mut StdRng, numerator: u32, denominator: u32) -> (r: bool)
    requires
        0 < denominator,
        numerator <= denominator,
    ensures
        numerator == 0 ==> !r,
        numerator == denominator ==> r,
{
    rng.random_ratio(numerator, denominator)
}

/// The chance that a cell of a random grid starts alive, as a fraction.
#[derive(Clone, Copy, Debug, PartialEq, Eq, Structural)]
pub struct Density {
    pub numerator: i64,
    pub denominator: i64,
}

impl Density {
    /// The fraction is a probability, with a denominator that fits in 32 bits.
    pub open spec fn is_valid(self) -> bool {
        0 <= self.numerator <= self.denominator && 0 < self.denominator <= u32::MAX
    }

    pub fn new(numerator: i64, denominator: i64) -> (r: Self)
        ensures
            r == (Density { numerator, denominator }),
    {
        Density { numerator, denominator }
    }

    pub fn is_probability(&self) -> (r: bool)
        ensures
            r == self.is_valid(),
    {
        0 <= self.numerator && self.numerator <= self.denominator && 0 < self.denominator
            && self.denominator <= u32::MAX as i64
    }
}

/// The board that lays out `draws` row after row, `width` to a row.
pub open spec fn board_of_draws(draws: Seq<bool>, width: nat, height: nat) -> Seq<Seq<bool>> {
    Seq::new(height, |x: int| Seq::new(width, |y: int| draws[x * width + y]))
}

/// What holds of every grid that `random_grid` may give for a valid density:
/// its size, its cells laid out row after row from a sequence of draws, and
/// the two densities that leave nothing to chance.
pub open spec fn is_random_board(b: Seq<Seq<bool>>, density: Density, width: nat, height: nat) -> bool {
    &&& has_size(b, width, height)
    &&& exists|draws: Seq<bool>|
        draws.len() == width * height && b == #[trigger] board_of_draws(draws, width, height)
    &&& density.numerator == 0 ==> all_cells(b, false)
    &&& density.numerator == density.denominator ==> all_cells(b, true)
}

proof fn lemma_draw_index(x: int, y: int, width: int, height: int)
    requires
        0 <= x < height,
        0 <= y < width,
    ensures
        0 <= x * width + y < width * height,
{
    assert(0 <= x * width + y < width * height) by (nonlinear_arith)
        requires
            0 <= x < height,
            0 <= y < width,
    ;
}

/// Lays out `width * height` draws as a grid, row after row: the cell at
/// row `x`, column `y` is draw `x * width + y`.
pub fn grid_of_draws(draws: &Vec<bool>, width: usize, height: usize) -> (r: Vec<Vec<Cell>>)
    requires
        draws@.len() == width * height,
    ensures
        board_of(r@) == board_of_draws(draws@, width as nat, height as nat),
{
    let ghost b = board_of_draws(draws@, width as nat, height as nat);
    let mut grid: Vec<Vec<Cell>> = Vec::new();
    let n = draws.len();
    let mut k: usize = 0;
    assert(0 * width == 0) by (nonlinear_arith);
    for x in 0..height
        invariant
            n == draws@.len() == width * height,
            b == board_of_draws(draws@, width as nat, height as nat),
            k == x * width,
            grid@.len() == x,
            forall|i: int| 0 <= i < x ==> #[trigger] grid@[i]@.len() == width,
            forall|i: int, j: int|
                0 <= i < x && 0 <= j < width ==> #[trigger] grid@[i]@[j]@ == b[i][j],
    {
        let mut row: Vec<Cell> = Vec::new();
        for y in 0..width
            invariant
                n == draws@.len() == width * height,
                b == board_of_draws(draws@, width as nat, height as nat),
                x < height,
                k == x * width + y,
                row@.len() == y,
                forall|j: int| 0 <= j < y ==> #[trigger] row@[j]@ == b[x as int][j],
        {
            proof {
                lemma_draw_index(x as int, y as int, width as int, height as int);
            }
            row.push(Cell::new(draws[k]));
            k = k + 1;
        }
        assert((x + 1) * width == x * width + width) by (nonlinear_arith);
        grid.push(row);
    }
    assert(board_of(grid@) =~~= b);
    grid
}

/// Fills `height` rows of `width` cells, row after row, each drawn alive with
/// chance `density` from a generator seeded with `seed`. A density that is
/// not a probability is refused.
pub fn random_grid(seed: u64, density: Density, width: usize, height: usize) -> (r: Result<
    Vec<Vec<Cell>>,
    Error,
>)
    ensures
        !density.is_valid() ==> r == Err::<Vec<Vec<Cell>>, Error>(
            Error::InvalidParameter(Parameter::Density),
        ),
        density.is_valid() ==> (r matches Ok(g) && is_random_board(
            board_of(g@),
            density,
            width as nat,
            height as nat,
        )),
{
    if !density.is_probability() {
        return Err(Error::InvalidParameter(Parameter::Density));
    }
    let numerator = density.numerator as u32;
    let denominator = density.denominator as u32;
    let mut rng = seeded_rng(seed);
    let mut draws: Vec<bool> = Vec::new();
    assert(0 * width == 0) by (nonlinear_arith);
    for x in 0..height
        invariant
            0 < denominator,
            numerator <= denominator,
            draws@.len() == x * width,
            forall|i: int| 0 <= i < draws@.len() && numerator == 0 ==> !#[trigger] draws@[i],
            forall|i: int| 0 <= i < draws@.len() && numerator == denominator ==> #[trigger] draws@[i],
    {
        for y in 0..width
            invariant
                0 < denominator,
                numerator <= denominator,
                draws@.len() == x * width + y,
                forall|i: int| 0 <= i < draws@.len() && numerator == 0 ==> !#[trigger] draws@[i],
                forall|i: int| 0 <= i < draws@.len() && numerator == denominator ==> #[trigger] draws@[i],
        {
            let alive = draw_ratio(&mut rng, numerator, denominator);
            draws.push(alive);
        }
        assert((x + 1) * width == x * width + width) by (nonlinear_arith);
    }
    assert(height * width == width * height) by (nonlinear_arith);
    let grid = grid_of_draws(&draws, width, height);
    assert(board_of(grid@) == board_of_draws(draws@, width as nat, height as nat));
    proof {
        let b = board_of(grid@);
        assert forall|x: int, y: int| 0 <= x < b.len() && 0 <= y < b[x].len() implies #[trigger] b[x][y]
            == draws@[x * width + y] && 0 <= x * width + y < draws@.len() by {
            lemma_draw_index(x, y, width as int, height as int);
        }
    }
    Ok(grid)
}

} // verus!
