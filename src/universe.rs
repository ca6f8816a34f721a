use vstd::prelude::*;

use crate::cell::Cell;
use crate::color::{color_of, color_or_default, Color};
use crate::decode::decoded;
use crate::error::{Error, Parameter};
use crate::generation::{board_of, has_size, next_board, next_generation};
use crate::parser::{centered_board, Parser};
use crate::random::{is_random_board, random_grid, Density};

verus! {

/// The drawing area, in terminal cells.
#[derive(Clone, Copy, Debug, PartialEq, Eq, Structural)]
pub struct Size {
    pub width: u16,
    pub height: u16,
}

/// The glyph with which live cells are drawn.
#[derive(Clone, Copy, Debug, PartialEq, Eq, Structural)]
pub enum Marker {
    Dot,
    Braille,
    Block,
    HalfBlock,
    Bar,
}

/// The marker after `m` in the fixed cycle Dot, Braille, Block, HalfBlock, Bar.
pub open spec fn next_marker(m: Marker) -> Marker {
    match m {
        Marker::Dot => Marker::Braille,
        Marker::Braille => Marker::Block,
        Marker::Block => Marker::HalfBlock,
        Marker::HalfBlock => Marker::Bar,
        Marker::Bar => Marker::Dot,
    }
}

impl Marker {
    pub fn next(self) -> (r: Marker)
        ensures
            r == next_marker(self),
    {
        match self {
            Marker::Dot => Marker::Braille,
            Marker::Braille => Marker::Block,
            Marker::Block => Marker::HalfBlock,
            Marker::HalfBlock => Marker::Bar,
            Marker::Bar => Marker::Dot,
        }
    }
}

/// The key of a key event.
#[derive(Clone, Copy, Debug, PartialEq, Eq, Structural)]
pub enum KeyCode {
    Char(char),
    Enter,
    Other,
}

/// Whether a key went down, repeats or came up.
#[derive(Clone, Copy, Debug, PartialEq, Eq, Structural)]
pub enum KeyEventKind {
    Press,
    Repeat,
    Release,
}

#[derive(Clone, Copy, Debug, PartialEq, Eq, Structural)]
pub struct KeyEvent {
    pub code: KeyCode,
    pub kind: KeyEventKind,
}

/// A session: the current grid and how it is drawn and advanced.
pub struct Universe {
    speed: u32,
    grid: Vec<Vec<Cell>>,
    marker: Marker,
    color: String,
    exit: bool,
    size: Size,
}

/// A session as plain values.
pub struct UniverseView {
    /// Generations per second.
    pub speed: nat,
    pub grid: Seq<Seq<bool>>,
    pub marker: Marker,
    pub color: Seq<char>,
    pub exit: bool,
    pub width: nat,
    pub height: nat,
}

impl View for Universe {
    type V = UniverseView;

    closed spec fn view(&self) -> UniverseView {
        UniverseView {
            speed: self.speed as nat,
            grid: board_of(self.grid@),
            marker: self.marker,
            color: self.color@,
            exit: self.exit,
            width: self.size.width as nat,
            height: self.size.height as nat,
        }
    }
}

/// The session after a key event: a press of `q` ends it, a press of Enter
/// moves to the next marker, anything else changes nothing.
pub open spec fn after_key(u: UniverseView, key: KeyEvent) -> UniverseView {
    if key.kind != KeyEventKind::Press {
        u
    } else {
        match key.code {
            KeyCode::Char('q') => UniverseView { exit: true, ..u },
            KeyCode::Enter => UniverseView { marker: next_marker(u.marker), ..u },
            _ => u,
        }
    }
}

/// The session one generation later.
pub open spec fn advanced(u: UniverseView) -> UniverseView {
    UniverseView { grid: next_board(u.grid), ..u }
}

/// The time between two generations, in microseconds: a thousandth of a
/// second for each whole millisecond in `1000 / speed`.
pub open spec fn tick_interval(speed: nat) -> int {
    (1000int / speed as int) * 1000
}

/// The live cells as (row, column) pairs, row after row, left to right;
/// within row `x`, only columns before `n` are listed.
pub open spec fn alive_in_row(row: Seq<bool>, x: int, n: int) -> Seq<(usize, usize)>
    decreases n,
{
    if n <= 0 {
        Seq::empty()
    } else if row[n - 1] {
        alive_in_row(row, x, n - 1).push((x as usize, (n - 1) as usize))
    } else {
        alive_in_row(row, x, n - 1)
    }
}

/// The live cells of the first `m` rows, row after row, left to right.
pub open spec fn alive_upto(b: Seq<Seq<bool>>, m: int) -> Seq<(usize, usize)>
    decreases m,
{
    if m <= 0 {
        Seq::empty()
    } else {
        alive_upto(b, m - 1) + alive_in_row(b[m - 1], m - 1, b[m - 1].len() as int)
    }
}

/// The live cells of the board, row after row, left to right.
pub open spec fn alive_coords(b: Seq<Seq<bool>>) -> Seq<(usize, usize)> {
    alive_upto(b, b.len() as int)
}

impl Universe {
    /// The grid has the session's size and the speed is positive.
    pub open spec fn wf(&self) -> bool {
        &&& self@.speed > 0
        &&& has_size(self@.grid, self@.width, self@.height)
    }

    pub fn new(
        size: Size,
        speed: u32,
        grid: Vec<Vec<Cell>>,
        exit: bool,
        marker: Marker,
        color: String,
    ) -> (r: Self)
        requires
            speed > 0,
            has_size(board_of(grid@), size.width as nat, size.height as nat),
        ensures
            r.wf(),
            r@ == (UniverseView {
                speed: speed as nat,
                grid: board_of(grid@),
                marker,
                color: color@,
                exit,
                width: size.width as nat,
                height: size.height as nat,
            }),
    {
        Self { speed, grid, marker, color, exit, size }
    }

    /// Fills the grid at random: each cell alive with chance `density`, drawn
    /// from a generator seeded with `seed`. A density that is not a
    /// probability is refused and leaves the session as it was.
    pub fn init_random(&mut self, seed: u64, density: Density) -> (r: Result<(), Error>)
        requires
            old(self).wf(),
        ensures
            final(self).wf(),
            !density.is_valid() ==> r == Err::<(), Error>(
                Error::InvalidParameter(Parameter::Density),
            ) && final(self)@ == old(self)@,
            density.is_valid() ==> r is Ok && final(self)@ == (UniverseView {
                grid: final(self)@.grid,
                ..old(self)@
            }) && is_random_board(final(self)@.grid, density, old(self)@.width, old(self)@.height),
    {
        let width = self.size.width as usize;
        let height = self.size.height as usize;
        let grid = random_grid(seed, density, width, height)?;
        self.set_grid(grid);
        Ok(())
    }

    /// Reads a pattern text and installs it centred in the grid. A text that
    /// cannot be decoded, or a pattern larger than the grid, is refused and
    /// leaves the session as it was.
    pub fn parse(&mut self, input: &str) -> (r: Result<(), Error>)
        requires
            old(self).wf(),
        ensures
            final(self).wf(),
            r is Err ==> final(self)@ == old(self)@,
            match decoded(input@) {
                None => r matches Err(Error::PatternFormat(_)),
                Some(p) => if p.width > old(self)@.width || p.height > old(self)@.height {
                    r == Err::<(), Error>(
                        Error::PatternTooLarge {
                            pattern_width: p.width as usize,
                            pattern_height: p.height as usize,
                            grid_width: old(self)@.width as usize,
                            grid_height: old(self)@.height as usize,
                        },
                    )
                } else {
                    r is Ok && final(self)@ == (UniverseView {
                        grid: centered_board(p, old(self)@.width as int, old(self)@.height as int),
                        ..old(self)@
                    })
                },
            },
    {
        let mut parser = Parser::new(self.size.width as usize, self.size.height as usize);
        let grid = parser.parse(input)?;
        proof {
            let p = decoded(input@)->Some_0;
            assert(has_size(
                centered_board(p, self@.width as int, self@.height as int),
                self@.width,
                self@.height,
            ));
        }
        self.set_grid(grid);
        Ok(())
    }

    /// Applies a key event: `q` ends the session, Enter cycles the marker;
    /// only presses count.
    pub fn handle_key_press(&mut self, key: KeyEvent)
        ensures
            final(self)@ == after_key(old(self)@, key),
            old(self).wf() ==> final(self).wf(),
            old(self)@.exit ==> final(self)@.exit,
    {
        if key.kind != KeyEventKind::Press {
            return ;
        }
        match key.code {
            KeyCode::Char('q') => self.exit = true,
            KeyCode::Enter => {
                self.marker = self.marker.next();
            },
            _ => {},
        }
    }

    /// Applies the rules of Life to each cell of the grid: the next generation,
    /// in a fresh grid.
    pub fn compute_next_generation(&self) -> (r: Vec<Vec<Cell>>)
        requires
            self.wf(),
        ensures
            board_of(r@) == next_board(self@.grid),
    {
        next_generation(&self.grid)
    }

    fn set_grid(&mut self, grid: Vec<Vec<Cell>>)
        requires
            old(self).wf(),
            has_size(board_of(grid@), old(self)@.width, old(self)@.height),
        ensures
            final(self).wf(),
            final(self)@ == (UniverseView { grid: board_of(grid@), ..old(self)@ }),
    {
        self.grid = grid;
    }

    /// Replaces the grid by its next generation.
    pub fn advance(&mut self)
        requires
            old(self).wf(),
        ensures
            final(self).wf(),
            final(self)@ == advanced(old(self)@),
    {
        let grid = self.compute_next_generation();
        self.set_grid(grid);
    }

    /// The time between two generations, in microseconds.
    pub fn tick_interval_micros(&self) -> (r: u64)
        requires
            self.wf(),
        ensures
            r == tick_interval(self@.speed),
    {
        (1000 / self.speed as u64) * 1000
    }

    /// How long to wait for input when `elapsed_micros` have passed since the
    /// last generation: what is left of the interval, or nothing.
    pub fn poll_timeout_micros(&self, elapsed_micros: u64) -> (r: u64)
        requires
            self.wf(),
        ensures
            r == if elapsed_micros >= tick_interval(self@.speed) {
                0
            } else {
                tick_interval(self@.speed) - elapsed_micros
            },
    {
        let interval = self.tick_interval_micros();
        if elapsed_micros >= interval {
            0
        } else {
            interval - elapsed_micros
        }
    }

    /// One turn of the session loop: applies the key event that arrived, if
    /// any, then advances the grid when `elapsed_micros` since the last
    /// generation have reached the interval. Returns whether it advanced, so
    /// that the caller restarts its clock.
    pub fn step(&mut self, key: Option<KeyEvent>, elapsed_micros: u64) -> (ticked: bool)
        requires
            old(self).wf(),
        ensures
            final(self).wf(),
            ticked == (elapsed_micros >= tick_interval(old(self)@.speed)),
            old(self)@.exit ==> final(self)@.exit,
            ({
                let keyed = match key {
                    Some(k) => after_key(old(self)@, k),
                    None => old(self)@,
                };
                final(self)@ == if ticked {
                    advanced(keyed)
                } else {
                    keyed
                }
            }),
    {
        if let Some(k) = key {
            self.handle_key_press(k);
        }
        if elapsed_micros >= self.tick_interval_micros() {
            self.advance();
            true
        } else {
            false
        }
    }

    /// Whether a quit key has ended the session.
    pub fn should_exit(&self) -> (r: bool)
        ensures
            r == self@.exit,
    {
        self.exit
    }

    pub fn marker(&self) -> (r: Marker)
        ensures
            r == self@.marker,
    {
        self.marker
    }

    pub fn size(&self) -> (r: Size)
        ensures
            r.width == self@.width,
            r.height == self@.height,
    {
        self.size
    }

    pub fn grid(&self) -> (r: &Vec<Vec<Cell>>)
        ensures
            board_of(r@) == self@.grid,
    {
        &self.grid
    }

    /// The color in which to draw live cells: the configured one, or white
    /// where the configured string is malformed.
    pub fn render_color(&self) -> (r: Color)
        ensures
            r == match color_of(self@.color) {
                Some((red, green, blue)) => Color::Rgb(red, green, blue),
                None => Color::White,
            },
    {
        color_or_default(self.color.as_str())
    }

    /// The live cells as (row, column) pairs, row after row, left to right.
    pub fn alive_cells(&self) -> (r: Vec<(usize, usize)>)
        ensures
            r@ == alive_coords(self@.grid),
    {
        let ghost b = self@.grid;
        let mut r: Vec<(usize, usize)> = Vec::new();
        for x in 0..self.grid.len()
            invariant
                b == board_of(self.grid@),
                r@ == alive_upto(b, x as int),
        {
            let row = &self.grid[x];
            for y in 0..row.len()
                invariant
                    b == board_of(self.grid@),
                    x < b.len(),
                    row@ == self.grid@[x as int]@,
                    r@ == alive_upto(b, x as int) + alive_in_row(b[x as int], x as int, y as int),
            {
                if row[y].is_alive() {
                    r.push((x, y));
                }
                assert(r@ =~= alive_upto(b, x as int) + alive_in_row(b[x as int], x as int, y + 1));
            }
        }
        r
    }
}

} // verus!
