use vstd::prelude::*;

use crate::decode::decoded;
use crate::error::{Error, Parameter};
use crate::generation::board_of;
use crate::parser::{centered_board, import_pattern};
use crate::random::{is_random_board, random_grid, Density};
use crate::universe::{Marker, Size, Universe, UniverseView};

verus! {

/// Generations per second when none is configured.
pub const DEFAULT_SPEED: u32 = 30;

/// The seed of a random grid when none is configured.
pub const DEFAULT_SEED: u64 = 1;

/// How the first grid of a session is made.
#[derive(Clone, Debug)]
pub enum UniverseInitialization {
    /// Cells drawn at random from a seeded generator.
    Random { seed: u64, density: Density },
    /// The contents of a pattern file.
    File(String),
    /// Pattern text piped to standard input.
    Stdin(String),
}

/// Collects a session's configuration, then builds it.
pub struct UniverseBuilder {
    size: Size,
    speed: u32,
    color: String,
    initialization: UniverseInitialization,
}

/// What building from this configuration gives: a running session of the
/// configured size, speed and color with the Block marker, whose grid the
/// initialization makes; or the error that refuses the configuration.
pub open spec fn built(
    size: Size,
    speed: u32,
    color: Seq<char>,
    init: UniverseInitialization,
    r: Result<Universe, Error>,
) -> bool {
    let width = size.width as nat;
    let height = size.height as nat;
    let fresh = |grid: Seq<Seq<bool>>|
        UniverseView {
            speed: speed as nat,
            grid,
            marker: Marker::Block,
            color,
            exit: false,
            width,
            height,
        };
    if speed == 0 {
        r matches Err(Error::InvalidParameter(Parameter::Speed))
    } else {
        match init {
            UniverseInitialization::Random { seed, density } => if !density.is_valid() {
                r matches Err(Error::InvalidParameter(Parameter::Density))
            } else {
                r matches Ok(u) && u.wf() && u@ == fresh(u@.grid) && is_random_board(
                    u@.grid,
                    density,
                    width,
                    height,
                )
            },
            UniverseInitialization::File(text) | UniverseInitialization::Stdin(text) => match decoded(
                text@,
            ) {
                None => r matches Err(Error::PatternFormat(_)),
                Some(p) => if p.width > width || p.height > height {
                    r matches Err(
                        Error::PatternTooLarge {
                            pattern_width,
                            pattern_height,
                            grid_width,
                            grid_height,
                        },
                    ) && pattern_width == p.width && pattern_height == p.height && grid_width
                        == width && grid_height == height
                } else {
                    r matches Ok(u) && u.wf() && u@ == fresh(
                        centered_board(p, width as int, height as int),
                    )
                },
            },
        }
    }
}

impl UniverseBuilder {
    /// A configuration for a grid of `size`; what is not given takes its
    /// default: 30 generations per second, the color "255,255,255", and a
    /// random grid with seed 1 and density one half.
    pub fn new(
        size: Size,
        speed: Option<u32>,
        seed: Option<u64>,
        density: Option<Density>,
        color: Option<String>,
    ) -> (r: Self)
        ensures
            r.spec_size() == size,
            r.spec_speed() == match speed {
                Some(s) => s,
                None => DEFAULT_SPEED,
            },
            r.spec_color() == match color {
                Some(c) => c@,
                None => "255,255,255"@,
            },
            r.spec_initialization() == (UniverseInitialization::Random {
                seed: match seed {
                    Some(s) => s,
                    None => DEFAULT_SEED,
                },
                density: match density {
                    Some(d) => d,
                    None => Density { numerator: 1, denominator: 2 },
                },
            }),
    {
        let speed = match speed {
            Some(s) => s,
            None => DEFAULT_SPEED,
        };
        let color = match color {
            Some(c) => c,
            None => "255,255,255".to_owned(),
        };
        let seed = match seed {
            Some(s) => s,
            None => DEFAULT_SEED,
        };
        let density = match density {
            Some(d) => d,
            None => Density::new(1, 2),
        };
        Self {
            size,
            speed,
            color,
            initialization: UniverseInitialization::Random { seed, density },
        }
    }

    pub closed spec fn spec_size(&self) -> Size {
        self.size
    }

    pub closed spec fn spec_speed(&self) -> u32 {
        self.speed
    }

    pub closed spec fn spec_color(&self) -> Seq<char> {
        self.color@
    }

    pub closed spec fn spec_initialization(&self) -> UniverseInitialization {
        self.initialization
    }

    /// Sets the generations per second.
    pub fn speed(self, speed: u32) -> (r: Self)
        ensures
            r.spec_speed() == speed,
            r.spec_size() == self.spec_size(),
            r.spec_color() == self.spec_color(),
            r.spec_initialization() == self.spec_initialization(),
    {
        let mut b = self;
        b.speed = speed;
        b
    }

    /// Sets the color string of live cells.
    pub fn color(self, color: String) -> (r: Self)
        ensures
            r.spec_color() == color@,
            r.spec_size() == self.spec_size(),
            r.spec_speed() == self.spec_speed(),
            r.spec_initialization() == self.spec_initialization(),
    {
        let mut b = self;
        b.color = color;
        b
    }

    /// Starts from a random grid.
    pub fn random(self, seed: u64, density: Density) -> (r: Self)
        ensures
            r.spec_initialization() == (UniverseInitialization::Random { seed, density }),
            r.spec_size() == self.spec_size(),
            r.spec_speed() == self.spec_speed(),
            r.spec_color() == self.spec_color(),
    {
        let mut b = self;
        b.initialization = UniverseInitialization::Random { seed, density };
        b
    }

    /// Starts from the pattern in the contents of a file.
    pub fn with_file(self, contents: String) -> (r: Self)
        ensures
            r.spec_initialization() == UniverseInitialization::File(contents),
            r.spec_size() == self.spec_size(),
            r.spec_speed() == self.spec_speed(),
            r.spec_color() == self.spec_color(),
    {
        let mut b = self;
        b.initialization = UniverseInitialization::File(contents);
        b
    }

    /// Starts from the pattern in text read from standard input.
    pub fn with_stdin(self, input: String) -> (r: Self)
        ensures
            r.spec_initialization() == UniverseInitialization::Stdin(input),
            r.spec_size() == self.spec_size(),
            r.spec_speed() == self.spec_speed(),
            r.spec_color() == self.spec_color(),
    {
        let mut b = self;
        b.initialization = UniverseInitialization::Stdin(input);
        b
    }

    /// Builds the session: checks the speed, then makes the first grid as
    /// configured. Nothing is built when any of that fails.
    pub fn build(self) -> (r: Result<Universe, Error>)
        ensures
            built(
                self.spec_size(),
                self.spec_speed(),
                self.spec_color(),
                self.spec_initialization(),
                r,
            ),
    {
        if self.speed == 0 {
            return Err(Error::InvalidParameter(Parameter::Speed));
        }
        let width = self.size.width as usize;
        let height = self.size.height as usize;
        let grid = match &self.initialization {
            UniverseInitialization::Random { seed, density } => random_grid(
                *seed,
                *density,
                width,
                height,
            )?,
            UniverseInitialization::File(text) => import_pattern(text.as_str(), width, height)?,
            UniverseInitialization::Stdin(text) => import_pattern(text.as_str(), width, height)?,
        };
        proof {
            match self.initialization {
                UniverseInitialization::Random { .. } => {},
                UniverseInitialization::File(text) | UniverseInitialization::Stdin(text) => {
                    let p = decoded(text@)->Some_0;
                    assert(board_of(grid@) == centered_board(p, width as int, height as int));
                },
            }
        }
        Ok(Universe::new(self.size, self.speed, grid, false, Marker::Block, self.color))
    }
}

} // verus!
