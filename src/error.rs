use vstd::prelude::*;

verus! {

/// A configuration value outside its domain.
#[derive(Clone, Copy, Debug, PartialEq, Eq, Structural)]
pub enum Parameter {
    /// The density of a random grid is not a probability.
    Density,
    /// The speed is zero ticks per second.
    Speed,
}

/// Why a pattern text could not be read.
#[derive(Clone, Debug, PartialEq, Eq)]
pub enum PatternFormatError {
    /// The text holds no line that could open a pattern.
    UnknownFormat,
    /// No line of a plaintext pattern describes a row.
    NoRows,
    /// A run-length encoded pattern holds a number too large to decode:
    /// header numbers whose product passes `isize::MAX`, or a repeat count
    /// above a billion less one.
    NumberTooLarge,
    /// The run-length decoder refused the text, with its message.
    Rle(String),
}

/// The failures of building a session.
#[derive(Clone, Debug, PartialEq, Eq)]
pub enum Error {
    InvalidParameter(Parameter),
    /// The pattern does not fit into the grid.
    PatternTooLarge {
        pattern_width: usize,
        pattern_height: usize,
        grid_width: usize,
        grid_height: usize,
    },
    PatternFormat(PatternFormatError),
    /// A color is not three decimal components from 0 to 255.
    InvalidColorFormat,
}

} // verus!
