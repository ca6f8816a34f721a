//! Conway's Game of Life on a bounded grid: cells, the generation rule,
//! pattern import with centering, and the decisions of an interactive session.

pub mod cell;
pub mod generation;
pub mod text;
pub mod error;
pub mod pattern;
pub mod decode;
pub mod parser;
pub mod file_parser;
pub mod color;
pub mod random;
pub mod universe;
pub mod universe_builder;
