use vstd::prelude::*;

use crate::cell::Cell;
use crate::decode::decoded;
use crate::error::Error;
use crate::parser::{import_pattern, placed};

verus! {

/// Reads the contents of pattern files into grids of a fixed size.
pub struct FileParser {
    width: usize,
    height: usize,
}

impl FileParser {
    pub fn new(width: usize, height: usize) -> (r: Self)
        ensures
            r.width() == width,
            r.height() == height,
    {
        FileParser { width, height }
    }

    pub closed spec fn width(&self) -> usize {
        self.width
    }

    pub closed spec fn height(&self) -> usize {
        self.height
    }

    /// Decodes the contents of a plaintext or run-length encoded pattern file
    /// and centres the pattern in this parser's grid size.
    pub fn parse_text(&mut self, contents: &str) -> (r: Result<Vec<Vec<Cell>>, Error>)
        ensures
            *final(self) == *old(self),
            match decoded(contents@) {
                None => r matches Err(Error::PatternFormat(_)),
                Some(p) => placed(p, old(self).width() as int, old(self).height() as int, r),
            },
    {
        import_pattern(contents, self.width, self.height)
    }
}

} // verus!
