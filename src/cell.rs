use vstd::prelude::*;

verus! {

/// One square of the grid, alive or dead.
#[derive(Clone, Copy, Debug, PartialEq, Eq)]
pub struct Cell {
    is_alive: bool,
}

impl View for Cell {
    type V = bool;

    /// A cell is seen as its state: `true` when alive.
    closed spec fn view(&self) -> bool {
        self.is_alive
    }
}

impl Cell {
    /// A dead cell.
    pub fn default() -> (r: Self)
        ensures
            !r@,
    {
        Self { is_alive: false }
    }

    pub fn new(is_alive: bool) -> (r: Self)
        ensures
            r@ == is_alive,
    {
        Self { is_alive }
    }

    pub fn is_alive(&self) -> (r: bool)
        ensures
            r == self@,
    {
        self.is_alive
    }

    pub fn set_state(&mut self, is_alive: bool)
        ensures
            final(self)@ == is_alive,
    {
        self.is_alive = is_alive;
    }
}

} // verus!
