//! A coordinate pair, used both for window-local cursor positions and for
//! absolute document or screen coordinates; callers translate between the
//! two through a window's visible-area offset.

use vstd::prelude::*;

verus! {

#[derive(Clone, Copy, Debug, PartialEq, Eq, Structural)]
pub struct Position {
    pub x: usize,
    pub y: usize,
}

impl Default for Position {
    fn default() -> (r: Self)
        ensures
            r.x == 0 && r.y == 0,
    {
        Position { x: 0, y: 0 }
    }
}

} // verus!
