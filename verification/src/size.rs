//! The capacity of a window or of the terminal, in character cells.

use vstd::prelude::*;

verus! {

#[derive(Clone, Copy, Debug, PartialEq, Eq, Structural)]
pub struct Size {
    pub width: u16,
    pub height: u16,
}

impl Default for Size {
    fn default() -> (r: Self)
        ensures
            r.width == 0 && r.height == 0,
    {
        Size { width: 0, height: 0 }
    }
}

} // verus!
