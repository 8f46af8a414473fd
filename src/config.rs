use vstd::prelude::*;

verus! {

/// Edge of the screen that the bar is drawn along.
#[derive(Clone, Copy, Debug, PartialEq, Eq, Structural)]
pub enum Position {
    Top,
    Bottom,
}

/// Placement of the bar, in pixels, relative to the screen's origin; used to
/// place one bar per monitor.
#[derive(Clone, Copy, Debug, PartialEq, Eq, Structural)]
pub struct Offset {
    pub x: i16,
    pub y: i16,
}

impl Default for Offset {
    fn default() -> (r: Offset)
        ensures
            r == (Offset { x: 0, y: 0 }),
    {
        Offset { x: 0, y: 0 }
    }
}

} // verus!
