//! Windows shown on the pixel-addressed display.

use vstd::prelude::*;

verus! {

/// A pixel position: x, then y.
pub type Coord = (isize, isize);

/// A rectangle on screen: its top-left and its bottom-right corner.
pub type Geometry = (Coord, Coord);

/// A framed, titled window.
#[derive(Clone, Copy, PartialEq, Eq, Debug)]
pub struct Window {
    pub geometry: Geometry,
    pub title: &'static str,
}

impl Window {
    /// The window that the graphical terminal shows.
    pub fn new() -> (r: Window)
        ensures
            r.geometry == ((80isize, 60isize), (540isize, 420isize)),
            r.title@ == "Test window"@,
    {
        Window { geometry: ((80, 60), (540, 420)), title: "Test window" }
    }
}

} // verus!
