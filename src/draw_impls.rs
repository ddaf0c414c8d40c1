//! The drawers that record a frame's commands.

use vstd::prelude::*;

verus! {

#[derive(Debug, Clone, Copy, PartialEq, Eq, Structural)]
pub struct TriangleDrawer {}

impl TriangleDrawer {
    pub fn new() -> (r: Self)
        ensures
            r == (TriangleDrawer {}),
    {
        TriangleDrawer {}
    }
}

#[derive(Debug, Clone, Copy, PartialEq, Eq, Structural)]
pub enum DrawImpl {
    Triangle(TriangleDrawer),
}

/// The renderer that clears each frame to a pulsing color.
#[derive(Debug, Clone, Copy, PartialEq, Eq, Structural)]
pub struct ColorSine {}

impl ColorSine {
    pub fn new() -> (r: Self)
        ensures
            r == (ColorSine {}),
    {
        ColorSine {}
    }
}

} // verus!
