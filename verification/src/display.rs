//! Native display geometry reported with a screen preview.
use vstd::prelude::*;

use crate::platform::Platform;

verus! {

/// Geometry of a display in the platform's native coordinate space.
#[derive(Debug, Clone, Copy, PartialEq, Eq)]
pub struct DisplayFrame {
    /// "logical" (points, macOS) or "physical" (pixels, elsewhere).
    pub coordinate_space: &'static str,
    pub x: i32,
    pub y: i32,
    pub width: u32,
    pub height: u32,
}

/// A display: its native identity (never an enumeration index) and frame.
#[derive(Debug, Clone, Copy, PartialEq, Eq)]
pub struct Display {
    pub id: u32,
    pub frame: DisplayFrame,
}

/// Display geometry is in points on macOS and in pixels elsewhere.
pub open spec fn spec_coordinate_space(platform: Platform) -> Seq<char> {
    if platform == Platform::MacOs {
        "logical"@
    } else {
        "physical"@
    }
}

/// The coordinate space the platform reports display geometry in.
pub fn coordinate_space(platform: Platform) -> (r: &'static str)
    ensures
        r@ == spec_coordinate_space(platform),
{
    if platform == Platform::MacOs {
        "logical"
    } else {
        "physical"
    }
}

/// Describe a monitor from its native id and geometry.
pub fn describe(platform: Platform, id: u32, x: i32, y: i32, width: u32, height: u32) -> (r: Display)
    ensures
        r.id == id,
        r.frame.coordinate_space@ == spec_coordinate_space(platform),
        r.frame.x == x,
        r.frame.y == y,
        r.frame.width == width,
        r.frame.height == height,
{
    Display { id, frame: DisplayFrame { coordinate_space: coordinate_space(platform), x, y, width, height } }
}

} // verus!
