//! The target rectangle and the cell writes the renderer produces.

use vstd::prelude::*;

verus! {

/// A rectangle of grid cells: origin and size, in cell units. Width or
/// height may be zero; such a degenerate region renders nothing.
#[derive(Clone, Copy, Debug, PartialEq, Eq, Structural)]
pub struct Region {
    pub x: u16,
    pub y: u16,
    pub width: u16,
    pub height: u16,
}

impl Region {
    /// The region fits inside the grid's `u16` coordinate space.
    pub open spec fn wf(self) -> bool {
        self.x + self.width <= u16::MAX + 1 && self.y + self.height <= u16::MAX + 1
    }

    /// A region from its origin and size.
    pub fn new(x: u16, y: u16, width: u16, height: u16) -> (r: Region)
        requires
            x + width <= u16::MAX + 1,
            y + height <= u16::MAX + 1,
        ensures
            r == (Region { x, y, width, height }),
            r.wf(),
    {
        Region { x, y, width, height }
    }

}

/// The symbol written into one grid cell.
#[derive(Clone, Copy, Debug, PartialEq, Eq)]
pub enum Glyph {
    /// A cell of the plotted line.
    Star,
    /// A horizontal line piece: the bottom axis or a box border.
    LineHorizontal,
    /// A vertical line piece: the left axis or a box border.
    LineVertical,
    /// The corner cross where the two axes meet.
    AxisCross,
    /// The corners of the equation box border.
    CornerTopLeft,
    CornerTopRight,
    CornerBottomLeft,
    CornerBottomRight,
    /// A text character of a label, the box title or the equation text,
    /// held as its Unicode scalar value.
    Text(u32),
}

/// One illuminated grid cell: an absolute position and the symbol to show.
/// Writes later in a render's output overwrite earlier ones on the same cell.
#[derive(Clone, Copy, Debug, PartialEq, Eq)]
pub struct CellWrite {
    pub x: u16,
    pub y: u16,
    pub glyph: Glyph,
}

} // verus!
