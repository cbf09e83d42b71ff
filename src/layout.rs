//! Rectangles of terminal cells.
use vstd::prelude::*;

verus! {

#[derive(Clone, Copy, Debug, PartialEq, Eq, Structural)]
pub struct Rect {
    pub x: u16,
    pub y: u16,
    pub width: u16,
    pub height: u16,
}

/// `area` moved by the offsets, widened by `width_sub`, and lowered by
/// `height_sub` rows (to no less than zero).
pub fn shrink(area: Rect, x_offset: u16, y_offset: u16, width_sub: u16, height_sub: u16) -> (r: Rect)
    requires
        area.x + x_offset <= u16::MAX,
        area.y + y_offset <= u16::MAX,
        area.width + width_sub <= u16::MAX,
    ensures
        r.x == area.x + x_offset,
        r.y == area.y + y_offset,
        r.width == area.width + width_sub,
        r.height == if area.height >= height_sub {
            area.height - height_sub
        } else {
            0
        },
{
    Rect {
        x: area.x + x_offset,
        y: area.y + y_offset,
        width: area.width + width_sub,
        height: if area.height >= height_sub {
            area.height - height_sub
        } else {
            0
        },
    }
}

} // verus!
