//! Pointer events and the capture rectangle a drag gesture selects.

use vstd::prelude::*;

verus! {

/// A pointer event as the input observer delivers it. `Press` and `Release`
/// carry no position of their own; the tracker remembers the last `Move`.
#[derive(Clone, Copy, PartialEq, Eq, Structural, Debug)]
pub enum PointerEvent {
    Move { x: i32, y: i32 },
    Press,
    Release,
}

/// A validated capture rectangle: origin at the component-wise minimum of the
/// two drag endpoints, extents their absolute differences. Never degenerate.
#[derive(Clone, Copy, PartialEq, Eq, Structural, Debug)]
pub struct SelectionRect {
    pub origin_x: i32,
    pub origin_y: i32,
    pub width: u32,
    pub height: u32,
}

impl SelectionRect {
    /// A rectangle is well formed when neither extent is zero.
    pub open spec fn wf(self) -> bool {
        self.width > 0 && self.height > 0
    }
}

/// The rectangle a drag from (sx, sy) to (ex, ey) selects: none when the drag
/// has zero span on either axis, otherwise the normalized rectangle.
pub open spec fn spec_rect_of_drag(sx: int, sy: int, ex: int, ey: int) -> Option<SelectionRect> {
    if sx == ex || sy == ey {
        None
    } else {
        Some(SelectionRect {
            origin_x: (if sx <= ex { sx } else { ex }) as i32,
            origin_y: (if sy <= ey { sy } else { ey }) as i32,
            width: (if sx <= ex { ex - sx } else { sx - ex }) as u32,
            height: (if sy <= ey { ey - sy } else { sy - ey }) as u32,
        })
    }
}

/// Normalize a drag into a capture rectangle, or nothing for a degenerate
/// drag (a cancelled gesture, not an error).
pub fn rect_of_drag(sx: i32, sy: i32, ex: i32, ey: i32) -> (r: Option<SelectionRect>)
    ensures
        r == spec_rect_of_drag(sx as int, sy as int, ex as int, ey as int),
        r matches Some(rect) ==> rect.wf(),
{
    if sx == ex || sy == ey {
        None
    } else {
        let ox = if sx <= ex { sx } else { ex };
        let oy = if sy <= ey { sy } else { ey };
        let wide: i64 = if sx <= ex {
            ex as i64 - sx as i64
        } else {
            sx as i64 - ex as i64
        };
        let tall: i64 = if sy <= ey {
            ey as i64 - sy as i64
        } else {
            sy as i64 - ey as i64
        };
        Some(SelectionRect {
            origin_x: ox,
            origin_y: oy,
            width: wide as u32,
            height: tall as u32,
        })
    }
}

} // verus!
