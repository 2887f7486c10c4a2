//! The rectangular play field and its screen mapping.
//!
//! `x`/`y` are the left/top edges and `w`/`h` the right/bottom edges (far
//! coordinates, not extents).  One instance is created per session and read
//! by every entity that clamps positions or asks for the field center.  The
//! screen mapping scales the field uniformly to fit a window and centers
//! it; a ratio is a milli-scaled factor, so a ratio of `1000` maps one
//! field unit onto one screen unit.

use vstd::prelude::*;

use crate::num::clip;
use crate::num::clip_i128;
use crate::num::div_pos;
use crate::num::imin;
use crate::num::in_dom;
use crate::num::mul_i64;
use crate::num::tdiv;
use crate::num::tdiv_s;
use crate::num::tdiv_s_i128;
use crate::vec2::Vec2;
use crate::vec2::v_in_dom;

verus! {

/// An axis-aligned play field: `x < w` and `y < h` always hold.
#[derive(Debug, Clone, Copy, PartialEq, Eq, Structural)]
pub struct Bounds {
    pub x: i64,
    pub y: i64,
    pub w: i64,
    pub h: i64,
}

impl Bounds {
    /// The edges are ordered and lie in the fixed-point domain.
    pub open spec fn wf(self) -> bool {
        &&& in_dom(self.x as int)
        &&& in_dom(self.y as int)
        &&& in_dom(self.w as int)
        &&& in_dom(self.h as int)
        &&& self.w > self.x
        &&& self.h > self.y
    }

    /// The horizontal scale factor that fits the field into a screen.
    pub open spec fn ratio_spec(self, screen: Vec2) -> int {
        imin(tdiv(screen.x as int * 1000, self.w as int), tdiv(screen.y as int * 1000, self.h as int))
    }

    /// The screen-space size of the scaled field.
    pub open spec fn screen_size_spec(self, screen: Vec2) -> (int, int) {
        (
            clip(tdiv(self.w as int * self.ratio_spec(screen), 1000)),
            clip(tdiv(self.h as int * self.ratio_spec(screen), 1000)),
        )
    }

    /// The screen-space offset that centers the scaled field.
    pub open spec fn screen_offset_spec(self, screen: Vec2) -> (int, int) {
        (
            clip(tdiv_s(screen.x as int - self.screen_size_spec(screen).0, 2)),
            clip(tdiv_s(screen.y as int - self.screen_size_spec(screen).1, 2)),
        )
    }

    /// Where a screen-space point lands in field coordinates.
    pub open spec fn to_local_spec(self, position: Vec2, screen: Vec2) -> (int, int) {
        (
            clip(tdiv_s((position.x as int - self.screen_offset_spec(screen).0) * 1000, self.ratio_spec(screen))),
            clip(tdiv_s((position.y as int - self.screen_offset_spec(screen).1) * 1000, self.ratio_spec(screen))),
        )
    }

    /// Build a play field from its four edges.
    pub fn new(x: i64, y: i64, w: i64, h: i64) -> (r: Bounds)
        requires
            in_dom(x as int),
            in_dom(y as int),
            in_dom(w as int),
            in_dom(h as int),
            w > x,
            h > y,
        ensures
            r == (Bounds { x, y, w, h }),
            r.wf(),
    {
        Bounds { x, y, w, h }
    }

    /// Horizontal extent of the field.
    pub fn width(&self) -> (r: i64)
        requires
            self.wf(),
        ensures
            r == self.w - self.x,
    {
        self.w - self.x
    }

    /// Vertical extent of the field.
    pub fn height(&self) -> (r: i64)
        requires
            self.wf(),
        ensures
            r == self.h - self.y,
    {
        self.h - self.y
    }

    /// The field center, measured from the left/top edge.
    pub fn center(&self) -> (r: Vec2)
        requires
            self.wf(),
        ensures
            r.x == (self.w - self.x) as int / 2,
            r.y == (self.h - self.y) as int / 2,
    {
        let x = div_pos(self.w - self.x, 2);
        let y = div_pos(self.h - self.y, 2);
        Vec2 { x, y }
    }

    /// The milli-scaled factor by which the field is stretched to fit the
    /// given screen size.
    pub fn screen_ratio(&self, screen: Vec2) -> (r: i64)
        requires
            self.wf(),
            self.w > 0,
            self.h > 0,
            screen.x >= 0,
            screen.y >= 0,
            v_in_dom(screen),
        ensures
            r == self.ratio_spec(screen),
            r >= 0,
    {
        let rx = div_pos(screen.x * 1000, self.w);
        let ry = div_pos(screen.y * 1000, self.h);
        if rx <= ry {
            rx
        } else {
            ry
        }
    }

    /// Screen-space size of the scaled field.
    pub fn screen_size(&self, screen: Vec2) -> (r: Vec2)
        requires
            self.wf(),
            self.w > 0,
            self.h > 0,
            screen.x >= 0,
            screen.y >= 0,
            v_in_dom(screen),
        ensures
            r.x == self.screen_size_spec(screen).0,
            r.y == self.screen_size_spec(screen).1,
    {
        let ratio = self.screen_ratio(screen);
        let sx = clip_i128(tdiv_s_i128(mul_i64(self.w, ratio), 1000));
        let sy = clip_i128(tdiv_s_i128(mul_i64(self.h, ratio), 1000));
        Vec2 { x: sx, y: sy }
    }

    /// Screen-space offset that centers the scaled field in the screen.
    pub fn screen_offset(&self, screen: Vec2) -> (r: Vec2)
        requires
            self.wf(),
            self.w > 0,
            self.h > 0,
            screen.x >= 0,
            screen.y >= 0,
            v_in_dom(screen),
        ensures
            r.x == self.screen_offset_spec(screen).0,
            r.y == self.screen_offset_spec(screen).1,
    {
        let size = self.screen_size(screen);
        let ox = clip_i128(tdiv_s_i128(screen.x as i128 - size.x as i128, 2));
        let oy = clip_i128(tdiv_s_i128(screen.y as i128 - size.y as i128, 2));
        Vec2 { x: ox, y: oy }
    }

    /// Map a screen-space point into field coordinates, undoing the scale
    /// and the centering offset.
    pub fn convert_to_local(&self, position: Vec2, screen: Vec2) -> (r: Vec2)
        requires
            self.wf(),
            self.w > 0,
            self.h > 0,
            screen.x >= 0,
            screen.y >= 0,
            v_in_dom(screen),
            v_in_dom(position),
            self.ratio_spec(screen) > 0,
        ensures
            r.x == self.to_local_spec(position, screen).0,
            r.y == self.to_local_spec(position, screen).1,
    {
        let ratio = self.screen_ratio(screen);
        let offset = self.screen_offset(screen);
        let lx = clip_i128(tdiv_s_i128(
            mul_i64(position.x - offset.x, 1000),
            ratio as i128,
        ));
        let ly = clip_i128(tdiv_s_i128(
            mul_i64(position.y - offset.y, 1000),
            ratio as i128,
        ));
        Vec2 { x: lx, y: ly }
    }
}

} // verus!
