//! A two-component fixed-point vector.

use vstd::prelude::*;

use crate::num::in_dom;

verus! {

/// A 2D vector in milli-units.
#[derive(Debug, Clone, Copy, PartialEq, Eq, Structural)]
pub struct Vec2 {
    pub x: i64,
    pub y: i64,
}

/// Both components lie in the fixed-point domain.
pub open spec fn v_in_dom(v: Vec2) -> bool {
    in_dom(v.x as int) && in_dom(v.y as int)
}

/// Build a vector from its components.
pub fn vec2(x: i64, y: i64) -> (r: Vec2)
    ensures
        r == (Vec2 { x, y }),
{
    Vec2 { x, y }
}

} // verus!
