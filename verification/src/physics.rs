//! Bodies, colliders, collision classification and bounce resolution.
//!
//! A `GameObject` carries position, velocity and acceleration together with
//! an axis-aligned bounding box.  Circles are stored as their bounding
//! square, anchored at the same top-left corner as at construction, and
//! only box overlap is ever tested — a deliberate simplification the AI
//! and the physics both accept.  The box is synchronized to the position
//! when the body moves; bounce resolution adjusts the position without
//! resynchronizing, so the box catches up on the next frame's move.
//!
//! Every mutating operation is described exactly, as a function from the
//! old state to the new one: `moved`, `bounce_fold` and `towards` below
//! are those functions.

use vstd::prelude::*;

use crate::bounds::Bounds;
use crate::num::FX_LIM;
use crate::num::clamp64;
use crate::num::clamp_i128;
use crate::num::clamp_s;
use crate::num::clip;
use crate::num::clip_i128;
use crate::num::div_pos;
use crate::num::imax;
use crate::num::imin;
use crate::num::in_dom;
use crate::num::mul_i64;
use crate::num::round1000;
use crate::num::round_thousand;
use crate::num::tdiv;
use crate::num::tdiv_i128;
use crate::vec2::Vec2;
use crate::vec2::v_in_dom;

verus! {

/// The shape of a collider: a rectangle's width and height, or a circle's
/// radius.
#[derive(Debug, Clone, Copy, PartialEq, Eq, Structural)]
pub enum ColliderType {
    Rectangle(i64, i64),
    Circle(i64),
}

/// The axis of a detected contact: `Vertical` for a top/bottom face hit,
/// `Horizontal` for a left/right face hit.
#[derive(Debug, Clone, Copy, PartialEq, Eq, Structural)]
pub enum CollisionType {
    Vertical,
    Horizontal,
}

/// An axis-aligned box: top-left corner and nonnegative extents.
#[derive(Debug, Clone, Copy, PartialEq, Eq, Structural)]
pub struct Rect {
    pub x: i64,
    pub y: i64,
    pub w: i64,
    pub h: i64,
}

/// A shape together with its materialized bounding box.
#[derive(Debug, Clone, Copy, PartialEq, Eq, Structural)]
pub struct Collider {
    pub shape: ColliderType,
    pub rect: Rect,
}

/// A body: kinematic state, a collider, and whether a ball bounced off it
/// should pick up spin from its movement.
#[derive(Debug, Clone, Copy, PartialEq, Eq, Structural)]
pub struct GameObject {
    pub position: Vec2,
    pub velocity: Vec2,
    pub acceleration: Vec2,
    pub collider: Collider,
    pub is_player: bool,
}

/// The box lies in the fixed-point domain and has nonnegative extents.
pub open spec fn rect_wf(r: Rect) -> bool {
    &&& in_dom(r.x as int)
    &&& in_dom(r.y as int)
    &&& in_dom(r.w as int)
    &&& in_dom(r.h as int)
    &&& r.w >= 0
    &&& r.h >= 0
}

/// The shape's extents lie in the fixed-point domain.
pub open spec fn shape_wf(s: ColliderType) -> bool {
    match s {
        ColliderType::Rectangle(w, h) => in_dom(w as int) && w >= 0 && in_dom(h as int) && h >= 0,
        ColliderType::Circle(r) => r >= 0 && in_dom(2 * r),
    }
}

/// The materialized box has the extents the shape dictates: a rectangle's
/// own, or the bounding square of a circle.
pub open spec fn collider_consistent(c: Collider) -> bool {
    match c.shape {
        ColliderType::Rectangle(w, h) => c.rect.w == w && c.rect.h == h,
        ColliderType::Circle(r) => c.rect.w == 2 * r && c.rect.h == 2 * r,
    }
}

/// Well-formedness of a body: every coordinate in the fixed-point domain,
/// the box consistent with the shape.  Established at construction and
/// preserved by every operation.
pub open spec fn obj_wf(o: GameObject) -> bool {
    &&& v_in_dom(o.position)
    &&& v_in_dom(o.velocity)
    &&& v_in_dom(o.acceleration)
    &&& rect_wf(o.collider.rect)
    &&& shape_wf(o.collider.shape)
    &&& collider_consistent(o.collider)
}

/// Width of the overlap rectangle of two boxes; negative when the boxes
/// are apart along X.
pub open spec fn inter_w(a: Rect, b: Rect) -> int {
    imin(a.x + a.w, b.x + b.w) - imax(a.x as int, b.x as int)
}

/// Height of the overlap rectangle of two boxes; negative when the boxes
/// are apart along Y.
pub open spec fn inter_h(a: Rect, b: Rect) -> int {
    imin(a.y + a.h, b.y + b.h) - imax(a.y as int, b.y as int)
}

/// Collision classification: no overlap rectangle means no collision;
/// an overlap narrower than tall is a side-by-side (`Horizontal`) contact,
/// and any other — equal extents included — a `Vertical` one.  The
/// width-against-height comparison is a deliberate tie-break, not exact
/// geometry: near-corner hits can classify either way, and behavior
/// depends on keeping it as it is.
pub open spec fn collision_of(a: Rect, b: Rect) -> Option<CollisionType> {
    if inter_w(a, b) >= 0 && inter_h(a, b) >= 0 {
        if inter_w(a, b) < inter_h(a, b) {
            Option::Some(CollisionType::Horizontal)
        } else {
            Option::Some(CollisionType::Vertical)
        }
    } else {
        Option::None
    }
}

/// Where a coordinate lands after moving at a velocity for a frame time:
/// milli-units per second times milliseconds, scaled back to milli-units.
pub open spec fn moved_pos(p: int, v: int, dt: int) -> int {
    clip(p + tdiv(v * dt, 1000))
}

/// The state of a body after one movement step: the position advances by
/// `velocity * dt` and the box is resynchronized to it.
pub open spec fn moved(o: GameObject, dt: int) -> GameObject {
    let px = moved_pos(o.position.x as int, o.velocity.x as int, dt) as i64;
    let py = moved_pos(o.position.y as int, o.velocity.y as int, dt) as i64;
    GameObject {
        position: Vec2 { x: px, y: py },
        velocity: o.velocity,
        acceleration: o.acceleration,
        collider: Collider {
            shape: o.collider.shape,
            rect: Rect { x: px, y: py, w: o.collider.rect.w, h: o.collider.rect.h },
        },
        is_player: o.is_player,
    }
}

impl Collider {
    /// Build a collider whose box starts at the given corner: a rectangle
    /// takes its extents directly, a circle materializes its bounding
    /// square from the same corner.
    pub fn new(x: i64, y: i64, shape: ColliderType) -> (r: Collider)
        requires
            in_dom(x as int),
            in_dom(y as int),
            shape_wf(shape),
        ensures
            r.shape == shape,
            r.rect.x == x,
            r.rect.y == y,
            collider_consistent(r),
            rect_wf(r.rect),
    {
        match shape {
            ColliderType::Rectangle(width, height) => Collider {
                shape,
                rect: Rect { x, y, w: width, h: height },
            },
            ColliderType::Circle(radius) => Collider {
                shape,
                rect: Rect { x, y, w: 2 * radius, h: 2 * radius },
            },
        }
    }

    /// Move the box so that its corner sits at the given position.
    pub fn update_pos(&mut self, position: Vec2)
        ensures
            *final(self) == (Collider {
                shape: old(self).shape,
                rect: Rect {
                    x: position.x,
                    y: position.y,
                    w: old(self).rect.w,
                    h: old(self).rect.h,
                },
            }),
    {
        self.rect.x = position.x;
        self.rect.y = position.y;
    }
}

impl GameObject {
    /// A body at rest at the given position, with a fresh collider there.
    pub fn from_pos(x: i64, y: i64, shape: ColliderType) -> (r: GameObject)
        requires
            in_dom(x as int),
            in_dom(y as int),
            shape_wf(shape),
        ensures
            r.position == (Vec2 { x, y }),
            r.velocity == (Vec2 { x: 0, y: 0 }),
            r.acceleration == (Vec2 { x: 0, y: 0 }),
            r.collider.shape == shape,
            r.collider.rect.x == x,
            r.collider.rect.y == y,
            r.is_player == false,
            obj_wf(r),
    {
        GameObject {
            position: Vec2 { x, y },
            velocity: Vec2 { x: 0, y: 0 },
            acceleration: Vec2 { x: 0, y: 0 },
            collider: Collider::new(x, y, shape),
            is_player: false,
        }
    }

    /// Advance the position by one frame of the current velocity and
    /// resynchronize the box.
    pub fn move_object(&mut self, frame_time: u32)
        requires
            obj_wf(*old(self)),
        ensures
            *final(self) == moved(*old(self), frame_time as int),
            obj_wf(*final(self)),
    {
        let dt = frame_time as i64;
        let dx = tdiv_i128(mul_i64(self.velocity.x, dt), 1000);
        let dy = tdiv_i128(mul_i64(self.velocity.y, dt), 1000);
        let px = clip_i128(self.position.x as i128 + dx);
        let py = clip_i128(self.position.y as i128 + dy);
        self.position = Vec2 { x: px, y: py };
        self.collider.update_pos(self.position);
    }

    /// Classify the contact between this body's box and another's.
    pub fn check_collisions(&self, object: &GameObject) -> (r: Option<CollisionType>)
        requires
            rect_wf(self.collider.rect),
            rect_wf(object.collider.rect),
        ensures
            r == collision_of(self.collider.rect, object.collider.rect),
    {
        let a = &self.collider.rect;
        let b = &object.collider.rect;
        let left = if a.x >= b.x {
            a.x
        } else {
            b.x
        };
        let right = if a.x + a.w <= b.x + b.w {
            a.x + a.w
        } else {
            b.x + b.w
        };
        let top = if a.y >= b.y {
            a.y
        } else {
            b.y
        };
        let bottom = if a.y + a.h <= b.y + b.h {
            a.y + a.h
        } else {
            b.y + b.h
        };
        if right >= left && bottom >= top {
            if right - left < bottom - top {
                Option::Some(CollisionType::Horizontal)
            } else {
                Option::Some(CollisionType::Vertical)
            }
        } else {
            Option::None
        }
    }
}

/// The contacts a box makes against a row of bodies, in their order; a
/// body it does not touch contributes nothing.
pub open spec fn collisions_of(a: Rect, objects: Seq<GameObject>) -> Seq<CollisionType>
    decreases objects.len(),
{
    if objects.len() == 0 {
        Seq::empty()
    } else {
        let rest = collisions_of(a, objects.drop_last());
        match collision_of(a, objects.last().collider.rect) {
            Option::Some(c) => rest.push(c),
            Option::None => rest,
        }
    }
}

impl GameObject {
    /// Collect the contacts this body makes against each of the given
    /// bodies, in order.
    pub fn check_collisions_vec(&self, objects: &Vec<GameObject>) -> (r: Vec<CollisionType>)
        requires
            rect_wf(self.collider.rect),
            forall|i: int| 0 <= i < objects@.len() ==> rect_wf(#[trigger] objects@[i].collider.rect),
        ensures
            r@ == collisions_of(self.collider.rect, objects@),
    {
        let mut collisions: Vec<CollisionType> = Vec::new();
        let mut i: usize = 0;
        while i < objects.len()
            invariant
                0 <= i <= objects@.len(),
                rect_wf(self.collider.rect),
                forall|k: int| 0 <= k < objects@.len() ==> rect_wf(#[trigger] objects@[k].collider.rect),
                collisions@ == collisions_of(self.collider.rect, objects@.take(i as int)),
            decreases objects@.len() - i,
        {
            let collision = self.check_collisions(&objects[i]);
            if let Option::Some(c) = collision {
                collisions.push(c);
            }
            proof {
                assert(objects@.take(i as int + 1).drop_last() =~= objects@.take(i as int));
                assert(objects@.take(i as int + 1).last() == objects@[i as int]);
            }
            i = i + 1;
        }
        proof {
            assert(objects@.take(objects@.len() as int) =~= objects@);
        }
        collisions
    }
}

/// Law: an overlap rectangle with exactly equal width and height
/// classifies as a `Vertical` contact — the documented tie-break — on
/// every pair of boxes, deterministically.
pub proof fn lemma_tie_break_vertical(a: Rect, b: Rect)
    requires
        inter_w(a, b) == inter_h(a, b),
        inter_w(a, b) >= 0,
    ensures
        collision_of(a, b) == Option::<CollisionType>::Some(CollisionType::Vertical),
{
}

/// Law: after a bounce against a static surface (zero velocity) that is
/// not a paddle, the outgoing speed on the bounced axis equals the
/// incoming speed — a pure sign flip, since the `1.1`-scaled momentum
/// transfer of a static surface is zero — and the other axis is
/// untouched.
pub proof fn lemma_static_bounce_keeps_speed(o: GameObject, s: GameObject)
    requires
        obj_wf(o),
        s.velocity == (Vec2 { x: 0i64, y: 0i64 }),
        !s.is_player,
    ensures
        collision_of(o.collider.rect, s.collider.rect) matches Option::Some(CollisionType::Vertical)
            ==> bounce_one(o, s).velocity.y == -o.velocity.y && bounce_one(o, s).velocity.x
            == o.velocity.x,
        collision_of(o.collider.rect, s.collider.rect) matches Option::Some(
            CollisionType::Horizontal,
        ) ==> bounce_one(o, s).velocity.x == -o.velocity.x && bounce_one(o, s).velocity.y
            == o.velocity.y,
        collision_of(o.collider.rect, s.collider.rect) is None ==> bounce_one(o, s) == o,
{
    vstd::arithmetic::div_mod::lemma_div_basics(10);
    assert(tdiv(0int * 11, 10) == 0);
}

/// The acceleration the spring controller commands before clamping:
/// stiffness `1000` toward the target, damping `88` against the velocity.
/// The constants are tuned for the characteristic responsive-but-smooth
/// paddle feel; they are not a physical derivation.
pub open spec fn accel_raw(p: int, v: int, t: int) -> int {
    (t - p) * 1000 - 88 * v
}

/// The commanded acceleration: rounded to a whole unit per second squared
/// and clamped to the entity's limit.
pub open spec fn accel_cmd(p: int, v: int, t: int, amax: int) -> int {
    clamp_s(round1000(accel_raw(p, v, t)), -amax, amax)
}

/// The velocity after one frame of the commanded acceleration, clamped to
/// the entity's speed limit.
pub open spec fn vel_next(v: int, a: int, dt: int, vmax: int) -> int {
    clamp_s(v + tdiv(a * dt, 1000), -vmax, vmax)
}

/// Both components are nonnegative and in the fixed-point domain; the
/// shape a movement limit must have.
pub open spec fn mag_in_dom(v: Vec2) -> bool {
    &&& 0 <= v.x <= FX_LIM
    &&& 0 <= v.y <= FX_LIM
}

/// The state of a body after one step of the clamped spring controller:
/// acceleration commanded toward the target, velocity integrated and
/// clamped, position advanced by the new velocity, box resynchronized.
pub open spec fn towards(o: GameObject, target: Vec2, vmax: Vec2, amax: Vec2, dt: int) -> GameObject {
    let ax = accel_cmd(o.position.x as int, o.velocity.x as int, target.x as int, amax.x as int) as i64;
    let ay = accel_cmd(o.position.y as int, o.velocity.y as int, target.y as int, amax.y as int) as i64;
    let vx = vel_next(o.velocity.x as int, ax as int, dt, vmax.x as int) as i64;
    let vy = vel_next(o.velocity.y as int, ay as int, dt, vmax.y as int) as i64;
    let px = moved_pos(o.position.x as int, vx as int, dt) as i64;
    let py = moved_pos(o.position.y as int, vy as int, dt) as i64;
    GameObject {
        position: Vec2 { x: px, y: py },
        velocity: Vec2 { x: vx, y: vy },
        acceleration: Vec2 { x: ax, y: ay },
        collider: Collider {
            shape: o.collider.shape,
            rect: Rect { x: px, y: py, w: o.collider.rect.w, h: o.collider.rect.h },
        },
        is_player: o.is_player,
    }
}

/// A requested target, clamped so the body's box stays inside the field.
pub open spec fn clamp_target(o: GameObject, t: Vec2, b: Bounds) -> Vec2 {
    Vec2 {
        x: clamp_s(t.x as int, b.x as int, b.w - o.collider.rect.w) as i64,
        y: clamp_s(t.y as int, b.y as int, b.h - o.collider.rect.h) as i64,
    }
}

impl GameObject {
    /// One step of the movement controller shared by every controlled
    /// entity: command a clamped spring acceleration toward the target,
    /// integrate it, clamp the speed, and move.
    pub fn move_towards(&mut self, position: Vec2, velocity: Vec2, acceleration: Vec2, frame_time: u32)
        requires
            obj_wf(*old(self)),
            mag_in_dom(velocity),
            mag_in_dom(acceleration),
        ensures
            *final(self) == towards(*old(self), position, velocity, acceleration, frame_time as int),
            obj_wf(*final(self)),
    {
        let rawx: i128 = (position.x as i128 - self.position.x as i128) * 1000
            - 88 * (self.velocity.x as i128);
        let rawy: i128 = (position.y as i128 - self.position.y as i128) * 1000
            - 88 * (self.velocity.y as i128);
        let ax = clamp_i128(round_thousand(rawx), -acceleration.x, acceleration.x);
        let ay = clamp_i128(round_thousand(rawy), -acceleration.y, acceleration.y);
        self.acceleration = Vec2 { x: ax, y: ay };
        let dt = frame_time as i64;
        let vx = clamp_i128(
            self.velocity.x as i128 + tdiv_i128(mul_i64(ax, dt), 1000),
            -velocity.x,
            velocity.x,
        );
        let vy = clamp_i128(
            self.velocity.y as i128 + tdiv_i128(mul_i64(ay, dt), 1000),
            -velocity.y,
            velocity.y,
        );
        self.velocity = Vec2 { x: vx, y: vy };
        self.move_object(frame_time);
    }

    /// The movement controller with the target first clamped into the
    /// field, so a paddle never requests a position that would put any of
    /// its box outside, whatever its acceleration limit.
    pub fn move_towards_in_bounds(
        &mut self,
        position: Vec2,
        velocity: Vec2,
        acceleration: Vec2,
        bounds: Bounds,
        frame_time: u32,
    )
        requires
            obj_wf(*old(self)),
            mag_in_dom(velocity),
            mag_in_dom(acceleration),
            bounds.wf(),
            old(self).collider.rect.w <= bounds.w - bounds.x,
            old(self).collider.rect.h <= bounds.h - bounds.y,
        ensures
            *final(self) == towards(
                *old(self),
                clamp_target(*old(self), position, bounds),
                velocity,
                acceleration,
                frame_time as int,
            ),
            obj_wf(*final(self)),
    {
        let cx = clamp64(position.x, bounds.x, bounds.w - self.collider.rect.w);
        let cy = clamp64(position.y, bounds.y, bounds.h - self.collider.rect.h);
        self.move_towards(Vec2 { x: cx, y: cy }, velocity, acceleration, frame_time)
    }
}

/// How one surface changes a moving body that its box overlaps: the body
/// is pushed flush against the face it penetrated — judged from the
/// stale box, which still reflects the position before any push-out this
/// frame; a vertical contact compares the top edges, a horizontal one
/// the right edges, to choose the flush side — the velocity on the
/// contact axis is inverted and picks up the surface's own velocity
/// times `1.1`, and a horizontal hit against a player's paddle converts
/// the offset from the paddle center into spin.  The box itself is left
/// where the move put it.
pub open spec fn bounce_one(o: GameObject, s: GameObject) -> GameObject {
    let a = o.collider.rect;
    let b = s.collider.rect;
    match collision_of(a, b) {
        Option::Some(CollisionType::Vertical) => {
            let py = if a.y > b.y {
                clip(2 * (b.y + b.h) - a.y)
            } else {
                clip(2 * (b.y - a.h) - a.y)
            };
            let vy = clip(-o.velocity.y + tdiv(s.velocity.y * 11, 10));
            GameObject {
                position: Vec2 { x: o.position.x, y: py as i64 },
                velocity: Vec2 { x: o.velocity.x, y: vy as i64 },
                acceleration: o.acceleration,
                collider: o.collider,
                is_player: o.is_player,
            }
        },
        Option::Some(CollisionType::Horizontal) => {
            let px = if a.x + a.w > b.x + b.w {
                clip(2 * (b.x + b.w) - a.x)
            } else {
                clip(2 * (b.x - a.w) - a.x)
            };
            let vx = clip(-o.velocity.x + tdiv(s.velocity.x * 11, 10));
            let vy = if s.is_player {
                clip(tdiv(((a.y + a.h / 2) - (b.y + b.h / 2)) * (if vx >= 0 {
                    vx
                } else {
                    -vx
                }), 25000))
            } else {
                o.velocity.y as int
            };
            GameObject {
                position: Vec2 { x: px as i64, y: o.position.y },
                velocity: Vec2 { x: vx as i64, y: vy as i64 },
                acceleration: o.acceleration,
                collider: o.collider,
                is_player: o.is_player,
            }
        },
        Option::None => o,
    }
}

/// The result of letting each surface in turn act on the body: plain
/// iteration order, no special multi-contact resolution — on the axis a
/// later surface touches, its write wins.
pub open spec fn bounce_fold(o: GameObject, surfaces: Seq<GameObject>) -> GameObject
    decreases surfaces.len(),
{
    if surfaces.len() == 0 {
        o
    } else {
        bounce_fold(bounce_one(o, surfaces.first()), surfaces.drop_first())
    }
}

impl GameObject {
    /// Move the body one frame, then resolve its bounces against each
    /// surface in order.
    pub fn handle_bounces(&mut self, with: &Vec<GameObject>, frame_time: u32)
        requires
            obj_wf(*old(self)),
            forall|i: int| 0 <= i < with@.len() ==> obj_wf(#[trigger] with@[i]),
        ensures
            *final(self) == bounce_fold(moved(*old(self), frame_time as int), with@),
            obj_wf(*final(self)),
    {
        self.move_object(frame_time);
        let ghost start = *self;
        proof {
            assert(with@.skip(0) =~= with@);
        }
        let mut i: usize = 0;
        while i < with.len()
            invariant
                0 <= i <= with@.len(),
                forall|k: int| 0 <= k < with@.len() ==> obj_wf(#[trigger] with@[k]),
                obj_wf(*self),
                bounce_fold(start, with@) == bounce_fold(*self, with@.skip(i as int)),
            decreases with@.len() - i,
        {
            let ghost before = *self;
            let object = &with[i];
            let collision = self.check_collisions(object);
            let a = self.collider.rect;
            let b = object.collider.rect;
            if let Option::Some(CollisionType::Vertical) = collision {
                let py = if a.y > b.y {
                    clip_i128(2 * (b.y as i128 + b.h as i128) - a.y as i128)
                } else {
                    clip_i128(2 * (b.y as i128 - a.h as i128) - a.y as i128)
                };
                self.position.y = py;
                let vy = clip_i128(
                    -(self.velocity.y as i128) + tdiv_i128(object.velocity.y as i128 * 11, 10),
                );
                self.velocity.y = vy;
            } else if let Option::Some(CollisionType::Horizontal) = collision {
                let px = if a.x + a.w > b.x + b.w {
                    clip_i128(2 * (b.x as i128 + b.w as i128) - a.x as i128)
                } else {
                    clip_i128(2 * (b.x as i128 - a.w as i128) - a.x as i128)
                };
                self.position.x = px;
                let vx = clip_i128(
                    -(self.velocity.x as i128) + tdiv_i128(object.velocity.x as i128 * 11, 10),
                );
                self.velocity.x = vx;
                if object.is_player {
                    let ca = a.y + div_pos(a.h, 2);
                    let cb = b.y + div_pos(b.h, 2);
                    let mag = if vx >= 0 {
                        vx
                    } else {
                        -vx
                    };
                    let vy = clip_i128(tdiv_i128(mul_i64(ca - cb, mag), 25000));
                    self.velocity.y = vy;
                }
            }
            proof {
                assert(*self == bounce_one(before, with@[i as int]));
                assert(with@.skip(i as int).first() == with@[i as int]);
                assert(with@.skip(i as int).drop_first() =~= with@.skip(i as int + 1));
            }
            i = i + 1;
        }
        proof {
            assert(with@.skip(with@.len() as int) =~= Seq::<GameObject>::empty());
        }
    }
}

} // verus!
