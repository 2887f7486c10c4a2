//! A paddle, its control strategies, and the per-frame dispatch.
//!
//! Exactly one control strategy acts on a player each frame: follow the
//! pointer, follow two held keys, or follow the AI's prediction.  All
//! three funnel into the same clamped spring controller, so they differ
//! only in the target they request and in the velocity and acceleration
//! budgets they may spend.  An AI-driven player is inert between a fresh
//! prediction and the end of its reaction latency — a deliberate
//! handicap — and drifts back toward the field's vertical center at a
//! third of its speed when it holds no prediction.

use vstd::prelude::*;

use crate::ai::Ai;
use crate::ai::Behavior;
use crate::ai::observe_spec;
use crate::bounds::Bounds;
use crate::constants::BALL_SIZE_X;
use crate::constants::BALL_SIZE_Y;
use crate::constants::PLAYER_HEIGHT;
use crate::constants::PLAYER_WIDTH;
use crate::num::FX_LIM;
use crate::num::clip;
use crate::num::clip_i128;
use crate::num::div_pos;
use crate::num::lemma_tdiv_bound;
use crate::num::mul_i64;
use crate::num::tdiv;
use crate::num::tdiv_i128;
use crate::physics::GameObject;
use crate::physics::clamp_target;
use crate::physics::mag_in_dom;
use crate::physics::obj_wf;
use crate::physics::towards;
use crate::rng::Rng;
use crate::vec2::Vec2;

verus! {

/// How a human drives a paddle: by pointer, or by two keys identified by
/// opaque key codes.
#[derive(Debug, Clone, Copy)]
pub enum ControlType {
    Mouse,
    Keyboard(u32, u32),
}

/// Who drives a player slot: a human with a control strategy, or a named
/// AI profile.
#[derive(Debug)]
pub enum UserType {
    Client(ControlType),
    Ai(Ai),
}

impl Clone for UserType {
    /// A slot assignment copies field for field.
    fn clone(&self) -> (r: UserType)
        ensures
            r == *self,
    {
        match self {
            UserType::Client(control) => UserType::Client(*control),
            UserType::Ai(ai) => UserType::Ai(ai.clone()),
        }
    }
}

/// Which side of the field a player defends; fixed at creation, it
/// decides which direction of ball travel is "approaching".
#[derive(Debug, Clone, Copy, PartialEq, Eq, Structural)]
pub enum PlayerPosition {
    Left,
    Right,
}

/// A paddle with its movement limits and the field it is confined to.
#[derive(Debug)]
pub struct Player {
    pub name: String,
    pub object: GameObject,
    pub bounds: Bounds,
    pub max_velocity: Vec2,
    pub max_acceleration: Vec2,
    pub side: PlayerPosition,
}

impl Clone for Player {
    /// A player copies field for field.
    fn clone(&self) -> (r: Player)
        ensures
            r == *self,
    {
        Player {
            name: self.name.clone(),
            object: self.object,
            bounds: self.bounds,
            max_velocity: self.max_velocity,
            max_acceleration: self.max_acceleration,
            side: self.side,
        }
    }
}

/// The same player carrying a different body.
pub open spec fn with_object(p: Player, o: GameObject) -> Player {
    Player {
        name: p.name,
        object: o,
        bounds: p.bounds,
        max_velocity: p.max_velocity,
        max_acceleration: p.max_acceleration,
        side: p.side,
    }
}

/// A velocity or acceleration budget halved, component by component.
pub open spec fn half_mag(v: Vec2) -> Vec2 {
    Vec2 { x: (v.x as int / 2) as i64, y: (v.y as int / 2) as i64 }
}

/// A budget reduced to six tenths, component by component.
pub open spec fn six_tenths_mag(v: Vec2) -> Vec2 {
    Vec2 { x: (v.x as int * 6 / 10) as i64, y: (v.y as int * 6 / 10) as i64 }
}

/// A budget reduced to a third, component by component.
pub open spec fn third_mag(v: Vec2) -> Vec2 {
    Vec2 { x: (v.x as int / 3) as i64, y: (v.y as int / 3) as i64 }
}

/// Where key control steers: with both or neither key held, the current
/// position (so the controller's damping settles the paddle); with one
/// key held, as far in that direction as the field will allow.
pub open spec fn keyboard_target(p: Player, up_held: bool, down_held: bool) -> Vec2 {
    if up_held == down_held {
        p.object.position
    } else if up_held {
        Vec2 { x: p.object.position.x, y: i64::MIN }
    } else {
        Vec2 { x: p.object.position.x, y: i64::MAX }
    }
}

/// Where pointer control steers: the pointer marks the paddle's center,
/// so the target corner sits half a box before it.
pub open spec fn mouse_target(p: Player, pointer: Vec2) -> Vec2 {
    Vec2 {
        x: clip(pointer.x - p.object.collider.rect.w as int / 2) as i64,
        y: clip(pointer.y - p.object.collider.rect.h as int / 2) as i64,
    }
}

/// Where AI control steers once its prediction may be acted on: the
/// predicted ball corner offset by half the ball, less the aim fraction
/// of the paddle's box — zero aims the paddle's top edge at the ball,
/// one thousand its bottom edge, and values outside that range aim a
/// deliberate miss.
pub open spec fn ai_target(o: GameObject, b: Behavior, pred: Vec2) -> Vec2 {
    Vec2 {
        x: clip(
            BALL_SIZE_X as int / 2 + pred.x - tdiv(o.collider.rect.w as int * b.hit_position, 1000),
        ) as i64,
        y: clip(
            BALL_SIZE_Y as int / 2 + pred.y - tdiv(o.collider.rect.h as int * b.hit_position, 1000),
        ) as i64,
    }
}

/// The idle stance: a paddle-sized box centered on the field, measured
/// from the field's extent.
pub open spec fn idle_target(b: Bounds) -> Vec2 {
    Vec2 {
        x: ((b.w - b.x) / 2 - PLAYER_WIDTH as int / 2) as i64,
        y: ((b.h - b.y) / 2 - PLAYER_HEIGHT as int / 2) as i64,
    }
}

/// The player after one frame of key control: the spring controller runs
/// toward the key target on half the speed and six tenths of the
/// acceleration budget — key control is deliberately sluggish next to
/// pointer control.
pub open spec fn keyboard_ctrl_spec(p: Player, up_held: bool, down_held: bool, dt: int) -> Player {
    with_object(
        p,
        towards(
            p.object,
            clamp_target(p.object, keyboard_target(p, up_held, down_held), p.bounds),
            half_mag(p.max_velocity),
            six_tenths_mag(p.max_acceleration),
            dt,
        ),
    )
}

/// The player after one frame of pointer control: the spring controller
/// runs toward the pointer target on the full budgets.
pub open spec fn mouse_ctrl_spec(p: Player, pointer: Vec2, dt: int) -> Player {
    with_object(
        p,
        towards(
            p.object,
            clamp_target(p.object, mouse_target(p, pointer), p.bounds),
            p.max_velocity,
            p.max_acceleration,
            dt,
        ),
    )
}

/// The player after one frame of AI control.  It always takes the AI's
/// name.  Holding a prediction whose reaction latency has elapsed, it
/// moves toward the aim target on full budgets; holding one still inside
/// the latency window, it does not move at all; holding none (the ball
/// is receding), it drifts toward the idle stance at a third of its
/// speed.
pub open spec fn ai_ctrl_spec(p: Player, ai: Ai, now: int, dt: int) -> Player {
    let renamed = Player {
        name: ai.name,
        object: p.object,
        bounds: p.bounds,
        max_velocity: p.max_velocity,
        max_acceleration: p.max_acceleration,
        side: p.side,
    };
    match ai.behavior.predicted_position {
        Option::Some(pred) => {
            if now - ai.behavior.collision_time >= ai.behavior.reaction_time {
                with_object(
                    renamed,
                    towards(
                        p.object,
                        clamp_target(p.object, ai_target(p.object, ai.behavior, pred), p.bounds),
                        p.max_velocity,
                        p.max_acceleration,
                        dt,
                    ),
                )
            } else {
                renamed
            }
        },
        Option::None => with_object(
            renamed,
            towards(
                p.object,
                clamp_target(p.object, idle_target(p.bounds), p.bounds),
                third_mag(p.max_velocity),
                p.max_acceleration,
                dt,
            ),
        ),
    }
}

/// Law (reaction gating): an AI-driven player holding a prediction whose
/// reaction latency has not yet elapsed does not move at all — its body,
/// box, velocity and acceleration stay exactly as they were, whatever
/// the prediction says.
pub proof fn lemma_reaction_gate(p: Player, ai: Ai, now: int, dt: int)
    requires
        ai.behavior.predicted_position is Some,
        now - ai.behavior.collision_time < ai.behavior.reaction_time,
    ensures
        ai_ctrl_spec(p, ai, now, dt).object == p.object,
{
}

impl Player {
    /// The body and field are well-formed, the budgets are magnitudes,
    /// the paddle fits the field, and the field is taller than the ball
    /// (the prediction fold needs a positive playable height).
    pub open spec fn wf(self) -> bool {
        &&& obj_wf(self.object)
        &&& self.bounds.wf()
        &&& mag_in_dom(self.max_velocity)
        &&& mag_in_dom(self.max_acceleration)
        &&& self.object.collider.rect.w <= self.bounds.w - self.bounds.x
        &&& self.object.collider.rect.h <= self.bounds.h - self.bounds.y
        &&& self.bounds.h > BALL_SIZE_Y
    }

    /// Take ownership of a body, mark it as a player (so a ball bounced
    /// off it picks up spin), and fix the side and movement limits.
    pub fn new(
        name: &str,
        object: GameObject,
        bounds: Bounds,
        max_velocity: Vec2,
        max_acceleration: Vec2,
        side: PlayerPosition,
    ) -> (r: Player)
        requires
            obj_wf(object),
            bounds.wf(),
            mag_in_dom(max_velocity),
            mag_in_dom(max_acceleration),
            object.collider.rect.w <= bounds.w - bounds.x,
            object.collider.rect.h <= bounds.h - bounds.y,
            bounds.h > BALL_SIZE_Y,
        ensures
            r.name@ == name@,
            r.object == (GameObject {
                position: object.position,
                velocity: object.velocity,
                acceleration: object.acceleration,
                collider: object.collider,
                is_player: true,
            }),
            r.bounds == bounds,
            r.max_velocity == max_velocity,
            r.max_acceleration == max_acceleration,
            r.side == side,
            r.wf(),
    {
        let mut object = object;
        object.is_player = true;
        Player { name: name.to_owned(), object, bounds, max_velocity, max_acceleration, side }
    }

    /// One frame of key control.
    pub fn keyboard_control(&mut self, up_held: bool, down_held: bool, frame_time: u32)
        requires
            old(self).wf(),
        ensures
            *final(self) == keyboard_ctrl_spec(*old(self), up_held, down_held, frame_time as int),
            final(self).wf(),
    {
        let towards_pos: Vec2 = if up_held == down_held {
            self.object.position
        } else if up_held {
            Vec2 { x: self.object.position.x, y: i64::MIN }
        } else {
            Vec2 { x: self.object.position.x, y: i64::MAX }
        };
        let vel = Vec2 {
            x: div_pos(self.max_velocity.x, 2),
            y: div_pos(self.max_velocity.y, 2),
        };
        let acc = Vec2 {
            x: scale_six_tenths(self.max_acceleration.x),
            y: scale_six_tenths(self.max_acceleration.y),
        };
        proof {
            lemma_tdiv_bound(self.max_velocity.x as int, 2);
            lemma_tdiv_bound(self.max_velocity.y as int, 2);
        }
        self.object.move_towards_in_bounds(towards_pos, vel, acc, self.bounds, frame_time);
    }

    /// One frame of pointer control; the pointer position arrives already
    /// mapped into field coordinates.
    pub fn mouse_control(&mut self, pointer: Vec2, frame_time: u32)
        requires
            old(self).wf(),
        ensures
            *final(self) == mouse_ctrl_spec(*old(self), pointer, frame_time as int),
            final(self).wf(),
    {
        let tx = clip_i128(pointer.x as i128 - div_pos(self.object.collider.rect.w, 2) as i128);
        let ty = clip_i128(pointer.y as i128 - div_pos(self.object.collider.rect.h, 2) as i128);
        self.object.move_towards_in_bounds(
            Vec2 { x: tx, y: ty },
            self.max_velocity,
            self.max_acceleration,
            self.bounds,
            frame_time,
        );
    }

    /// One frame of AI control, gated by the profile's reaction latency.
    pub fn ai_control(&mut self, ai: &Ai, now: i64, frame_time: u32)
        requires
            old(self).wf(),
            ai.behavior.wf(),
            0 <= now <= FX_LIM,
        ensures
            *final(self) == ai_ctrl_spec(*old(self), *ai, now as int, frame_time as int),
            final(self).wf(),
    {
        self.name = ai.name.clone();
        if let Option::Some(predicted_position) = ai.behavior.predicted_position {
            if now - ai.behavior.collision_time >= ai.behavior.reaction_time as i64 {
                let px = mul_i64(self.object.collider.rect.w, ai.behavior.hit_position);
                let py = mul_i64(self.object.collider.rect.h, ai.behavior.hit_position);
                proof {
                    lemma_tdiv_bound(px as int, 1000);
                    lemma_tdiv_bound(py as int, 1000);
                }
                let tx = clip_i128(
                    div_pos(BALL_SIZE_X, 2) as i128 + predicted_position.x as i128 - tdiv_i128(
                        px,
                        1000,
                    ),
                );
                let ty = clip_i128(
                    div_pos(BALL_SIZE_Y, 2) as i128 + predicted_position.y as i128 - tdiv_i128(
                        py,
                        1000,
                    ),
                );
                self.object.move_towards_in_bounds(
                    Vec2 { x: tx, y: ty },
                    self.max_velocity,
                    self.max_acceleration,
                    self.bounds,
                    frame_time,
                );
            }
        } else {
            let cx = div_pos(self.bounds.w - self.bounds.x, 2) - div_pos(PLAYER_WIDTH, 2);
            let cy = div_pos(self.bounds.h - self.bounds.y, 2) - div_pos(PLAYER_HEIGHT, 2);
            let vel = Vec2 {
                x: div_pos(self.max_velocity.x, 3),
                y: div_pos(self.max_velocity.y, 3),
            };
            proof {
                lemma_tdiv_bound(self.max_velocity.x as int, 3);
                lemma_tdiv_bound(self.max_velocity.y as int, 3);
            }
            self.object.move_towards_in_bounds(
                Vec2 { x: cx, y: cy },
                vel,
                self.max_acceleration,
                self.bounds,
                frame_time,
            );
        }
    }
}

/// The per-frame input snapshot the core receives from its surroundings:
/// the pointer position already mapped into field coordinates, and the
/// set of key codes currently held.
#[derive(Debug)]
pub struct FrameInput {
    pub pointer: Vec2,
    pub keys_held: Vec<u32>,
}

/// Whether a key code is in the held set.
pub open spec fn key_held(input: FrameInput, key: u32) -> bool {
    input.keys_held@.contains(key)
}

/// Test whether a key code is in the held set.
pub fn is_held(input: &FrameInput, key: u32) -> (r: bool)
    ensures
        r == key_held(*input, key),
{
    let mut i: usize = 0;
    while i < input.keys_held.len()
        invariant
            0 <= i <= input.keys_held@.len(),
            forall|j: int| 0 <= j < i ==> input.keys_held@[j] != key,
        decreases input.keys_held@.len() - i,
    {
        if input.keys_held[i] == key {
            return true;
        }
        i = i + 1;
    }
    false
}

/// A player slot: the paddle, who drives it, and the AI profile the slot
/// falls back on (a human slot simply never consults it).
#[derive(Debug)]
pub struct PlayerState {
    pub player: Player,
    pub user_type: UserType,
    pub ai: Ai,
    pub id: u8,
}

impl Clone for PlayerState {
    /// A slot copies field for field.
    fn clone(&self) -> (r: PlayerState)
        ensures
            r == *self,
    {
        PlayerState {
            player: self.player.clone(),
            user_type: self.user_type.clone(),
            ai: self.ai.clone(),
            id: self.id,
        }
    }
}

/// The slot after one frame of control dispatch, paired with the state
/// of the random stream afterwards.  A pointer slot follows the pointer,
/// a key slot its two key codes; an AI slot first observes the ball —
/// which may redraw its aim and prediction and consume two random draws
/// — and then steers by the result.
pub open spec fn handle_state_spec(
    ps: PlayerState,
    ball: GameObject,
    ball_collided: bool,
    input: FrameInput,
    now: int,
    dt: int,
    s: u64,
) -> (PlayerState, u64) {
    match ps.user_type {
        UserType::Client(ControlType::Mouse) => (
            PlayerState {
                player: mouse_ctrl_spec(ps.player, input.pointer, dt),
                user_type: ps.user_type,
                ai: ps.ai,
                id: ps.id,
            },
            s,
        ),
        UserType::Client(ControlType::Keyboard(up, down)) => (
            PlayerState {
                player: keyboard_ctrl_spec(
                    ps.player,
                    key_held(input, up),
                    key_held(input, down),
                    dt,
                ),
                user_type: ps.user_type,
                ai: ps.ai,
                id: ps.id,
            },
            s,
        ),
        UserType::Ai(_) => {
            let observed = observe_spec(
                ps.ai.behavior,
                ps.player.side,
                ps.player.object.position.x as int,
                ps.player.bounds,
                ball,
                ball_collided,
                now,
                s,
            );
            let ai2 = Ai { name: ps.ai.name, behavior: observed.0 };
            (
                PlayerState {
                    player: ai_ctrl_spec(ps.player, ai2, now, dt),
                    user_type: ps.user_type,
                    ai: ai2,
                    id: ps.id,
                },
                observed.1,
            )
        },
    }
}

impl PlayerState {
    /// The paddle and the AI profile are both well-formed.
    pub open spec fn wf(self) -> bool {
        &&& self.player.wf()
        &&& self.ai.behavior.wf()
    }

    /// Dispatch one frame of control to this slot's strategy.
    pub fn handle_state(
        &mut self,
        ball: &GameObject,
        ball_collided: bool,
        input: &FrameInput,
        now: i64,
        frame_time: u32,
        rng: &mut Rng,
    )
        requires
            old(self).wf(),
            obj_wf(*ball),
            0 <= now <= FX_LIM,
        ensures
            (*final(self), final(rng).state) == handle_state_spec(
                *old(self),
                *ball,
                ball_collided,
                *input,
                now as int,
                frame_time as int,
                old(rng).state,
            ),
            final(self).wf(),
    {
        let control: Option<ControlType> = match &self.user_type {
            UserType::Client(control) => Option::Some(*control),
            UserType::Ai(_) => Option::None,
        };
        match control {
            Option::Some(ControlType::Mouse) => {
                self.player.mouse_control(input.pointer, frame_time);
            },
            Option::Some(ControlType::Keyboard(up, down)) => {
                let up_held = is_held(input, up);
                let down_held = is_held(input, down);
                self.player.keyboard_control(up_held, down_held, frame_time);
            },
            Option::None => {
                self.ai.behavior.observe(&self.player, ball, ball_collided, now, rng);
                self.player.ai_control(&self.ai, now, frame_time);
            },
        }
    }
}

/// Reduce a nonnegative budget to six tenths.
fn scale_six_tenths(v: i64) -> (r: i64)
    requires
        0 <= v <= FX_LIM,
    ensures
        r == v as int * 6 / 10,
        0 <= r <= v,
{
    proof {
        vstd::arithmetic::div_mod::lemma_div_is_ordered_by_denominator(v as int * 6, 6, 10);
        vstd::arithmetic::div_mod::lemma_div_multiples_vanish(v as int, 6);
        vstd::arithmetic::div_mod::lemma_div_pos_is_pos(v as int * 6, 10);
    }
    div_pos(v * 6, 10)
}

} // verus!
