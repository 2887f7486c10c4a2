//! The predictive opponent.
//!
//! Each AI-controlled player owns a `Behavior`: static difficulty
//! parameters chosen at creation, and working state recomputed as it
//! watches the ball.  Two triggers run every frame:
//!
//! * a *resample* fires when the ball has just collided with something or
//!   sits still (the serve state); it records the time and redraws the aim
//!   parameters;
//! * a *prediction* fires only while the ball moves toward this player's
//!   side; it extrapolates the ball's line to the paddle's contact plane
//!   and folds the result into the playable height, standing in for the
//!   top and bottom wall bounces without simulating them.
//!
//! A ball with no horizontal motion gets no prediction and contributes no
//! difficulty term: the slope it would need divides by the horizontal
//! speed, and that case is guarded rather than propagated.

use vstd::prelude::*;

use crate::constants::BALL_SIZE_X;
use crate::constants::BALL_SIZE_Y;
use crate::constants::PLAYER_WIDTH;
use crate::bounds::Bounds;
use crate::num::FX_LIM;
use crate::num::iabs;
use crate::num::imin;
use crate::num::in_dom;
use crate::num::lemma_tdiv_bound;
use crate::num::emod_i128;
use crate::num::mul_i64;
use crate::num::sample_spec;
use crate::num::tdiv;
use crate::num::tdiv_i128;
use crate::num::tdiv_s;
use crate::num::tdiv_s_i128;
use crate::physics::GameObject;
use crate::physics::obj_wf;
use crate::player::Player;
use crate::player::PlayerPosition;
use crate::rng::Rng;
use crate::rng::rng_next;
use crate::rng::rng_out;
use crate::vec2::Vec2;
use crate::vec2::v_in_dom;

verus! {

/// AI working state and difficulty parameters.  `hit_range`, `accuracy`
/// and `reaction_time` are fixed at creation; the rest is recomputed as
/// the ball is observed.  `accuracy` and the aim fractions are
/// milli-scaled: an accuracy of `1000` is perfect.
#[derive(Debug, Clone, Copy)]
pub struct Behavior {
    pub hit_range: (i64, i64),
    pub accuracy: i64,
    pub reaction_time: u16,
    pub hit_position: i64,
    pub collision_time: i64,
    pub predicted_position: Option<Vec2>,
    pub accuracy_variation: i64,
}

/// The ball sits exactly still, as it does during a serve.
pub open spec fn ball_resting(ball: GameObject) -> bool {
    ball.velocity.x == 0 && ball.velocity.y == 0
}

/// Whether the aim parameters are redrawn this frame.
pub open spec fn resample_fires(ball: GameObject, ball_collided: bool) -> bool {
    ball_collided || ball_resting(ball)
}

/// Whether the ball moves toward the given side, which is when a fresh
/// prediction is computed.
pub open spec fn approaching(side: PlayerPosition, v: Vec2) -> bool {
    match side {
        PlayerPosition::Left => v.x < 0,
        PlayerPosition::Right => v.x > 0,
    }
}

/// The X of the vertical plane where the paddle would meet the ball: the
/// paddle's front face for a left player, one ball-width before the
/// paddle for a right player.
pub open spec fn plane_of(side: PlayerPosition, px: int) -> int {
    match side {
        PlayerPosition::Left => px + PLAYER_WIDTH,
        PlayerPosition::Right => px - BALL_SIZE_X,
    }
}

/// How much the aim window widens: the milli-scaled steepness of the
/// ball's path times the AI's inaccuracy, and zero for a ball with no
/// horizontal motion.
pub open spec fn difficulty_of(accuracy: int, v: Vec2) -> int {
    if v.x != 0 {
        tdiv(iabs(v.y as int) * (1000 - accuracy), iabs(v.x as int))
    } else {
        0
    }
}

/// The predicted interception Y at plane `x`, by reflection folding: the
/// ball's line — its slope deliberately perturbed by the accuracy
/// variation — is extrapolated to `x`, reduced modulo twice the playable
/// height (the Euclidean remainder, so the reduction always lands in the
/// positive range), and mirrored back below the height.  The result
/// always lies in `[0, bounds.h - BALL_SIZE_Y]`.
pub open spec fn predict_y(ball: GameObject, av: int, x: int, bounds: Bounds) -> int
    recommends
        ball.velocity.x != 0,
        bounds.h > BALL_SIZE_Y,
{
    let h2 = 2 * (bounds.h - BALL_SIZE_Y);
    let raw = ball.position.y
        + tdiv_s((x - ball.position.x) * ball.velocity.y * av, ball.velocity.x * 1000);
    let m = raw % h2;
    imin(m, h2 - m)
}

/// Law: for a ball with horizontal motion the fold-and-mirror never
/// leaves the playable strip — the predicted Y lies between zero and the
/// field height less the ball's height, whatever the plane and however
/// the slope was perturbed.
pub proof fn lemma_predict_in_range(ball: GameObject, av: int, x: int, bounds: Bounds)
    requires
        ball.velocity.x != 0,
        bounds.h > BALL_SIZE_Y,
        in_dom(bounds.h as int),
    ensures
        0 <= predict_y(ball, av, x, bounds) <= bounds.h - BALL_SIZE_Y,
{
    let h2 = 2 * (bounds.h - BALL_SIZE_Y);
    let raw = ball.position.y
        + tdiv_s((x - ball.position.x) * ball.velocity.y * av, ball.velocity.x * 1000);
    vstd::arithmetic::div_mod::lemma_mod_bound(raw, h2);
}

/// The behavior state after one observation, paired with the state of the
/// random stream afterwards: the aim parameters redrawn when the resample
/// trigger fires (two draws: aim fraction, then accuracy variation), and
/// the prediction refreshed only while the ball approaches the given
/// side — otherwise whatever prediction was held stays as it is.
pub open spec fn observe_spec(
    b: Behavior,
    side: PlayerPosition,
    px: int,
    bounds: Bounds,
    ball: GameObject,
    ball_collided: bool,
    now: int,
    s: u64,
) -> (Behavior, u64) {
    let rs = resample_fires(ball, ball_collided);
    let d = difficulty_of(b.accuracy as int, ball.velocity);
    let s1 = if rs {
        rng_next(s)
    } else {
        s
    };
    let s2 = if rs {
        rng_next(s1)
    } else {
        s1
    };
    let hp = if rs {
        sample_spec(b.hit_range.0 - d, b.hit_range.1 + d, rng_out(s))
    } else {
        b.hit_position as int
    };
    let av = if rs {
        sample_spec(b.accuracy as int, 2000 - b.accuracy, rng_out(s1))
    } else {
        b.accuracy_variation as int
    };
    let ct = if rs {
        now
    } else {
        b.collision_time as int
    };
    let plane = plane_of(side, px);
    let pred = if approaching(side, ball.velocity) {
        Option::Some(Vec2 { x: plane as i64, y: predict_y(ball, av, plane, bounds) as i64 })
    } else {
        b.predicted_position
    };
    (
        Behavior {
            hit_range: b.hit_range,
            accuracy: b.accuracy,
            reaction_time: b.reaction_time,
            hit_position: hp as i64,
            collision_time: ct as i64,
            predicted_position: pred,
            accuracy_variation: av as i64,
        },
        s2,
    )
}

impl Behavior {
    /// The difficulty parameters are sane and the working state lies in
    /// the fixed-point domain; every observation preserves this.
    pub open spec fn wf(self) -> bool {
        &&& in_dom(self.hit_range.0 as int)
        &&& in_dom(self.hit_range.1 as int)
        &&& self.hit_range.0 <= self.hit_range.1
        &&& 0 <= self.accuracy <= 1000
        &&& 0 <= self.collision_time <= FX_LIM
        &&& 0 <= self.accuracy_variation <= 2000
    }

    /// Fresh AI state from its difficulty parameters: aim at the paddle
    /// center, no prediction, a neutral accuracy variation.
    pub fn new(hit_range: (i64, i64), accuracy: i64, reaction_time: u16) -> (r: Behavior)
        requires
            in_dom(hit_range.0 as int),
            in_dom(hit_range.1 as int),
            hit_range.0 <= hit_range.1,
            0 <= accuracy <= 1000,
        ensures
            r == (Behavior {
                hit_range,
                accuracy,
                reaction_time,
                hit_position: 500i64,
                collision_time: 0i64,
                predicted_position: Option::<Vec2>::None,
                accuracy_variation: 1000i64,
            }),
            r.wf(),
    {
        Behavior {
            hit_range,
            accuracy,
            reaction_time,
            hit_position: 500,
            collision_time: 0,
            predicted_position: Option::None,
            accuracy_variation: 1000,
        }
    }

    /// The milli-scaled width added to each end of the aim window for the
    /// current ball path.
    fn prediction_difficulty(&self, ball_velocity: Vec2) -> (r: i64)
        requires
            self.wf(),
            v_in_dom(ball_velocity),
        ensures
            r == difficulty_of(self.accuracy as int, ball_velocity),
            0 <= r <= FX_LIM * 1000,
    {
        if ball_velocity.x != 0 {
            let vy_mag = if ball_velocity.y >= 0 {
                ball_velocity.y
            } else {
                -ball_velocity.y
            };
            let vx_mag = if ball_velocity.x >= 0 {
                ball_velocity.x
            } else {
                -ball_velocity.x
            };
            let num = mul_i64(vy_mag, 1000 - self.accuracy);
            let q = tdiv_i128(num, vx_mag as i128);
            proof {
                lemma_tdiv_bound(num as int, vx_mag as int);
                assert(num <= FX_LIM as i128 * 1000) by (nonlinear_arith)
                    requires
                        0 <= vy_mag as int <= FX_LIM as int,
                        0 <= 1000 - self.accuracy as int <= 1000,
                        num as int == vy_mag as int * (1000 - self.accuracy as int),
                ;
            }
            q as i64
        } else {
            0
        }
    }

    /// Draw a fresh aim fraction from the hit range widened by the
    /// current difficulty.
    fn draw_hit_position(&self, ball_velocity: Vec2, rng: &mut Rng) -> (r: i64)
        requires
            self.wf(),
            v_in_dom(ball_velocity),
        ensures
            final(rng).state == rng_next(old(rng).state),
            r == sample_spec(
                self.hit_range.0 - difficulty_of(self.accuracy as int, ball_velocity),
                self.hit_range.1 + difficulty_of(self.accuracy as int, ball_velocity),
                rng_out(old(rng).state),
            ),
    {
        let d = self.prediction_difficulty(ball_velocity);
        rng.gen_range(self.hit_range.0 - d, self.hit_range.1 + d)
    }

    /// Draw a fresh accuracy variation, symmetric about the neutral
    /// value.
    fn draw_accuracy_variation(&self, rng: &mut Rng) -> (r: i64)
        requires
            self.wf(),
        ensures
            final(rng).state == rng_next(old(rng).state),
            r == sample_spec(self.accuracy as int, 2000 - self.accuracy, rng_out(old(rng).state)),
            0 <= self.accuracy <= r <= 2000 - self.accuracy,
    {
        rng.gen_range(self.accuracy, 2000 - self.accuracy)
    }

    /// Extrapolate the ball's line to plane `x` and fold it into the
    /// playable height.
    fn predict_ball_position(&self, x: i64, ball: &GameObject, bounds: Bounds) -> (r: Vec2)
        requires
            self.wf(),
            obj_wf(*ball),
            bounds.wf(),
            bounds.h > BALL_SIZE_Y,
            ball.velocity.x != 0,
            -(FX_LIM + BALL_SIZE_X) <= x <= FX_LIM + BALL_SIZE_X,
        ensures
            r.x == x,
            r.y == predict_y(*ball, self.accuracy_variation as int, x as int, bounds),
    {
        let h2: i64 = 2 * (bounds.h - BALL_SIZE_Y);
        let diff: i64 = x - ball.position.x;
        let d1: i128 = mul_i64(diff, ball.velocity.y);
        proof {
            assert(-(3 * FX_LIM as int * FX_LIM as int) <= d1 as int <= 3 * FX_LIM as int
                * FX_LIM as int) by (nonlinear_arith)
                requires
                    d1 as int == diff as int * ball.velocity.y as int,
                    -(3 * FX_LIM as int) <= diff as int <= 3 * FX_LIM as int,
                    -(FX_LIM as int) <= ball.velocity.y as int <= FX_LIM as int,
            ;
            assert(-600_000_000_000_000_000_000_000_000_000 <= (d1 as int) * (
            self.accuracy_variation as int) <= 600_000_000_000_000_000_000_000_000_000)
                by (nonlinear_arith)
                requires
                    -(3 * FX_LIM as int * FX_LIM as int) <= d1 as int <= 3 * FX_LIM as int
                        * FX_LIM as int,
                    0 <= self.accuracy_variation as int <= 2000,
                    FX_LIM as int == 10_000_000_000_000,
            ;
        }
        let d2: i128 = d1 * (self.accuracy_variation as i128);
        let den: i128 = (ball.velocity.x as i128) * 1000;
        let q: i128 = tdiv_s_i128(d2, den);
        proof {
            crate::num::lemma_tdiv_s_bound(d2 as int, den as int);
        }
        let raw: i128 = (ball.position.y as i128) + q;
        let m: i128 = emod_i128(raw, h2 as i128);
        let y: i128 = if m <= h2 as i128 - m {
            m
        } else {
            h2 as i128 - m
        };
        Vec2 { x, y: y as i64 }
    }

    /// One frame of observation: resample the aim parameters if the ball
    /// just collided or sits still, then refresh the predicted
    /// interception point if the ball approaches this player's side.
    pub fn observe(
        &mut self,
        player: &Player,
        ball: &GameObject,
        ball_collided: bool,
        now: i64,
        rng: &mut Rng,
    )
        requires
            old(self).wf(),
            player.wf(),
            obj_wf(*ball),
            0 <= now <= FX_LIM,
        ensures
            (*final(self), final(rng).state) == observe_spec(
                *old(self),
                player.side,
                player.object.position.x as int,
                player.bounds,
                *ball,
                ball_collided,
                now as int,
                old(rng).state,
            ),
            final(self).wf(),
    {
        if ball_collided || (ball.velocity.x == 0 && ball.velocity.y == 0) {
            self.collision_time = now;
            self.hit_position = self.draw_hit_position(ball.velocity, rng);
            self.accuracy_variation = self.draw_accuracy_variation(rng);
        }
        let plane: i64;
        match player.side {
            PlayerPosition::Left => {
                if ball.velocity.x >= 0 {
                    return ;
                }
                plane = player.object.position.x + PLAYER_WIDTH;
            },
            PlayerPosition::Right => {
                if ball.velocity.x <= 0 {
                    return ;
                }
                plane = player.object.position.x - BALL_SIZE_X;
            },
        }
        let p = self.predict_ball_position(plane, ball, player.bounds);
        self.predicted_position = Option::Some(p);
    }
}

/// A named difficulty profile: what a player slot is given when a
/// computer takes it.
#[derive(Debug)]
pub struct Ai {
    pub name: String,
    pub behavior: Behavior,
}

impl Clone for Ai {
    /// An `Ai` profile copies field for field.
    fn clone(&self) -> (r: Ai)
        ensures
            r == *self,
    {
        Ai { name: self.name.clone(), behavior: self.behavior }
    }
}

impl Ai {
    /// A named profile over fresh behavior state.
    pub fn new(name: &str, hit_range: (i64, i64), accuracy: i64, reaction_time: u16) -> (r: Ai)
        requires
            in_dom(hit_range.0 as int),
            in_dom(hit_range.1 as int),
            hit_range.0 <= hit_range.1,
            0 <= accuracy <= 1000,
        ensures
            r.name@ == name@,
            r.behavior == (Behavior {
                hit_range,
                accuracy,
                reaction_time,
                hit_position: 500i64,
                collision_time: 0i64,
                predicted_position: Option::<Vec2>::None,
                accuracy_variation: 1000i64,
            }),
            r.behavior.wf(),
    {
        Ai { name: name.to_owned(), behavior: Behavior::new(hit_range, accuracy, reaction_time) }
    }

    /// A patient, precise profile.
    pub fn sarah() -> (r: Ai)
        ensures
            r.behavior.wf(),
            r.behavior.hit_range == (100i64, 900i64),
            r.behavior.accuracy == 950,
            r.behavior.reaction_time == 150,
    {
        Ai::new("Sarah", (100, 900), 950, 150)
    }

    /// A sloppy, slow profile whose aim may miss the paddle entirely.
    pub fn raphael() -> (r: Ai)
        ensures
            r.behavior.wf(),
            r.behavior.hit_range == (-100i64, 1100i64),
            r.behavior.accuracy == 500,
            r.behavior.reaction_time == 500,
    {
        Ai::new("Raphael", (-100, 1100), 500, 500)
    }

    /// A perfect profile: dead-center aim, exact prediction, no latency.
    pub fn predict() -> (r: Ai)
        ensures
            r.behavior.wf(),
            r.behavior.hit_range == (500i64, 500i64),
            r.behavior.accuracy == 1000,
            r.behavior.reaction_time == 0,
    {
        Ai::new("Predict", (500, 500), 1000, 0)
    }
}

} // verus!
