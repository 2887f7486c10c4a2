//! Goal detection and the serve state machine.
//!
//! The machine has two states, told apart by `score_time`: zero means
//! play is live, anything else is the moment a goal was scored and play
//! is serving.  On a goal — the ball's box overlapping one of the two
//! goal colliders that sit just outside the field's sides — the opposite
//! player's count rises and the timer starts.  While serving, the ball is
//! forced to the field center with zero velocity every frame, whatever
//! the physics step did earlier; one second after the goal it is launched
//! at the fixed serve speed with a random vertical component, and the
//! launch side alternates.

use vstd::prelude::*;

use crate::bounds::Bounds;
use crate::constants::BALL_SIZE_X;
use crate::constants::BALL_SIZE_Y;
use crate::constants::INITIAL_SCORE_TIME;
use crate::constants::LAUNCH_SPEED;
use crate::constants::LAUNCH_VY_RANGE;
use crate::constants::SERVE_DELAY;
use crate::num::FX_LIM;
use crate::num::div_pos;
use crate::num::sample_spec;
use crate::physics::GameObject;
use crate::physics::collision_of;
use crate::physics::obj_wf;
use crate::physics::rect_wf;
use crate::player::PlayerPosition;
use crate::rng::Rng;
use crate::rng::rng_next;
use crate::rng::rng_out;
use crate::vec2::Vec2;

verus! {

/// The two goal counts, the serve timer, and which side the next serve
/// leaves toward.
#[derive(Debug, Clone, Copy, PartialEq, Eq, Structural)]
pub struct Score {
    pub left: usize,
    pub right: usize,
    pub score_time: i64,
    pub start_direction: i32,
}

/// A count one higher, held below the machine limit.
pub open spec fn sat_inc(n: usize) -> usize {
    if n < usize::MAX {
        (n + 1) as usize
    } else {
        n
    }
}

/// Which goal the ball's box overlaps: the left goal is checked first,
/// and crossing the left goal means the right player scored.
pub open spec fn goal_side(
    ball: GameObject,
    goal_left: GameObject,
    goal_right: GameObject,
) -> Option<PlayerPosition> {
    if collision_of(ball.collider.rect, goal_left.collider.rect) is Some {
        Option::Some(PlayerPosition::Left)
    } else if collision_of(ball.collider.rect, goal_right.collider.rect) is Some {
        Option::Some(PlayerPosition::Right)
    } else {
        Option::None
    }
}

/// Where the ball is held while serving: its box centered on the field's
/// extent.
pub open spec fn serve_position(b: Bounds) -> Vec2 {
    Vec2 {
        x: ((b.w - b.x) / 2 - BALL_SIZE_X as int / 2) as i64,
        y: ((b.h - b.y) / 2 - BALL_SIZE_Y as int / 2) as i64,
    }
}

/// The score, the ball and the random stream after one goal-handling
/// step.  A detected goal raises the opposite count and stamps the
/// timer; with the timer running the ball is recentered and stilled;
/// once the serve delay has passed the ball is launched toward the
/// current serve side with a drawn vertical speed, the side flips, and
/// the timer clears.
pub open spec fn goals_step(
    sc: Score,
    ball: GameObject,
    goal_left: GameObject,
    goal_right: GameObject,
    bounds: Bounds,
    now: int,
    s: u64,
) -> (Score, GameObject, u64) {
    let side = goal_side(ball, goal_left, goal_right);
    let left1 = if side == Option::Some(PlayerPosition::Right) {
        sat_inc(sc.left)
    } else {
        sc.left
    };
    let right1 = if side == Option::Some(PlayerPosition::Left) {
        sat_inc(sc.right)
    } else {
        sc.right
    };
    let st1 = if side is Some {
        now
    } else {
        sc.score_time as int
    };
    if st1 != 0 {
        if now > st1 + SERVE_DELAY {
            let launched = GameObject {
                position: serve_position(bounds),
                velocity: Vec2 {
                    x: (sc.start_direction as int * LAUNCH_SPEED) as i64,
                    y: sample_spec(-LAUNCH_VY_RANGE as int, LAUNCH_VY_RANGE as int, rng_out(s)) as i64,
                },
                acceleration: ball.acceleration,
                collider: ball.collider,
                is_player: ball.is_player,
            };
            (
                Score {
                    left: left1,
                    right: right1,
                    score_time: 0i64,
                    start_direction: (-sc.start_direction) as i32,
                },
                launched,
                rng_next(s),
            )
        } else {
            let frozen = GameObject {
                position: serve_position(bounds),
                velocity: Vec2 { x: 0i64, y: 0i64 },
                acceleration: ball.acceleration,
                collider: ball.collider,
                is_player: ball.is_player,
            };
            (
                Score {
                    left: left1,
                    right: right1,
                    score_time: st1 as i64,
                    start_direction: sc.start_direction,
                },
                frozen,
                s,
            )
        }
    } else {
        (
            Score {
                left: left1,
                right: right1,
                score_time: st1 as i64,
                start_direction: sc.start_direction,
            },
            ball,
            s,
        )
    }
}

/// Whether a goal-handling step at time `now` launches the ball: a serve
/// timer is running (or starts this very step) and the serve delay has
/// passed.
pub open spec fn launch_fires(
    sc: Score,
    ball: GameObject,
    goal_left: GameObject,
    goal_right: GameObject,
    now: int,
) -> bool {
    let st1 = if goal_side(ball, goal_left, goal_right) is Some {
        now
    } else {
        sc.score_time as int
    };
    st1 != 0 && now > st1 + SERVE_DELAY
}

/// Law (serve timer): while a serve is pending and its delay has not
/// passed, every goal-handling step holds the ball at the field center
/// with zero velocity and leaves the counts and the timer alone,
/// whatever the physics step did to the ball earlier in the frame.
pub proof fn lemma_serve_freeze(
    sc: Score,
    ball: GameObject,
    goal_left: GameObject,
    goal_right: GameObject,
    bounds: Bounds,
    now: int,
    s: u64,
)
    requires
        sc.wf(),
        sc.score_time != 0,
        goal_side(ball, goal_left, goal_right) is None,
        now <= sc.score_time + SERVE_DELAY,
    ensures
        ({
            let r = goals_step(sc, ball, goal_left, goal_right, bounds, now, s);
            &&& r.0 == sc
            &&& r.1.position == serve_position(bounds)
            &&& r.1.velocity == (Vec2 { x: 0i64, y: 0i64 })
            &&& r.2 == s
        }),
{
}

/// Law (serve timer, launch): once the serve delay has passed, the step
/// launches the ball from the field center at exactly the serve speed
/// toward the pending side, with a vertical component inside the launch
/// range; the timer clears and the serve side flips.
pub proof fn lemma_serve_launch(
    sc: Score,
    ball: GameObject,
    goal_left: GameObject,
    goal_right: GameObject,
    bounds: Bounds,
    now: int,
    s: u64,
)
    requires
        sc.wf(),
        sc.score_time != 0,
        goal_side(ball, goal_left, goal_right) is None,
        now > sc.score_time + SERVE_DELAY,
    ensures
        ({
            let r = goals_step(sc, ball, goal_left, goal_right, bounds, now, s);
            &&& r.1.velocity.x == sc.start_direction * LAUNCH_SPEED
            &&& r.1.velocity.x == LAUNCH_SPEED || r.1.velocity.x == -LAUNCH_SPEED
            &&& -LAUNCH_VY_RANGE <= r.1.velocity.y <= LAUNCH_VY_RANGE
            &&& r.1.position == serve_position(bounds)
            &&& r.0.score_time == 0
            &&& r.0.start_direction == -sc.start_direction
            &&& r.0.left == sc.left
            &&& r.0.right == sc.right
        }),
{
    crate::num::lemma_sample_in_range(
        -LAUNCH_VY_RANGE as int,
        LAUNCH_VY_RANGE as int,
        rng_out(s),
    );
}

/// Law (serve alternation): a goal-handling step flips the serve side
/// exactly when it launches, and a launch leaves at the pre-step side's
/// speed; so two launches with no launch between them — however many
/// frames apart — leave in opposite horizontal directions.
pub proof fn lemma_serve_direction(
    sc: Score,
    ball: GameObject,
    goal_left: GameObject,
    goal_right: GameObject,
    bounds: Bounds,
    now: int,
    s: u64,
)
    requires
        sc.wf(),
    ensures
        ({
            let r = goals_step(sc, ball, goal_left, goal_right, bounds, now, s);
            &&& launch_fires(sc, ball, goal_left, goal_right, now) ==> r.1.velocity.x
                == sc.start_direction * LAUNCH_SPEED && r.0.start_direction == -sc.start_direction
            &&& !launch_fires(sc, ball, goal_left, goal_right, now) ==> r.0.start_direction
                == sc.start_direction
        }),
{
}

/// Law (serve alternation, two steps): if one step launches and the
/// very next step launches again, the two launch velocities have
/// opposite horizontal signs.
pub proof fn lemma_two_launches_opposite(
    sc: Score,
    ball_a: GameObject,
    ball_b: GameObject,
    goal_left: GameObject,
    goal_right: GameObject,
    bounds: Bounds,
    time_a: int,
    time_b: int,
    s_a: u64,
    s_b: u64,
)
    requires
        sc.wf(),
        launch_fires(sc, ball_a, goal_left, goal_right, time_a),
        ({
            let r1 = goals_step(sc, ball_a, goal_left, goal_right, bounds, time_a, s_a);
            launch_fires(r1.0, ball_b, goal_left, goal_right, time_b)
        }),
    ensures
        ({
            let r1 = goals_step(sc, ball_a, goal_left, goal_right, bounds, time_a, s_a);
            let r2 = goals_step(r1.0, ball_b, goal_left, goal_right, bounds, time_b, s_b);
            r2.1.velocity.x == -r1.1.velocity.x
        }),
{
}

/// Law (one crossing, one goal): a step that sees the ball inside the
/// left goal raises the right count by exactly one; and once the serve
/// has taken the ball — so that, after the next physics step
/// resynchronizes its box, it overlaps neither goal — the following
/// step raises nothing further.
pub proof fn lemma_goal_counts_once(
    sc: Score,
    ball: GameObject,
    ball_next: GameObject,
    goal_left: GameObject,
    goal_right: GameObject,
    bounds: Bounds,
    time_a: int,
    time_b: int,
    s_a: u64,
    s_b: u64,
)
    requires
        sc.wf(),
        sc.right < usize::MAX,
        goal_side(ball, goal_left, goal_right) == Option::Some(PlayerPosition::Left),
        goal_side(ball_next, goal_left, goal_right) is None,
    ensures
        ({
            let r1 = goals_step(sc, ball, goal_left, goal_right, bounds, time_a, s_a);
            let r2 = goals_step(r1.0, ball_next, goal_left, goal_right, bounds, time_b, s_b);
            &&& r1.0.right == sc.right + 1
            &&& r1.0.left == sc.left
            &&& r2.0.right == r1.0.right
            &&& r2.0.left == r1.0.left
        }),
{
}

/// Law (one crossing, one goal — geometry): on a field anchored at the
/// origin and wider and taller than the ball, the serve position clears
/// goal colliders that sit flush outside the sides; so the premise of
/// [`lemma_goal_counts_once`] holds of the held ball as soon as the next
/// physics step resynchronizes its box.
pub proof fn lemma_serve_clears_goals(
    ball: GameObject,
    goal_left: GameObject,
    goal_right: GameObject,
    bounds: Bounds,
)
    requires
        bounds.wf(),
        bounds.x == 0,
        bounds.y == 0,
        bounds.w >= 2 * BALL_SIZE_X,
        bounds.h > BALL_SIZE_Y,
        ball.collider.rect.x == serve_position(bounds).x,
        ball.collider.rect.y == serve_position(bounds).y,
        ball.collider.rect.w == BALL_SIZE_X,
        ball.collider.rect.h == BALL_SIZE_Y,
        goal_left.collider.rect.x + goal_left.collider.rect.w <= 0,
        goal_right.collider.rect.x >= bounds.w,
    ensures
        goal_side(ball, goal_left, goal_right) is None,
{
    vstd::arithmetic::div_mod::lemma_fundamental_div_mod(bounds.w as int, 2);
    vstd::arithmetic::div_mod::lemma_mod_bound(bounds.w as int, 2);
    vstd::arithmetic::div_mod::lemma_div_is_ordered(2 * BALL_SIZE_X, bounds.w as int, 2);
    vstd::arithmetic::div_mod::lemma_div_multiples_vanish(BALL_SIZE_X as int, 2);
}

impl Score {
    /// The timer lies in the fixed-point domain and the serve direction
    /// is one of the two sides.
    pub open spec fn wf(self) -> bool {
        &&& 0 <= self.score_time <= FX_LIM
        &&& self.start_direction == 1 || self.start_direction == -1
    }

    /// A fresh score: both counts at zero, the first serve direction
    /// drawn by an unbiased coin, and the timer started slightly
    /// advanced so the opening serve launches shortly after the game
    /// begins.
    pub fn new(rng: &mut Rng) -> (r: Score)
        ensures
            r == (Score {
                left: 0usize,
                right: 0usize,
                score_time: INITIAL_SCORE_TIME,
                start_direction: if rng_out(old(rng).state) & 1 == 0 {
                    -1i32
                } else {
                    1i32
                },
            }),
            final(rng).state == rng_next(old(rng).state),
            r.wf(),
    {
        let draw = rng.next_u32();
        Score {
            left: 0,
            right: 0,
            score_time: INITIAL_SCORE_TIME,
            start_direction: if draw & 1 == 0 {
                -1
            } else {
                1
            },
        }
    }

    /// Which goal the ball currently overlaps, if either.
    fn check_for_goal(
        &self,
        ball: &GameObject,
        goals_left_to_right: &[GameObject; 2],
    ) -> (r: Option<PlayerPosition>)
        requires
            rect_wf(ball.collider.rect),
            rect_wf(goals_left_to_right@[0].collider.rect),
            rect_wf(goals_left_to_right@[1].collider.rect),
        ensures
            r == goal_side(*ball, goals_left_to_right@[0], goals_left_to_right@[1]),
    {
        if ball.check_collisions(&goals_left_to_right[0]).is_some() {
            Option::Some(PlayerPosition::Left)
        } else if ball.check_collisions(&goals_left_to_right[1]).is_some() {
            Option::Some(PlayerPosition::Right)
        } else {
            Option::None
        }
    }

    /// One frame of the goal and serve machine.
    pub fn handle_goals(
        &mut self,
        ball: &mut GameObject,
        goals_left_to_right: &[GameObject; 2],
        bounds: Bounds,
        game_time: i64,
        rng: &mut Rng,
    )
        requires
            old(self).wf(),
            obj_wf(*old(ball)),
            rect_wf(goals_left_to_right@[0].collider.rect),
            rect_wf(goals_left_to_right@[1].collider.rect),
            bounds.wf(),
            0 <= game_time <= FX_LIM,
        ensures
            (*final(self), *final(ball), final(rng).state) == goals_step(
                *old(self),
                *old(ball),
                goals_left_to_right@[0],
                goals_left_to_right@[1],
                bounds,
                game_time as int,
                old(rng).state,
            ),
            final(self).wf(),
            obj_wf(*final(ball)),
    {
        let side = self.check_for_goal(ball, goals_left_to_right);
        if let Option::Some(side) = side {
            self.score_time = game_time;
            match side {
                PlayerPosition::Left => {
                    self.right = if self.right < usize::MAX {
                        self.right + 1
                    } else {
                        self.right
                    };
                },
                PlayerPosition::Right => {
                    self.left = if self.left < usize::MAX {
                        self.left + 1
                    } else {
                        self.left
                    };
                },
            }
        }
        if self.score_time != 0 {
            let cx = div_pos(bounds.w - bounds.x, 2) - div_pos(BALL_SIZE_X, 2);
            let cy = div_pos(bounds.h - bounds.y, 2) - div_pos(BALL_SIZE_Y, 2);
            ball.position = Vec2 { x: cx, y: cy };
            ball.velocity = Vec2 { x: 0, y: 0 };
            if game_time > self.score_time + SERVE_DELAY {
                let vy = rng.gen_range(-LAUNCH_VY_RANGE, LAUNCH_VY_RANGE);
                ball.velocity = Vec2 { x: (self.start_direction as i64) * LAUNCH_SPEED, y: vy };
                self.start_direction = -self.start_direction;
                self.score_time = 0;
            }
        }
    }
}

} // verus!
