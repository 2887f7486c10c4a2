//! The orchestrator: owns every entity and runs the fixed frame order.
//!
//! Within one frame, every player moves first, then the ball is moved
//! and bounce-resolved against the walls and the paddles, and only then
//! does goal detection read the ball — goal detection and bounce
//! resolution both read the ball's post-move position and would disagree
//! in any other order.  The AI's "the ball just collided" trigger is
//! judged against the positions at the top of the frame, before anyone
//! has moved.
//!
//! The random stream is threaded through the players in slot order and
//! then through the serve machine, so a whole session is a function of
//! its seed and its per-frame inputs.

use vstd::prelude::*;

use crate::ai::Ai;
use crate::bounds::Bounds;
use crate::constants::BALL_RADIUS;
use crate::constants::BALL_SIZE_Y;
use crate::constants::BOUNDS_H;
use crate::constants::BOUNDS_THICKNESS;
use crate::constants::BOUNDS_W;
use crate::constants::BOUNDS_X;
use crate::constants::BOUNDS_Y;
use crate::constants::PLAYER_ACCELERATION_X;
use crate::constants::PLAYER_ACCELERATION_Y;
use crate::constants::PLAYER_HEIGHT;
use crate::constants::PLAYER_PADDING;
use crate::constants::PLAYER_VELOCITY_X;
use crate::constants::PLAYER_VELOCITY_Y;
use crate::constants::PLAYER_WIDTH;
use crate::num::FX_LIM;
use crate::num::clip;
use crate::num::clip_i128;
use crate::physics::ColliderType;
use crate::physics::GameObject;
use crate::physics::bounce_fold;
use crate::physics::collisions_of;
use crate::physics::moved;
use crate::physics::obj_wf;
use crate::player::FrameInput;
use crate::player::Player;
use crate::player::PlayerPosition;
use crate::player::PlayerState;
use crate::player::UserType;
use crate::player::handle_state_spec;
use crate::rng::Rng;
use crate::score::Score;
use crate::score::goals_step;
use crate::vec2::Vec2;

verus! {

/// The whole session: player slots, the ball, the four boundary bodies,
/// the score machine, the clock and the random stream.  The two
/// `side_bounds` double as the goal colliders.
#[derive(Debug)]
pub struct Game {
    pub players_state: Vec<PlayerState>,
    pub player_amount: u8,
    pub ball: GameObject,
    pub top_bottom_bounds: [GameObject; 2],
    pub side_bounds: [GameObject; 2],
    pub score: Score,
    pub game_time: i64,
    pub bounds: Bounds,
    pub rng: Rng,
}

/// The bodies the ball can bounce off, in resolution order: the top
/// wall, the bottom wall, then each player's paddle in slot order.
pub open spec fn surfaces_of(
    top_bottom: [GameObject; 2],
    players: Seq<PlayerState>,
) -> Seq<GameObject> {
    seq![top_bottom@[0], top_bottom@[1]] + players.map_values(|ps: PlayerState| ps.player.object)
}

/// The player slots after one frame of control dispatch in slot order,
/// with the random stream threaded through them.
pub open spec fn players_fold(
    players: Seq<PlayerState>,
    ball: GameObject,
    ball_collided: bool,
    input: FrameInput,
    now: int,
    dt: int,
    s: u64,
) -> (Seq<PlayerState>, u64)
    decreases players.len(),
{
    if players.len() == 0 {
        (Seq::empty(), s)
    } else {
        let prior = players_fold(players.drop_last(), ball, ball_collided, input, now, dt, s);
        let stepped = handle_state_spec(players.last(), ball, ball_collided, input, now, dt, prior.1);
        (prior.0.push(stepped.0), stepped.1)
    }
}

/// Everything one frame changes, given the state at its start: the
/// player slots, the ball, the score, the clock, and the random stream
/// state, in that order.
pub open spec fn update_outcome(g: Game, input: FrameInput, dt: int) -> (
    Seq<PlayerState>,
    GameObject,
    Score,
    i64,
    u64,
) {
    let t1 = clip(g.game_time + dt) as i64;
    let collided = collisions_of(
        g.ball.collider.rect,
        surfaces_of(g.top_bottom_bounds, g.players_state@),
    ).len() > 0;
    let stepped = players_fold(g.players_state@, g.ball, collided, input, t1 as int, dt, g.rng.state);
    let ball1 = bounce_fold(moved(g.ball, dt), surfaces_of(g.top_bottom_bounds, stepped.0));
    let scored = goals_step(
        g.score,
        ball1,
        g.side_bounds@[0],
        g.side_bounds@[1],
        g.bounds,
        t1 as int,
        stepped.1,
    );
    (stepped.0, scored.1, scored.0, t1, scored.2)
}

impl Game {
    /// Every entity is well-formed, the clock is a time, and the field
    /// is large enough to hold a paddle and the ball.
    pub open spec fn wf(self) -> bool {
        &&& self.bounds.wf()
        &&& obj_wf(self.ball)
        &&& obj_wf(self.top_bottom_bounds@[0])
        &&& obj_wf(self.top_bottom_bounds@[1])
        &&& obj_wf(self.side_bounds@[0])
        &&& obj_wf(self.side_bounds@[1])
        &&& self.score.wf()
        &&& 0 <= self.game_time <= FX_LIM
        &&& self.bounds.w - self.bounds.x >= PLAYER_WIDTH
        &&& self.bounds.h - self.bounds.y >= PLAYER_HEIGHT
        &&& self.bounds.h > BALL_SIZE_Y
        &&& self.bounds.x + PLAYER_PADDING <= FX_LIM
        &&& self.bounds.w - PLAYER_PADDING - PLAYER_WIDTH >= -FX_LIM
        &&& forall|i: int|
            0 <= i < self.players_state@.len() ==> (#[trigger] self.players_state@[i]).wf()
    }

    /// A fresh session on the standard field: the ball at rest in the
    /// center, walls above and below, goal colliders beyond the sides,
    /// no players yet, and the serve machine seeded from the given seed.
    pub fn new(seed: u64) -> (r: Game)
        ensures
            r.wf(),
            r.bounds == (Bounds { x: BOUNDS_X, y: BOUNDS_Y, w: BOUNDS_W, h: BOUNDS_H }),
            r.players_state@.len() == 0,
            r.player_amount == 0,
            r.game_time == 0,
            r.ball.position == (Vec2 {
                x: ((BOUNDS_W - BOUNDS_X) / 2 - BALL_RADIUS) as i64,
                y: ((BOUNDS_H - BOUNDS_Y) / 2 - BALL_RADIUS) as i64,
            }),
            r.ball.velocity == (Vec2 { x: 0i64, y: 0i64 }),
            r.ball.collider.shape == ColliderType::Circle(BALL_RADIUS),
            r.ball.collider.rect.x == r.ball.position.x,
            r.ball.collider.rect.y == r.ball.position.y,
            r.ball.is_player == false,
            r.top_bottom_bounds@[0].position == (Vec2 { x: BOUNDS_X, y: (BOUNDS_Y - BOUNDS_THICKNESS) as i64 }),
            r.top_bottom_bounds@[1].position == (Vec2 { x: BOUNDS_X, y: BOUNDS_H }),
            r.top_bottom_bounds@[0].collider.shape == ColliderType::Rectangle(
                BOUNDS_W,
                BOUNDS_THICKNESS,
            ),
            r.top_bottom_bounds@[1].collider.shape == ColliderType::Rectangle(
                BOUNDS_W,
                BOUNDS_THICKNESS,
            ),
            r.side_bounds@[0].position == (Vec2 { x: (BOUNDS_X - BOUNDS_THICKNESS) as i64, y: BOUNDS_Y }),
            r.side_bounds@[1].position == (Vec2 { x: BOUNDS_W, y: BOUNDS_Y }),
            r.side_bounds@[0].collider.shape == ColliderType::Rectangle(BOUNDS_THICKNESS, BOUNDS_H),
            r.side_bounds@[1].collider.shape == ColliderType::Rectangle(BOUNDS_THICKNESS, BOUNDS_H),
            r.top_bottom_bounds@[0].velocity == (Vec2 { x: 0i64, y: 0i64 }),
            r.top_bottom_bounds@[1].velocity == (Vec2 { x: 0i64, y: 0i64 }),
            r.top_bottom_bounds@[0].is_player == false,
            r.top_bottom_bounds@[1].is_player == false,
            r.side_bounds@[0].velocity == (Vec2 { x: 0i64, y: 0i64 }),
            r.side_bounds@[1].velocity == (Vec2 { x: 0i64, y: 0i64 }),
            r.score == (Score {
                left: 0usize,
                right: 0usize,
                score_time: crate::constants::INITIAL_SCORE_TIME,
                start_direction: if crate::rng::rng_out(crate::rng::seed_state(seed)) & 1 == 0 {
                    -1i32
                } else {
                    1i32
                },
            }),
            r.rng.state == crate::rng::rng_next(crate::rng::seed_state(seed)),
    {
        let bounds = Bounds::new(BOUNDS_X, BOUNDS_Y, BOUNDS_W, BOUNDS_H);
        let center = bounds.center();
        let ball = GameObject::from_pos(
            center.x - BALL_RADIUS,
            center.y - BALL_RADIUS,
            ColliderType::Circle(BALL_RADIUS),
        );
        let top_bottom_bounds = [
            GameObject::from_pos(
                BOUNDS_X,
                BOUNDS_Y - BOUNDS_THICKNESS,
                ColliderType::Rectangle(BOUNDS_W, BOUNDS_THICKNESS),
            ),
            GameObject::from_pos(
                BOUNDS_X,
                BOUNDS_H,
                ColliderType::Rectangle(BOUNDS_W, BOUNDS_THICKNESS),
            ),
        ];
        let side_bounds = [
            GameObject::from_pos(
                BOUNDS_X - BOUNDS_THICKNESS,
                BOUNDS_Y,
                ColliderType::Rectangle(BOUNDS_THICKNESS, BOUNDS_H),
            ),
            GameObject::from_pos(
                BOUNDS_W,
                BOUNDS_Y,
                ColliderType::Rectangle(BOUNDS_THICKNESS, BOUNDS_H),
            ),
        ];
        let mut rng = Rng::new(seed);
        let score = Score::new(&mut rng);
        Game {
            players_state: Vec::new(),
            player_amount: 0,
            ball,
            top_bottom_bounds,
            side_bounds,
            score,
            game_time: 0,
            bounds,
            rng,
        }
    }

    /// Add a player on the given side: a human slot takes the perfect AI
    /// profile as an unused placeholder and the default name, an AI slot
    /// takes its profile and its name.  Returns the slot's id.
    pub fn add_player(&mut self, user_type: UserType, position: PlayerPosition) -> (id: u8)
        requires
            old(self).wf(),
            old(self).player_amount < u8::MAX,
            user_type matches UserType::Ai(profile) ==> profile.behavior.wf(),
        ensures
            final(self).wf(),
            id == old(self).player_amount,
            final(self).player_amount == old(self).player_amount + 1,
            final(self).players_state@.len() == old(self).players_state@.len() + 1,
            forall|i: int|
                0 <= i < old(self).players_state@.len() ==> final(self).players_state@[i] == old(
                    self,
                ).players_state@[i],
            ({
                let ps = final(self).players_state@.last();
                let px = match position {
                    PlayerPosition::Left => old(self).bounds.x + PLAYER_PADDING,
                    PlayerPosition::Right => old(self).bounds.w - PLAYER_PADDING - PLAYER_WIDTH,
                };
                &&& ps.id == id
                &&& ps.user_type == user_type
                &&& ps.player.side == position
                &&& ps.player.bounds == old(self).bounds
                &&& ps.player.object.position == (Vec2 {
                    x: px as i64,
                    y: ((old(self).bounds.h - old(self).bounds.y) / 2 - PLAYER_HEIGHT as int
                        / 2) as i64,
                })
                &&& ps.player.object.velocity == (Vec2 { x: 0i64, y: 0i64 })
                &&& ps.player.object.collider.shape == ColliderType::Rectangle(
                    PLAYER_WIDTH,
                    PLAYER_HEIGHT,
                )
                &&& ps.player.object.is_player == true
                &&& ps.player.max_velocity == (Vec2 { x: PLAYER_VELOCITY_X, y: PLAYER_VELOCITY_Y })
                &&& ps.player.max_acceleration == (Vec2 {
                    x: PLAYER_ACCELERATION_X,
                    y: PLAYER_ACCELERATION_Y,
                })
                &&& (user_type matches UserType::Ai(ai) ==> ps.ai == ai)
            }),
            final(self).ball == old(self).ball,
            final(self).score == old(self).score,
            final(self).game_time == old(self).game_time,
            final(self).bounds == old(self).bounds,
            final(self).rng == old(self).rng,
            final(self).top_bottom_bounds == old(self).top_bottom_bounds,
            final(self).side_bounds == old(self).side_bounds,
    {
        let player_position: i64 = match position {
            PlayerPosition::Left => self.bounds.x + PLAYER_PADDING,
            PlayerPosition::Right => self.bounds.w - PLAYER_PADDING - PLAYER_WIDTH,
        };
        let center_y: i64 = crate::num::div_pos(self.bounds.h - self.bounds.y, 2) - crate::num::div_pos(
            PLAYER_HEIGHT,
            2,
        );
        let (ai, is_client): (Ai, bool) = match &user_type {
            UserType::Client(_) => (Ai::predict(), true),
            UserType::Ai(profile) => (profile.clone(), false),
        };
        let object = GameObject::from_pos(
            player_position,
            center_y,
            ColliderType::Rectangle(PLAYER_WIDTH, PLAYER_HEIGHT),
        );
        let player = if is_client {
            Player::new(
                "User1",
                object,
                self.bounds,
                Vec2 { x: PLAYER_VELOCITY_X, y: PLAYER_VELOCITY_Y },
                Vec2 { x: PLAYER_ACCELERATION_X, y: PLAYER_ACCELERATION_Y },
                position,
            )
        } else {
            Player::new(
                ai.name.as_str(),
                object,
                self.bounds,
                Vec2 { x: PLAYER_VELOCITY_X, y: PLAYER_VELOCITY_Y },
                Vec2 { x: PLAYER_ACCELERATION_X, y: PLAYER_ACCELERATION_Y },
                position,
            )
        };
        let id = self.player_amount;
        let player_state = PlayerState { user_type, player, ai, id };
        self.players_state.push(player_state);
        self.player_amount = self.player_amount + 1;
        id
    }
}

/// The slots that survive removing an id, in their original order.
pub open spec fn kept_players(s: Seq<PlayerState>, id: u8) -> Seq<PlayerState>
    decreases s.len(),
{
    if s.len() == 0 {
        Seq::empty()
    } else {
        let rest = kept_players(s.drop_last(), id);
        if s.last().id != id {
            rest.push(s.last())
        } else {
            rest
        }
    }
}

/// Who drives the first slot carrying an id, if any does.
pub open spec fn user_of(s: Seq<PlayerState>, id: u8) -> Option<UserType>
    decreases s.len(),
{
    if s.len() == 0 {
        Option::None
    } else if s.first().id == id {
        Option::Some(s.first().user_type)
    } else {
        user_of(s.drop_first(), id)
    }
}

impl Game {
    /// Drop every slot carrying the given id.
    pub fn remove_player(&mut self, id: u8)
        requires
            old(self).wf(),
        ensures
            final(self).wf(),
            final(self).players_state@ == kept_players(old(self).players_state@, id),
            final(self).player_amount == old(self).player_amount,
            final(self).ball == old(self).ball,
            final(self).score == old(self).score,
            final(self).game_time == old(self).game_time,
            final(self).bounds == old(self).bounds,
            final(self).rng == old(self).rng,
            final(self).top_bottom_bounds == old(self).top_bottom_bounds,
            final(self).side_bounds == old(self).side_bounds,
    {
        let mut kept: Vec<PlayerState> = Vec::new();
        let mut i: usize = 0;
        while i < self.players_state.len()
            invariant
                0 <= i <= self.players_state@.len(),
                *self == *old(self),
                self.wf(),
                kept@ == kept_players(self.players_state@.take(i as int), id),
                forall|k: int| 0 <= k < kept@.len() ==> (#[trigger] kept@[k]).wf(),
            decreases self.players_state@.len() - i,
        {
            let ps = &self.players_state[i];
            if ps.id != id {
                let copy = ps.clone();
                kept.push(copy);
            }
            proof {
                assert(self.players_state@.take(i as int + 1).drop_last() =~= self.players_state@
                    .take(i as int));
                assert(self.players_state@.take(i as int + 1).last() == self.players_state@[
                i as int]);
            }
            i = i + 1;
        }
        proof {
            assert(self.players_state@.take(self.players_state@.len() as int) =~= self
                .players_state@);
        }
        self.players_state = kept;
    }

    /// Who drives the slot with the given id, or nothing for an unknown
    /// id.
    pub fn player_type(&self, id: u8) -> (r: Option<UserType>)
        ensures
            r == user_of(self.players_state@, id),
    {
        proof {
            assert(self.players_state@.skip(0) =~= self.players_state@);
        }
        let mut i: usize = 0;
        while i < self.players_state.len()
            invariant
                0 <= i <= self.players_state@.len(),
                user_of(self.players_state@, id) == user_of(
                    self.players_state@.skip(i as int),
                    id,
                ),
            decreases self.players_state@.len() - i,
        {
            let ps = &self.players_state[i];
            proof {
                assert(self.players_state@.skip(i as int).first() == self.players_state@[i as int]);
                assert(self.players_state@.skip(i as int).drop_first() =~= self.players_state@.skip(
                    i as int + 1,
                ));
            }
            if ps.id == id {
                return Option::Some(ps.user_type.clone());
            }
            i = i + 1;
        }
        Option::None
    }

    /// The bodies the ball can bounce off, in resolution order, as they
    /// stand right now.
    fn bounce_surfaces(&self) -> (r: Vec<GameObject>)
        requires
            self.wf(),
        ensures
            r@ == surfaces_of(self.top_bottom_bounds, self.players_state@),
            forall|k: int| 0 <= k < r@.len() ==> obj_wf(#[trigger] r@[k]),
    {
        let mut surfaces: Vec<GameObject> = Vec::new();
        surfaces.push(self.top_bottom_bounds[0]);
        surfaces.push(self.top_bottom_bounds[1]);
        let mut i: usize = 0;
        while i < self.players_state.len()
            invariant
                0 <= i <= self.players_state@.len(),
                self.wf(),
                surfaces@ == surfaces_of(
                    self.top_bottom_bounds,
                    self.players_state@.take(i as int),
                ),
            decreases self.players_state@.len() - i,
        {
            surfaces.push(self.players_state[i].player.object);
            proof {
                assert(surfaces@ =~= surfaces_of(
                    self.top_bottom_bounds,
                    self.players_state@.take(i as int + 1),
                ));
            }
            i = i + 1;
        }
        proof {
            assert(self.players_state@.take(self.players_state@.len() as int) =~= self
                .players_state@);
            assert(forall|k: int| 0 <= k < surfaces@.len() ==> obj_wf(#[trigger] surfaces@[k]));
        }
        surfaces
    }

    /// Judge whether the ball stands in contact with any bounce surface
    /// right now, then dispatch one frame of control to every player
    /// slot in order, threading the random stream through them.
    fn handle_player_state(&mut self, input: &FrameInput, frame_time: u32)
        requires
            old(self).wf(),
        ensures
            final(self).wf(),
            ({
                let collided = collisions_of(
                    old(self).ball.collider.rect,
                    surfaces_of(old(self).top_bottom_bounds, old(self).players_state@),
                ).len() > 0;
                let stepped = players_fold(
                    old(self).players_state@,
                    old(self).ball,
                    collided,
                    *input,
                    old(self).game_time as int,
                    frame_time as int,
                    old(self).rng.state,
                );
                &&& final(self).players_state@ == stepped.0
                &&& final(self).rng.state == stepped.1
            }),
            final(self).ball == old(self).ball,
            final(self).score == old(self).score,
            final(self).game_time == old(self).game_time,
            final(self).player_amount == old(self).player_amount,
            final(self).bounds == old(self).bounds,
            final(self).top_bottom_bounds == old(self).top_bottom_bounds,
            final(self).side_bounds == old(self).side_bounds,
    {
        let surfaces = self.bounce_surfaces();
        let collisions = self.ball.check_collisions_vec(&surfaces);
        let ball_collided = collisions.len() > 0;

        let now = self.game_time;
        let ball_copy = self.ball;
        let ghost rng0 = self.rng.state;
        let mut updated: Vec<PlayerState> = Vec::new();
        let mut i: usize = 0;
        while i < self.players_state.len()
            invariant
                0 <= i <= self.players_state@.len(),
                self.players_state == old(self).players_state,
                self.ball == old(self).ball,
                self.score == old(self).score,
                self.bounds == old(self).bounds,
                self.top_bottom_bounds == old(self).top_bottom_bounds,
                self.side_bounds == old(self).side_bounds,
                self.game_time == old(self).game_time,
                self.player_amount == old(self).player_amount,
                self.wf(),
                now == old(self).game_time,
                ball_copy == old(self).ball,
                obj_wf(ball_copy),
                (updated@, self.rng.state) == players_fold(
                    self.players_state@.take(i as int),
                    ball_copy,
                    ball_collided,
                    *input,
                    now as int,
                    frame_time as int,
                    rng0,
                ),
                forall|k: int| 0 <= k < updated@.len() ==> (#[trigger] updated@[k]).wf(),
            decreases self.players_state@.len() - i,
        {
            let mut ps = self.players_state[i].clone();
            ps.handle_state(&ball_copy, ball_collided, input, now, frame_time, &mut self.rng);
            updated.push(ps);
            proof {
                assert(self.players_state@.take(i as int + 1).drop_last() =~= self.players_state@
                    .take(i as int));
                assert(self.players_state@.take(i as int + 1).last() == self.players_state@[
                i as int]);
            }
            i = i + 1;
        }
        proof {
            assert(self.players_state@.take(self.players_state@.len() as int) =~= self
                .players_state@);
        }
        self.players_state = updated;
    }

    /// Run one frame in the fixed order: advance the clock, dispatch
    /// control to every player slot, move and bounce-resolve the ball
    /// against the walls and the moved paddles, then run goal detection
    /// and the serve machine.
    #[verifier::rlimit(80)]
    pub fn update(&mut self, input: &FrameInput, frame_time: u32)
        requires
            old(self).wf(),
        ensures
            final(self).wf(),
            ({
                let outcome = update_outcome(*old(self), *input, frame_time as int);
                &&& final(self).players_state@ == outcome.0
                &&& final(self).ball == outcome.1
                &&& final(self).score == outcome.2
                &&& final(self).game_time == outcome.3
                &&& final(self).rng.state == outcome.4
            }),
            final(self).player_amount == old(self).player_amount,
            final(self).bounds == old(self).bounds,
            final(self).top_bottom_bounds == old(self).top_bottom_bounds,
            final(self).side_bounds == old(self).side_bounds,
    {
        let now = clip_i128(self.game_time as i128 + frame_time as i128);
        self.game_time = now;

        self.handle_player_state(input, frame_time);

        let bounce_surfaces = self.bounce_surfaces();
        self.ball.handle_bounces(&bounce_surfaces, frame_time);

        self.score.handle_goals(
            &mut self.ball,
            &self.side_bounds,
            self.bounds,
            self.game_time,
            &mut self.rng,
        );
    }
}

} // verus!
