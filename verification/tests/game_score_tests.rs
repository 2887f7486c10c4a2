use pong_core::bounds::Bounds;
use pong_core::game::Game;
use pong_core::physics::{ColliderType, GameObject};
use pong_core::player::{ControlType, FrameInput, PlayerPosition, UserType};
use pong_core::rng::Rng;
use pong_core::score::Score;
use pong_core::vec2::Vec2;

fn field() -> Bounds {
    Bounds::new(0, 0, 1_200_000, 1_000_000)
}

fn goal_pair() -> [GameObject; 2] {
    [
        GameObject::from_pos(-1_000_000, 0, ColliderType::Rectangle(1_000_000, 1_000_000)),
        GameObject::from_pos(1_200_000, 0, ColliderType::Rectangle(1_000_000, 1_000_000)),
    ]
}

fn ball_at(x: i64, y: i64) -> GameObject {
    GameObject::from_pos(x, y, ColliderType::Circle(8_000))
}

fn quiet_input() -> FrameInput {
    FrameInput { pointer: Vec2 { x: 0, y: 0 }, keys_held: vec![] }
}

#[test]
fn serve_timer_freezes_then_launches() {
    // a goal at t = 5.0 s: frozen at field center with zero velocity for
    // every frame with 5.0 <= now <= 6.0, launched at +-1000 units per
    // second right after
    let goals = goal_pair();
    let mut score = Score { left: 0, right: 0, score_time: 0, start_direction: 1 };
    let mut ball = ball_at(-20_000, 500_000);
    let mut rng = Rng::new(42);

    // the crossing at t = 5_000 ms scores for the right player
    score.handle_goals(&mut ball, &goals, field(), 5_000, &mut rng);
    assert_eq!(score.right, 1);
    assert_eq!(score.left, 0);
    assert_eq!(score.score_time, 5_000);
    assert_eq!(ball.position, Vec2 { x: 592_000, y: 492_000 });
    assert_eq!(ball.velocity, Vec2 { x: 0, y: 0 });

    // resynchronize the box as the frame loop's physics step would
    ball.move_object(16);

    for now in [5_016i64, 5_500, 5_999, 6_000] {
        score.handle_goals(&mut ball, &goals, field(), now, &mut rng);
        assert_eq!(ball.position, Vec2 { x: 592_000, y: 492_000 });
        assert_eq!(ball.velocity, Vec2 { x: 0, y: 0 });
        assert_eq!(score.score_time, 5_000);
        assert_eq!(score.right, 1);
    }

    // the first frame past 6.0 s launches at the serve speed
    score.handle_goals(&mut ball, &goals, field(), 6_001, &mut rng);
    assert_eq!(ball.velocity.x, 1_000_000);
    assert!(ball.velocity.y >= -400_000 && ball.velocity.y <= 400_000);
    assert_eq!(score.score_time, 0);
    assert_eq!(score.start_direction, -1);
    assert_eq!(score.right, 1);
}

#[test]
fn consecutive_serves_alternate_sides() {
    let goals = goal_pair();
    let mut score = Score { left: 0, right: 0, score_time: 0, start_direction: -1 };
    let mut rng = Rng::new(5);

    // first goal and serve
    let mut ball = ball_at(-20_000, 500_000);
    score.handle_goals(&mut ball, &goals, field(), 2_000, &mut rng);
    ball.move_object(16);
    score.handle_goals(&mut ball, &goals, field(), 3_001, &mut rng);
    let first_launch_vx = ball.velocity.x;
    assert_eq!(first_launch_vx, -1_000_000);

    // second goal, other side this time, and the next serve
    let mut ball = ball_at(1_204_000, 500_000);
    score.handle_goals(&mut ball, &goals, field(), 8_000, &mut rng);
    ball.move_object(16);
    score.handle_goals(&mut ball, &goals, field(), 9_001, &mut rng);
    let second_launch_vx = ball.velocity.x;
    assert_eq!(second_launch_vx, 1_000_000);

    // opposite-signed horizontal launches
    assert!(first_launch_vx * second_launch_vx < 0);
    assert_eq!(score.left, 1);
    assert_eq!(score.right, 1);
}

#[test]
fn coin_flip_gives_a_valid_first_direction() {
    for seed in 0u64..20 {
        let mut rng = Rng::new(seed);
        let score = Score::new(&mut rng);
        assert!(score.start_direction == 1 || score.start_direction == -1);
        assert_eq!(score.left, 0);
        assert_eq!(score.right, 0);
        assert_eq!(score.score_time, 200);
        // the same seed always gives the same flip
        let mut rng2 = Rng::new(seed);
        let score2 = Score::new(&mut rng2);
        assert_eq!(score.start_direction, score2.start_direction);
    }
}

#[test]
fn end_to_end_frame_moves_the_ball_without_contact() {
    // field 0,0,1200,1000; ball radius 8 at center (600, 500); paddles
    // 15 x 70 at x = 50 and x = 1135; velocity (-500, 10); one frame of
    // 16 ms moves the ball's center to (592, 500.16), velocity unchanged
    let mut game = Game::new(1);
    let left = game.add_player(UserType::Client(ControlType::Keyboard(1, 2)), PlayerPosition::Left);
    let right = game.add_player(
        UserType::Client(ControlType::Keyboard(3, 4)),
        PlayerPosition::Right,
    );
    assert_eq!(left, 0);
    assert_eq!(right, 1);
    assert_eq!(game.players_state[0].player.object.position.x, 50_000);
    assert_eq!(game.players_state[1].player.object.position.x, 1_135_000);

    // play live, not serving
    game.score.score_time = 0;
    game.ball.velocity = Vec2 { x: -500_000, y: 10_000 };
    assert_eq!(game.ball.position, Vec2 { x: 592_000, y: 492_000 });

    game.update(&quiet_input(), 16);

    // the ball's top-left corner: center (592, 500.16) less the radius
    assert_eq!(game.ball.position, Vec2 { x: 584_000, y: 492_160 });
    assert_eq!(game.ball.velocity, Vec2 { x: -500_000, y: 10_000 });
    assert_eq!(game.game_time, 16);
    // no key held: the paddles stay put
    assert_eq!(game.players_state[0].player.object.position.y, 465_000);
    assert_eq!(game.players_state[1].player.object.position.y, 465_000);
    assert_eq!(game.score.left, 0);
    assert_eq!(game.score.right, 0);
}

#[test]
fn goal_crossing_scores_exactly_once() {
    // a ball crossing x < 0 with no paddle in the way: the right
    // player's count rises exactly once for the whole crossing
    let mut game = Game::new(9);
    game.score.score_time = 0;
    let dir = game.score.start_direction;
    game.ball.position = Vec2 { x: 5_000, y: 492_000 };
    game.ball.collider.rect.x = 5_000;
    game.ball.collider.rect.y = 492_000;
    game.ball.velocity = Vec2 { x: -1_000_000, y: 0 };

    game.update(&quiet_input(), 16);
    // moved to -11_000: inside the left goal, one increment
    assert_eq!(game.score.right, 1);
    assert_eq!(game.score.left, 0);
    assert!(game.score.score_time != 0);

    // the overlap would continue, but the serve holds the ball centered:
    // no second increment on any later frame
    for _ in 0..10 {
        game.update(&quiet_input(), 16);
        assert_eq!(game.score.right, 1);
        assert_eq!(game.score.left, 0);
    }
    assert_eq!(game.score.start_direction, dir);
}

#[test]
fn serve_launch_after_game_goal_alternates() {
    let mut game = Game::new(9);
    game.score.score_time = 0;
    let dir = game.score.start_direction;
    game.ball.position = Vec2 { x: 5_000, y: 492_000 };
    game.ball.collider.rect.x = 5_000;
    game.ball.collider.rect.y = 492_000;
    game.ball.velocity = Vec2 { x: -1_000_000, y: 0 };

    // goal on the first frame, then run the serve out: just over one
    // second of 16 ms frames
    for _ in 0..65 {
        game.update(&quiet_input(), 16);
    }
    assert_eq!(game.ball.velocity.x, (dir as i64) * 1_000_000);
    assert_eq!(game.score.start_direction, -dir);
    assert_eq!(game.score.right, 1);
}

#[test]
fn add_remove_and_query_players() {
    let mut game = Game::new(3);
    let a = game.add_player(UserType::Client(ControlType::Mouse), PlayerPosition::Left);
    let b = game.add_player(
        UserType::Ai(pong_core::ai::Ai::raphael()),
        PlayerPosition::Right,
    );
    assert_eq!(a, 0);
    assert_eq!(b, 1);
    assert!(matches!(game.player_type(a), Some(UserType::Client(ControlType::Mouse))));
    assert!(matches!(game.player_type(b), Some(UserType::Ai(_))));
    assert!(game.player_type(7).is_none());

    game.remove_player(a);
    assert!(game.player_type(a).is_none());
    assert!(matches!(game.player_type(b), Some(UserType::Ai(_))));
    assert_eq!(game.players_state.len(), 1);
}

fn run_session(seed: u64) -> (i64, i64, usize, usize) {
    let mut game = Game::new(seed);
    game.add_player(UserType::Ai(pong_core::ai::Ai::sarah()), PlayerPosition::Left);
    game.add_player(UserType::Ai(pong_core::ai::Ai::raphael()), PlayerPosition::Right);
    for _ in 0..600 {
        game.update(&quiet_input(), 16);
    }
    (game.ball.position.x, game.ball.position.y, game.score.left, game.score.right)
}

#[test]
fn ai_match_runs_deterministically() {
    // two AI players, fixed seed and frame time: the whole session is a
    // function of the seed, so two runs agree frame by frame
    let first = run_session(1234);
    let second = run_session(1234);
    assert_eq!(first, second);
}

#[test]
fn ball_stays_inside_vertical_walls_during_play() {
    // a live rally: the ball never ends a frame beyond the top or
    // bottom wall, the bounce always folds it back
    let mut game = Game::new(77);
    game.score.score_time = 0;
    game.ball.velocity = Vec2 { x: 250_000, y: 900_000 };
    for _ in 0..400 {
        game.update(&quiet_input(), 16);
        assert!(game.ball.position.y >= -16_000);
        assert!(game.ball.position.y <= 1_016_000);
    }
}
