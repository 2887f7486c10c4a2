use pong_core::ai::{Ai, Behavior};
use pong_core::bounds::Bounds;
use pong_core::physics::{ColliderType, GameObject};
use pong_core::player::{Player, PlayerPosition};
use pong_core::rng::Rng;
use pong_core::vec2::Vec2;

fn field() -> Bounds {
    Bounds::new(0, 0, 1_200_000, 1_000_000)
}

fn paddle_at(x: i64, side: PlayerPosition) -> Player {
    Player::new(
        "tester",
        GameObject::from_pos(x, 465_000, ColliderType::Rectangle(15_000, 70_000)),
        field(),
        Vec2 { x: 0, y: 2_000_000 },
        Vec2 { x: 0, y: 20_000_000 },
        side,
    )
}

#[test]
fn player_new_marks_the_body_as_player() {
    let p = paddle_at(50_000, PlayerPosition::Left);
    assert!(p.object.is_player);
    assert_eq!(p.name, "tester".to_string());
}

#[test]
fn prediction_is_exact_for_a_perfect_profile() {
    // accuracy 1000 forces the accuracy variation draw onto [1000, 1000],
    // so the prediction is the pure line extrapolation whatever the seed
    let mut behavior = Behavior::new((500, 500), 1_000, 0);
    let player = paddle_at(50_000, PlayerPosition::Left);
    let mut ball = GameObject::from_pos(600_000, 500_000, ColliderType::Circle(8_000));
    ball.velocity = Vec2 { x: -500_000, y: 250_000 };
    let mut rng = Rng::new(7);
    behavior.observe(&player, &ball, true, 1_000, &mut rng);
    // plane 50_000 + 15_000; y = 500_000 + (65_000 - 600_000) * (250 / -500)
    let predicted = behavior.predicted_position.unwrap();
    assert_eq!(predicted.x, 65_000);
    assert_eq!(predicted.y, 767_500);
    assert_eq!(behavior.collision_time, 1_000);
    assert_eq!(behavior.accuracy_variation, 1_000);
    assert_eq!(behavior.hit_position, 500);
}

#[test]
fn prediction_stays_inside_the_playable_strip() {
    // steep, shallow and negative slopes: the fold-and-mirror must never
    // leave [0, field height - ball height]
    let player = paddle_at(1_135_000, PlayerPosition::Right);
    let velocities = vec![
        (250_000i64, 990_000i64),
        (1_000i64, 5_000_000i64),
        (750_000i64, -3_333_333i64),
        (123i64, 999_999i64),
        (500_000i64, 0i64),
    ];
    let mut seed: u64 = 1;
    for (vx, vy) in velocities {
        let mut behavior = Behavior::new((100, 900), 950, 150);
        let mut ball = GameObject::from_pos(600_000, 500_000, ColliderType::Circle(8_000));
        ball.velocity = Vec2 { x: vx, y: vy };
        let mut rng = Rng::new(seed);
        seed += 1;
        behavior.observe(&player, &ball, true, 2_000, &mut rng);
        let predicted = behavior.predicted_position.unwrap();
        assert_eq!(predicted.x, 1_135_000 - 16_000);
        assert!(predicted.y >= 0);
        assert!(predicted.y <= 1_000_000 - 16_000);
    }
}

#[test]
fn no_prediction_for_a_receding_or_resting_ball() {
    let player = paddle_at(50_000, PlayerPosition::Left);
    let mut behavior = Behavior::new((100, 900), 950, 150);
    let mut rng = Rng::new(3);
    // moving away from the left player: the prediction stays unset
    let mut ball = GameObject::from_pos(600_000, 500_000, ColliderType::Circle(8_000));
    ball.velocity = Vec2 { x: 400_000, y: 100_000 };
    behavior.observe(&player, &ball, false, 1_000, &mut rng);
    assert!(behavior.predicted_position.is_none());
    // at rest: the resample fires but no horizontal motion, no prediction
    ball.velocity = Vec2 { x: 0, y: 0 };
    behavior.observe(&player, &ball, false, 2_000, &mut rng);
    assert!(behavior.predicted_position.is_none());
    assert_eq!(behavior.collision_time, 2_000);
}

#[test]
fn reaction_latency_blocks_movement_until_it_elapses() {
    // a 150 ms profile must not move toward a fresh prediction before
    // 150 ms of simulated time have passed since the trigger
    let mut ai = Ai::new("gated", (500, 500), 1_000, 150);
    let mut player = paddle_at(50_000, PlayerPosition::Left);
    let mut ball = GameObject::from_pos(600_000, 500_000, ColliderType::Circle(8_000));
    ball.velocity = Vec2 { x: -500_000, y: 250_000 };
    let mut rng = Rng::new(11);
    ai.behavior.observe(&player, &ball, true, 1_000, &mut rng);
    assert!(ai.behavior.predicted_position.is_some());
    let before = player.object;

    // scripted frames inside the latency window: 1_016, 1_064, 1_149
    player.ai_control(&ai, 1_016, 16);
    assert_eq!(player.object, before);
    player.ai_control(&ai, 1_064, 16);
    assert_eq!(player.object, before);
    player.ai_control(&ai, 1_149, 16);
    assert_eq!(player.object, before);

    // at exactly 150 ms the latency has elapsed and the paddle accelerates
    player.ai_control(&ai, 1_150, 16);
    assert!(player.object.velocity.y != 0 || player.object.acceleration.y != 0);
}

#[test]
fn idle_ai_drifts_toward_the_field_center() {
    // no prediction held: the paddle eases toward the centered stance
    let ai = Ai::new("idle", (500, 500), 1_000, 0);
    let mut player = paddle_at(50_000, PlayerPosition::Left);
    player.object.position.y = 100_000;
    player.object.collider.rect.y = 100_000;
    player.ai_control(&ai, 1_000, 16);
    assert!(player.object.velocity.y > 0);
    assert_eq!(player.name, "idle".to_string());
}

#[test]
fn keyboard_control_is_idle_with_both_or_neither_key() {
    let mut player = paddle_at(50_000, PlayerPosition::Left);
    let before_y = player.object.position.y;
    player.keyboard_control(false, false, 16);
    assert_eq!(player.object.position.y, before_y);
    player.keyboard_control(true, true, 16);
    assert_eq!(player.object.position.y, before_y);
}

#[test]
fn keyboard_control_drives_toward_the_held_key() {
    let mut player = paddle_at(50_000, PlayerPosition::Left);
    player.keyboard_control(true, false, 16);
    assert!(player.object.velocity.y < 0);
    let mut player_down = paddle_at(50_000, PlayerPosition::Left);
    player_down.keyboard_control(false, true, 16);
    assert!(player_down.object.velocity.y > 0);
}

#[test]
fn mouse_control_centers_the_paddle_on_the_pointer() {
    let mut player = paddle_at(50_000, PlayerPosition::Left);
    // pointer below the paddle: it accelerates downward
    player.mouse_control(Vec2 { x: 57_500, y: 900_000 }, 16);
    assert!(player.object.velocity.y > 0);
    // run until settled: the paddle's center comes to rest by the pointer
    for _ in 0..3000 {
        player.mouse_control(Vec2 { x: 57_500, y: 900_000 }, 16);
    }
    let center_y = player.object.position.y + 35_000;
    assert!((center_y - 900_000).abs() < 1_000);
}

#[test]
fn ai_presets_match_their_profiles() {
    let sarah = Ai::sarah();
    assert_eq!(sarah.name, "Sarah".to_string());
    assert_eq!(sarah.behavior.hit_range, (100, 900));
    assert_eq!(sarah.behavior.accuracy, 950);
    assert_eq!(sarah.behavior.reaction_time, 150);
    let raphael = Ai::raphael();
    assert_eq!(raphael.behavior.hit_range, (-100, 1_100));
    assert_eq!(raphael.behavior.reaction_time, 500);
    let predict = Ai::predict();
    assert_eq!(predict.behavior.accuracy, 1_000);
    assert_eq!(predict.behavior.reaction_time, 0);
}

#[test]
fn difficulty_widens_the_aim_window() {
    // a sloppy profile with a steep ball: the drawn aim fraction stays
    // inside the widened window [lo - difficulty, hi + difficulty]
    let player = paddle_at(50_000, PlayerPosition::Left);
    let mut behavior = Behavior::new((100, 900), 500, 500);
    let mut ball = GameObject::from_pos(600_000, 500_000, ColliderType::Circle(8_000));
    ball.velocity = Vec2 { x: -200_000, y: 600_000 };
    // difficulty = |600/−200| * (1 − 0.5) = 1.5, milli-scaled 1_500
    let mut rng = Rng::new(99);
    behavior.observe(&player, &ball, true, 500, &mut rng);
    assert!(behavior.hit_position >= 100 - 1_500);
    assert!(behavior.hit_position <= 900 + 1_500);
    assert!(behavior.accuracy_variation >= 500);
    assert!(behavior.accuracy_variation <= 1_500);
}
