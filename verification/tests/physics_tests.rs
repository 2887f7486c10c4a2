use pong_core::physics::{Collider, ColliderType, CollisionType, GameObject};
use pong_core::vec2::Vec2;

#[test]
fn circle_collider_stores_bounding_square() {
    let c = Collider::new(5_000, 7_000, ColliderType::Circle(8_000));
    assert_eq!(c.rect.x, 5_000);
    assert_eq!(c.rect.y, 7_000);
    assert_eq!(c.rect.w, 16_000);
    assert_eq!(c.rect.h, 16_000);
}

#[test]
fn rectangle_collider_stores_extents() {
    let c = Collider::new(-1_000, 0, ColliderType::Rectangle(15_000, 70_000));
    assert_eq!(c.rect.w, 15_000);
    assert_eq!(c.rect.h, 70_000);
}

#[test]
fn move_object_advances_position_and_box() {
    let mut ball = GameObject::from_pos(592_000, 492_000, ColliderType::Circle(8_000));
    ball.velocity = Vec2 { x: -500_000, y: 10_000 };
    ball.move_object(16);
    assert_eq!(ball.position.x, 584_000);
    assert_eq!(ball.position.y, 492_160);
    assert_eq!(ball.collider.rect.x, 584_000);
    assert_eq!(ball.collider.rect.y, 492_160);
    assert_eq!(ball.velocity.x, -500_000);
    assert_eq!(ball.velocity.y, 10_000);
}

#[test]
fn collision_classifies_narrow_overlap_as_horizontal() {
    let a = GameObject::from_pos(0, 0, ColliderType::Rectangle(10_000, 10_000));
    let b = GameObject::from_pos(8_000, 2_000, ColliderType::Rectangle(10_000, 10_000));
    // overlap is 2_000 wide and 8_000 tall: a side-by-side contact
    assert!(matches!(a.check_collisions(&b), Some(CollisionType::Horizontal)));
}

#[test]
fn collision_classifies_wide_overlap_as_vertical() {
    let a = GameObject::from_pos(0, 0, ColliderType::Rectangle(10_000, 10_000));
    let b = GameObject::from_pos(2_000, 8_000, ColliderType::Rectangle(10_000, 10_000));
    assert!(matches!(a.check_collisions(&b), Some(CollisionType::Vertical)));
}

#[test]
fn collision_tie_break_is_vertical() {
    // the overlap rectangle is exactly 5_000 by 5_000
    let a = GameObject::from_pos(0, 0, ColliderType::Rectangle(10_000, 10_000));
    let b = GameObject::from_pos(5_000, 5_000, ColliderType::Rectangle(10_000, 10_000));
    assert!(matches!(a.check_collisions(&b), Some(CollisionType::Vertical)));
    // and it classifies the same way every run
    for _ in 0..100 {
        assert!(matches!(a.check_collisions(&b), Some(CollisionType::Vertical)));
    }
}

#[test]
fn separated_boxes_do_not_collide() {
    let a = GameObject::from_pos(0, 0, ColliderType::Rectangle(10_000, 10_000));
    let b = GameObject::from_pos(20_001, 0, ColliderType::Rectangle(10_000, 10_000));
    assert!(a.check_collisions(&b).is_none());
}

#[test]
fn collisions_vec_collects_in_order() {
    let a = GameObject::from_pos(0, 0, ColliderType::Rectangle(10_000, 10_000));
    let far = GameObject::from_pos(50_000, 0, ColliderType::Rectangle(10_000, 10_000));
    let side = GameObject::from_pos(8_000, 2_000, ColliderType::Rectangle(10_000, 10_000));
    let below = GameObject::from_pos(2_000, 8_000, ColliderType::Rectangle(10_000, 10_000));
    let hits = a.check_collisions_vec(&vec![far, side, below]);
    assert_eq!(hits.len(), 2);
    assert!(matches!(hits[0], CollisionType::Horizontal));
    assert!(matches!(hits[1], CollisionType::Vertical));
}

#[test]
fn static_wall_bounce_flips_sign_and_keeps_speed() {
    // a wall below the ball, at rest: the bounced axis must come out at
    // the same speed, sign flipped, because the momentum transfer of a
    // static surface is zero
    let wall = GameObject::from_pos(0, 100_000, ColliderType::Rectangle(1_000_000, 50_000));
    let mut ball = GameObject::from_pos(10_000, 95_000, ColliderType::Circle(8_000));
    ball.velocity = Vec2 { x: 3_000, y: 7_000 };
    // zero frame time: the bounce resolves against the current overlap
    ball.handle_bounces(&vec![wall], 0);
    assert_eq!(ball.velocity.y, -7_000);
    assert_eq!(ball.velocity.x, 3_000);
    // pushed flush above the wall's face
    assert_eq!(ball.position.y, 2 * (100_000 - 16_000) - 95_000);
}

#[test]
fn paddle_bounce_adds_momentum_and_spin() {
    // a moving paddle: the contact axis picks up 1.1 times the paddle's
    // velocity, and the vertical offset from the paddle center becomes
    // spin scaled by the outgoing horizontal speed over 25
    let mut paddle = GameObject::from_pos(20_000, 90_000, ColliderType::Rectangle(15_000, 70_000));
    paddle.is_player = true;
    paddle.velocity = Vec2 { x: 0, y: -10_000 };
    let mut ball = GameObject::from_pos(10_000, 100_000, ColliderType::Circle(8_000));
    ball.velocity = Vec2 { x: 50_000, y: 0 };
    // overlap: 6_000 wide, 16_000 tall -> horizontal contact
    ball.handle_bounces(&vec![paddle], 0);
    assert_eq!(ball.velocity.x, -50_000);
    // centers: ball 108_000, paddle 125_000; spin = -17_000 * 50_000 / 25_000
    assert_eq!(ball.velocity.y, -34_000);
}

#[test]
fn move_towards_runs_the_spring_formula() {
    let mut paddle = GameObject::from_pos(0, 0, ColliderType::Rectangle(15_000, 70_000));
    paddle.move_towards(
        Vec2 { x: 0, y: 100_000 },
        Vec2 { x: 0, y: 2_000_000 },
        Vec2 { x: 0, y: 20_000_000 },
        16,
    );
    // raw acceleration (100_000 - 0) * 1000 = 1e8 clamps to 2e7;
    // velocity 2e7 * 16 / 1000 = 320_000; position 320_000 * 16 / 1000
    assert_eq!(paddle.acceleration.y, 20_000_000);
    assert_eq!(paddle.velocity.y, 320_000);
    assert_eq!(paddle.position.y, 5_120);
    // the X axis budget is zero, so nothing moves there
    assert_eq!(paddle.acceleration.x, 0);
    assert_eq!(paddle.velocity.x, 0);
    assert_eq!(paddle.position.x, 0);
}

#[test]
fn move_towards_settles_at_rest_on_target() {
    let mut paddle = GameObject::from_pos(0, 50_000, ColliderType::Rectangle(15_000, 70_000));
    paddle.move_towards(
        Vec2 { x: 0, y: 50_000 },
        Vec2 { x: 0, y: 2_000_000 },
        Vec2 { x: 0, y: 20_000_000 },
        16,
    );
    // on target with zero velocity the commanded acceleration is zero
    assert_eq!(paddle.position.y, 50_000);
    assert_eq!(paddle.velocity.y, 0);
    assert_eq!(paddle.acceleration.y, 0);
}

#[test]
fn move_towards_in_bounds_clamps_the_target() {
    let bounds = pong_core::bounds::Bounds::new(0, 0, 1_200_000, 1_000_000);
    let mut paddle = GameObject::from_pos(50_000, 0, ColliderType::Rectangle(15_000, 70_000));
    // ask for a target far below the field: the request clamps to the
    // bottom edge less the paddle's height, so the paddle never leaves
    for _ in 0..2000 {
        paddle.move_towards_in_bounds(
            Vec2 { x: 50_000, y: i64::MAX },
            Vec2 { x: 0, y: 2_000_000 },
            Vec2 { x: 0, y: 20_000_000 },
            bounds,
            16,
        );
        assert!(paddle.position.y >= 0);
        assert!(paddle.position.y <= 1_000_000 - 70_000);
    }
    // the integer spring settles just inside the clamped target
    assert_eq!(paddle.position.y, 929_996);
}
