use pong_core::bounds::Bounds;
use pong_core::rng::Rng;
use pong_core::vec2::Vec2;

#[test]
fn extent_and_center() {
    let b = Bounds::new(100_000, 200_000, 1_300_000, 1_200_000);
    assert_eq!(b.width(), 1_200_000);
    assert_eq!(b.height(), 1_000_000);
    let c = b.center();
    assert_eq!(c.x, 600_000);
    assert_eq!(c.y, 500_000);
}

#[test]
fn screen_mapping_is_identity_on_a_matching_screen() {
    // a screen exactly the field's size: scale one, offset zero, and a
    // screen point maps to the same field point
    let b = Bounds::new(0, 0, 1_200_000, 1_000_000);
    let screen = Vec2 { x: 1_200_000, y: 1_000_000 };
    assert_eq!(b.screen_ratio(screen), 1_000);
    let size = b.screen_size(screen);
    assert_eq!(size.x, 1_200_000);
    assert_eq!(size.y, 1_000_000);
    let offset = b.screen_offset(screen);
    assert_eq!(offset.x, 0);
    assert_eq!(offset.y, 0);
    let p = Vec2 { x: 345_000, y: 678_000 };
    let local = b.convert_to_local(p, screen);
    assert_eq!(local.x, 345_000);
    assert_eq!(local.y, 678_000);
}

#[test]
fn screen_mapping_letterboxes_a_wide_screen() {
    // a 1920 x 1080 screen over a 1200 x 1000 field: the height limits
    // the scale, and the leftover width splits evenly into side margins
    let b = Bounds::new(0, 0, 1_200_000, 1_000_000);
    let screen = Vec2 { x: 1_920_000, y: 1_080_000 };
    assert_eq!(b.screen_ratio(screen), 1_080);
    let size = b.screen_size(screen);
    assert_eq!(size.x, 1_296_000);
    assert_eq!(size.y, 1_080_000);
    let offset = b.screen_offset(screen);
    assert_eq!(offset.x, 312_000);
    assert_eq!(offset.y, 0);
    // the screen point at the field's top-left corner maps to the origin
    let local = b.convert_to_local(Vec2 { x: 312_000, y: 0 }, screen);
    assert_eq!(local.x, 0);
    assert_eq!(local.y, 0);
}

#[test]
fn random_stream_is_seedable_and_in_range() {
    let mut a = Rng::new(12345);
    let mut b = Rng::new(12345);
    for _ in 0..50 {
        let x = a.gen_range(-400_000, 400_000);
        let y = b.gen_range(-400_000, 400_000);
        assert_eq!(x, y);
        assert!(x >= -400_000 && x <= 400_000);
    }
    // a degenerate interval always gives its one value
    let mut c = Rng::new(7);
    for _ in 0..10 {
        assert_eq!(c.gen_range(500, 500), 500);
    }
    // different seeds give different streams almost surely
    let mut d = Rng::new(1);
    let mut e = Rng::new(2);
    let mut same = true;
    for _ in 0..10 {
        if d.gen_range(0, 1_000_000) != e.gen_range(0, 1_000_000) {
            same = false;
        }
    }
    assert!(!same);
}
