use tekuno::transform::{build_transform, Transform};
use tekuno::units::{canonical_angle, clamp_to_i64, scale, FULL_TURN, HEADING_UNIT, PIXEL};
use tekuno::vector::{Heading, Vec2d};

fn px(whole: i64) -> i64 {
    whole * PIXEL
}

#[test]
fn canonical_angle_wraps_into_one_turn() {
    assert_eq!(canonical_angle(0), 0);
    assert_eq!(canonical_angle(359_999_999), 359_999_999);
    assert_eq!(canonical_angle(360_000_000), 0);
    assert_eq!(canonical_angle(377_000_000), 17_000_000);
    assert_eq!(canonical_angle(-1), 359_999_999);
    assert_eq!(canonical_angle(-360_000_000), 0);
    assert_eq!(canonical_angle(-720_000_001), 359_999_999);
    let far = canonical_angle(i128::MAX);
    assert_eq!(far as i128, i128::MAX.rem_euclid(FULL_TURN as i128));
    let low = canonical_angle(i128::MIN);
    assert_eq!(low as i128, i128::MIN.rem_euclid(FULL_TURN as i128));
}

#[test]
fn clamp_stops_at_the_ends_of_the_range() {
    assert_eq!(clamp_to_i64(0), 0);
    assert_eq!(clamp_to_i64(-42), -42);
    assert_eq!(clamp_to_i64(i64::MAX as i128), i64::MAX);
    assert_eq!(clamp_to_i64(i64::MAX as i128 + 1), i64::MAX);
    assert_eq!(clamp_to_i64(i64::MIN as i128), i64::MIN);
    assert_eq!(clamp_to_i64(i64::MIN as i128 - 1), i64::MIN);
    assert_eq!(clamp_to_i64(i128::MAX), i64::MAX);
    assert_eq!(clamp_to_i64(i128::MIN), i64::MIN);
}

#[test]
fn scale_takes_millionths_and_rounds_toward_zero() {
    assert_eq!(scale(1_000_000, 123), 123);
    assert_eq!(scale(-1_000_000, 123), -123);
    assert_eq!(scale(0, 123), 0);
    assert_eq!(scale(500_000, 3), 1);
    assert_eq!(scale(-500_000, 3), -1);
    assert_eq!(scale(500_000, -3), -1);
    assert_eq!(scale(-500_000, -3), 1);
    assert_eq!(scale(999_999, 1), 0);
    assert_eq!(scale(-999_999, 1), 0);
    assert_eq!(scale(i64::MIN, i64::MIN), (1i128 << 126) / 1_000_000);
    assert_eq!(scale(i64::MIN, i64::MAX), -(((1i128 << 63) * i64::MAX as i128) / 1_000_000));
}

#[test]
fn upright_sprite_is_purely_translated() {
    let t = build_transform(
        Vec2d::new(px(50), px(50)),
        Vec2d::new(px(100), px(100)),
        Heading::new(HEADING_UNIT, 0),
    );
    assert_eq!(
        t,
        Transform { a: 1_000_000, b: 0, c: 0, d: 1_000_000, tx: px(100), ty: px(100) }
    );
    assert_eq!(t.apply(Vec2d::new(0, 0)), Vec2d { x: px(100), y: px(100) });
    assert_eq!(t.apply(Vec2d::new(px(100), px(100))), Vec2d { x: px(200), y: px(200) });
    assert_eq!(t.apply(Vec2d::new(px(7), -px(3))), Vec2d { x: px(107), y: px(97) });
}

#[test]
fn half_turn_sends_the_top_left_corner_diagonally_opposite() {
    let t = build_transform(
        Vec2d::new(px(50), px(50)),
        Vec2d::new(px(100), px(100)),
        Heading::new(-HEADING_UNIT, 0),
    );
    assert_eq!(
        t,
        Transform { a: -1_000_000, b: 0, c: 0, d: -1_000_000, tx: px(200), ty: px(200) }
    );
    assert_eq!(t.apply(Vec2d::new(0, 0)), Vec2d { x: px(200), y: px(200) });
    assert_eq!(t.apply(Vec2d::new(px(100), px(100))), Vec2d { x: px(100), y: px(100) });
    assert_eq!(t.apply(Vec2d::new(px(50), px(50))), Vec2d { x: px(150), y: px(150) });
}

#[test]
fn quarter_turn_pivots_on_the_centre() {
    let t = build_transform(
        Vec2d::new(px(50), px(20)),
        Vec2d::new(px(100), px(100)),
        Heading::new(0, HEADING_UNIT),
    );
    assert_eq!(
        t,
        Transform { a: 0, b: -1_000_000, c: 1_000_000, d: 0, tx: px(170), ty: px(70) }
    );
    assert_eq!(t.apply(Vec2d::new(px(50), px(20))), Vec2d { x: px(150), y: px(120) });
    assert_eq!(t.apply(Vec2d::new(0, 0)), Vec2d { x: px(170), y: px(70) });
    assert_eq!(t.apply(Vec2d::new(px(100), 0)), Vec2d { x: px(170), y: px(170) });
}

#[test]
fn centre_stays_fixed_under_any_heading() {
    let half = Vec2d::new(px(16) + 7, px(16) + 333);
    let position = Vec2d::new(px(400), px(300));
    let headings = [
        Heading::new(866_025, 500_000),
        Heading::new(-707_107, 707_107),
        Heading::new(17_452, -999_848),
        Heading::new(-600_000, -800_000),
    ];
    for heading in headings {
        let t = build_transform(half, position, heading);
        assert_eq!(t.a, heading.cos as i64);
        assert_eq!(t.b, -(heading.sin as i64));
        assert_eq!(t.c, heading.sin as i64);
        assert_eq!(t.d, heading.cos as i64);
        assert_eq!(t.apply(half), Vec2d { x: position.x + half.x, y: position.y + half.y });
    }
}

#[test]
fn oblique_heading_rounds_each_product_toward_zero() {
    let t = build_transform(Vec2d::new(3, 5), Vec2d::new(10, 20), Heading::new(600_000, 800_000));
    assert_eq!(t, Transform { a: 600_000, b: -800_000, c: 800_000, d: 600_000, tx: 16, ty: 20 });
    assert_eq!(t.apply(Vec2d::new(1, 1)), Vec2d { x: 16, y: 20 });
    assert_eq!(t.apply(Vec2d::new(-7, 9)), Vec2d { x: 16 - 4 - 7, y: 20 - 5 + 5 });
}

#[test]
fn transform_stops_at_the_ends_of_the_range() {
    let t = build_transform(
        Vec2d::new(i64::MAX, i64::MIN),
        Vec2d::new(i64::MAX, i64::MIN),
        Heading::new(-HEADING_UNIT, 0),
    );
    assert_eq!(t.tx, i64::MAX);
    assert_eq!(t.ty, i64::MIN);
    let extreme = Transform { a: i64::MIN, b: i64::MIN, c: i64::MAX, d: i64::MAX, tx: 0, ty: 0 };
    assert_eq!(extreme.apply(Vec2d::new(i64::MIN, i64::MIN)), Vec2d { x: i64::MAX, y: i64::MIN });
    let negated = build_transform(Vec2d::new(0, 0), Vec2d::new(0, 0), Heading::new(0, i32::MIN));
    assert_eq!(negated.b, 1i64 << 31);
}

#[test]
fn vectors_add_with_saturation() {
    assert_eq!(Vec2d::new(1, 2).saturating_add(Vec2d::new(3, -5)), Vec2d { x: 4, y: -3 });
    assert_eq!(
        Vec2d::new(i64::MAX, i64::MIN).saturating_add(Vec2d::new(1, -1)),
        Vec2d { x: i64::MAX, y: i64::MIN }
    );
}
