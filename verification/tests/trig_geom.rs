use arcade_core::geom::{inside_box, translate, twin_axis, wrap_axis, wrap_position, Vec2};
use arcade_core::trig::{
    add_angle, cos_milli, ease_scale_milli, scale_milli, sin_milli, thrust_ease_milli,
};

#[test]
fn sine_at_the_axes() {
    assert_eq!(sin_milli(0), 0);
    assert_eq!(sin_milli(900), 1000);
    assert_eq!(sin_milli(1800), 0);
    assert_eq!(sin_milli(2700), -1000);
}

#[test]
fn cosine_at_the_axes() {
    assert_eq!(cos_milli(0), 1000);
    assert_eq!(cos_milli(900), 0);
    assert_eq!(cos_milli(1800), -1000);
    assert_eq!(cos_milli(2700), 0);
}

#[test]
fn sine_is_bounded_everywhere() {
    let mut a: i32 = 0;
    while a < 3600 {
        let s = sin_milli(a);
        let c = cos_milli(a);
        assert!((-1000..=1000).contains(&s));
        assert!((-1000..=1000).contains(&c));
        a += 1;
    }
}

#[test]
fn angles_wrap_around_the_turn() {
    assert_eq!(add_angle(3500, 200), 100);
    assert_eq!(add_angle(100, -200), 3500);
    assert_eq!(add_angle(0, 3600), 0);
    assert_eq!(add_angle(1800, 36), 1836);
}

#[test]
fn scaling_by_thousandths_truncates_toward_zero() {
    assert_eq!(scale_milli(100, 500), 50);
    assert_eq!(scale_milli(100, -500), -50);
    assert_eq!(scale_milli(3, 500), 1);
    assert_eq!(scale_milli(3, -500), -1);
    assert_eq!(scale_milli(0, 1000), 0);
}

#[test]
fn thrust_easing_decays_to_its_floor() {
    assert_eq!(thrust_ease_milli(0), 1200);
    assert_eq!(thrust_ease_milli(1), 807);
    assert_eq!(thrust_ease_milli(2), 568);
    assert_eq!(thrust_ease_milli(1000), 200);
}

#[test]
fn eased_step_matches_hand_arithmetic() {
    // 12 * 1000 * 1200 / 1000000, truncated
    assert_eq!(ease_scale_milli(12, 1000, 1200), 14);
    assert_eq!(ease_scale_milli(12, -1000, 1200), -14);
    assert_eq!(ease_scale_milli(12, 0, 1200), 0);
}

#[test]
fn wrapping_teleports_across_the_field() {
    assert_eq!(wrap_axis(1270, 65, 1280), 1270 - 2560);
    assert_eq!(wrap_axis(-1270, -65, 1280), -1270 + 2560);
    assert_eq!(wrap_axis(0, 65, 1280), 0);
    let mut p = Vec2 { x: 1270, y: -950 };
    wrap_position(&mut p, Vec2 { x: 65, y: -65 });
    assert_eq!(p, Vec2 { x: -1290, y: 970 });
}

#[test]
fn box_test_is_strict() {
    assert!(inside_box(0, 0, 0, 0, 10));
    assert!(!inside_box(10, 0, 0, 0, 10));
    assert!(!inside_box(0, -10, 0, 0, 10));
    assert!(inside_box(9, -9, 0, 0, 10));
}

#[test]
fn twins_appear_at_the_edges() {
    assert_eq!(twin_axis(1000, 320, 1280), Some(1000 - 2560));
    assert_eq!(twin_axis(-1000, 320, 1280), Some(-1000 + 2560));
    assert_eq!(twin_axis(0, 320, 1280), None);
    // the touch is inclusive
    assert_eq!(twin_axis(960, 320, 1280), Some(-1600));
    assert_eq!(twin_axis(959, 320, 1280), None);
}

#[test]
fn translation_adds_componentwise() {
    let mut p = Vec2 { x: 10, y: -20 };
    translate(&mut p, Vec2 { x: -32, y: 5 });
    assert_eq!(p, Vec2 { x: -22, y: -15 });
}
