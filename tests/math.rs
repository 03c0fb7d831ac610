use particle_sim::fixed::{add_sat, floor_div, Vec2, ONE};
use particle_sim::particles::{get_sample_region, IVec2, ParticleType, SampleRegion};
use particle_sim::spline::{bezier_axis, blend_axis, blend_point, calculate_bezier_point};

fn v(x: i64, y: i64) -> Vec2 {
    Vec2::new(x, y)
}

#[test]
fn bezier_endpoints_are_exact() {
    let p1 = v(-123_456_789, 42);
    let p2 = v(7, -7);
    let p3 = v(987_654_321, i64::MAX);
    assert_eq!(calculate_bezier_point(0, p1, p2, p3), p1);
    assert_eq!(calculate_bezier_point(ONE, p1, p2, p3), p3);
}

#[test]
fn bezier_midpoint() {
    let p = calculate_bezier_point(ONE / 2, v(0, 0), v(ONE, 2 * ONE), v(2 * ONE, 0));
    assert_eq!(p, v(ONE, ONE));
}

#[test]
fn bezier_quarter_point() {
    // (1-t)^2 = 9/16, 2(1-t)t = 6/16, t^2 = 1/16
    assert_eq!(bezier_axis(ONE / 4, 16, 32, 160), 9 + 12 + 10);
}

#[test]
fn bezier_rounds_down() {
    assert_eq!(bezier_axis(ONE / 2, 0, 1, 0), 0);
    assert_eq!(bezier_axis(ONE / 2, 0, -1, 0), -1);
}

#[test]
fn blend_moves_by_strength() {
    assert_eq!(blend_axis(0, 1000, ONE / 2), 500);
    assert_eq!(blend_axis(1000, 0, ONE / 4), 750);
    assert_eq!(blend_axis(5, 9, ONE), 9);
    assert_eq!(blend_axis(5, 9, 0), 5);
    assert_eq!(blend_point(v(0, 0), v(3, -3), ONE / 2), v(1, -2));
}

#[test]
fn saturating_sum() {
    assert_eq!(add_sat(2, 3), 5);
    assert_eq!(add_sat(i64::MAX, 1), i64::MAX);
    assert_eq!(add_sat(i64::MIN, -1), i64::MIN);
    assert_eq!(v(1, 2).add_sat(v(i64::MAX, -5)), v(i64::MAX, -3));
}

#[test]
fn floor_division_rounds_toward_negative() {
    assert_eq!(floor_div(7, 2), 3);
    assert_eq!(floor_div(-7, 2), -4);
    assert_eq!(floor_div(-8, 2), -4);
    assert_eq!(floor_div(0, 5), 0);
}

fn r(x: i32, y: i32, w: i32, h: i32) -> SampleRegion {
    SampleRegion { pos: IVec2 { x, y }, size: IVec2 { x: w, y: h } }
}

#[test]
fn explosion_frames_follow_counter() {
    assert_eq!(get_sample_region(ParticleType::Explosion, 7), r(0, 164, 45, 42));
    assert_eq!(get_sample_region(ParticleType::Explosion, 6), r(0, 164, 45, 42));
    assert_eq!(get_sample_region(ParticleType::Explosion, 5), r(0, 40, 62, 60));
    assert_eq!(get_sample_region(ParticleType::Explosion, 3), r(0, 101, 61, 62));
    assert_eq!(get_sample_region(ParticleType::Explosion, 0), r(0, 206, 65, 61));
    assert_eq!(get_sample_region(ParticleType::Explosion, 80), r(63, 38, 16, 17));
}

#[test]
fn smoke_and_blood_ball_regions() {
    assert_eq!(get_sample_region(ParticleType::Smoke, 3), r(0, 269, 65, 61));
    assert_eq!(get_sample_region(ParticleType::BloodBall, 0), r(63, 38, 16, 17));
}
