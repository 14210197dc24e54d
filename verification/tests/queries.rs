//! Scenario tests for the slab test, the axis time queries and the swept
//! front ends: acceptance windows, boundary conventions, normals, and
//! determinism, all on concrete fixed-point values.

use impact_rs::{
    ray_vs_rect, ray_vs_rect_horizontal_time, ray_vs_rect_vertical_time, swept_rect_vs_rect,
    swept_rect_vs_rect_horizontal_time, swept_rect_vs_rect_vertical_time, Fp, Rect, Vector,
};

fn rect_i(px: i16, py: i16, sx: i16, sy: i16) -> Rect {
    Rect::new(
        Vector::new(Fp::from_int(px), Fp::from_int(py)),
        Vector::new(Fp::from_int(sx), Fp::from_int(sy)),
    )
}

fn vec_i(x: i16, y: i16) -> Vector {
    Vector::new(Fp::from_int(x), Fp::from_int(y))
}

#[test]
fn zero_direction_is_rejected() {
    let r = ray_vs_rect(vec_i(0, 0), vec_i(0, 0), rect_i(-5, -5, 10, 10));
    assert!(r.is_none());
}

#[test]
fn parallel_ray_outside_extent_is_rejected() {
    // No x movement and the fixed x coordinate misses the extent [5, 12):
    // rejected no matter what the y axis holds.
    let r = ray_vs_rect(vec_i(0, 0), vec_i(0, 3), rect_i(5, 6, 7, 8));
    assert!(r.is_none());
}

#[test]
fn parallel_ray_on_upper_bound_is_rejected() {
    // The extent is half-open: x == 12 == 5 + 7 lies outside.
    let r = ray_vs_rect(vec_i(12, 0), vec_i(0, 3), rect_i(5, 6, 7, 8));
    assert!(r.is_none());
}

#[test]
fn parallel_ray_inside_extent_hits() {
    // x fixed at 6 inside [5, 12); the y slab alone decides. The reciprocal
    // of 3 truncates, so the contact time lands just below 2.0.
    let r = ray_vs_rect(vec_i(6, 0), vec_i(0, 3), rect_i(5, 6, 7, 8)).expect("should intersect");
    assert_eq!(r.closest_time.inner(), 131070);
    assert_eq!(r.contact_normal, Vector::up());
}

#[test]
fn disjoint_slab_intervals_are_rejected() {
    let r = ray_vs_rect(vec_i(0, 0), vec_i(1, 1), rect_i(5, 0, 1, 1));
    assert!(r.is_none());
}

#[test]
fn rectangle_behind_origin_is_rejected() {
    let r = ray_vs_rect(vec_i(10, 10), vec_i(1, 1), rect_i(5, 5, 1, 1));
    assert!(r.is_none());
}

#[test]
fn corner_tie_gives_zero_normal() {
    // Both slab entry times are exactly 1.0: the corner hit stays unresolved.
    let r = ray_vs_rect(vec_i(0, 0), vec_i(1, 1), rect_i(1, 1, 2, 2)).expect("should intersect");
    assert_eq!(r.closest_time, Fp::one());
    assert_eq!(r.contact_normal, Vector::zero());
    assert_eq!(r.contact_point, vec_i(1, 1));
}

#[test]
fn horizontal_hit_reports_time_point_and_normal() {
    let r = ray_vs_rect(vec_i(2, 2), vec_i(8, 0), rect_i(7, -1, 4, 4)).expect("should intersect");
    // (7 - 2) / 8 = 0.625
    assert_eq!(r.closest_time, Fp::from_raw(40960));
    assert_eq!(r.contact_point, vec_i(7, 2));
    assert_eq!(r.contact_normal, Vector::right());
}

#[test]
fn horizontal_time_exact_value() {
    // (5 - 0) / 2 = 2.5, unclamped.
    let r = ray_vs_rect_horizontal_time(vec_i(0, 5), Fp::from_int(2), rect_i(5, 0, 10, 10));
    assert_eq!(r, Some(Fp::from_raw(163840)));
}

#[test]
fn horizontal_time_negative_direction() {
    // Moving left from x = 20: the near face is the right one at x = 15.
    let r = ray_vs_rect_horizontal_time(vec_i(20, 5), Fp::from_int(-2), rect_i(5, 0, 10, 10));
    assert_eq!(r, Some(Fp::from_raw(163840)));
}

#[test]
fn horizontal_time_zero_length_is_rejected() {
    let r = ray_vs_rect_horizontal_time(vec_i(0, 5), Fp::zero(), rect_i(5, 0, 10, 10));
    assert!(r.is_none());
}

#[test]
fn horizontal_time_orthogonal_bound_is_half_open() {
    let below = ray_vs_rect_horizontal_time(vec_i(0, -1), Fp::from_int(2), rect_i(5, 0, 10, 10));
    assert!(below.is_none());
    let on_lower = ray_vs_rect_horizontal_time(vec_i(0, 0), Fp::from_int(2), rect_i(5, 0, 10, 10));
    assert!(on_lower.is_some());
    let on_upper = ray_vs_rect_horizontal_time(vec_i(0, 10), Fp::from_int(2), rect_i(5, 0, 10, 10));
    assert!(on_upper.is_none());
}

#[test]
fn vertical_time_exact_value() {
    let r = ray_vs_rect_vertical_time(vec_i(5, 0), Fp::from_int(2), rect_i(0, 5, 10, 10));
    assert_eq!(r, Some(Fp::from_raw(163840)));
}

#[test]
fn vertical_time_orthogonal_bound_is_half_open() {
    let left = ray_vs_rect_vertical_time(vec_i(-1, 0), Fp::from_int(2), rect_i(0, 5, 10, 10));
    assert!(left.is_none());
    let on_upper = ray_vs_rect_vertical_time(vec_i(10, 0), Fp::from_int(2), rect_i(0, 5, 10, 10));
    assert!(on_upper.is_none());
}

#[test]
fn swept_accepts_zero_gap_contact_at_time_zero() {
    // The mover's corner already touches the grown target: contact at
    // exactly t == 0 lies on the window's inclusive lower bound.
    let r = swept_rect_vs_rect_horizontal_time(rect_i(0, 0, 1, 1), rect_i(1, 0, 1, 1), Fp::one());
    assert_eq!(r, Some(Fp::zero()));
}

#[test]
fn swept_general_accepts_zero_gap_contact_at_time_zero() {
    let r = swept_rect_vs_rect(rect_i(0, 0, 2, 2), rect_i(3, 0, 2, 2), vec_i(4, 0))
        .expect("should intersect");
    assert_eq!(r.closest_time, Fp::zero());
    assert_eq!(r.contact_normal, Vector::right());
    assert_eq!(r.contact_point, vec_i(2, 2));
}

#[test]
fn swept_rejects_contact_beyond_window() {
    // The slab test itself accepts at t == 2.5, but 2.5 lies outside [0, 1).
    let origin = rect_i(0, 0, 2, 2);
    let target = rect_i(8, 0, 2, 2);
    let delta = vec_i(2, 0);
    assert!(swept_rect_vs_rect(origin, target, delta).is_none());

    // The same geometry routed by hand through the general ray test: grown
    // target, ray from the mover's far corner.
    let expanded = rect_i(7, -1, 4, 4);
    let by_hand = ray_vs_rect(vec_i(2, 2), delta, expanded).expect("should intersect");
    assert_eq!(by_hand.closest_time, Fp::from_raw(163840));
}

#[test]
fn swept_rejects_motion_away_from_target() {
    let r = swept_rect_vs_rect(rect_i(0, 0, 2, 2), rect_i(8, 0, 2, 2), vec_i(-2, 0));
    assert!(r.is_none());
}

#[test]
fn swept_general_moving_hit_time() {
    // Corner at (2, 2), grown target spans [4, 8) in x, delta 6: the exact
    // time is 1/3, which the reciprocal-and-multiply pipeline rounds to
    // 21844 raw units.
    let r = swept_rect_vs_rect(rect_i(0, 0, 2, 2), rect_i(5, 0, 2, 2), vec_i(6, 0))
        .expect("should intersect");
    assert_eq!(r.closest_time, Fp::from_raw(21844));
    assert_eq!(r.contact_normal, Vector::right());
}

#[test]
fn swept_horizontal_window_rejects_time_one() {
    // Contact exactly at t == 1 is excluded by the half-open window.
    let r = swept_rect_vs_rect_horizontal_time(rect_i(0, 0, 1, 1), rect_i(2, 0, 1, 1), Fp::one());
    assert!(r.is_none());
}

#[test]
fn swept_horizontal_accepted_time() {
    // (4 - 2) / 4 = 0.5 within the window.
    let r = swept_rect_vs_rect_horizontal_time(
        rect_i(0, 0, 2, 2),
        rect_i(4, 0, 2, 2),
        Fp::from_int(4),
    );
    assert_eq!(r, Some(Fp::from_raw(32768)));
}

#[test]
fn swept_vertical_accepted_time() {
    let r = swept_rect_vs_rect_vertical_time(
        rect_i(0, 0, 2, 2),
        rect_i(0, 4, 2, 2),
        Fp::from_int(4),
    );
    assert_eq!(r, Some(Fp::from_raw(32768)));
}

#[test]
fn swept_vertical_rejects_unreachable_target() {
    let r = swept_rect_vs_rect_vertical_time(rect_i(0, 0, 2, 2), rect_i(0, 9, 2, 2), Fp::one());
    assert!(r.is_none());
}

#[test]
fn swept_horizontal_matches_slab_route_when_rounding_agrees() {
    // With a delta of 4.0 the reciprocal is exact, so the axis query and the
    // general slab test on the same grown rectangle report the same time.
    let origin = rect_i(0, 0, 2, 2);
    let target = rect_i(4, 0, 2, 2);
    let axis_time = swept_rect_vs_rect_horizontal_time(origin, target, Fp::from_int(4))
        .expect("should intersect");
    let slab = ray_vs_rect(vec_i(2, 2), vec_i(4, 0), rect_i(4, 0, 4, 4))
        .expect("should intersect");
    assert_eq!(axis_time, slab.closest_time);
}

#[test]
fn swept_horizontal_and_slab_route_may_round_apart() {
    // The axis query divides directly; the slab test multiplies by a
    // truncated reciprocal. For an exact time of 1/3 the first gives 21845
    // raw units and the second 21844: consistent only up to rounding.
    let origin = rect_i(0, 0, 2, 2);
    let target = rect_i(4, -1, 2, 2);
    let axis_time = swept_rect_vs_rect_horizontal_time(origin, target, Fp::from_int(6))
        .expect("should intersect");
    assert_eq!(axis_time, Fp::from_raw(21845));
    let slab = ray_vs_rect(vec_i(2, 2), vec_i(6, 0), rect_i(4, -1, 4, 4))
        .expect("should intersect");
    assert_eq!(slab.closest_time, Fp::from_raw(21844));
}

#[test]
fn identical_inputs_give_identical_outputs() {
    let origin = rect_i(0, 0, 2, 2);
    let target = rect_i(5, 0, 2, 2);
    let delta = vec_i(6, 0);
    let first = swept_rect_vs_rect(origin, target, delta);
    let second = swept_rect_vs_rect(origin, target, delta);
    assert_eq!(first, second);

    let o = vec_i(1, 2);
    let d = vec_i(3, 4);
    let t = rect_i(5, 6, 7, 8);
    let a = ray_vs_rect(o, d, t);
    let b = ray_vs_rect(o, d, t);
    assert_eq!(a, b);

    let ht1 = ray_vs_rect_horizontal_time(vec_i(0, 5), Fp::from_int(2), rect_i(5, 0, 10, 10));
    let ht2 = ray_vs_rect_horizontal_time(vec_i(0, 5), Fp::from_int(2), rect_i(5, 0, 10, 10));
    assert_eq!(ht1, ht2);
}
