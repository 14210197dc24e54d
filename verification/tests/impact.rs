//! The reference scenario: a diagonal ray cast at a rectangle, with the
//! contact time checked against the fixed-point value the Q16.16 pipeline
//! must produce bit-for-bit.

use impact_rs::{ray_vs_rect, Fp, Rect, Vector};

fn reference_inputs() -> (Vector, Vector, Rect) {
    let ray_origin = Vector::new(Fp::from_int(1), Fp::from_int(2));
    let ray_direction = Vector::new(Fp::from_int(3), Fp::from_int(4));
    let target_rect = Rect::new(
        Vector::new(Fp::from_int(5), Fp::from_int(6)),
        Vector::new(Fp::from_int(7), Fp::from_int(8)),
    );
    (ray_origin, ray_direction, target_rect)
}

#[test]
fn impact_test_ray_vs_rect() {
    let (ray_origin, ray_direction, target_rect) = reference_inputs();

    let collision_result = ray_vs_rect(ray_origin, ray_direction, target_rect);
    let ray_intersect = collision_result.expect("should have intersected");
    assert_eq!(ray_intersect.closest_time, Fp::from_raw(fixed32::Fp::from(1.33332).inner()));
}

#[test]
fn test_test_ray_vs_rect() {
    let (ray_origin, ray_direction, target_rect) = reference_inputs();

    let collision_result = ray_vs_rect(ray_origin, ray_direction, target_rect);
    let ray_intersect = collision_result.expect("should have intersected");
    assert_eq!(ray_intersect.closest_time, Fp::from_raw(fixed32::Fp::from(1.33332).inner()));
}

#[test]
fn reference_scenario_time_exceeds_one() {
    // The general ray test applies no window: the reference contact lies
    // beyond the end of the direction vector and is still reported.
    let (ray_origin, ray_direction, target_rect) = reference_inputs();

    let result = ray_vs_rect(ray_origin, ray_direction, target_rect).expect("should intersect");
    assert!(result.closest_time.inner() > Fp::one().inner());
    assert_eq!(result.closest_time.inner(), 87380);
}
