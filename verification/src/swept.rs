//! Swept tests for a moving rectangle against a stationary one.
//!
//! Each front end grows the target by the mover's size (a Minkowski sum),
//! casts a ray from the mover's far corner `pos + size` along the
//! displacement, delegates to the corresponding ray query, and accepts only
//! contact times inside the normalized window `[0, 1)` — the fraction of the
//! displacement actually travelled this step.

use vstd::prelude::*;
use crate::axis::{
    horizontal_time, horizontal_time_exists, ray_vs_rect_horizontal_time,
    ray_vs_rect_vertical_time, vertical_time, vertical_time_exists,
};
use crate::fp::{add_raw, div_raw, sub_raw, Fp, SCALE};
use crate::geom::{Rect, Vector, TWO_SCALE};
use crate::ray::{hit_time, ray_hits, ray_result_matches, ray_vs_rect, RayIntersectionResult};

verus! {

/// Where the swept ray is cast from: the mover's far corner, `pos + size`.
pub open spec fn sweep_corner(origin: Rect) -> Vector {
    Vector {
        x: Fp { raw: add_raw(origin.pos.x.raw, origin.size.x.raw) },
        y: Fp { raw: add_raw(origin.pos.y.raw, origin.size.y.raw) },
    }
}

/// The target grown by the mover's size for the general swept test: the
/// corner backs off by half the mover's size, the size is the sum of both.
pub open spec fn expanded_for_sweep(origin: Rect, target: Rect) -> Rect {
    Rect {
        pos: Vector {
            x: Fp { raw: sub_raw(target.pos.x.raw, div_raw(origin.size.x.raw, TWO_SCALE)) },
            y: Fp { raw: sub_raw(target.pos.y.raw, div_raw(origin.size.y.raw, TWO_SCALE)) },
        },
        size: Vector {
            x: Fp { raw: add_raw(target.size.x.raw, origin.size.x.raw) },
            y: Fp { raw: add_raw(target.size.y.raw, origin.size.y.raw) },
        },
    }
}

/// The target grown for an axis-restricted swept test: same size growth,
/// with the corner kept at the target's own.
pub open spec fn expanded_for_axis_sweep(origin: Rect, target: Rect) -> Rect {
    Rect {
        pos: target.pos,
        size: Vector {
            x: Fp { raw: add_raw(target.size.x.raw, origin.size.x.raw) },
            y: Fp { raw: add_raw(target.size.y.raw, origin.size.y.raw) },
        },
    }
}

/// The normalized acceptance window `[0, 1)`, in raw time units. The lower
/// bound is inclusive, so a contact at exactly `t == 0` — a mover already
/// touching the grown target — is accepted.
pub open spec fn in_unit_window(t_raw: i32) -> bool {
    0 <= t_raw < SCALE
}

/// The general swept test accepts: the underlying slab test accepts and its
/// contact time falls inside the window.
pub open spec fn swept_hit(origin: Rect, target: Rect, delta: Vector) -> bool {
    &&& ray_hits(sweep_corner(origin), delta, expanded_for_sweep(origin, target))
    &&& in_unit_window(hit_time(sweep_corner(origin), delta, expanded_for_sweep(origin, target)))
}

/// Everything `swept_rect_vs_rect` promises: a result comes exactly when the
/// windowed slab test accepts, and it is the slab test's own result.
pub open spec fn swept_result_matches(
    origin: Rect,
    target: Rect,
    delta: Vector,
    r: Option<RayIntersectionResult>,
) -> bool {
    match r {
        Some(res) => {
            &&& swept_hit(origin, target, delta)
            &&& ray_result_matches(
                sweep_corner(origin),
                delta,
                expanded_for_sweep(origin, target),
                Some(res),
            )
        },
        None => !swept_hit(origin, target, delta),
    }
}

/// The horizontal swept test accepts.
pub open spec fn swept_horizontal_hit(origin: Rect, target: Rect, x_delta: Fp) -> bool {
    &&& horizontal_time_exists(sweep_corner(origin), x_delta, expanded_for_axis_sweep(origin, target))
    &&& in_unit_window(
        horizontal_time(sweep_corner(origin), x_delta, expanded_for_axis_sweep(origin, target)),
    )
}

/// The vertical swept test accepts.
pub open spec fn swept_vertical_hit(origin: Rect, target: Rect, y_delta: Fp) -> bool {
    &&& vertical_time_exists(sweep_corner(origin), y_delta, expanded_for_axis_sweep(origin, target))
    &&& in_unit_window(
        vertical_time(sweep_corner(origin), y_delta, expanded_for_axis_sweep(origin, target)),
    )
}

/// Everything the horizontal swept query promises of its result.
pub open spec fn swept_horizontal_result_matches(
    origin: Rect,
    target: Rect,
    x_delta: Fp,
    r: Option<Fp>,
) -> bool {
    match r {
        Some(time) => swept_horizontal_hit(origin, target, x_delta) && time.raw == horizontal_time(
            sweep_corner(origin),
            x_delta,
            expanded_for_axis_sweep(origin, target),
        ),
        None => !swept_horizontal_hit(origin, target, x_delta),
    }
}

/// Everything the vertical swept query promises of its result.
pub open spec fn swept_vertical_result_matches(
    origin: Rect,
    target: Rect,
    y_delta: Fp,
    r: Option<Fp>,
) -> bool {
    match r {
        Some(time) => swept_vertical_hit(origin, target, y_delta) && time.raw == vertical_time(
            sweep_corner(origin),
            y_delta,
            expanded_for_axis_sweep(origin, target),
        ),
        None => !swept_vertical_hit(origin, target, y_delta),
    }
}

/// Swept test of a moving rectangle against a stationary one.
///
/// Grows `target` by `origin`'s size, casts a ray from `origin`'s far corner
/// along `delta` through the general slab test, and returns its result when
/// the contact time lies in `[0, 1)` — first contact within this step's
/// displacement. Anything else, including contact beyond the displacement
/// or motion away from the target, yields nothing.
pub fn swept_rect_vs_rect(origin: Rect, target: Rect, delta: Vector) -> (r: Option<
    RayIntersectionResult,
>)
    ensures
        swept_result_matches(origin, target, delta, r),
        r is Some <==> swept_hit(origin, target, delta),
{
    let expanded_target = Rect {
        pos: target.pos.sub(origin.size.halved()),
        size: target.size.add(origin.size),
    };
    let origin_point = origin.pos.add(origin.size);
    let maybe_intersected = ray_vs_rect(origin_point, delta, expanded_target);
    match maybe_intersected {
        Some(result) => {
            if result.closest_time.raw >= 0 && result.closest_time.raw < SCALE {
                Some(result)
            } else {
                None
            }
        },
        None => None,
    }
}

/// Horizontal swept test: time for a rectangle moving only in x to first
/// touch the target, accepted only inside the `[0, 1)` window.
pub fn swept_rect_vs_rect_horizontal_time(origin: Rect, target: Rect, x_delta: Fp) -> (r: Option<
    Fp,
>)
    ensures
        swept_horizontal_result_matches(origin, target, x_delta, r),
        r is Some <==> swept_horizontal_hit(origin, target, x_delta),
{
    let combined_target_rect = Rect { pos: target.pos, size: target.size.add(origin.size) };
    let ray_origin = origin.pos.add(origin.size);
    let maybe_time = ray_vs_rect_horizontal_time(ray_origin, x_delta, combined_target_rect);
    match maybe_time {
        Some(time) => {
            if time.raw >= 0 && time.raw < SCALE {
                Some(time)
            } else {
                None
            }
        },
        None => None,
    }
}

/// Vertical swept test: time for a rectangle moving only in y to first
/// touch the target, accepted only inside the `[0, 1)` window.
pub fn swept_rect_vs_rect_vertical_time(origin: Rect, target: Rect, y_delta: Fp) -> (r: Option<Fp>)
    ensures
        swept_vertical_result_matches(origin, target, y_delta, r),
        r is Some <==> swept_vertical_hit(origin, target, y_delta),
{
    let combined_target_rect = Rect { pos: target.pos, size: target.size.add(origin.size) };
    let ray_origin = origin.pos.add(origin.size);
    let maybe_time = ray_vs_rect_vertical_time(ray_origin, y_delta, combined_target_rect);
    match maybe_time {
        Some(time) => {
            if time.raw >= 0 && time.raw < SCALE {
                Some(time)
            } else {
                None
            }
        },
        None => None,
    }
}

} // verus!
