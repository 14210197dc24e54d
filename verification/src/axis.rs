//! Single-axis time queries: a 1D slab test along one axis with a bound
//! check on the orthogonal axis.
//!
//! Each query returns the signed parametric time to the rectangle boundary
//! nearest in the direction of travel, computed by direct division — no
//! reciprocal, and no `[0, 1)` window. The orthogonal coordinate must lie
//! within the rectangle's half-open extent on the other axis.

use vstd::prelude::*;
use crate::fp::{div_raw, sub_raw, Fp};
use crate::geom::{Rect, Vector};
use crate::ray::{in_x_extent, in_y_extent, x_hi, y_hi};

verus! {

/// A horizontal query returns a time: the ray moves in x, and the origin's y
/// coordinate lies within the rectangle's y extent.
pub open spec fn horizontal_time_exists(o: Vector, len_x: Fp, t: Rect) -> bool {
    len_x.raw != 0 && in_y_extent(o, t)
}

/// The time a horizontal query returns: distance to the near x boundary —
/// the left face when moving right, the right face when moving left —
/// divided by the signed x movement.
pub open spec fn horizontal_time(o: Vector, len_x: Fp, t: Rect) -> i32 {
    if len_x.raw > 0 {
        div_raw(sub_raw(t.pos.x.raw, o.x.raw), len_x.raw)
    } else {
        div_raw(sub_raw(x_hi(t), o.x.raw), len_x.raw)
    }
}

/// A vertical query returns a time: the ray moves in y, and the origin's x
/// coordinate lies within the rectangle's x extent.
pub open spec fn vertical_time_exists(o: Vector, len_y: Fp, t: Rect) -> bool {
    len_y.raw != 0 && in_x_extent(o, t)
}

/// The time a vertical query returns: distance to the near y boundary —
/// the bottom face when moving up, the top face when moving down —
/// divided by the signed y movement.
pub open spec fn vertical_time(o: Vector, len_y: Fp, t: Rect) -> i32 {
    if len_y.raw > 0 {
        div_raw(sub_raw(t.pos.y.raw, o.y.raw), len_y.raw)
    } else {
        div_raw(sub_raw(y_hi(t), o.y.raw), len_y.raw)
    }
}

/// Everything the horizontal query promises of its result: a time comes
/// exactly when the query accepts, and then its value is pinned down.
pub open spec fn horizontal_result_matches(o: Vector, len_x: Fp, t: Rect, r: Option<Fp>) -> bool {
    match r {
        Some(time) => horizontal_time_exists(o, len_x, t) && time.raw == horizontal_time(
            o,
            len_x,
            t,
        ),
        None => !horizontal_time_exists(o, len_x, t),
    }
}

/// Everything the vertical query promises of its result.
pub open spec fn vertical_result_matches(o: Vector, len_y: Fp, t: Rect, r: Option<Fp>) -> bool {
    match r {
        Some(time) => vertical_time_exists(o, len_y, t) && time.raw == vertical_time(o, len_y, t),
        None => !vertical_time_exists(o, len_y, t),
    }
}

/// Time for a horizontal ray to reach the rectangle's near x boundary.
///
/// Nothing is returned when the ray does not move in x, or when the origin's
/// y coordinate lies outside the rectangle's half-open y extent. The time is
/// signed and unclamped; the swept front end applies the `[0, 1)` window.
pub fn ray_vs_rect_horizontal_time(ray_origin: Vector, ray_length_in_x: Fp, target_rect: Rect) -> (r:
    Option<Fp>)
    ensures
        horizontal_result_matches(ray_origin, ray_length_in_x, target_rect, r),
        r is Some <==> horizontal_time_exists(ray_origin, ray_length_in_x, target_rect),
{
    if ray_length_in_x.is_zero() {
        return None;
    }
    if ray_origin.y.raw < target_rect.pos.y.raw {
        return None;
    }
    let hi = target_rect.pos.y.add(target_rect.size.y);
    if ray_origin.y.raw >= hi.raw {
        return None;
    }
    let closest_time = if ray_length_in_x.raw > 0 {
        target_rect.pos.x.sub(ray_origin.x).div(ray_length_in_x)
    } else {
        target_rect.pos.x.add(target_rect.size.x).sub(ray_origin.x).div(ray_length_in_x)
    };
    Some(closest_time)
}

/// Time for a vertical ray to reach the rectangle's near y boundary.
///
/// Nothing is returned when the ray does not move in y, or when the origin's
/// x coordinate lies outside the rectangle's half-open x extent. The time is
/// signed and unclamped; the swept front end applies the `[0, 1)` window.
pub fn ray_vs_rect_vertical_time(ray_origin: Vector, ray_length_in_y: Fp, target_rect: Rect) -> (r:
    Option<Fp>)
    ensures
        vertical_result_matches(ray_origin, ray_length_in_y, target_rect, r),
        r is Some <==> vertical_time_exists(ray_origin, ray_length_in_y, target_rect),
{
    if ray_length_in_y.is_zero() {
        return None;
    }
    if ray_origin.x.raw < target_rect.pos.x.raw {
        return None;
    }
    let hi = target_rect.pos.x.add(target_rect.size.x);
    if ray_origin.x.raw >= hi.raw {
        return None;
    }
    let closest_time = if ray_length_in_y.raw > 0 {
        target_rect.pos.y.sub(ray_origin.y).div(ray_length_in_y)
    } else {
        target_rect.pos.y.add(target_rect.size.y).sub(ray_origin.y).div(ray_length_in_y)
    };
    Some(closest_time)
}

} // verus!
