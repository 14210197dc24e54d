//! The core slab test: where, and when, a ray first meets an axis-aligned
//! rectangle.
//!
//! For each axis the ray's parametric times against the two boundary lines of
//! the rectangle are computed through the reciprocal of the direction
//! component; a ray parallel to an axis contributes the sentinel interval
//! `[i32::MIN, i32::MAX]` instead, provided its fixed coordinate lies within
//! the rectangle's half-open extent on that axis. The two intervals must
//! overlap, and the rectangle must not lie entirely behind the origin. The
//! contact time is the later of the two entry times; no `[0, 1)` window is
//! applied here — that is the swept front ends' business.

use vstd::prelude::*;
use crate::fp::{add_raw, div_raw, mul_raw, sub_raw, Fp, SCALE};
use crate::geom::{v_down, v_left, v_right, v_up, v_zero, Rect, Vector};

verus! {

/// What a successful ray-vs-rectangle query reports.
#[derive(Clone, Copy, Debug, PartialEq, Eq, Structural)]
pub struct RayIntersectionResult {
    /// The point where the ray first touches the rectangle.
    pub contact_point: Vector,
    /// One of the four axis unit vectors, or zero on an exact corner tie.
    pub contact_normal: Vector,
    /// Fraction of the direction vector at which contact happens; not a
    /// distance, and not clamped to any window.
    pub closest_time: Fp,
}

/// The smaller of two raw values.
pub open spec fn min_raw(a: i32, b: i32) -> i32 {
    if a < b {
        a
    } else {
        b
    }
}

/// The larger of two raw values.
pub open spec fn max_raw(a: i32, b: i32) -> i32 {
    if a > b {
        a
    } else {
        b
    }
}

/// Raw upper bound of the rectangle's extent on the x axis.
pub open spec fn x_hi(t: Rect) -> i32 {
    add_raw(t.pos.x.raw, t.size.x.raw)
}

/// Raw upper bound of the rectangle's extent on the y axis.
pub open spec fn y_hi(t: Rect) -> i32 {
    add_raw(t.pos.y.raw, t.size.y.raw)
}

/// The origin's x coordinate lies within the rectangle's half-open x extent.
pub open spec fn in_x_extent(o: Vector, t: Rect) -> bool {
    t.pos.x.raw <= o.x.raw < x_hi(t)
}

/// The origin's y coordinate lies within the rectangle's half-open y extent.
pub open spec fn in_y_extent(o: Vector, t: Rect) -> bool {
    t.pos.y.raw <= o.y.raw < y_hi(t)
}

/// Reciprocal of a nonzero direction component.
pub open spec fn inv_dir(d: i32) -> i32 {
    div_raw(SCALE, d)
}

/// Parametric time at which the ray crosses the vertical line `x == bound`,
/// computed as the slab test does: offset times reciprocal direction.
pub open spec fn x_time(o: Vector, d: Vector, bound: i32) -> i32 {
    mul_raw(sub_raw(bound, o.x.raw), inv_dir(d.x.raw))
}

/// Parametric time at which the ray crosses the horizontal line `y == bound`.
pub open spec fn y_time(o: Vector, d: Vector, bound: i32) -> i32 {
    mul_raw(sub_raw(bound, o.y.raw), inv_dir(d.y.raw))
}

/// Entry time of the x slab, ordered; the `i32::MIN` sentinel stands for an
/// unconstrained axis when the ray is parallel to it.
pub open spec fn time_near_x(o: Vector, d: Vector, t: Rect) -> i32 {
    if d.x.raw == 0 {
        i32::MIN
    } else {
        min_raw(x_time(o, d, t.pos.x.raw), x_time(o, d, x_hi(t)))
    }
}

/// Exit time of the x slab, ordered; `i32::MAX` when the axis is unconstrained.
pub open spec fn time_far_x(o: Vector, d: Vector, t: Rect) -> i32 {
    if d.x.raw == 0 {
        i32::MAX
    } else {
        max_raw(x_time(o, d, t.pos.x.raw), x_time(o, d, x_hi(t)))
    }
}

/// Entry time of the y slab, ordered, with the same sentinel convention.
pub open spec fn time_near_y(o: Vector, d: Vector, t: Rect) -> i32 {
    if d.y.raw == 0 {
        i32::MIN
    } else {
        min_raw(y_time(o, d, t.pos.y.raw), y_time(o, d, y_hi(t)))
    }
}

/// Exit time of the y slab, ordered.
pub open spec fn time_far_y(o: Vector, d: Vector, t: Rect) -> i32 {
    if d.y.raw == 0 {
        i32::MAX
    } else {
        max_raw(y_time(o, d, t.pos.y.raw), y_time(o, d, y_hi(t)))
    }
}

/// The slab test accepts: the direction moves, each axis parallel to the
/// direction has the origin's fixed coordinate within its extent, the two
/// slab intervals overlap, and the rectangle does not lie entirely behind
/// the origin.
pub open spec fn ray_hits(o: Vector, d: Vector, t: Rect) -> bool {
    &&& !(d.x.raw == 0 && d.y.raw == 0)
    &&& (d.x.raw != 0 || in_x_extent(o, t))
    &&& (d.y.raw != 0 || in_y_extent(o, t))
    &&& time_near_x(o, d, t) < time_far_y(o, d, t)
    &&& time_near_y(o, d, t) < time_far_x(o, d, t)
    &&& min_raw(time_far_x(o, d, t), time_far_y(o, d, t)) >= 0
}

/// First contact time: the later of the two slab entry times.
pub open spec fn hit_time(o: Vector, d: Vector, t: Rect) -> i32 {
    max_raw(time_near_x(o, d, t), time_near_y(o, d, t))
}

/// Contact point: origin plus contact time times direction, component-wise.
pub open spec fn hit_point(o: Vector, d: Vector, t: Rect) -> Vector {
    Vector {
        x: Fp { raw: add_raw(o.x.raw, mul_raw(hit_time(o, d, t), d.x.raw)) },
        y: Fp { raw: add_raw(o.y.raw, mul_raw(hit_time(o, d, t), d.y.raw)) },
    }
}

/// Contact normal: the unit vector of the axis whose slab was entered last,
/// oriented by the direction's sign on that axis; the zero vector on an
/// exact tie of the two entry times (a corner hit left unresolved).
pub open spec fn hit_normal(o: Vector, d: Vector, t: Rect) -> Vector {
    let nx = time_near_x(o, d, t);
    let ny = time_near_y(o, d, t);
    if nx > ny {
        if d.x.raw > 0 {
            v_right()
        } else {
            v_left()
        }
    } else if nx < ny {
        if d.y.raw > 0 {
            v_up()
        } else {
            v_down()
        }
    } else {
        v_zero()
    }
}

/// Everything `ray_vs_rect` promises of its result: a value is returned
/// exactly when the slab test accepts, and then every field is pinned down.
pub open spec fn ray_result_matches(
    o: Vector,
    d: Vector,
    t: Rect,
    r: Option<RayIntersectionResult>,
) -> bool {
    match r {
        Some(res) => {
            &&& ray_hits(o, d, t)
            &&& res.closest_time.raw == hit_time(o, d, t)
            &&& res.contact_point == hit_point(o, d, t)
            &&& res.contact_normal == hit_normal(o, d, t)
        },
        None => !ray_hits(o, d, t),
    }
}

/// The general ray-vs-rectangle intersection test.
///
/// Returns the first contact of the ray cast from `ray_origin` along
/// `ray_direction` with `target`, or nothing when the slab test rejects:
/// a zero direction, a parallel axis whose fixed coordinate misses the
/// extent, slab intervals that do not overlap, or a rectangle entirely
/// behind the origin. The reported time is a fraction of `ray_direction`
/// and is deliberately not clamped to `[0, 1)`.
pub fn ray_vs_rect(ray_origin: Vector, ray_direction: Vector, target: Rect) -> (r: Option<
    RayIntersectionResult,
>)
    ensures
        ray_result_matches(ray_origin, ray_direction, target, r),
        r is Some <==> ray_hits(ray_origin, ray_direction, target),
{
    if ray_direction.x.is_zero() && ray_direction.y.is_zero() {
        return None;
    }
    let near_x: Fp;
    let far_x: Fp;
    if ray_direction.x.raw != 0 {
        let inv = Fp::one().div(ray_direction.x);
        let t_lo = target.pos.x.sub(ray_origin.x).mul(inv);
        let t_hi = target.pos.x.add(target.size.x).sub(ray_origin.x).mul(inv);
        if t_lo.raw <= t_hi.raw {
            near_x = t_lo;
            far_x = t_hi;
        } else {
            near_x = t_hi;
            far_x = t_lo;
        }
    } else {
        if ray_origin.x.raw < target.pos.x.raw {
            return None;
        }
        let hi = target.pos.x.add(target.size.x);
        if ray_origin.x.raw >= hi.raw {
            return None;
        }
        near_x = Fp::min_value();
        far_x = Fp::max_value();
    }
    let near_y: Fp;
    let far_y: Fp;
    if ray_direction.y.raw != 0 {
        let inv = Fp::one().div(ray_direction.y);
        let t_lo = target.pos.y.sub(ray_origin.y).mul(inv);
        let t_hi = target.pos.y.add(target.size.y).sub(ray_origin.y).mul(inv);
        if t_lo.raw <= t_hi.raw {
            near_y = t_lo;
            far_y = t_hi;
        } else {
            near_y = t_hi;
            far_y = t_lo;
        }
    } else {
        if ray_origin.y.raw < target.pos.y.raw {
            return None;
        }
        let hi = target.pos.y.add(target.size.y);
        if ray_origin.y.raw >= hi.raw {
            return None;
        }
        near_y = Fp::min_value();
        far_y = Fp::max_value();
    }
    if near_x.raw >= far_y.raw || near_y.raw >= far_x.raw {
        return None;
    }
    let far_magnitude = if far_x.raw < far_y.raw {
        far_x
    } else {
        far_y
    };
    if far_magnitude.raw < 0 {
        return None;
    }
    let closest_time = if near_x.raw > near_y.raw {
        near_x
    } else {
        near_y
    };
    let contact_point = ray_origin.add(ray_direction.scaled_by(closest_time));
    let contact_normal = if near_x.raw > near_y.raw {
        if ray_direction.x.raw > 0 {
            Vector::right()
        } else {
            Vector::left()
        }
    } else if near_x.raw < near_y.raw {
        if ray_direction.y.raw > 0 {
            Vector::up()
        } else {
            Vector::down()
        }
    } else {
        Vector::zero()
    };
    Some(RayIntersectionResult { contact_point, contact_normal, closest_time })
}

} // verus!
