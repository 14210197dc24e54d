//! Laws the queries obey, stated over the same spec functions the contracts
//! use and proved once for all inputs.

use vstd::prelude::*;
use crate::axis::{
    horizontal_result_matches, horizontal_time, vertical_result_matches, vertical_time,
};
use crate::fp::Fp;
use crate::geom::{v_down, v_left, v_right, v_up, v_zero, Rect, Vector};
use crate::ray::{
    in_x_extent, in_y_extent, hit_time, ray_hits, ray_result_matches, time_far_x, time_far_y,
    time_near_x, time_near_y, RayIntersectionResult,
};
use crate::swept::{
    expanded_for_axis_sweep, in_unit_window, swept_horizontal_hit, swept_horizontal_result_matches,
    swept_result_matches, swept_vertical_hit, swept_vertical_result_matches, sweep_corner,
};

verus! {

/// A displacement that moves only horizontally.
pub open spec fn horizontal_vec(len: Fp) -> Vector {
    Vector { x: len, y: Fp { raw: 0 } }
}

/// A displacement that moves only vertically.
pub open spec fn vertical_vec(len: Fp) -> Vector {
    Vector { x: Fp { raw: 0 }, y: len }
}

/// What remains of the slab test when the x axis is unconstrained: only the
/// y slab decides. Note that nothing here reads the origin's x coordinate or
/// the target's x extent.
pub open spec fn hits_on_y_alone(o: Vector, d: Vector, t: Rect) -> bool {
    &&& d.y.raw != 0
    &&& i32::MIN < time_far_y(o, d, t)
    &&& time_near_y(o, d, t) < i32::MAX
    &&& time_far_y(o, d, t) >= 0
}

/// What remains of the slab test when the y axis is unconstrained.
pub open spec fn hits_on_x_alone(o: Vector, d: Vector, t: Rect) -> bool {
    &&& d.x.raw != 0
    &&& i32::MIN < time_far_x(o, d, t)
    &&& time_near_x(o, d, t) < i32::MAX
    &&& time_far_x(o, d, t) >= 0
}

/// Law: for a ray with zero movement on one axis, the slab test accepts
/// exactly when the ray's fixed coordinate on that axis lies within the
/// target's extent and the other axis's slab accepts on its own; a fixed
/// coordinate outside the extent is rejected whatever the other axis holds.
pub proof fn lemma_zero_axis_extent_decides(o: Vector, d: Vector, t: Rect)
    ensures
        d.x.raw == 0 ==> (ray_hits(o, d, t) <==> (in_x_extent(o, t) && hits_on_y_alone(o, d, t))),
        d.y.raw == 0 ==> (ray_hits(o, d, t) <==> (in_y_extent(o, t) && hits_on_x_alone(o, d, t))),
{
}

/// Law: the contact normal of any result the general query can return is
/// one of the four axis unit vectors or the zero vector, never anything
/// else.
pub proof fn lemma_contact_normal_axis_aligned(
    o: Vector,
    d: Vector,
    t: Rect,
    res: RayIntersectionResult,
)
    requires
        ray_result_matches(o, d, t, Some(res)),
    ensures
        res.contact_normal == v_up() || res.contact_normal == v_down() || res.contact_normal
            == v_left() || res.contact_normal == v_right() || res.contact_normal == v_zero(),
{
}

/// Law: the general query's contract pins its result completely, so two
/// calls on identical inputs return identical results.
pub proof fn lemma_ray_vs_rect_deterministic(
    o: Vector,
    d: Vector,
    t: Rect,
    r1: Option<RayIntersectionResult>,
    r2: Option<RayIntersectionResult>,
)
    requires
        ray_result_matches(o, d, t, r1),
        ray_result_matches(o, d, t, r2),
    ensures
        r1 == r2,
{
}

/// Law: the general swept query is deterministic.
pub proof fn lemma_swept_rect_vs_rect_deterministic(
    origin: Rect,
    target: Rect,
    delta: Vector,
    r1: Option<RayIntersectionResult>,
    r2: Option<RayIntersectionResult>,
)
    requires
        swept_result_matches(origin, target, delta, r1),
        swept_result_matches(origin, target, delta, r2),
    ensures
        r1 == r2,
{
}

/// Law: the horizontal time query is deterministic.
pub proof fn lemma_horizontal_time_deterministic(
    o: Vector,
    len_x: Fp,
    t: Rect,
    r1: Option<Fp>,
    r2: Option<Fp>,
)
    requires
        horizontal_result_matches(o, len_x, t, r1),
        horizontal_result_matches(o, len_x, t, r2),
    ensures
        r1 == r2,
{
}

/// Law: the vertical time query is deterministic.
pub proof fn lemma_vertical_time_deterministic(
    o: Vector,
    len_y: Fp,
    t: Rect,
    r1: Option<Fp>,
    r2: Option<Fp>,
)
    requires
        vertical_result_matches(o, len_y, t, r1),
        vertical_result_matches(o, len_y, t, r2),
    ensures
        r1 == r2,
{
}

/// Law: the horizontal swept query is deterministic.
pub proof fn lemma_swept_horizontal_deterministic(
    origin: Rect,
    target: Rect,
    x_delta: Fp,
    r1: Option<Fp>,
    r2: Option<Fp>,
)
    requires
        swept_horizontal_result_matches(origin, target, x_delta, r1),
        swept_horizontal_result_matches(origin, target, x_delta, r2),
    ensures
        r1 == r2,
{
}

/// Law: the vertical swept query is deterministic.
pub proof fn lemma_swept_vertical_deterministic(
    origin: Rect,
    target: Rect,
    y_delta: Fp,
    r1: Option<Fp>,
    r2: Option<Fp>,
)
    requires
        swept_vertical_result_matches(origin, target, y_delta, r1),
        swept_vertical_result_matches(origin, target, y_delta, r2),
    ensures
        r1 == r2,
{
}

/// Law: for purely horizontal motion the slab test's contact time is the
/// entry time of its x slab — the projection of the 2D test onto that axis.
pub proof fn lemma_horizontal_slab_projects(o: Vector, len_x: Fp, t: Rect)
    ensures
        hit_time(o, horizontal_vec(len_x), t) == time_near_x(o, horizontal_vec(len_x), t),
{
}

/// Law: for purely vertical motion the slab test's contact time is the
/// entry time of its y slab.
pub proof fn lemma_vertical_slab_projects(o: Vector, len_y: Fp, t: Rect)
    ensures
        hit_time(o, vertical_vec(len_y), t) == time_near_y(o, vertical_vec(len_y), t),
{
}

/// Law: the horizontal swept query is consistent with routing the same
/// motion through the general slab test on the same expanded rectangle.
/// On inputs where the axis query's direct division and the slab test's
/// reciprocal-and-multiply round to the same raw time — the one premise —
/// both accept exactly the same inputs and report that same time.
pub proof fn lemma_swept_horizontal_consistent_with_slab(origin: Rect, target: Rect, x_delta: Fp)
    requires
        x_delta.raw != 0,
        horizontal_time(sweep_corner(origin), x_delta, expanded_for_axis_sweep(origin, target))
            == time_near_x(
            sweep_corner(origin),
            horizontal_vec(x_delta),
            expanded_for_axis_sweep(origin, target),
        ),
    ensures
        swept_horizontal_hit(origin, target, x_delta) <==> (ray_hits(
            sweep_corner(origin),
            horizontal_vec(x_delta),
            expanded_for_axis_sweep(origin, target),
        ) && in_unit_window(
            hit_time(
                sweep_corner(origin),
                horizontal_vec(x_delta),
                expanded_for_axis_sweep(origin, target),
            ),
        )),
        swept_horizontal_hit(origin, target, x_delta) ==> horizontal_time(
            sweep_corner(origin),
            x_delta,
            expanded_for_axis_sweep(origin, target),
        ) == hit_time(
            sweep_corner(origin),
            horizontal_vec(x_delta),
            expanded_for_axis_sweep(origin, target),
        ),
{
    lemma_horizontal_slab_projects(
        sweep_corner(origin),
        x_delta,
        expanded_for_axis_sweep(origin, target),
    );
}

/// Law: the vertical swept query is consistent with routing the same motion
/// through the general slab test on the same expanded rectangle, under the
/// same rounding-agreement premise.
pub proof fn lemma_swept_vertical_consistent_with_slab(origin: Rect, target: Rect, y_delta: Fp)
    requires
        y_delta.raw != 0,
        vertical_time(sweep_corner(origin), y_delta, expanded_for_axis_sweep(origin, target))
            == time_near_y(
            sweep_corner(origin),
            vertical_vec(y_delta),
            expanded_for_axis_sweep(origin, target),
        ),
    ensures
        swept_vertical_hit(origin, target, y_delta) <==> (ray_hits(
            sweep_corner(origin),
            vertical_vec(y_delta),
            expanded_for_axis_sweep(origin, target),
        ) && in_unit_window(
            hit_time(
                sweep_corner(origin),
                vertical_vec(y_delta),
                expanded_for_axis_sweep(origin, target),
            ),
        )),
        swept_vertical_hit(origin, target, y_delta) ==> vertical_time(
            sweep_corner(origin),
            y_delta,
            expanded_for_axis_sweep(origin, target),
        ) == hit_time(
            sweep_corner(origin),
            vertical_vec(y_delta),
            expanded_for_axis_sweep(origin, target),
        ),
{
    lemma_vertical_slab_projects(
        sweep_corner(origin),
        y_delta,
        expanded_for_axis_sweep(origin, target),
    );
}

} // verus!
