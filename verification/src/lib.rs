//! Deterministic collision queries between axis-aligned rectangles and rays,
//! including swept tests for a moving rectangle against a stationary one.
//!
//! All arithmetic uses a Q16.16 fixed-point scalar, so that identical inputs
//! give bit-identical results on every machine. The core is the slab
//! ray-vs-rectangle test; around it stand two single-axis time queries and
//! three swept-rectangle front ends that expand the target by the mover's
//! size and accept only contact times in the normalized window `[0, 1)`.
//!
//! Boundary convention: wherever a query tests a fixed coordinate against a
//! rectangle's extent on one axis, the extent is the half-open interval
//! `[pos, pos + size)`.

pub mod axis;
pub mod fp;
pub mod geom;
pub mod laws;
pub mod ray;
pub mod swept;

pub use axis::ray_vs_rect_horizontal_time;
pub use axis::ray_vs_rect_vertical_time;
pub use fp::Fp;
pub use geom::Rect;
pub use geom::Vector;
pub use ray::ray_vs_rect;
pub use ray::RayIntersectionResult;
pub use swept::swept_rect_vs_rect;
pub use swept::swept_rect_vs_rect_horizontal_time;
pub use swept::swept_rect_vs_rect_vertical_time;
