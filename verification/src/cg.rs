//! Plane geometry values and the path builder, over whole-number
//! coordinates.

use vstd::prelude::*;

pub mod path;

pub use path::ElementType;
pub use path::LineCap;
pub use path::LineJoin;
pub use path::Path;
pub use path::PathMut;

verus! {

/// A point of the plane.
#[derive(Clone, Copy, Debug, PartialEq, Eq, Structural)]
pub struct Point {
    pub x: i64,
    pub y: i64,
}

/// An extent of the plane.
#[derive(Clone, Copy, Debug, PartialEq, Eq, Structural)]
pub struct Size {
    pub width: i64,
    pub height: i64,
}

/// An axis-aligned rectangle: an origin and an extent.
#[derive(Clone, Copy, Debug, PartialEq, Eq, Structural)]
pub struct Rect {
    pub origin: Point,
    pub size: Size,
}

impl Point {
    /// The origin of the plane.
    pub fn zero() -> (r: Point)
        ensures
            r == (Point { x: 0, y: 0 }),
    {
        Point { x: 0, y: 0 }
    }
}

impl Rect {
    /// The empty rectangle at the origin.
    pub fn zero() -> (r: Rect)
        ensures
            r == (Rect { origin: Point { x: 0, y: 0 }, size: Size { width: 0, height: 0 } }),
    {
        Rect { origin: Point { x: 0, y: 0 }, size: Size { width: 0, height: 0 } }
    }

    /// The sentinel rectangle meaning no extent at all, as an empty path's
    /// bounding box reports it.
    pub fn null() -> (r: Rect)
        ensures
            r == null_rect(),
    {
        Rect {
            origin: Point { x: i64::MAX, y: i64::MAX },
            size: Size { width: 0, height: 0 },
        }
    }
}

/// The sentinel rectangle of [`Rect::null`].
pub open spec fn null_rect() -> Rect {
    Rect { origin: Point { x: i64::MAX, y: i64::MAX }, size: Size { width: 0, height: 0 } }
}

/// An affine map of the plane over whole numbers: a point maps to
/// `(a x + c y + tx, b x + d y + ty)`.
#[derive(Clone, Copy, Debug, PartialEq, Eq, Structural)]
pub struct AffineTransform {
    pub a: i64,
    pub b: i64,
    pub c: i64,
    pub d: i64,
    pub tx: i64,
    pub ty: i64,
}

/// The magnitude within which coordinates and matrix entries must stay for
/// a transformed coordinate to fit the machine word.
pub open spec fn tf_bound() -> int {
    0x4000_0000
}

/// Whether a value is small enough to be transformed.
pub open spec fn small(v: i64) -> bool {
    -tf_bound() <= v <= tf_bound()
}

/// Whether a transform's entries are small enough to apply.
pub open spec fn tf_small(m: AffineTransform) -> bool {
    small(m.a) && small(m.b) && small(m.c) && small(m.d) && small(m.tx) && small(m.ty)
}

/// Where an affine map sends a point; no map is the identity.
pub open spec fn tf_point(m: Option<AffineTransform>, p: Point) -> Point {
    match m {
        None => p,
        Some(t) => Point {
            x: (t.a * p.x + t.c * p.y + t.tx) as i64,
            y: (t.b * p.x + t.d * p.y + t.ty) as i64,
        },
    }
}

/// Whether applying a map to a point stays within the machine word: no map
/// always does; a small map on a small point does.
pub open spec fn tf_ok(m: Option<AffineTransform>, p: Point) -> bool {
    match m {
        None => true,
        Some(t) => tf_small(t) && small(p.x) && small(p.y),
    }
}

/// Applies an affine map to a point.
pub fn apply_transform(m: Option<&AffineTransform>, p: Point) -> (r: Point)
    requires
        tf_ok(tf_deref(m), p),
    ensures
        r == tf_point(tf_deref(m), p),
{
    match m {
        None => p,
        Some(t) => {
            proof {
                assert(t.a * p.x <= 0x4000_0000 * 0x4000_0000 && t.a * p.x >= -(0x4000_0000
                    * 0x4000_0000)) by (nonlinear_arith)
                    requires
                        small(t.a) && small(p.x),
                ;
                assert(t.c * p.y <= 0x4000_0000 * 0x4000_0000 && t.c * p.y >= -(0x4000_0000
                    * 0x4000_0000)) by (nonlinear_arith)
                    requires
                        small(t.c) && small(p.y),
                ;
                assert(t.b * p.x <= 0x4000_0000 * 0x4000_0000 && t.b * p.x >= -(0x4000_0000
                    * 0x4000_0000)) by (nonlinear_arith)
                    requires
                        small(t.b) && small(p.x),
                ;
                assert(t.d * p.y <= 0x4000_0000 * 0x4000_0000 && t.d * p.y >= -(0x4000_0000
                    * 0x4000_0000)) by (nonlinear_arith)
                    requires
                        small(t.d) && small(p.y),
                ;
            }
            let x = t.a * p.x + t.c * p.y + t.tx;
            let y = t.b * p.x + t.d * p.y + t.ty;
            Point { x, y }
        },
    }
}

/// The map behind an optional borrowed transform.
pub open spec fn tf_deref(m: Option<&AffineTransform>) -> Option<AffineTransform> {
    match m {
        None => None,
        Some(t) => Some(*t),
    }
}

} // verus!
