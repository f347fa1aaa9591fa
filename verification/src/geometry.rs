use vstd::prelude::*;

verus! {

/// Largest coordinate magnitude the geometric queries accept; it keeps every
/// intermediate product of the exact arithmetic inside `i128`.
pub const GEOM_LIMIT: i64 = 10_000_000;

/// A cubic Bezier control handle of a point: either free at an absolute
/// document position, or colocated with its owning point (no independent
/// offset; it resolves to the point's current position).
#[derive(Clone, Copy, PartialEq, Eq, Structural, Debug)]
pub enum Handle {
    At(i64, i64),
    Colocated,
}

/// Names which part of a point a hit-test matched: the point body itself, or
/// one of its two handles.
#[derive(Clone, Copy, PartialEq, Eq, Structural, Debug)]
pub enum WhichHandle {
    Neither,
    A,
    B,
}

/// An on-curve point with its two handles. Handle `a` leads toward the next
/// point of the contour, handle `b` trails toward the previous one.
#[derive(Clone, Copy, PartialEq, Eq, Structural, Debug)]
pub struct Point {
    pub x: i64,
    pub y: i64,
    pub a: Handle,
    pub b: Handle,
}

/// An ordered run of points forming one sub-path; a closed contour has an
/// implicit segment from its last point back to its first.
#[derive(Clone)]
pub struct Contour {
    pub points: Vec<Point>,
    pub closed: bool,
}

/// Document position a handle resolves to: its own position if free, the
/// owning point's position if colocated.
pub open spec fn handle_pos(p: Point, w: WhichHandle) -> (int, int) {
    match w {
        WhichHandle::Neither => (p.x as int, p.y as int),
        WhichHandle::A => match p.a {
            Handle::At(hx, hy) => (hx as int, hy as int),
            Handle::Colocated => (p.x as int, p.y as int),
        },
        WhichHandle::B => match p.b {
            Handle::At(hx, hy) => (hx as int, hy as int),
            Handle::Colocated => (p.x as int, p.y as int),
        },
    }
}

/// Resolves a handle of a point to its document position.
pub fn handle_or_colocated(p: &Point, w: WhichHandle) -> (r: (i64, i64))
    ensures
        (r.0 as int, r.1 as int) == handle_pos(*p, w),
{
    match w {
        WhichHandle::Neither => (p.x, p.y),
        WhichHandle::A => match p.a {
            Handle::At(hx, hy) => (hx, hy),
            Handle::Colocated => (p.x, p.y),
        },
        WhichHandle::B => match p.b {
            Handle::At(hx, hy) => (hx, hy),
            Handle::Colocated => (p.x, p.y),
        },
    }
}

/// All coordinates of a point, handles included, lie within `bound`.
pub open spec fn point_bounded(p: Point, bound: int) -> bool {
    &&& -bound <= p.x <= bound
    &&& -bound <= p.y <= bound
    &&& match p.a {
        Handle::At(hx, hy) => -bound <= hx <= bound && -bound <= hy <= bound,
        Handle::Colocated => true,
    }
    &&& match p.b {
        Handle::At(hx, hy) => -bound <= hx <= bound && -bound <= hy <= bound,
        Handle::Colocated => true,
    }
}

/// Every point of every contour lies within `bound`.
pub open spec fn outline_bounded(outline: Seq<Contour>, bound: int) -> bool {
    forall|c: int, p: int|
        0 <= c < outline.len() && 0 <= p < outline[c].points@.len() ==> point_bounded(
            #[trigger] outline[c].points@[p],
            bound,
        )
}

} // verus!
