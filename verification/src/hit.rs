use vstd::prelude::*;
use crate::editor::Editor;
use crate::geometry::{
    handle_or_colocated, handle_pos, outline_bounded, Contour, Point, WhichHandle, GEOM_LIMIT,
};
use crate::pos::{lemma_abs_mul, pos_wf, RatPos, RatVal, DEN_LIMIT, NUM_LIMIT};
use crate::viewport::{Viewport, MAX_FACTOR_CENTI};

verus! {

/// Radius of a drawn point marker, in device pixels.
pub const POINT_RADIUS: i64 = 3;

/// Stroke width of a drawn point marker, in device pixels.
pub const POINT_STROKE_THICKNESS: i64 = 1;

/// Half the side of a hit square, scaled by 100 to pair with centi factors.
pub const HIT_HALF_SCALED: i64 = (POINT_RADIUS + POINT_STROKE_THICKNESS) * 100;

/// Whether a document position lies in the hit square centered on `c`.
///
/// The square's side is `(2 * POINT_RADIUS + 2 * POINT_STROKE_THICKNESS)
/// / (factor/100)` document units, so its on-screen size is constant in
/// device pixels at every zoom. The square is half-open: it holds its left
/// and top edges, not its right and bottom ones.
pub open spec fn in_hit_square(c: (int, int), pos: RatVal, fc: int) -> bool {
    &&& (c.0 * fc - HIT_HALF_SCALED) * pos.den <= pos.xn * fc
    &&& pos.xn * fc < (c.0 * fc + HIT_HALF_SCALED) * pos.den
    &&& (c.1 * fc - HIT_HALF_SCALED) * pos.den <= pos.yn * fc
    &&& pos.yn * fc < (c.1 * fc + HIT_HALF_SCALED) * pos.den
}

/// Decides `in_hit_square` with exact integer arithmetic.
pub fn in_hit_square_at(cx: i64, cy: i64, pos: &RatPos, fc: u32) -> (r: bool)
    requires
        -GEOM_LIMIT <= cx <= GEOM_LIMIT,
        -GEOM_LIMIT <= cy <= GEOM_LIMIT,
        0 < fc <= MAX_FACTOR_CENTI,
        pos_wf(*pos),
    ensures
        r == in_hit_square((cx as int, cy as int), pos.val(), fc as int),
{
    let fci = fc as i128;
    proof {
        lemma_abs_mul(cx as int, fc as int, GEOM_LIMIT as int, MAX_FACTOR_CENTI as int);
        lemma_abs_mul(cy as int, fc as int, GEOM_LIMIT as int, MAX_FACTOR_CENTI as int);
        lemma_abs_mul(
            cx as int * fc - HIT_HALF_SCALED,
            pos.den as int,
            GEOM_LIMIT as int * MAX_FACTOR_CENTI + HIT_HALF_SCALED,
            DEN_LIMIT as int,
        );
        lemma_abs_mul(
            cx as int * fc + HIT_HALF_SCALED,
            pos.den as int,
            GEOM_LIMIT as int * MAX_FACTOR_CENTI + HIT_HALF_SCALED,
            DEN_LIMIT as int,
        );
        lemma_abs_mul(
            cy as int * fc - HIT_HALF_SCALED,
            pos.den as int,
            GEOM_LIMIT as int * MAX_FACTOR_CENTI + HIT_HALF_SCALED,
            DEN_LIMIT as int,
        );
        lemma_abs_mul(
            cy as int * fc + HIT_HALF_SCALED,
            pos.den as int,
            GEOM_LIMIT as int * MAX_FACTOR_CENTI + HIT_HALF_SCALED,
            DEN_LIMIT as int,
        );
        lemma_abs_mul(pos.xn as int, fc as int, NUM_LIMIT as int, MAX_FACTOR_CENTI as int);
        lemma_abs_mul(pos.yn as int, fc as int, NUM_LIMIT as int, MAX_FACTOR_CENTI as int);
    }
    let cxf: i128 = (cx as i128) * fci;
    let cyf: i128 = (cy as i128) * fci;
    let h: i128 = HIT_HALF_SCALED as i128;
    let px: i128 = pos.xn * fci;
    let py: i128 = pos.yn * fci;
    (cxf - h) * pos.den <= px && px < (cxf + h) * pos.den && (cyf - h) * pos.den <= py && py < (cyf
        + h) * pos.den
}

/// First part of a point the position hits: the point body, then handle a,
/// then handle b; a colocated handle resolves to the point's own square.
pub open spec fn hit_point(p: Point, pos: RatVal, fc: int) -> Option<WhichHandle> {
    if in_hit_square((p.x as int, p.y as int), pos, fc) {
        Some(WhichHandle::Neither)
    } else if in_hit_square(handle_pos(p, WhichHandle::A), pos, fc) {
        Some(WhichHandle::A)
    } else if in_hit_square(handle_pos(p, WhichHandle::B), pos, fc) {
        Some(WhichHandle::B)
    } else {
        None
    }
}

/// Whether the mask names this point, excluding it from the scan.
pub open spec fn masked(mask: Option<(usize, usize)>, ci: int, pj: int) -> bool {
    match mask {
        Some(m) => m.0 == ci && m.1 == pj,
        None => false,
    }
}

/// First hit in one contour, scanning points from index `j` upward.
pub open spec fn scan_points(
    points: Seq<Point>,
    ci: usize,
    j: int,
    pos: RatVal,
    fc: int,
    mask: Option<(usize, usize)>,
) -> Option<(usize, usize, WhichHandle)>
    decreases points.len() - j,
{
    if j < 0 || j >= points.len() {
        None
    } else {
        let here = if masked(mask, ci as int, j) {
            None
        } else {
            hit_point(points[j], pos, fc)
        };
        match here {
            Some(w) => Some((ci, j as usize, w)),
            None => scan_points(points, ci, j + 1, pos, fc, mask),
        }
    }
}

/// First hit in the outline, scanning contours from index `i` upward.
pub open spec fn scan_contours(
    contours: Seq<Contour>,
    i: int,
    pos: RatVal,
    fc: int,
    mask: Option<(usize, usize)>,
) -> Option<(usize, usize, WhichHandle)>
    decreases contours.len() - i,
{
    if i < 0 || i >= contours.len() {
        None
    } else {
        match scan_points(contours[i].points@, i as usize, 0, pos, fc, mask) {
            Some(r) => Some(r),
            None => scan_contours(contours, i + 1, pos, fc, mask),
        }
    }
}

/// The first point or handle whose hit square holds the position, in
/// contour-major, point-major scan order, the body before the handles.
pub open spec fn hit_spec(
    contours: Seq<Contour>,
    pos: RatVal,
    fc: int,
    mask: Option<(usize, usize)>,
) -> Option<(usize, usize, WhichHandle)> {
    scan_contours(contours, 0, pos, fc, mask)
}

/// Finds which point or handle the position is hovering, by an exhaustive
/// scan of every point of every contour; the first containing hit square in
/// scan order wins. `mask` names one point to skip entirely, used to exclude
/// the point currently being dragged.
pub fn clicked_point_or_handle(
    v: &Editor,
    viewport: &Viewport,
    position: &RatPos,
    mask: Option<(usize, usize)>,
) -> (r: Option<(usize, usize, WhichHandle)>)
    requires
        outline_bounded(v.outline@, GEOM_LIMIT as int),
        viewport.wf(),
        pos_wf(*position),
    ensures
        r == hit_spec(v.outline@, position.val(), viewport.factor as int, mask),
{
    let factor = viewport.factor;
    let ghost pv = position.val();
    let ghost fci = factor as int;
    let n = v.outline.len();
    let mut ci: usize = 0;
    while ci < n
        invariant
            n == v.outline@.len(),
            ci <= n,
            outline_bounded(v.outline@, GEOM_LIMIT as int),
            viewport.wf(),
            factor == viewport.factor,
            fci == factor as int,
            pos_wf(*position),
            pv == position.val(),
            scan_contours(v.outline@, 0, pv, fci, mask) == scan_contours(
                v.outline@,
                ci as int,
                pv,
                fci,
                mask,
            ),
        decreases n - ci,
    {
        let points_len = v.outline[ci].points.len();
        let mut pj: usize = 0;
        while pj < points_len
            invariant
                n == v.outline@.len(),
                ci < n,
                points_len == v.outline@[ci as int].points@.len(),
                pj <= points_len,
                outline_bounded(v.outline@, GEOM_LIMIT as int),
                viewport.wf(),
                factor == viewport.factor,
                fci == factor as int,
                pos_wf(*position),
                pv == position.val(),
                scan_contours(v.outline@, 0, pv, fci, mask) == (match scan_points(
                    v.outline@[ci as int].points@,
                    ci,
                    pj as int,
                    pv,
                    fci,
                    mask,
                ) {
                    Some(r) => Some(r),
                    None => scan_contours(v.outline@, ci as int + 1, pv, fci, mask),
                }),
            decreases points_len - pj,
        {
            let skip = match mask {
                Some(m) => m.0 == ci && m.1 == pj,
                None => false,
            };
            if !skip {
                let p = v.outline[ci].points[pj];
                assert(crate::geometry::point_bounded(p, GEOM_LIMIT as int));
                if in_hit_square_at(p.x, p.y, position, factor) {
                    return Some((ci, pj, WhichHandle::Neither));
                }
                let a = handle_or_colocated(&p, WhichHandle::A);
                if in_hit_square_at(a.0, a.1, position, factor) {
                    return Some((ci, pj, WhichHandle::A));
                }
                let b = handle_or_colocated(&p, WhichHandle::B);
                if in_hit_square_at(b.0, b.1, position, factor) {
                    return Some((ci, pj, WhichHandle::B));
                }
            }
            pj += 1;
        }
        ci += 1;
    }
    None
}

/// When every unmasked point of the suffix misses, the contour scan from
/// `j` finds nothing.
proof fn lemma_scan_points_none(
    points: Seq<Point>,
    ci: usize,
    j: int,
    pos: RatVal,
    fc: int,
    mask: Option<(usize, usize)>,
)
    requires
        forall|p: int|
            j <= p < points.len() && !masked(mask, ci as int, p) ==> hit_point(
                #[trigger] points[p],
                pos,
                fc,
            ) is None,
    ensures
        scan_points(points, ci, j, pos, fc, mask) is None,
    decreases points.len() - j,
{
    if 0 <= j < points.len() {
        lemma_scan_points_none(points, ci, j + 1, pos, fc, mask);
    }
}

/// When every unmasked point of every contour from `i` on misses, the
/// outline scan finds nothing.
proof fn lemma_scan_contours_none(
    contours: Seq<Contour>,
    i: int,
    pos: RatVal,
    fc: int,
    mask: Option<(usize, usize)>,
)
    requires
        forall|c: int, p: int|
            i <= c < contours.len() && 0 <= p < contours[c].points@.len() && !masked(mask, c, p)
                ==> hit_point(#[trigger] contours[c].points@[p], pos, fc) is None,
    ensures
        scan_contours(contours, i, pos, fc, mask) is None,
    decreases contours.len() - i,
{
    if 0 <= i < contours.len() {
        lemma_scan_points_none(contours[i].points@, i as usize, 0, pos, fc, mask);
        lemma_scan_contours_none(contours, i + 1, pos, fc, mask);
    }
}

/// When the points before `pi` miss and `pi` hits, the unmasked contour
/// scan from `j` reports `pi`.
proof fn lemma_scan_points_hit(
    points: Seq<Point>,
    ci: usize,
    j: int,
    pi: int,
    pos: RatVal,
    fc: int,
    w: WhichHandle,
)
    requires
        0 <= j <= pi < points.len(),
        forall|p: int| j <= p < pi ==> hit_point(#[trigger] points[p], pos, fc) is None,
        hit_point(points[pi], pos, fc) == Some(w),
    ensures
        scan_points(points, ci, j, pos, fc, None) == Some((ci, pi as usize, w)),
    decreases pi - j,
{
    if j < pi {
        lemma_scan_points_hit(points, ci, j + 1, pi, pos, fc, w);
    }
}

/// When everything in scan order before `(ci, pi)` misses and `(ci, pi)`
/// hits, the unmasked outline scan from `i` reports `(ci, pi)`.
proof fn lemma_scan_contours_hit(
    contours: Seq<Contour>,
    i: int,
    ci: int,
    pi: int,
    pos: RatVal,
    fc: int,
    w: WhichHandle,
)
    requires
        0 <= i <= ci < contours.len(),
        0 <= pi < contours[ci].points@.len(),
        forall|c: int, p: int|
            i <= c < ci && 0 <= p < contours[c].points@.len() ==> hit_point(
                #[trigger] contours[c].points@[p],
                pos,
                fc,
            ) is None,
        forall|p: int|
            0 <= p < pi ==> hit_point(#[trigger] contours[ci].points@[p], pos, fc) is None,
        hit_point(contours[ci].points@[pi], pos, fc) == Some(w),
    ensures
        scan_contours(contours, i, pos, fc, None) == Some((ci as usize, pi as usize, w)),
    decreases ci - i,
{
    if i == ci {
        lemma_scan_points_hit(contours[i].points@, i as usize, 0, pi, pos, fc, w);
    } else {
        lemma_scan_points_none(contours[i].points@, i as usize, 0, pos, fc, None);
        lemma_scan_contours_hit(contours, i + 1, ci, pi, pos, fc, w);
    }
}

/// A point of every other point pair misses all three of its squares.
pub open spec fn misses_all_squares(p: Point, pos: RatVal, fc: int) -> bool {
    &&& !in_hit_square((p.x as int, p.y as int), pos, fc)
    &&& !in_hit_square(handle_pos(p, WhichHandle::A), pos, fc)
    &&& !in_hit_square(handle_pos(p, WhichHandle::B), pos, fc)
}

/// A position inside a point's own hit square and outside every square of
/// every other point is reported as that point with no handle tag by an
/// unmasked hit test.
pub proof fn lemma_hit_test_isolated(
    contours: Seq<Contour>,
    pos: RatVal,
    fc: int,
    ci: usize,
    pi: usize,
)
    requires
        (ci as int) < contours.len(),
        (pi as int) < contours[ci as int].points@.len(),
        in_hit_square(
            (
                contours[ci as int].points@[pi as int].x as int,
                contours[ci as int].points@[pi as int].y as int,
            ),
            pos,
            fc,
        ),
        forall|c: int, p: int|
            0 <= c < contours.len() && 0 <= p < contours[c].points@.len() && !(c == ci && p == pi)
                ==> misses_all_squares(#[trigger] contours[c].points@[p], pos, fc),
    ensures
        hit_spec(contours, pos, fc, None) == Some((ci, pi, WhichHandle::Neither)),
{
    assert(hit_point(contours[ci as int].points@[pi as int], pos, fc) == Some(
        WhichHandle::Neither,
    ));
    assert forall|c: int, p: int|
        0 <= c < ci && 0 <= p < contours[c].points@.len() implies hit_point(
        #[trigger] contours[c].points@[p],
        pos,
        fc,
    ) is None by {
        assert(misses_all_squares(contours[c].points@[p], pos, fc));
    }
    assert forall|p: int| 0 <= p < pi implies hit_point(
        #[trigger] contours[ci as int].points@[p],
        pos,
        fc,
    ) is None by {
        assert(misses_all_squares(contours[ci as int].points@[p], pos, fc));
    }
    lemma_scan_contours_hit(contours, 0, ci as int, pi as int, pos, fc, WhichHandle::Neither);
}

/// With the mask naming the only point any square of which holds the
/// position, the hit test finds nothing.
pub proof fn lemma_hit_test_masked(
    contours: Seq<Contour>,
    pos: RatVal,
    fc: int,
    ci: usize,
    pi: usize,
)
    requires
        forall|c: int, p: int|
            0 <= c < contours.len() && 0 <= p < contours[c].points@.len() && !(c == ci && p == pi)
                ==> misses_all_squares(#[trigger] contours[c].points@[p], pos, fc),
    ensures
        hit_spec(contours, pos, fc, Some((ci, pi))) is None,
{
    assert forall|c: int, p: int|
        0 <= c < contours.len() && 0 <= p < contours[c].points@.len() && !masked(
            Some((ci, pi)),
            c,
            p,
        ) implies hit_point(#[trigger] contours[c].points@[p], pos, fc) is None by {
        assert(misses_all_squares(contours[c].points@[p], pos, fc));
    }
    lemma_scan_contours_none(contours, 0, pos, fc, Some((ci, pi)));
}

} // verus!
