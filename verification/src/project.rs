use vstd::prelude::*;
use crate::editor::Editor;
use crate::geometry::{handle_or_colocated, handle_pos, outline_bounded, Contour, WhichHandle, GEOM_LIMIT};
use crate::pos::{lemma_abs_mul, Frac, RatPos, RatVal};
use crate::viewport::{docpos_wf, Viewport, DOC_NUM_LIMIT, MAX_FACTOR_CENTI};

verus! {

/// Samples per segment of the curve-parameter search: the parameter grid is
/// `t = k / CURVE_SAMPLES` for `k` in `0 ..= CURVE_SAMPLES`.
pub const CURVE_SAMPLES: u32 = 32;

/// `CURVE_SAMPLES` squared, the denominator of a subdivided handle.
pub const SAMPLES_SQUARED: i128 = 1_024;

/// `CURVE_SAMPLES` cubed, the denominator of an evaluated curve position.
pub const SAMPLES_CUBED: i128 = 32_768;

/// `CURVE_SAMPLES` to the sixth, the denominator of a squared distance.
pub const SAMPLES_SIXTH: i128 = 1_073_741_824;

/// Squared device-pixel tolerance of the search, scaled by `100 * 100`: the
/// catch radius is 3.5 device pixels, so `350 * 350` once the factor's
/// hundredths are worked in.
pub const TOL_SQ_SCALED: i128 = 122_500;

/// Number of cubic segments a contour yields: one between each pair of
/// neighbouring points, plus the implicit closing segment of a closed
/// contour; fewer than two points yield none.
pub open spec fn seg_count(c: Contour) -> int {
    if c.points@.len() < 2 {
        0int
    } else if c.closed {
        c.points@.len() as int
    } else {
        c.points@.len() - 1
    }
}

/// Index of the point a segment runs to.
pub open spec fn seg_next_idx(c: Contour, s: int) -> int {
    if s + 1 == c.points@.len() {
        0int
    } else {
        s + 1
    }
}

/// First anchor of a segment.
pub open spec fn seg_p0(c: Contour, s: int) -> (int, int) {
    (c.points@[s].x as int, c.points@[s].y as int)
}

/// First control of a segment: the leading handle of its first anchor.
pub open spec fn seg_c1(c: Contour, s: int) -> (int, int) {
    handle_pos(c.points@[s], WhichHandle::A)
}

/// Second control of a segment: the trailing handle of its second anchor.
pub open spec fn seg_c2(c: Contour, s: int) -> (int, int) {
    handle_pos(c.points@[seg_next_idx(c, s)], WhichHandle::B)
}

/// Second anchor of a segment.
pub open spec fn seg_p3(c: Contour, s: int) -> (int, int) {
    (c.points@[seg_next_idx(c, s)].x as int, c.points@[seg_next_idx(c, s)].y as int)
}

/// One coordinate of the cubic Bezier at `t = k / CURVE_SAMPLES`, times
/// `CURVE_SAMPLES` cubed (the Bernstein form with `m = CURVE_SAMPLES - k`).
pub open spec fn bez_num(x0: int, x1: int, x2: int, x3: int, k: int) -> int {
    let m = 32 - k;
    x0 * m * m * m + 3 * x1 * k * m * m + 3 * x2 * k * k * m + x3 * k * k * k
}

/// One coordinate of the level-two de Casteljau point of `(x0, x1, x2)` at
/// `t = k / CURVE_SAMPLES`, times `CURVE_SAMPLES` squared; over the first
/// three controls it is the left subdivision's inner handle, over the last
/// three the right subdivision's.
pub open spec fn mid_num(x0: int, x1: int, x2: int, k: int) -> int {
    let m = 32 - k;
    x0 * m * m + 2 * x1 * k * m + x2 * k * k
}

/// Difference of the sampled curve point and the query along x, over the
/// common denominator `SAMPLES_CUBED * q.den`.
pub open spec fn seg_dx(c: Contour, s: int, k: int, q: RatVal) -> int {
    bez_num(seg_p0(c, s).0, seg_c1(c, s).0, seg_c2(c, s).0, seg_p3(c, s).0, k) * q.den - q.xn
        * SAMPLES_CUBED
}

/// Difference of the sampled curve point and the query along y.
pub open spec fn seg_dy(c: Contour, s: int, k: int, q: RatVal) -> int {
    bez_num(seg_p0(c, s).1, seg_c1(c, s).1, seg_c2(c, s).1, seg_p3(c, s).1, k) * q.den - q.yn
        * SAMPLES_CUBED
}

/// Squared distance of sample `k` of segment `s` to the query, times the
/// square of the common denominator.
pub open spec fn dist_sq(c: Contour, s: int, k: int, q: RatVal) -> int {
    seg_dx(c, s, k, q) * seg_dx(c, s, k, q) + seg_dy(c, s, k, q) * seg_dy(c, s, k, q)
}

/// The scaled squared distance that equals a true distance of `3.5 / factor`
/// document units, the catch radius of the search.
pub open spec fn tol_num(q: RatVal, fc: int) -> int {
    (TOL_SQ_SCALED * SAMPLES_SIXTH * q.den * q.den) / (fc * fc)
}

/// Whether sample `k` of segment `s` lies within the catch radius.
pub open spec fn within_tol(c: Contour, s: int, k: int, q: RatVal, fc: int) -> bool {
    dist_sq(c, s, k, q) <= tol_num(q, fc)
}

/// A valid sample address: a contour, one of its segments, a grid index.
pub open spec fn cand_ok(contours: Seq<Contour>, ci: int, si: int, k: int) -> bool {
    &&& 0 <= ci < contours.len()
    &&& 0 <= si < seg_count(contours[ci])
    &&& 0 <= k <= CURVE_SAMPLES
}

/// Scan order of sample addresses: contour-major, then segment, then grid.
pub open spec fn cand_before(ci: int, si: int, k: int, ci2: int, si2: int, k2: int) -> bool {
    ||| ci < ci2
    ||| (ci == ci2 && si < si2)
    ||| (ci == ci2 && si == si2 && k < k2)
}

/// The projection of a position onto the outline: the curve parameter, the
/// position on the curve, and the subdivided local handles at that
/// parameter, which become the new point's handles if it is inserted.
pub struct PenPointInfo {
    /// Curve parameter in `[0, 1]` of the winning sample.
    pub t: Frac,
    pub contour_idx: usize,
    pub seg_idx: usize,
    /// Position on the curve at `t`, exact over `SAMPLES_CUBED`.
    pub point: RatPos,
    /// Inner handle of the left subdivision at `t`.
    pub a: RatPos,
    /// Inner handle of the right subdivision at `t`.
    pub b: RatPos,
}

/// What a returned projection states: its sample is valid and within the
/// catch radius, no sample beats it, every earlier sample is strictly worse
/// (the scan keeps the first minimum), and the reported point and handles
/// are the exact evaluation and subdivision at its parameter.
pub open spec fn projection_ok(
    contours: Seq<Contour>,
    q: RatVal,
    fc: int,
    info: PenPointInfo,
) -> bool {
    let rc = info.contour_idx as int;
    let rs = info.seg_idx as int;
    let rk = info.t.num as int;
    &&& info.t.den == CURVE_SAMPLES
    &&& cand_ok(contours, rc, rs, rk)
    &&& within_tol(contours[rc], rs, rk, q, fc)
    &&& (forall|c: int, s: int, k: int|
        cand_ok(contours, c, s, k) && #[trigger] within_tol(contours[c], s, k, q, fc) ==> dist_sq(
            contours[c],
            s,
            k,
            q,
        ) >= dist_sq(contours[rc], rs, rk, q))
    &&& (forall|c: int, s: int, k: int|
        cand_ok(contours, c, s, k) && #[trigger] within_tol(contours[c], s, k, q, fc)
            && cand_before(c, s, k, rc, rs, rk) ==> dist_sq(contours[c], s, k, q) > dist_sq(
            contours[rc],
            rs,
            rk,
            q,
        ))
    &&& info.point.xn == bez_num(
        seg_p0(contours[rc], rs).0,
        seg_c1(contours[rc], rs).0,
        seg_c2(contours[rc], rs).0,
        seg_p3(contours[rc], rs).0,
        rk,
    )
    &&& info.point.yn == bez_num(
        seg_p0(contours[rc], rs).1,
        seg_c1(contours[rc], rs).1,
        seg_c2(contours[rc], rs).1,
        seg_p3(contours[rc], rs).1,
        rk,
    )
    &&& info.point.den == SAMPLES_CUBED
    &&& info.a.xn == mid_num(
        seg_p0(contours[rc], rs).0,
        seg_c1(contours[rc], rs).0,
        seg_c2(contours[rc], rs).0,
        rk,
    )
    &&& info.a.yn == mid_num(
        seg_p0(contours[rc], rs).1,
        seg_c1(contours[rc], rs).1,
        seg_c2(contours[rc], rs).1,
        rk,
    )
    &&& info.a.den == SAMPLES_SQUARED
    &&& info.b.xn == mid_num(
        seg_c1(contours[rc], rs).0,
        seg_c2(contours[rc], rs).0,
        seg_p3(contours[rc], rs).0,
        rk,
    )
    &&& info.b.yn == mid_num(
        seg_c1(contours[rc], rs).1,
        seg_c2(contours[rc], rs).1,
        seg_p3(contours[rc], rs).1,
        rk,
    )
    &&& info.b.den == SAMPLES_SQUARED
}

/// One coordinate of the Bernstein evaluation, exactly, with its bound.
fn bez_num_exec(x0: i64, x1: i64, x2: i64, x3: i64, k: u32) -> (r: i128)
    requires
        -GEOM_LIMIT <= x0 <= GEOM_LIMIT,
        -GEOM_LIMIT <= x1 <= GEOM_LIMIT,
        -GEOM_LIMIT <= x2 <= GEOM_LIMIT,
        -GEOM_LIMIT <= x3 <= GEOM_LIMIT,
        k <= CURVE_SAMPLES,
    ensures
        r == bez_num(x0 as int, x1 as int, x2 as int, x3 as int, k as int),
        -3_000_000_000_000 <= r <= 3_000_000_000_000,
{
    let ki = k as i128;
    let m = 32 - ki;
    proof {
        lemma_abs_mul(x0 as int, m as int, GEOM_LIMIT as int, 32);
        lemma_abs_mul(x0 as int * m, m as int, 32 * GEOM_LIMIT as int, 32);
        lemma_abs_mul(x0 as int * m * m, m as int, 1024 * GEOM_LIMIT as int, 32);
        lemma_abs_mul(3 * x1 as int, ki as int, 3 * GEOM_LIMIT as int, 32);
        lemma_abs_mul(3 * x1 as int * ki, m as int, 96 * GEOM_LIMIT as int, 32);
        lemma_abs_mul(3 * x1 as int * ki * m, m as int, 3072 * GEOM_LIMIT as int, 32);
        lemma_abs_mul(3 * x2 as int, ki as int, 3 * GEOM_LIMIT as int, 32);
        lemma_abs_mul(3 * x2 as int * ki, ki as int, 96 * GEOM_LIMIT as int, 32);
        lemma_abs_mul(3 * x2 as int * ki * ki, m as int, 3072 * GEOM_LIMIT as int, 32);
        lemma_abs_mul(x3 as int, ki as int, GEOM_LIMIT as int, 32);
        lemma_abs_mul(x3 as int * ki, ki as int, 32 * GEOM_LIMIT as int, 32);
        lemma_abs_mul(x3 as int * ki * ki, ki as int, 1024 * GEOM_LIMIT as int, 32);
    }
    (x0 as i128) * m * m * m + 3 * (x1 as i128) * ki * m * m + 3 * (x2 as i128) * ki * ki * m + (
    x3 as i128) * ki * ki * ki
}

/// One coordinate of a level-two de Casteljau point, exactly.
fn mid_num_exec(x0: i64, x1: i64, x2: i64, k: u32) -> (r: i128)
    requires
        -GEOM_LIMIT <= x0 <= GEOM_LIMIT,
        -GEOM_LIMIT <= x1 <= GEOM_LIMIT,
        -GEOM_LIMIT <= x2 <= GEOM_LIMIT,
        k <= CURVE_SAMPLES,
    ensures
        r == mid_num(x0 as int, x1 as int, x2 as int, k as int),
{
    let ki = k as i128;
    let m = 32 - ki;
    proof {
        lemma_abs_mul(x0 as int, m as int, GEOM_LIMIT as int, 32);
        lemma_abs_mul(x0 as int * m, m as int, 32 * GEOM_LIMIT as int, 32);
        lemma_abs_mul(2 * x1 as int, ki as int, 2 * GEOM_LIMIT as int, 32);
        lemma_abs_mul(2 * x1 as int * ki, m as int, 64 * GEOM_LIMIT as int, 32);
        lemma_abs_mul(x2 as int, ki as int, GEOM_LIMIT as int, 32);
        lemma_abs_mul(x2 as int * ki, ki as int, 32 * GEOM_LIMIT as int, 32);
    }
    (x0 as i128) * m * m + 2 * (x1 as i128) * ki * m + (x2 as i128) * ki * ki
}

/// Scaled squared distance of one sample to the query, exactly.
fn sample_dist_sq(
    x0: i64,
    y0: i64,
    x1: i64,
    y1: i64,
    x2: i64,
    y2: i64,
    x3: i64,
    y3: i64,
    k: u32,
    q: &RatPos,
) -> (s: i128)
    requires
        -GEOM_LIMIT <= x0 <= GEOM_LIMIT,
        -GEOM_LIMIT <= y0 <= GEOM_LIMIT,
        -GEOM_LIMIT <= x1 <= GEOM_LIMIT,
        -GEOM_LIMIT <= y1 <= GEOM_LIMIT,
        -GEOM_LIMIT <= x2 <= GEOM_LIMIT,
        -GEOM_LIMIT <= y2 <= GEOM_LIMIT,
        -GEOM_LIMIT <= x3 <= GEOM_LIMIT,
        -GEOM_LIMIT <= y3 <= GEOM_LIMIT,
        k <= CURVE_SAMPLES,
        docpos_wf(*q),
    ensures
        s == (bez_num(x0 as int, x1 as int, x2 as int, x3 as int, k as int) * q.den - q.xn
            * SAMPLES_CUBED) * (bez_num(x0 as int, x1 as int, x2 as int, x3 as int, k as int)
            * q.den - q.xn * SAMPLES_CUBED) + (bez_num(
            y0 as int,
            y1 as int,
            y2 as int,
            y3 as int,
            k as int,
        ) * q.den - q.yn * SAMPLES_CUBED) * (bez_num(
            y0 as int,
            y1 as int,
            y2 as int,
            y3 as int,
            k as int,
        ) * q.den - q.yn * SAMPLES_CUBED),
        s >= 0,
{
    let bx = bez_num_exec(x0, x1, x2, x3, k);
    let by = bez_num_exec(y0, y1, y2, y3, k);
    proof {
        lemma_abs_mul(bx as int, q.den as int, 3_000_000_000_000, MAX_FACTOR_CENTI as int);
        lemma_abs_mul(by as int, q.den as int, 3_000_000_000_000, MAX_FACTOR_CENTI as int);
        lemma_abs_mul(q.xn as int, SAMPLES_CUBED as int, DOC_NUM_LIMIT as int, SAMPLES_CUBED as int);
        lemma_abs_mul(q.yn as int, SAMPLES_CUBED as int, DOC_NUM_LIMIT as int, SAMPLES_CUBED as int);
        lemma_abs_mul(
            bx as int * q.den - q.xn * SAMPLES_CUBED,
            bx as int * q.den - q.xn * SAMPLES_CUBED,
            40_000_000_000_000_000,
            40_000_000_000_000_000,
        );
        lemma_abs_mul(
            by as int * q.den - q.yn * SAMPLES_CUBED,
            by as int * q.den - q.yn * SAMPLES_CUBED,
            40_000_000_000_000_000,
            40_000_000_000_000_000,
        );
        assert((bx * q.den - q.xn * SAMPLES_CUBED) * (bx * q.den - q.xn * SAMPLES_CUBED) >= 0)
            by (nonlinear_arith);
        assert((by * q.den - q.yn * SAMPLES_CUBED) * (by * q.den - q.yn * SAMPLES_CUBED) >= 0)
            by (nonlinear_arith);
    }
    let dx = bx * q.den - q.xn * SAMPLES_CUBED;
    let dy = by * q.den - q.yn * SAMPLES_CUBED;
    dx * dx + dy * dy
}

/// The catch radius as a scaled squared bound, exactly.
fn tol_num_exec(q: &RatPos, fc: u32) -> (t: i128)
    requires
        docpos_wf(*q),
        0 < fc <= MAX_FACTOR_CENTI,
    ensures
        t == tol_num(q.val(), fc as int),
        t >= 0,
{
    let d = q.den;
    let fci = fc as i128;
    proof {
        lemma_abs_mul(
            TOL_SQ_SCALED as int * SAMPLES_SIXTH,
            d as int,
            TOL_SQ_SCALED as int * SAMPLES_SIXTH,
            MAX_FACTOR_CENTI as int,
        );
        lemma_abs_mul(
            TOL_SQ_SCALED as int * SAMPLES_SIXTH * d,
            d as int,
            TOL_SQ_SCALED as int * SAMPLES_SIXTH * MAX_FACTOR_CENTI,
            MAX_FACTOR_CENTI as int,
        );
        lemma_abs_mul(fci as int, fci as int, MAX_FACTOR_CENTI as int, MAX_FACTOR_CENTI as int);
        assert(fci * fci > 0) by (nonlinear_arith)
            requires
                fci > 0,
        ;
        assert(TOL_SQ_SCALED * SAMPLES_SIXTH * d * d >= 0) by (nonlinear_arith)
            requires
                d > 0,
        ;
        assert(TOL_SQ_SCALED * SAMPLES_SIXTH * d * d / (fci * fci) >= 0) by (nonlinear_arith)
            requires
                TOL_SQ_SCALED * SAMPLES_SIXTH * d * d >= 0,
                fci * fci > 0,
        ;
    }
    TOL_SQ_SCALED * SAMPLES_SIXTH * d * d / (fci * fci)
}

/// Projects a document position onto the nearest point lying exactly on a
/// contour's curve, if any sample of any segment falls within the catch
/// radius of 3.5 device pixels. Every segment of every contour is scanned
/// (the closest segment is not known a priori); among the samples within
/// tolerance the globally closest wins, the earliest in scan order on ties.
/// The subdivided handles of the winner come back along with the curve
/// position and parameter.
///
/// The search is a fixed grid of `CURVE_SAMPLES + 1` parameters per
/// segment, so its resolution is the segment's length over the sample
/// count: on a segment much longer than about 100 document units (at 100%
/// zoom), an on-curve position midway between two samples can fall outside
/// the catch radius and the query reports nothing. Editor-scale glyph
/// segments sit well inside that resolution.
pub fn nearest_point_on_curve(v: &Editor, viewport: &Viewport, position: &RatPos) -> (r: Option<
    PenPointInfo,
>)
    requires
        outline_bounded(v.outline@, GEOM_LIMIT as int),
        viewport.wf(),
        docpos_wf(*position),
    ensures
        match r {
            None => forall|c: int, s: int, k: int|
                cand_ok(v.outline@, c, s, k) ==> !(#[trigger] within_tol(
                    v.outline@[c],
                    s,
                    k,
                    position.val(),
                    viewport.factor as int,
                )),
            Some(info) => projection_ok(v.outline@, position.val(), viewport.factor as int, info),
        },
{
    let fc = viewport.factor;
    let ghost q = position.val();
    let ghost fci = fc as int;
    let tol = tol_num_exec(position, fc);
    let mut best: Option<(i128, usize, usize, u32)> = None;
    let n = v.outline.len();
    let mut ci: usize = 0;
    while ci < n
        invariant
            n == v.outline@.len(),
            ci <= n,
            outline_bounded(v.outline@, GEOM_LIMIT as int),
            viewport.wf(),
            fc == viewport.factor,
            fci == fc as int,
            docpos_wf(*position),
            q == position.val(),
            tol == tol_num(q, fci),
            best_inv(v.outline@, q, fci, best, ci as int, 0, 0),
        decreases n - ci,
    {
        let contour_len = v.outline[ci].points.len();
        let closed = v.outline[ci].closed;
        let nsegs = if contour_len < 2 {
            0
        } else if closed {
            contour_len
        } else {
            contour_len - 1
        };
        assert(nsegs == seg_count(v.outline@[ci as int]));
        let mut si: usize = 0;
        while si < nsegs
            invariant
                n == v.outline@.len(),
                ci < n,
                contour_len == v.outline@[ci as int].points@.len(),
                nsegs == seg_count(v.outline@[ci as int]),
                si <= nsegs,
                outline_bounded(v.outline@, GEOM_LIMIT as int),
                viewport.wf(),
                fc == viewport.factor,
                fci == fc as int,
                docpos_wf(*position),
                q == position.val(),
                tol == tol_num(q, fci),
                best_inv(v.outline@, q, fci, best, ci as int, si as int, 0),
            decreases nsegs - si,
        {
            let p0 = v.outline[ci].points[si];
            let nidx = if si + 1 == contour_len {
                0
            } else {
                si + 1
            };
            let p3 = v.outline[ci].points[nidx];
            let c1 = handle_or_colocated(&p0, WhichHandle::A);
            let c2 = handle_or_colocated(&p3, WhichHandle::B);
            assert((p0.x as int, p0.y as int) == seg_p0(v.outline@[ci as int], si as int));
            assert((c1.0 as int, c1.1 as int) == seg_c1(v.outline@[ci as int], si as int));
            assert((c2.0 as int, c2.1 as int) == seg_c2(v.outline@[ci as int], si as int));
            assert((p3.x as int, p3.y as int) == seg_p3(v.outline@[ci as int], si as int));
            let mut k: u32 = 0;
            while k <= CURVE_SAMPLES
                invariant
                    n == v.outline@.len(),
                    ci < n,
                    contour_len == v.outline@[ci as int].points@.len(),
                    nsegs == seg_count(v.outline@[ci as int]),
                    si < nsegs,
                    k <= CURVE_SAMPLES + 1,
                    outline_bounded(v.outline@, GEOM_LIMIT as int),
                    viewport.wf(),
                    fc == viewport.factor,
                    fci == fc as int,
                    docpos_wf(*position),
                    q == position.val(),
                    tol == tol_num(q, fci),
                    (p0.x as int, p0.y as int) == seg_p0(v.outline@[ci as int], si as int),
                    (c1.0 as int, c1.1 as int) == seg_c1(v.outline@[ci as int], si as int),
                    (c2.0 as int, c2.1 as int) == seg_c2(v.outline@[ci as int], si as int),
                    (p3.x as int, p3.y as int) == seg_p3(v.outline@[ci as int], si as int),
                    -GEOM_LIMIT <= p0.x <= GEOM_LIMIT,
                    -GEOM_LIMIT <= p0.y <= GEOM_LIMIT,
                    -GEOM_LIMIT <= c1.0 <= GEOM_LIMIT,
                    -GEOM_LIMIT <= c1.1 <= GEOM_LIMIT,
                    -GEOM_LIMIT <= c2.0 <= GEOM_LIMIT,
                    -GEOM_LIMIT <= c2.1 <= GEOM_LIMIT,
                    -GEOM_LIMIT <= p3.x <= GEOM_LIMIT,
                    -GEOM_LIMIT <= p3.y <= GEOM_LIMIT,
                    best_inv(v.outline@, q, fci, best, ci as int, si as int, k as int),
                decreases CURVE_SAMPLES + 1 - k,
            {
                let s = sample_dist_sq(p0.x, p0.y, c1.0, c1.1, c2.0, c2.1, p3.x, p3.y, k, position);
                assert(s == dist_sq(v.outline@[ci as int], si as int, k as int, q));
                let take = if s <= tol {
                    match best {
                        None => true,
                        Some(b) => s < b.0,
                    }
                } else {
                    false
                };
                if take {
                    best = Some((s, ci, si, k));
                }
                k += 1;
            }
            si += 1;
        }
        ci += 1;
    }
    match best {
        None => None,
        Some((bs, bc, bsi, bk)) => {
            let contour_len = v.outline[bc].points.len();
            let p0 = v.outline[bc].points[bsi];
            let nidx = if bsi + 1 == contour_len {
                0
            } else {
                bsi + 1
            };
            let p3 = v.outline[bc].points[nidx];
            let c1 = handle_or_colocated(&p0, WhichHandle::A);
            let c2 = handle_or_colocated(&p3, WhichHandle::B);
            assert((p0.x as int, p0.y as int) == seg_p0(v.outline@[bc as int], bsi as int));
            assert((c1.0 as int, c1.1 as int) == seg_c1(v.outline@[bc as int], bsi as int));
            assert((c2.0 as int, c2.1 as int) == seg_c2(v.outline@[bc as int], bsi as int));
            assert((p3.x as int, p3.y as int) == seg_p3(v.outline@[bc as int], bsi as int));
            let px = bez_num_exec(p0.x, c1.0, c2.0, p3.x, bk);
            let py = bez_num_exec(p0.y, c1.1, c2.1, p3.y, bk);
            let ax = mid_num_exec(p0.x, c1.0, c2.0, bk);
            let ay = mid_num_exec(p0.y, c1.1, c2.1, bk);
            let bx = mid_num_exec(c1.0, c2.0, p3.x, bk);
            let by = mid_num_exec(c1.1, c2.1, p3.y, bk);
            Some(
                PenPointInfo {
                    t: Frac { num: bk as i128, den: CURVE_SAMPLES as i128 },
                    contour_idx: bc,
                    seg_idx: bsi,
                    point: RatPos { xn: px, yn: py, den: SAMPLES_CUBED },
                    a: RatPos { xn: ax, yn: ay, den: SAMPLES_SQUARED },
                    b: RatPos { xn: bx, yn: by, den: SAMPLES_SQUARED },
                },
            )
        },
    }
}

/// Bookkeeping of the scan: what the running best states of the samples
/// already scanned (those before the scan position `(ci, si, k)`).
pub open spec fn best_inv(
    contours: Seq<Contour>,
    q: RatVal,
    fc: int,
    best: Option<(i128, usize, usize, u32)>,
    ci: int,
    si: int,
    k: int,
) -> bool {
    match best {
        None => forall|c: int, s: int, kk: int|
            cand_ok(contours, c, s, kk) && cand_before(c, s, kk, ci, si, k) ==> !(
            #[trigger] within_tol(contours[c], s, kk, q, fc)),
        Some((bs, bc, bsi, bk)) => {
            &&& cand_ok(contours, bc as int, bsi as int, bk as int)
            &&& cand_before(bc as int, bsi as int, bk as int, ci, si, k)
            &&& bs == dist_sq(contours[bc as int], bsi as int, bk as int, q)
            &&& within_tol(contours[bc as int], bsi as int, bk as int, q, fc)
            &&& (forall|c: int, s: int, kk: int|
                cand_ok(contours, c, s, kk) && cand_before(c, s, kk, ci, si, k)
                    && #[trigger] within_tol(contours[c], s, kk, q, fc) ==> dist_sq(
                    contours[c],
                    s,
                    kk,
                    q,
                ) >= bs)
            &&& (forall|c: int, s: int, kk: int|
                cand_ok(contours, c, s, kk) && cand_before(
                    c,
                    s,
                    kk,
                    bc as int,
                    bsi as int,
                    bk as int,
                ) && #[trigger] within_tol(contours[c], s, kk, q, fc) ==> dist_sq(
                    contours[c],
                    s,
                    kk,
                    q,
                ) > bs)
        },
    }
}

/// A straight two-point contour: open, and with the segment's two handles
/// colocated, so the curve is the line from the first point to the second.
pub open spec fn straight_two_point(c: Contour) -> bool {
    &&& c.points@.len() == 2
    &&& !c.closed
    &&& c.points@[0].a is Colocated
    &&& c.points@[1].b is Colocated
}

/// On a straight two-point contour, the middle sample of the grid lands
/// exactly on the midpoint, and always within the catch radius.
pub proof fn lemma_line_midpoint_within(c: Contour, q: RatVal, fc: int)
    requires
        straight_two_point(c),
        0 < q.den,
        0 < fc,
        2 * q.xn == (c.points@[0].x + c.points@[1].x) * q.den,
        2 * q.yn == (c.points@[0].y + c.points@[1].y) * q.den,
    ensures
        cand_ok(seq![c], 0, 0, 16),
        within_tol(c, 0, 16, q, fc),
        dist_sq(c, 0, 16, q) == 0,
{
    let x0 = c.points@[0].x as int;
    let y0 = c.points@[0].y as int;
    let x1 = c.points@[1].x as int;
    let y1 = c.points@[1].y as int;
    assert(bez_num(x0, x0, x1, x1, 16) == 16384 * (x0 + x1));
    assert(bez_num(y0, y0, y1, y1, 16) == 16384 * (y0 + y1));
    assert(seg_dx(c, 0, 16, q) == 16384 * (x0 + x1) * q.den - q.xn * 32768);
    assert(seg_dx(c, 0, 16, q) == 0) by (nonlinear_arith)
        requires
            seg_dx(c, 0, 16, q) == 16384 * (x0 + x1) * q.den - q.xn * 32768,
            2 * q.xn == (x0 + x1) * q.den,
    ;
    assert(seg_dy(c, 0, 16, q) == 0) by (nonlinear_arith)
        requires
            seg_dy(c, 0, 16, q) == 16384 * (y0 + y1) * q.den - q.yn * 32768,
            2 * q.yn == (y0 + y1) * q.den,
    ;
    assert(dist_sq(c, 0, 16, q) == 0);
    assert(tol_num(q, fc) >= 0) by (nonlinear_arith)
        requires
            0 < q.den,
            0 < fc,
    ;
    assert(seq![c][0] == c);
    assert(seg_count(c) == 1);
}

/// Projecting the exact midpoint of a straight two-point contour returns
/// the midpoint itself: any projection the search contract admits for that
/// query evaluates to a point equal to the query, at zero distance (the
/// middle grid sample lands exactly there, so nothing closer exists).
pub proof fn lemma_project_line_midpoint(c: Contour, q: RatVal, fc: int, info: PenPointInfo)
    requires
        straight_two_point(c),
        0 < q.den,
        0 < fc,
        2 * q.xn == (c.points@[0].x + c.points@[1].x) * q.den,
        2 * q.yn == (c.points@[0].y + c.points@[1].y) * q.den,
        projection_ok(seq![c], q, fc, info),
    ensures
        crate::pos::pos_eq(info.point.val(), q),
        dist_sq(c, info.seg_idx as int, info.t.num as int, q) == 0,
{
    let contours: Seq<Contour> = seq![c];
    assert(contours[0] == c);
    let rc = info.contour_idx as int;
    let rs = info.seg_idx as int;
    let rk = info.t.num as int;
    assert(seg_count(c) == 1);
    assert(rc == 0 && rs == 0);
    lemma_line_midpoint_within(c, q, fc);
    let bs = dist_sq(c, rs, rk, q);
    let dx = seg_dx(c, 0, rk, q);
    let dy = seg_dy(c, 0, rk, q);
    assert(dx * dx >= 0) by (nonlinear_arith);
    assert(dy * dy >= 0) by (nonlinear_arith);
    assert(bs >= 0);
    assert(within_tol(c, 0, 16, q, fc));
    assert(bs <= dist_sq(c, 0, 16, q));
    assert(bs == 0);
    assert(dx == 0 && dy == 0) by (nonlinear_arith)
        requires
            dx * dx + dy * dy == 0,
    ;
    let x0 = c.points@[0].x as int;
    let x1 = c.points@[1].x as int;
    let y0 = c.points@[0].y as int;
    let y1 = c.points@[1].y as int;
    assert(info.point.xn == bez_num(x0, x0, x1, x1, rk));
    assert(info.point.yn == bez_num(y0, y0, y1, y1, rk));
    assert(dx == info.point.xn * q.den - q.xn * 32768);
    assert(dy == info.point.yn * q.den - q.yn * 32768);
    assert(info.point.xn * q.den == q.xn * info.point.den);
    assert(info.point.yn * q.den == q.yn * info.point.den);
}

} // verus!
