use vstd::prelude::*;
use crate::editor::pair_in;
use crate::geometry::{outline_bounded, Contour, GEOM_LIMIT};
use crate::pos::{lemma_abs_mul, pos_wf, RatPos, RatVal, DEN_LIMIT};

verus! {

/// A selection rectangle, given by the two dragged corners in document
/// space, in either order; containment normalizes them.
pub struct Rect {
    pub c1: RatPos,
    pub c2: RatPos,
}

/// `n / d <= x` for `d > 0`.
pub open spec fn frac_le_int(n: int, d: int, x: int) -> bool {
    n <= x * d
}

/// `x <= n / d` for `d > 0`.
pub open spec fn int_le_frac(x: int, n: int, d: int) -> bool {
    x * d <= n
}

/// `min(a, b) <= x <= max(a, b)` for the rationals `a = an/ad`, `b = bn/bd`:
/// being at least the minimum is being at least one of the two, and being at
/// most the maximum is being at most one of the two.
pub open spec fn coord_in_span(x: int, an: int, ad: int, bn: int, bd: int) -> bool {
    &&& (frac_le_int(an, ad, x) || frac_le_int(bn, bd, x))
    &&& (int_le_frac(x, an, ad) || int_le_frac(x, bn, bd))
}

/// Whether `(x, y)` lies in the rectangle spanned by the two corners, in
/// either order; both edges are inclusive.
pub open spec fn rect_contains(c1: RatVal, c2: RatVal, x: int, y: int) -> bool {
    &&& coord_in_span(x, c1.xn, c1.den, c2.xn, c2.den)
    &&& coord_in_span(y, c1.yn, c1.den, c2.yn, c2.den)
}

/// Whether the pair addresses a point of the outline whose position lies in
/// the rectangle.
pub open spec fn sel_hit(contours: Seq<Contour>, c1: RatVal, c2: RatVal, pr: (usize, usize)) -> bool {
    &&& pr.0 < contours.len()
    &&& pr.1 < contours[pr.0 as int].points@.len()
    &&& rect_contains(
        c1,
        c2,
        contours[pr.0 as int].points@[pr.1 as int].x as int,
        contours[pr.0 as int].points@[pr.1 as int].y as int,
    )
}

/// Decides `rect_contains` with exact integer arithmetic.
pub fn point_in_rect(x: i64, y: i64, rect: &Rect) -> (r: bool)
    requires
        -GEOM_LIMIT <= x <= GEOM_LIMIT,
        -GEOM_LIMIT <= y <= GEOM_LIMIT,
        pos_wf(rect.c1),
        pos_wf(rect.c2),
    ensures
        r == rect_contains(rect.c1.val(), rect.c2.val(), x as int, y as int),
{
    proof {
        lemma_abs_mul(x as int, rect.c1.den as int, GEOM_LIMIT as int, DEN_LIMIT as int);
        lemma_abs_mul(x as int, rect.c2.den as int, GEOM_LIMIT as int, DEN_LIMIT as int);
        lemma_abs_mul(y as int, rect.c1.den as int, GEOM_LIMIT as int, DEN_LIMIT as int);
        lemma_abs_mul(y as int, rect.c2.den as int, GEOM_LIMIT as int, DEN_LIMIT as int);
    }
    let xi = x as i128;
    let yi = y as i128;
    let x1 = xi * rect.c1.den;
    let x2 = xi * rect.c2.den;
    let y1 = yi * rect.c1.den;
    let y2 = yi * rect.c2.den;
    (rect.c1.xn <= x1 || rect.c2.xn <= x2) && (x1 <= rect.c1.xn || x2 <= rect.c2.xn) && (rect.c1.yn
        <= y1 || rect.c2.yn <= y2) && (y1 <= rect.c1.yn || y2 <= rect.c2.yn)
}

/// A sequence extended by one element holds exactly its old elements and the
/// new one.
proof fn lemma_push_contains<T>(s: Seq<T>, v: T, x: T)
    ensures
        s.push(v).contains(x) <==> (s.contains(x) || x == v),
{
    if s.contains(x) {
        let i = choose|i: int| 0 <= i < s.len() && s[i] == x;
        assert(s.push(v)[i] == x);
    }
    if x == v {
        assert(s.push(v)[s.len() as int] == x);
    }
    if s.push(v).contains(x) && x != v {
        let i = choose|i: int| 0 <= i < s.push(v).len() && s.push(v)[i] == x;
        assert(i < s.len());
        assert(s[i] == x);
    }
}

/// Scan order position used by the selection loop's bookkeeping.
pub open spec fn scanned_before(pr: (usize, usize), ci: int, pj: int) -> bool {
    pr.0 < ci || (pr.0 == ci && pr.1 < pj)
}

/// Adds to the selected set every point of the outline whose position lies
/// in the rectangle; the corners may come in either drag order, and points
/// already selected stay selected whether or not the rectangle holds them.
/// Handles are not tested for box selection.
pub fn build_box_selection(
    selected: &Vec<(usize, usize)>,
    rect: &Rect,
    outline: &Vec<Contour>,
) -> (result: Vec<(usize, usize)>)
    requires
        outline_bounded(outline@, GEOM_LIMIT as int),
        pos_wf(rect.c1),
        pos_wf(rect.c2),
    ensures
        forall|pr: (usize, usize)|
            #[trigger] result@.contains(pr) <==> (selected@.contains(pr) || sel_hit(
                outline@,
                rect.c1.val(),
                rect.c2.val(),
                pr,
            )),
        forall|pr: (usize, usize)| selected@.contains(pr) ==> result@.contains(pr),
{
    let ghost c1 = rect.c1.val();
    let ghost c2 = rect.c2.val();
    let mut result: Vec<(usize, usize)> = Vec::new();
    let mut i: usize = 0;
    while i < selected.len()
        invariant
            i <= selected@.len(),
            result@ == selected@.subrange(0, i as int),
        decreases selected@.len() - i,
    {
        result.push(selected[i]);
        assert(result@ =~= selected@.subrange(0, i + 1 as int));
        i += 1;
    }
    assert(result@ =~= selected@);
    let n = outline.len();
    let mut ci: usize = 0;
    while ci < n
        invariant
            n == outline@.len(),
            ci <= n,
            outline_bounded(outline@, GEOM_LIMIT as int),
            pos_wf(rect.c1),
            pos_wf(rect.c2),
            c1 == rect.c1.val(),
            c2 == rect.c2.val(),
            forall|pr: (usize, usize)|
                #[trigger] result@.contains(pr) <==> (selected@.contains(pr) || (sel_hit(
                    outline@,
                    c1,
                    c2,
                    pr,
                ) && scanned_before(pr, ci as int, 0))),
        decreases n - ci,
    {
        let points_len = outline[ci].points.len();
        let mut pj: usize = 0;
        while pj < points_len
            invariant
                n == outline@.len(),
                ci < n,
                points_len == outline@[ci as int].points@.len(),
                pj <= points_len,
                outline_bounded(outline@, GEOM_LIMIT as int),
                pos_wf(rect.c1),
                pos_wf(rect.c2),
                c1 == rect.c1.val(),
                c2 == rect.c2.val(),
                forall|pr: (usize, usize)|
                    #[trigger] result@.contains(pr) <==> (selected@.contains(pr) || (sel_hit(
                        outline@,
                        c1,
                        c2,
                        pr,
                    ) && scanned_before(pr, ci as int, pj as int))),
            decreases points_len - pj,
        {
            let p = outline[ci].points[pj];
            let inb = point_in_rect(p.x, p.y, rect);
            if inb && !pair_in(&result, (ci, pj)) {
                let ghost prev = result@;
                result.push((ci, pj));
                assert forall|pr: (usize, usize)|
                    #[trigger] result@.contains(pr) <==> (selected@.contains(pr) || (sel_hit(
                        outline@,
                        c1,
                        c2,
                        pr,
                    ) && scanned_before(pr, ci as int, pj + 1 as int))) by {
                    lemma_push_contains(prev, (ci, pj), pr);
                }
            } else {
                assert forall|pr: (usize, usize)|
                    #[trigger] result@.contains(pr) <==> (selected@.contains(pr) || (sel_hit(
                        outline@,
                        c1,
                        c2,
                        pr,
                    ) && scanned_before(pr, ci as int, pj + 1 as int))) by {}
            }
            pj += 1;
        }
        assert forall|pr: (usize, usize)|
            #[trigger] result@.contains(pr) <==> (selected@.contains(pr) || (sel_hit(
                outline@,
                c1,
                c2,
                pr,
            ) && scanned_before(pr, ci + 1 as int, 0))) by {}
        ci += 1;
    }
    result
}

/// Box selection does not depend on which corner of the rectangle comes
/// first: the two corner orders span the same rectangle, so together with
/// `build_box_selection`'s contract, the two calls select the same pairs.
pub proof fn lemma_box_corner_order(
    contours: Seq<Contour>,
    c1: RatVal,
    c2: RatVal,
    pr: (usize, usize),
)
    ensures
        sel_hit(contours, c1, c2, pr) == sel_hit(contours, c2, c1, pr),
{
}

} // verus!
