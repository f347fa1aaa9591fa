use vstd::prelude::*;
use crate::geometry::{point_bounded, Contour, Handle, Point, GEOM_LIMIT};

verus! {

/// Whether a point is the first or the last of its contour.
#[derive(Clone, Copy, PartialEq, Eq, Structural, Debug)]
pub enum SelectPointInfo {
    Start,
    End,
}

/// The editing session: the outline being edited, the primary selection made
/// by a single click, and the secondary pairs collected by box selection.
pub struct Editor {
    pub outline: Vec<Contour>,
    pub contour_idx: Option<usize>,
    pub point_idx: Option<usize>,
    pub selected: Vec<(usize, usize)>,
}

impl Editor {
    /// The primary pair is set and cleared as a whole.
    pub open spec fn wf(self) -> bool {
        self.contour_idx is Some <==> self.point_idx is Some
    }

    /// Pair selected by a single click, if any.
    pub open spec fn primary(self) -> Option<(usize, usize)> {
        match (self.contour_idx, self.point_idx) {
            (Some(ci), Some(pi)) => Some((ci, pi)),
            _ => None,
        }
    }

    /// Canonical current selection: the primary pair when present, else the
    /// first box-selected pair in insertion order, else none.
    pub open spec fn current(self) -> Option<(usize, usize)> {
        match (self.contour_idx, self.point_idx) {
            (Some(ci), Some(pi)) => Some((ci, pi)),
            _ => if self.selected@.len() > 0 {
                Some(self.selected@[0])
            } else {
                None
            },
        }
    }

    /// Resolves the canonical current selection.
    pub fn selected(&self) -> (r: Option<(usize, usize)>)
        ensures
            r == self.current(),
    {
        if let (Some(ci), Some(pi)) = (self.contour_idx, self.point_idx) {
            Some((ci, pi))
        } else if self.selected.len() > 0 {
            Some(self.selected[0])
        } else {
            None
        }
    }
}

/// Whether a pair occurs in a selection list.
pub fn pair_in(v: &Vec<(usize, usize)>, pr: (usize, usize)) -> (r: bool)
    ensures
        r == v@.contains(pr),
{
    let mut i: usize = 0;
    while i < v.len()
        invariant
            i <= v@.len(),
            forall|j: int| 0 <= j < i ==> v@[j] != pr,
        decreases v@.len() - i,
    {
        let q = v[i];
        if q.0 == pr.0 && q.1 == pr.1 {
            assert(v@.contains(pr)) by {
                assert(v@[i as int] == pr);
            }

            return true;
        }
        i += 1;
    }
    false
}

/// Whether the pair is selected: equal to the primary pair, or a member of
/// the box-selected set.
pub fn is_point_selected(v: &Editor, contour_idx: usize, point_idx: usize) -> (r: bool)
    requires
        v.wf(),
    ensures
        r == (v.primary() == Some((contour_idx, point_idx)) || v.selected@.contains(
            (contour_idx, point_idx),
        )),
{
    if let Some(editor_pidx) = v.point_idx {
        let editor_cidx = v.contour_idx.unwrap();
        if contour_idx == editor_cidx && point_idx == editor_pidx {
            return true;
        }
    }
    if pair_in(&v.selected, (contour_idx, point_idx)) {
        return true;
    }
    false
}

/// Whether the addressed point is its contour's start or end.
///
/// Index validity is owed by the caller (the outline source); an invalid pair
/// is a programming error there, not a state this query tolerates.
pub fn get_contour_start_or_end(v: &Editor, contour_idx: usize, point_idx: usize) -> (r: Option<
    SelectPointInfo,
>)
    requires
        contour_idx < v.outline@.len(),
        v.outline@[contour_idx as int].points@.len() >= 1,
    ensures
        r == (if point_idx == 0 {
            Some(SelectPointInfo::Start)
        } else if point_idx == v.outline@[contour_idx as int].points@.len() - 1 {
            Some(SelectPointInfo::End)
        } else {
            None::<SelectPointInfo>
        }),
{
    let contour_len = v.outline[contour_idx].points.len() - 1;
    match point_idx {
        0 => Some(SelectPointInfo::Start),
        idx => if idx == contour_len {
            Some(SelectPointInfo::End)
        } else {
            None
        },
    }
}

/// The new point keeps its handle kinds; a free handle moves by the same
/// delta as the point, so its offset from the point is preserved.
pub open spec fn moved_point_ok(oldp: Point, newp: Point, x: i64, y: i64) -> bool {
    let dx = oldp.x - x;
    let dy = oldp.y - y;
    &&& newp.x == x
    &&& newp.y == y
    &&& match (oldp.a, newp.a) {
        (Handle::At(ohx, ohy), Handle::At(nhx, nhy)) => nhx == ohx - dx && nhy == ohy - dy,
        (Handle::Colocated, Handle::Colocated) => true,
        _ => false,
    }
    &&& match (oldp.b, newp.b) {
        (Handle::At(ohx, ohy), Handle::At(nhx, nhy)) => nhx == ohx - dx && nhy == ohy - dy,
        (Handle::Colocated, Handle::Colocated) => true,
        _ => false,
    }
}

/// Moves a point to `(x, y)` and carries its free handles along by the same
/// delta; everything else of the outline is untouched.
pub fn move_point(outline: &mut Vec<Contour>, ci: usize, pi: usize, x: i64, y: i64)
    requires
        ci < old(outline)@.len(),
        pi < old(outline)@[ci as int].points@.len(),
        point_bounded(old(outline)@[ci as int].points@[pi as int], GEOM_LIMIT as int),
        -GEOM_LIMIT <= x <= GEOM_LIMIT,
        -GEOM_LIMIT <= y <= GEOM_LIMIT,
    ensures
        final(outline)@.len() == old(outline)@.len(),
        forall|c: int|
            0 <= c < old(outline)@.len() && c != ci ==> final(outline)@[c] == old(outline)@[c],
        final(outline)@[ci as int].closed == old(outline)@[ci as int].closed,
        final(outline)@[ci as int].points@.len() == old(outline)@[ci as int].points@.len(),
        forall|p: int|
            0 <= p < old(outline)@[ci as int].points@.len() && p != pi
                ==> final(outline)@[ci as int].points@[p] == old(outline)@[ci as int].points@[p],
        moved_point_ok(
            old(outline)@[ci as int].points@[pi as int],
            final(outline)@[ci as int].points@[pi as int],
            x,
            y,
        ),
{
    let ghost orig = outline@;
    let oldp = outline[ci].points[pi];
    let dx = oldp.x - x;
    let dy = oldp.y - y;
    let new_a = match oldp.a {
        Handle::At(hx, hy) => Handle::At(hx - dx, hy - dy),
        Handle::Colocated => Handle::Colocated,
    };
    let new_b = match oldp.b {
        Handle::At(hx, hy) => Handle::At(hx - dx, hy - dy),
        Handle::Colocated => Handle::Colocated,
    };
    let newp = Point { x, y, a: new_a, b: new_b };
    let plen = outline[ci].points.len();
    let mut pts: Vec<Point> = Vec::new();
    let mut j: usize = 0;
    while j < plen
        invariant
            outline@ == orig,
            ci < orig.len(),
            pi < orig[ci as int].points@.len(),
            plen == orig[ci as int].points@.len(),
            j <= plen,
            pts@.len() == j,
            forall|q: int|
                0 <= q < j ==> pts@[q] == (if q == pi {
                    newp
                } else {
                    orig[ci as int].points@[q]
                }),
        decreases plen - j,
    {
        if j == pi {
            pts.push(newp);
        } else {
            pts.push(outline[ci].points[j]);
        }
        j += 1;
    }
    let closed = outline[ci].closed;
    outline.set(ci, Contour { points: pts, closed });
}

} // verus!
