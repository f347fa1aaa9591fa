use vstd::prelude::*;

verus! {

/// Largest magnitude a rational numerator may take.
pub const NUM_LIMIT: i128 = 1_000_000_000_000_000_000;

/// Largest denominator a rational may take.
pub const DEN_LIMIT: i128 = 10_000_000_000;

/// A scalar rational value `num / den`; well-formed values keep `den > 0`.
#[derive(Clone, Copy, PartialEq, Eq, Structural, Debug)]
pub struct Frac {
    pub num: i128,
    pub den: i128,
}

/// A planar position `(xn / den, yn / den)` with one shared denominator.
///
/// Document-space positions are rationals because they arise from dividing
/// integer device pixels by the zoom factor; keeping them exact is what lets
/// the transforms and queries have exact contracts.
#[derive(Clone, Copy, PartialEq, Eq, Structural, Debug)]
pub struct RatPos {
    pub xn: i128,
    pub yn: i128,
    pub den: i128,
}

/// Mathematical value of a position: an unreduced rational per coordinate.
pub ghost struct RatVal {
    pub xn: int,
    pub yn: int,
    pub den: int,
}

impl RatPos {
    /// The mathematical value this position holds.
    pub open spec fn val(self) -> RatVal {
        (RatVal { xn: self.xn as int, yn: self.yn as int, den: self.den as int })
    }
}

pub open spec fn frac_wf(f: Frac) -> bool {
    &&& 0 < f.den <= DEN_LIMIT
    &&& -NUM_LIMIT <= f.num <= NUM_LIMIT
}

pub open spec fn pos_wf(p: RatPos) -> bool {
    &&& 0 < p.den <= DEN_LIMIT
    &&& -NUM_LIMIT <= p.xn <= NUM_LIMIT
    &&& -NUM_LIMIT <= p.yn <= NUM_LIMIT
}

/// Value equality of two scalar rationals, by cross-multiplication.
pub open spec fn frac_eq(a: Frac, b: Frac) -> bool {
    a.num * b.den == b.num * a.den
}

/// Value equality of two positions, by cross-multiplication per coordinate.
pub open spec fn pos_eq(a: RatVal, b: RatVal) -> bool {
    &&& a.xn * b.den == b.xn * a.den
    &&& a.yn * b.den == b.yn * a.den
}

/// `|x| <= bx` and `|y| <= by` bound the product `x * y` by `bx * by`.
pub proof fn lemma_abs_mul(x: int, y: int, bx: int, by: int)
    by (nonlinear_arith)
    requires
        -bx <= x <= bx,
        -by <= y <= by,
        0 <= bx,
        0 <= by,
    ensures
        -(bx * by) <= x * y <= bx * by,
{
}

/// The product of two positive integers is positive.
pub proof fn lemma_mul_pos(x: int, y: int)
    by (nonlinear_arith)
    requires
        0 < x,
        0 < y,
    ensures
        0 < x * y,
{
}

} // verus!
