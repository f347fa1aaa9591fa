use vstd::prelude::*;
use crate::pos::{lemma_abs_mul, lemma_mul_pos, pos_eq, pos_wf, RatPos, RatVal};

verus! {

/// Zoom factors are integers in hundredths of the display scale, so a factor
/// of `100` means one document unit per device pixel.
pub const MIN_FACTOR_CENTI: u32 = 5;

/// Upper clamp of the factor, a deliberate machine bound: the zoom range is
/// otherwise unbounded above, but every geometric query multiplies the
/// factor into `i128` products, and this cap (100 times the natural scale)
/// keeps all of them exact.
pub const MAX_FACTOR_CENTI: u32 = 10_000;

/// Step added or removed by one zoom command.
pub const SCALE_FACTOR_CENTI: u32 = 5;

/// Zooming out is refused below this factor.
pub const ZOOM_OUT_FLOOR_CENTI: u32 = 10;

/// Largest magnitude of a pan offset, in device pixels.
pub const OFFSET_LIMIT: i64 = 100_000_000;

/// Largest magnitude of a device position handed in by the input source.
pub const DEVICE_LIMIT: i64 = 1_000_000;

/// Largest numerator magnitude of a document-space mouse position.
pub const DOC_NUM_LIMIT: i128 = 100_000_000_000;

/// A document-space position as the transform produces it from device
/// pixels: its denominator is a zoom factor and its numerators stay small.
pub open spec fn docpos_wf(p: RatPos) -> bool {
    &&& 0 < p.den <= MAX_FACTOR_CENTI
    &&& -DOC_NUM_LIMIT <= p.xn <= DOC_NUM_LIMIT
    &&& -DOC_NUM_LIMIT <= p.yn <= DOC_NUM_LIMIT
}

/// Pan offset, zoom factor and window size of the editing session.
#[derive(Clone, Copy, Debug)]
pub struct Viewport {
    /// Window size in device pixels.
    pub winsize: (u32, u32),
    /// Pan offset in device pixels.
    pub offset: (i64, i64),
    /// Zoom factor in hundredths.
    pub factor: u32,
}

impl Viewport {
    pub open spec fn wf(self) -> bool {
        &&& MIN_FACTOR_CENTI <= self.factor <= MAX_FACTOR_CENTI
        &&& -OFFSET_LIMIT <= self.offset.0 <= OFFSET_LIMIT
        &&& -OFFSET_LIMIT <= self.offset.1 <= OFFSET_LIMIT
    }
}

/// A factor wished for by a caller, clamped into the accepted range.
pub open spec fn clamp_factor(factor: u32) -> u32 {
    if factor < MIN_FACTOR_CENTI {
        MIN_FACTOR_CENTI
    } else if factor > MAX_FACTOR_CENTI {
        MAX_FACTOR_CENTI
    } else {
        factor
    }
}

/// Document position of a device position: `(device - offset) / (factor/100)`,
/// kept exact by multiplying the numerators by `100` and the denominator by
/// the factor.
pub open spec fn doc_of(p: RatVal, offset: (i64, i64), factor: u32) -> RatVal {
    (RatVal {
        xn: (p.xn - p.den * offset.0) * 100,
        yn: (p.yn - p.den * offset.1) * 100,
        den: p.den * factor,
    })
}

/// Device position of a document position: `document * (factor/100) + offset`.
pub open spec fn dev_of(p: RatVal, offset: (i64, i64), factor: u32) -> RatVal {
    (RatVal {
        xn: p.xn * factor + p.den * 100 * offset.0,
        yn: p.yn * factor + p.den * 100 * offset.1,
        den: p.den * 100,
    })
}

/// Document position of an integer device position, the common case for
/// mouse input (positions are floored to whole pixels before use).
pub open spec fn doc_of_device(p: (i64, i64), offset: (i64, i64), factor: u32) -> RatVal {
    (RatVal {
        xn: (p.0 - offset.0) * 100,
        yn: (p.1 - offset.1) * 100,
        den: factor as int,
    })
}

impl Viewport {
    /// Converts a device-space position to document space, exactly.
    pub fn to_document(&self, p: &RatPos) -> (r: RatPos)
        requires
            self.wf(),
            0 < p.den <= 1_000_000,
            -1_000_000_000_000_000 <= p.xn <= 1_000_000_000_000_000,
            -1_000_000_000_000_000 <= p.yn <= 1_000_000_000_000_000,
        ensures
            r.val() == doc_of(p.val(), self.offset, self.factor),
            pos_wf(r),
    {
        proof {
            lemma_abs_mul(p.den as int, self.offset.0 as int, 1_000_000, OFFSET_LIMIT as int);
            lemma_abs_mul(p.den as int, self.offset.1 as int, 1_000_000, OFFSET_LIMIT as int);
            lemma_abs_mul(p.den as int, self.factor as int, 1_000_000, MAX_FACTOR_CENTI as int);
            lemma_mul_pos(p.den as int, self.factor as int);
        }
        RatPos {
            xn: (p.xn - p.den * (self.offset.0 as i128)) * 100,
            yn: (p.yn - p.den * (self.offset.1 as i128)) * 100,
            den: p.den * (self.factor as i128),
        }
    }

    /// Converts a document-space position to device space, exactly.
    pub fn to_device(&self, p: &RatPos) -> (r: RatPos)
        requires
            self.wf(),
            0 < p.den <= 10_000_000,
            -10_000_000_000_000 <= p.xn <= 10_000_000_000_000,
            -10_000_000_000_000 <= p.yn <= 10_000_000_000_000,
        ensures
            r.val() == dev_of(p.val(), self.offset, self.factor),
            pos_wf(r),
    {
        proof {
            lemma_abs_mul(p.xn as int, self.factor as int, 10_000_000_000_000, MAX_FACTOR_CENTI as int);
            lemma_abs_mul(p.yn as int, self.factor as int, 10_000_000_000_000, MAX_FACTOR_CENTI as int);
            lemma_abs_mul(p.den as int * 100, self.offset.0 as int, 1_000_000_000, OFFSET_LIMIT as int);
            lemma_abs_mul(p.den as int * 100, self.offset.1 as int, 1_000_000_000, OFFSET_LIMIT as int);
        }
        RatPos {
            xn: p.xn * (self.factor as i128) + p.den * 100 * (self.offset.0 as i128),
            yn: p.yn * (self.factor as i128) + p.den * 100 * (self.offset.1 as i128),
            den: p.den * 100,
        }
    }

    /// Converts an integer device position to document space, exactly.
    pub fn device_to_document(&self, p: (i64, i64)) -> (r: RatPos)
        requires
            self.wf(),
            -DEVICE_LIMIT <= p.0 <= DEVICE_LIMIT,
            -DEVICE_LIMIT <= p.1 <= DEVICE_LIMIT,
        ensures
            r.val() == doc_of_device(p, self.offset, self.factor),
            pos_wf(r),
            docpos_wf(r),
    {
        RatPos {
            xn: (p.0 - self.offset.0) as i128 * 100,
            yn: (p.1 - self.offset.1) as i128 * 100,
            den: self.factor as i128,
        }
    }
}

/// Converting a device position to document space and back yields the same
/// position, exactly, for every offset and every factor in range.
pub proof fn lemma_device_round_trip(p: RatVal, offset: (i64, i64), factor: u32)
    requires
        0 < p.den,
        0 < factor,
    ensures
        pos_eq(dev_of(doc_of(p, offset, factor), offset, factor), p),
{
    let d = doc_of(p, offset, factor);
    let r = dev_of(d, offset, factor);
    assert(r.xn == ((p.xn - p.den * offset.0) * 100) * factor + (p.den * factor) * 100 * offset.0);
    assert(r.xn * p.den == p.xn * r.den) by (nonlinear_arith)
        requires
            r.xn == ((p.xn - p.den * offset.0) * 100) * factor + (p.den * factor) * 100 * offset.0,
            r.den == (p.den * factor) * 100,
    ;
    assert(r.yn * p.den == p.yn * r.den) by (nonlinear_arith)
        requires
            r.yn == ((p.yn - p.den * offset.1) * 100) * factor + (p.den * factor) * 100 * offset.1,
            r.den == (p.den * factor) * 100,
    ;
}

/// Converting a document position to device space and back yields the same
/// position, exactly, for every offset and every factor in range.
pub proof fn lemma_document_round_trip(p: RatVal, offset: (i64, i64), factor: u32)
    requires
        0 < p.den,
        0 < factor,
    ensures
        pos_eq(doc_of(dev_of(p, offset, factor), offset, factor), p),
{
    let d = dev_of(p, offset, factor);
    let r = doc_of(d, offset, factor);
    assert(r.xn * p.den == p.xn * r.den) by (nonlinear_arith)
        requires
            d.xn == p.xn * factor + p.den * 100 * offset.0,
            d.den == p.den * 100,
            r.xn == (d.xn - d.den * offset.0) * 100,
            r.den == d.den * factor,
    ;
    assert(r.yn * p.den == p.yn * r.den) by (nonlinear_arith)
        requires
            d.yn == p.yn * factor + p.den * 100 * offset.1,
            d.den == p.den * 100,
            r.yn == (d.yn - d.den * offset.1) * 100,
            r.den == d.den * factor,
    ;
}

} // verus!
