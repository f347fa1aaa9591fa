use vstd::prelude::*;
use crate::editor::Editor;
use crate::events::State;
use crate::pos::{lemma_abs_mul, Frac, RatPos};
use crate::tool::{EditorEvent, MouseEventType, MouseInfo, Tool};
use crate::viewport::{DEVICE_LIMIT, MAX_FACTOR_CENTI};

verus! {

/// Data of a live measurement, for the renderer to draw a guide line and a
/// distance label: everything is exact; the renderer derives the angle as
/// `atan2` of the delta and the distance as the square root of
/// `distance_squared`, both in floating point outside this core.
pub struct MeasureInfo {
    /// Midpoint between the anchor and the current device position, exact in
    /// half pixels.
    pub midpoint: RatPos,
    /// Device-space delta from the anchor to the current position; its
    /// `atan2` is the guide's angle.
    pub delta: (i64, i64),
    /// Squared distance in document units: the squared device distance
    /// divided by the squared zoom factor.
    pub distance_squared: Frac,
}

/// The measure mode: while the mouse is held down from an anchor position, a
/// measurement from that anchor to the current position is available.
#[derive(Clone)]
pub struct Measure {
    pub measure_from: Option<(i64, i64)>,
}

impl Measure {
    /// A measure mode with no anchor.
    pub fn new() -> (r: Self)
        ensures
            r.measure_from is None,
    {
        Self { measure_from: None }
    }

    /// Anchors the measurement at the pressed device position.
    pub fn mouse_pressed(&mut self, v: &Editor, meta: MouseInfo)
        ensures
            final(self).measure_from == Some(meta.position),
    {
        self.measure_from = Some(meta.position);
    }

    /// Clears the anchor; no measurement is available afterwards.
    pub fn mouse_released(&mut self, v: &Editor, meta: MouseInfo)
        ensures
            final(self).measure_from is None,
    {
        self.measure_from = None;
    }

    /// The measurement from the anchor to the current device position, if an
    /// anchor exists: exact midpoint, direction delta, and squared distance
    /// in document units.
    pub fn current_measurement(&self, i: &State) -> (r: Option<MeasureInfo>)
        requires
            i.wf(),
            match self.measure_from {
                Some(a) => -DEVICE_LIMIT <= a.0 <= DEVICE_LIMIT && -DEVICE_LIMIT <= a.1
                    <= DEVICE_LIMIT,
                None => true,
            },
        ensures
            r is Some <==> self.measure_from is Some,
            match (self.measure_from, r) {
                (Some(a), Some(m)) => {
                    &&& m.delta.0 == i.absolute_mousepos.0 - a.0
                    &&& m.delta.1 == i.absolute_mousepos.1 - a.1
                    &&& m.midpoint.xn == a.0 + i.absolute_mousepos.0
                    &&& m.midpoint.yn == a.1 + i.absolute_mousepos.1
                    &&& m.midpoint.den == 2
                    &&& m.distance_squared.num == (m.delta.0 * m.delta.0 + m.delta.1 * m.delta.1)
                        * 10_000
                    &&& m.distance_squared.den == i.viewport.factor * i.viewport.factor
                },
                (None, None) => true,
                _ => false,
            },
    {
        match self.measure_from {
            None => None,
            Some(a) => {
                let c = i.absolute_mousepos;
                let dx = c.0 - a.0;
                let dy = c.1 - a.1;
                proof {
                    lemma_abs_mul(dx as int, dx as int, 2 * DEVICE_LIMIT as int, 2 * DEVICE_LIMIT as int);
                    lemma_abs_mul(dy as int, dy as int, 2 * DEVICE_LIMIT as int, 2 * DEVICE_LIMIT as int);
                    lemma_abs_mul(
                        i.viewport.factor as int,
                        i.viewport.factor as int,
                        MAX_FACTOR_CENTI as int,
                        MAX_FACTOR_CENTI as int,
                    );
                }
                let dxi = dx as i128;
                let dyi = dy as i128;
                let fci = i.viewport.factor as i128;
                Some(
                    MeasureInfo {
                        midpoint: RatPos {
                            xn: a.0 as i128 + c.0 as i128,
                            yn: a.1 as i128 + c.1 as i128,
                            den: 2,
                        },
                        delta: (dx, dy),
                        distance_squared: Frac {
                            num: (dxi * dxi + dyi * dyi) * 10_000,
                            den: fci * fci,
                        },
                    },
                )
            },
        }
    }
}

impl Tool for Measure {
    /// Pressing anchors a measurement at the event's position, releasing
    /// clears it; every other event is a no-op, and the editor and session
    /// state are never touched.
    fn handle_event(&mut self, v: &mut Editor, i: &mut State, event: EditorEvent)
        ensures
            final(self).measure_from == (match event {
                EditorEvent::MouseEvent { event_type: MouseEventType::Pressed, meta } => Some(
                    meta.position,
                ),
                EditorEvent::MouseEvent { event_type: MouseEventType::Released, meta } => None::<
                    (i64, i64),
                >,
                _ => old(self).measure_from,
            }),
            *final(v) == *old(v),
            *final(i) == *old(i),
    {
        match event {
            EditorEvent::MouseEvent { event_type, meta } => {
                match event_type {
                    MouseEventType::Pressed => self.mouse_pressed(v, meta),
                    MouseEventType::Released => self.mouse_released(v, meta),
                    _ => {},
                }
            },
            EditorEvent::Draw => {},
        }
    }
}

} // verus!
