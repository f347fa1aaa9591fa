use vstd::prelude::*;
use crate::pos::RatPos;
use crate::viewport::{
    clamp_factor, doc_of_device, docpos_wf, Viewport, DEVICE_LIMIT, MAX_FACTOR_CENTI,
    MIN_FACTOR_CENTI, OFFSET_LIMIT, SCALE_FACTOR_CENTI, ZOOM_OUT_FLOOR_CENTI,
};

verus! {

/// Mouse button identifier handed in by the input source.
#[derive(Clone, Copy, PartialEq, Eq, Structural, Debug)]
pub enum MouseButton {
    Left,
    Right,
    Middle,
    Other,
}

/// Session-scoped interaction state: the viewport plus the mouse positions
/// and flags the interaction modes read and write.
pub struct State {
    pub viewport: Viewport,
    /// Mouse position in document space.
    pub mousepos: RatPos,
    /// Mouse position in device space, floored to whole pixels.
    pub absolute_mousepos: (i64, i64),
    pub mousedown: bool,
    pub show_sel_box: bool,
    /// First corner of the selection box, in document space.
    pub corner_one: Option<RatPos>,
    /// Second corner of the selection box, in document space.
    pub corner_two: Option<RatPos>,
}

impl State {
    pub open spec fn wf(self) -> bool {
        &&& self.viewport.wf()
        &&& docpos_wf(self.mousepos)
        &&& -DEVICE_LIMIT <= self.absolute_mousepos.0 <= DEVICE_LIMIT
        &&& -DEVICE_LIMIT <= self.absolute_mousepos.1 <= DEVICE_LIMIT
        &&& match self.corner_one {
            Some(c) => docpos_wf(c),
            None => true,
        }
        &&& match self.corner_two {
            Some(c) => docpos_wf(c),
            None => true,
        }
    }
}

/// Sets the viewport's pan offset and zoom factor; an omitted field keeps
/// its current value, and the factor is clamped into the accepted range
/// rather than rejected.
pub fn update_viewport(offset: Option<(i64, i64)>, scale: Option<u32>, v: &mut State)
    requires
        old(v).wf(),
        match offset {
            Some(o) => -OFFSET_LIMIT <= o.0 <= OFFSET_LIMIT && -OFFSET_LIMIT <= o.1 <= OFFSET_LIMIT,
            None => true,
        },
    ensures
        final(v).viewport.offset == (match offset {
            Some(o) => o,
            None => old(v).viewport.offset,
        }),
        final(v).viewport.factor == clamp_factor(
            match scale {
                Some(s) => s,
                None => old(v).viewport.factor,
            },
        ),
        final(v).viewport.winsize == old(v).viewport.winsize,
        final(v).mousepos == old(v).mousepos,
        final(v).absolute_mousepos == old(v).absolute_mousepos,
        final(v).mousedown == old(v).mousedown,
        final(v).show_sel_box == old(v).show_sel_box,
        final(v).corner_one == old(v).corner_one,
        final(v).corner_two == old(v).corner_two,
        final(v).wf(),
{
    let offset = match offset {
        None => v.viewport.offset,
        Some(o) => o,
    };
    let scale = match scale {
        None => v.viewport.factor,
        Some(s) => s,
    };
    let scale = if scale < MIN_FACTOR_CENTI {
        MIN_FACTOR_CENTI
    } else if scale > MAX_FACTOR_CENTI {
        MAX_FACTOR_CENTI
    } else {
        scale
    };
    v.viewport.factor = scale;
    v.viewport.offset = offset;
}

/// Records the mouse position: the floored device position as the absolute
/// position, its document-space transform as the document position. Returns
/// the absolute position when panning, the document position otherwise.
pub fn update_mousepos(position: (i64, i64), v: &mut State, pan: bool) -> (r: RatPos)
    requires
        old(v).wf(),
        -DEVICE_LIMIT <= position.0 <= DEVICE_LIMIT,
        -DEVICE_LIMIT <= position.1 <= DEVICE_LIMIT,
    ensures
        final(v).absolute_mousepos == position,
        final(v).mousepos.val() == doc_of_device(
            position,
            old(v).viewport.offset,
            old(v).viewport.factor,
        ),
        final(v).viewport == old(v).viewport,
        final(v).mousedown == old(v).mousedown,
        final(v).show_sel_box == old(v).show_sel_box,
        final(v).corner_one == old(v).corner_one,
        final(v).corner_two == old(v).corner_two,
        final(v).wf(),
        pan ==> r.xn == position.0 && r.yn == position.1 && r.den == 1,
        !pan ==> r == final(v).mousepos,
{
    let mposition = v.viewport.device_to_document(position);
    v.absolute_mousepos = position;
    v.mousepos = mposition;
    if pan {
        RatPos { xn: position.0 as i128, yn: position.1 as i128, den: 1 }
    } else {
        mposition
    }
}

/// Pan: while the mouse is down, accumulates the delta between consecutive
/// absolute device positions into the viewport offset; records the mouse
/// position either way, and reports whether anything moved.
pub fn mouse_moved_move(position: (i64, i64), v: &mut State) -> (r: bool)
    requires
        old(v).wf(),
        -DEVICE_LIMIT <= position.0 <= DEVICE_LIMIT,
        -DEVICE_LIMIT <= position.1 <= DEVICE_LIMIT,
        old(v).mousedown ==> -OFFSET_LIMIT <= old(v).viewport.offset.0 + (position.0 - old(
            v,
        ).absolute_mousepos.0) <= OFFSET_LIMIT,
        old(v).mousedown ==> -OFFSET_LIMIT <= old(v).viewport.offset.1 + (position.1 - old(
            v,
        ).absolute_mousepos.1) <= OFFSET_LIMIT,
    ensures
        r == old(v).mousedown,
        final(v).absolute_mousepos == position,
        final(v).mousepos.val() == doc_of_device(
            position,
            old(v).viewport.offset,
            old(v).viewport.factor,
        ),
        final(v).viewport.factor == old(v).viewport.factor,
        final(v).viewport.winsize == old(v).viewport.winsize,
        !old(v).mousedown ==> final(v).viewport.offset == old(v).viewport.offset,
        old(v).mousedown ==> final(v).viewport.offset.0 == old(v).viewport.offset.0 + (position.0
            - old(v).absolute_mousepos.0) && final(v).viewport.offset.1 == old(
            v,
        ).viewport.offset.1 + (position.1 - old(v).absolute_mousepos.1),
        final(v).mousedown == old(v).mousedown,
        final(v).show_sel_box == old(v).show_sel_box,
        final(v).corner_one == old(v).corner_one,
        final(v).corner_two == old(v).corner_two,
        final(v).wf(),
{
    let old_mposition = v.absolute_mousepos;
    let mut offset = v.viewport.offset;
    let mposition = update_mousepos(position, v, true);
    if !v.mousedown {
        return false;
    }
    offset.0 += mposition.xn as i64 - old_mposition.0;
    offset.1 += mposition.yn as i64 - old_mposition.1;
    v.viewport.offset = offset;
    update_viewport(None, None, v);
    true
}

/// Select: tracks the second corner of the selection box at the current
/// document position, and reports whether the box is open.
pub fn mouse_moved_select(position: (i64, i64), v: &mut State) -> (r: bool)
    requires
        old(v).wf(),
        -DEVICE_LIMIT <= position.0 <= DEVICE_LIMIT,
        -DEVICE_LIMIT <= position.1 <= DEVICE_LIMIT,
    ensures
        r == old(v).show_sel_box,
        final(v).absolute_mousepos == position,
        final(v).mousepos.val() == doc_of_device(
            position,
            old(v).viewport.offset,
            old(v).viewport.factor,
        ),
        final(v).corner_two == Some(final(v).mousepos),
        final(v).viewport == old(v).viewport,
        final(v).mousedown == old(v).mousedown,
        final(v).show_sel_box == old(v).show_sel_box,
        final(v).corner_one == old(v).corner_one,
        final(v).wf(),
{
    let mposition = update_mousepos(position, v, false);
    v.corner_two = Some(mposition);
    v.show_sel_box
}

/// Select: a bare button event does nothing.
pub fn mouse_button_select(position: (i64, i64), v: &mut State, button: MouseButton) -> (r: bool)
    ensures
        *final(v) == *old(v),
        r == false,
{
    false
}

/// Select: opens the selection box at the current document position.
pub fn mouse_pressed_select(position: (i64, i64), v: &mut State, button: MouseButton) -> (r: bool)
    requires
        old(v).wf(),
    ensures
        final(v).show_sel_box == true,
        final(v).corner_one == Some(old(v).mousepos),
        final(v).mousepos == old(v).mousepos,
        final(v).absolute_mousepos == old(v).absolute_mousepos,
        final(v).viewport == old(v).viewport,
        final(v).mousedown == old(v).mousedown,
        final(v).corner_two == old(v).corner_two,
        final(v).wf(),
        r == false,
{
    v.show_sel_box = true;
    let position = v.mousepos;
    v.mousepos = position;
    if v.show_sel_box {
        v.corner_one = Some(position);
    }
    false
}

/// Select: closes the selection box; the caller commits its geometry with
/// `build_box_selection`.
pub fn mouse_released_select(position: (i64, i64), v: &mut State, button: MouseButton) -> (r: bool)
    ensures
        final(v).show_sel_box == false,
        final(v).mousepos == old(v).mousepos,
        final(v).absolute_mousepos == old(v).absolute_mousepos,
        final(v).viewport == old(v).viewport,
        final(v).mousedown == old(v).mousedown,
        final(v).corner_one == old(v).corner_one,
        final(v).corner_two == old(v).corner_two,
        r == true,
{
    v.show_sel_box = false;
    true
}

/// Factor one zoom-in step above the current one; unbounded up to the
/// clamp applied when the viewport is updated.
pub open spec fn zoom_in_spec(fc: u32) -> u32 {
    (fc + SCALE_FACTOR_CENTI) as u32
}

/// Factor one zoom-out step below the current one; refused (returned
/// unchanged) below the zoom-out floor so the decrement path can never
/// leave a degenerate scale.
pub open spec fn zoom_out_spec(fc: u32) -> u32 {
    if fc >= ZOOM_OUT_FLOOR_CENTI {
        (fc - SCALE_FACTOR_CENTI) as u32
    } else {
        fc
    }
}

/// Zoom: the factor one step in from the current one.
pub fn zoom_in_factor(factor: u32, v: &State) -> (r: u32)
    requires
        v.viewport.factor <= MAX_FACTOR_CENTI,
    ensures
        r == zoom_in_spec(v.viewport.factor),
{
    v.viewport.factor + SCALE_FACTOR_CENTI
}

/// Zoom: the factor one step out from the current one, never below the
/// configured minimum.
pub fn zoom_out_factor(factor: u32, v: &State) -> (r: u32)
    ensures
        r == zoom_out_spec(v.viewport.factor),
        v.viewport.factor >= MIN_FACTOR_CENTI ==> r >= MIN_FACTOR_CENTI,
{
    let mut scale = v.viewport.factor;
    if scale >= ZOOM_OUT_FLOOR_CENTI {
        scale -= SCALE_FACTOR_CENTI;
    }
    scale
}

/// Zooming in one step and immediately back out returns exactly to the
/// starting factor, for every factor at or above the configured minimum.
pub proof fn lemma_zoom_round_trip(fc: u32)
    requires
        MIN_FACTOR_CENTI <= fc <= MAX_FACTOR_CENTI,
    ensures
        zoom_out_spec(zoom_in_spec(fc)) == fc,
{
}

/// Zoom: records the mouse position; nothing else happens on motion.
pub fn mouse_moved_zoom(position: (i64, i64), v: &mut State) -> (r: bool)
    requires
        old(v).wf(),
        -DEVICE_LIMIT <= position.0 <= DEVICE_LIMIT,
        -DEVICE_LIMIT <= position.1 <= DEVICE_LIMIT,
    ensures
        r == false,
        final(v).absolute_mousepos == position,
        final(v).mousepos.val() == doc_of_device(
            position,
            old(v).viewport.offset,
            old(v).viewport.factor,
        ),
        final(v).viewport == old(v).viewport,
        final(v).mousedown == old(v).mousedown,
        final(v).show_sel_box == old(v).show_sel_box,
        final(v).corner_one == old(v).corner_one,
        final(v).corner_two == old(v).corner_two,
        final(v).wf(),
{
    let mposition = update_mousepos(position, v, false);
    false
}

/// Half of an integer, rounded toward zero.
pub open spec fn half_toward_zero(x: int) -> int {
    if x >= 0 {
        x / 2
    } else {
        -((-x) / 2)
    }
}

/// Zoom: on release, steps the factor in (left button) or out (right
/// button), then recenters the offset at negative half the current device
/// position so the view stays near the cursor; this centers rather than
/// anchoring exactly on the cursor, a deliberate simplification.
pub fn mouse_released_zoom(position: (i64, i64), v: &mut State, button: MouseButton) -> (r: bool)
    requires
        old(v).wf(),
    ensures
        r == true,
        final(v).viewport.factor == clamp_factor(
            match button {
                MouseButton::Left => zoom_in_spec(old(v).viewport.factor),
                MouseButton::Right => zoom_out_spec(old(v).viewport.factor),
                _ => old(v).viewport.factor,
            },
        ),
        final(v).viewport.offset.0 == -half_toward_zero(old(v).absolute_mousepos.0 as int),
        final(v).viewport.offset.1 == -half_toward_zero(old(v).absolute_mousepos.1 as int),
        final(v).viewport.winsize == old(v).viewport.winsize,
        final(v).mousepos == old(v).mousepos,
        final(v).absolute_mousepos == old(v).absolute_mousepos,
        final(v).mousedown == old(v).mousedown,
        final(v).show_sel_box == old(v).show_sel_box,
        final(v).corner_one == old(v).corner_one,
        final(v).corner_two == old(v).corner_two,
        final(v).wf(),
{
    let mut scale = v.viewport.factor;
    match button {
        MouseButton::Left => {
            scale = zoom_in_factor(scale, v);
        },
        MouseButton::Right => {
            scale = zoom_out_factor(scale, v);
        },
        _ => {},
    }
    let ax = v.absolute_mousepos.0;
    let ay = v.absolute_mousepos.1;
    let hx = if ax >= 0 {
        ax / 2
    } else {
        -((-ax) / 2)
    };
    let hy = if ay >= 0 {
        ay / 2
    } else {
        -((-ay) / 2)
    };
    let offset = (-hx, -hy);
    update_viewport(Some(offset), Some(scale), v);
    true
}

} // verus!
