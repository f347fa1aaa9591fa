use vstd::prelude::*;
use crate::editor::Editor;
use crate::events::{MouseButton, State};

verus! {

/// What a mouse event did.
#[derive(Clone, Copy, PartialEq, Eq, Structural, Debug)]
pub enum MouseEventType {
    Pressed,
    Released,
    Moved,
}

/// A mouse event: the device position it happened at and its button.
#[derive(Clone, Copy, Debug)]
pub struct MouseInfo {
    pub position: (i64, i64),
    pub button: MouseButton,
}

/// An event routed to the active interaction mode. `Draw` announces that a
/// frame is being rendered; modes expose what to draw through queries, and
/// the renderer outside this core does the drawing.
#[derive(Clone, Copy, Debug)]
pub enum EditorEvent {
    MouseEvent { event_type: MouseEventType, meta: MouseInfo },
    Draw,
}

/// One interaction mode. Every event is valid in every mode; a combination
/// a mode does not handle is a no-op. Modes persist until the session
/// switches them externally.
pub trait Tool {
    fn handle_event(&mut self, v: &mut Editor, i: &mut State, event: EditorEvent);
}

} // verus!
