//! The data the selection pipeline owns: the captured drag corners, the
//! pending rectangle, the one-shot completion signal, and the items.

use vstd::prelude::*;

use crate::rect::SelectionAabb;

verus! {

/// The two-valued visual marker of a selectable item. The host realizes it
/// as a swapped visual asset; the core only flips it between the two values.
#[derive(Clone, Copy, Debug, PartialEq, Eq, Structural)]
pub enum Marker {
    Unselected,
    Selected,
}

/// A selectable item: a world position, read-only to the core, and a
/// marker, the one field the core mutates.
#[derive(Clone, Copy, Debug)]
pub struct SelectableItem {
    pub pos: (i64, i64),
    pub marker: Marker,
}

/// The two captured gesture corners. `a_click` is set on a press edge,
/// `b_click` on the matching release edge; both are cleared together the
/// moment a rectangle is derived from them, and at the start of every new
/// gesture.
#[derive(Clone, Copy, Debug)]
pub struct ClickDrag {
    pub a_click: Option<(i64, i64)>,
    pub b_click: Option<(i64, i64)>,
}

/// Holder of at most one rectangle awaiting application. A new rectangle is
/// only written after the previous one has been taken, which the stage
/// ordering of the pipeline enforces.
#[derive(Clone, Copy, Debug)]
pub struct SomeSelection {
    pub selection: Option<SelectionAabb>,
}

/// The one-shot gesture-completed event. The tracker emits it on a release
/// edge; the builder takes it in the same ordered pass, so at most one is
/// ever outstanding.
#[derive(Clone, Copy, Debug)]
pub struct DragCompletedEvent;

/// The state the pipeline threads through its stages each frame, owned by
/// the controller rather than ambient: the captured corners, the pending
/// rectangle, and the completion signal.
#[derive(Clone, Copy, Debug)]
pub struct SelectionState {
    pub click_drag: ClickDrag,
    pub selection_aabb: SomeSelection,
    pub on_drag_completed: Option<DragCompletedEvent>,
}

impl SelectionState {
    /// The state before any gesture: nothing captured, nothing pending,
    /// no signal.
    pub open spec fn spec_init() -> SelectionState {
        SelectionState {
            click_drag: ClickDrag { a_click: None, b_click: None },
            selection_aabb: SomeSelection { selection: None },
            on_drag_completed: None,
        }
    }

    /// The tracker only emits the signal once both corners are captured,
    /// so whenever the signal is outstanding the corners are present.
    pub open spec fn wf(self) -> bool {
        self.on_drag_completed is Some ==> self.click_drag.a_click is Some
            && self.click_drag.b_click is Some
    }

    pub fn new() -> (s: SelectionState)
        ensures
            s == SelectionState::spec_init(),
            s.wf(),
    {
        SelectionState {
            click_drag: ClickDrag { a_click: None, b_click: None },
            selection_aabb: SomeSelection { selection: None },
            on_drag_completed: None,
        }
    }
}

} // verus!
