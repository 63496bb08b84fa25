//! The per-frame selection pipeline: drag tracker, rectangle builder and
//! selection applier, run in that strict order by a single controller
//! function each frame.

use vstd::prelude::*;

use crate::mapper::{spec_world_pos, spec_world_pos_fits, transform_to_world, CameraTransform};
use crate::rect::{in_aabb, spec_in_aabb, spec_new_aabb, SelectionAabb};
use crate::state::{
    ClickDrag, DragCompletedEvent, Marker, SelectableItem, SelectionState, SomeSelection,
};

verus! {

/// Every marker cleared to `Unselected`; every position kept.
pub open spec fn spec_reset_items(items: Seq<SelectableItem>) -> Seq<SelectableItem> {
    Seq::new(
        items.len(),
        |i: int| SelectableItem { pos: items[i].pos, marker: Marker::Unselected },
    )
}

/// Every item whose position lies inside the rectangle marked `Selected`;
/// every other item untouched.
pub open spec fn spec_apply_aabb(items: Seq<SelectableItem>, aabb: SelectionAabb) -> Seq<
    SelectableItem,
> {
    Seq::new(
        items.len(),
        |i: int| SelectableItem {
            pos: items[i].pos,
            marker: if spec_in_aabb(items[i].pos, aabb) {
                Marker::Selected
            } else {
                items[i].marker
            },
        },
    )
}

/// What the drag tracker does in one frame.
///
/// A press edge with a resolvable world position starts a new gesture: all
/// markers are reset, the pending rectangle is dropped, the press point is
/// captured as the first corner and the second corner is cleared. A release
/// edge with a resolvable position completes a gesture whose first corner
/// is captured — possibly in this same frame — by capturing the second
/// corner and emitting the one-shot signal. An edge with no resolvable
/// position is ignored for the frame.
pub open spec fn spec_store_click_drag(
    s: SelectionState,
    items: Seq<SelectableItem>,
    just_pressed: bool,
    just_released: bool,
    world_pos: Option<(i64, i64)>,
) -> (SelectionState, Seq<SelectableItem>) {
    let pressed = just_pressed && world_pos is Some;
    let s1 = if pressed {
        SelectionState {
            click_drag: ClickDrag { a_click: Some(world_pos->0), b_click: None },
            selection_aabb: SomeSelection { selection: None },
            on_drag_completed: s.on_drag_completed,
        }
    } else {
        s
    };
    let items1 = if pressed {
        spec_reset_items(items)
    } else {
        items
    };
    let s2 = if just_released && world_pos is Some && s1.click_drag.a_click is Some {
        SelectionState {
            click_drag: ClickDrag { a_click: s1.click_drag.a_click, b_click: Some(world_pos->0) },
            selection_aabb: s1.selection_aabb,
            on_drag_completed: Some(DragCompletedEvent),
        }
    } else {
        s1
    };
    (s2, items1)
}

/// Clears the captured corners, drops any pending rectangle and resets
/// every item's marker to `Unselected`: the start of a new gesture.
pub fn reset_selection(
    click_drag: &mut ClickDrag,
    selection_aabb: &mut SomeSelection,
    selectable_items: &mut Vec<SelectableItem>,
)
    ensures
        *final(click_drag) == (ClickDrag { a_click: None, b_click: None }),
        final(selection_aabb).selection is None,
        final(selectable_items)@ == spec_reset_items(old(selectable_items)@),
{
    click_drag.a_click = None;
    click_drag.b_click = None;
    selection_aabb.selection = None;
    let n = selectable_items.len();
    let mut i: usize = 0;
    while i < n
        invariant
            i <= n,
            n == selectable_items@.len(),
            selectable_items@.len() == old(selectable_items)@.len(),
            forall|j: int|
                0 <= j < i ==> selectable_items@[j] == spec_reset_items(old(selectable_items)@)[j],
            forall|j: int| i <= j < n ==> selectable_items@[j] == old(selectable_items)@[j],
        decreases n - i,
    {
        let pos = selectable_items[i].pos;
        selectable_items[i] = SelectableItem { pos, marker: Marker::Unselected };
        i += 1;
    }
    proof {
        assert(selectable_items@ =~= spec_reset_items(old(selectable_items)@));
    }
}

/// The drag tracker stage, run first each frame. Its effect on the state
/// and the items is exactly `spec_store_click_drag` of the button edges and
/// the mapped world position.
///
/// It runs after the previous frame's builder has taken any signal, so no
/// signal is outstanding on entry; on exit the captured corners are present
/// whenever a signal is.
pub fn store_click_drag(
    state: &mut SelectionState,
    items: &mut Vec<SelectableItem>,
    just_pressed: bool,
    just_released: bool,
    world_pos: Option<(i64, i64)>,
)
    requires
        old(state).on_drag_completed is None,
    ensures
        *final(state) == spec_store_click_drag(
            *old(state),
            old(items)@,
            just_pressed,
            just_released,
            world_pos,
        ).0,
        final(items)@ == spec_store_click_drag(
            *old(state),
            old(items)@,
            just_pressed,
            just_released,
            world_pos,
        ).1,
        final(state).wf(),
{
    if just_pressed && world_pos.is_some() {
        reset_selection(&mut state.click_drag, &mut state.selection_aabb, items);
        state.click_drag.a_click = Some(world_pos.unwrap());
    }
    if just_released && world_pos.is_some() && state.click_drag.a_click.is_some() {
        state.click_drag.b_click = Some(world_pos.unwrap());
        state.on_drag_completed = Some(DragCompletedEvent);
    }
}

/// What the rectangle builder does in one frame: when the one-shot signal
/// is present it takes the two captured corners, writes their normalized
/// rectangle into the pending holder — overwriting whatever was there —
/// and clears both corners and the signal; otherwise nothing changes.
pub open spec fn spec_construct_aabb(s: SelectionState) -> SelectionState {
    if s.on_drag_completed is Some {
        SelectionState {
            click_drag: ClickDrag { a_click: None, b_click: None },
            selection_aabb: SomeSelection {
                selection: Some(
                    spec_new_aabb(s.click_drag.a_click->0, s.click_drag.b_click->0),
                ),
            },
            on_drag_completed: None,
        }
    } else {
        s
    }
}

/// The rectangle builder stage, run after the drag tracker. The signal is
/// taken as it is read, so however many times a gesture completion was
/// reported, at most one rectangle is built and none is left pending
/// twice.
pub fn construct_aabb(state: &mut SelectionState)
    requires
        old(state).wf(),
    ensures
        *final(state) == spec_construct_aabb(*old(state)),
        final(state).wf(),
        final(state).on_drag_completed is None,
{
    if state.on_drag_completed.is_some() {
        state.on_drag_completed = None;
        let a = state.click_drag.a_click.unwrap();
        let b = state.click_drag.b_click.unwrap();
        state.click_drag.a_click = None;
        state.click_drag.b_click = None;
        state.selection_aabb.selection = Some(SelectionAabb::new(a, b));
    }
}

/// What the selection applier does in one frame: a pending rectangle is
/// taken — clearing the holder with the read — and every item inside it is
/// marked `Selected`, the rest left as they are; with nothing pending,
/// nothing changes.
pub open spec fn spec_consume_selection(
    sel: SomeSelection,
    items: Seq<SelectableItem>,
) -> (SomeSelection, Seq<SelectableItem>) {
    match sel.selection {
        Some(aabb) => (SomeSelection { selection: None }, spec_apply_aabb(items, aabb)),
        None => (sel, items),
    }
}

/// The selection applier stage, run last each frame.
pub fn consume_selection(
    selection_aabb: &mut SomeSelection,
    selectable_items: &mut Vec<SelectableItem>,
)
    ensures
        *final(selection_aabb) == spec_consume_selection(
            *old(selection_aabb),
            old(selectable_items)@,
        ).0,
        final(selectable_items)@ == spec_consume_selection(
            *old(selection_aabb),
            old(selectable_items)@,
        ).1,
        final(selection_aabb).selection is None,
{
    let aabb_opt = selection_aabb.selection.take();
    if let Some(aabb) = aabb_opt {
        let n = selectable_items.len();
        let mut i: usize = 0;
        while i < n
            invariant
                i <= n,
                n == selectable_items@.len(),
                selectable_items@.len() == old(selectable_items)@.len(),
                forall|j: int|
                    0 <= j < i ==> selectable_items@[j] == spec_apply_aabb(
                        old(selectable_items)@,
                        aabb,
                    )[j],
                forall|j: int| i <= j < n ==> selectable_items@[j] == old(selectable_items)@[j],
            decreases n - i,
        {
            let pos = selectable_items[i].pos;
            if in_aabb(pos, &aabb) {
                selectable_items[i] = SelectableItem { pos, marker: Marker::Selected };
            }
            i += 1;
        }
        proof {
            assert(selectable_items@ =~= spec_apply_aabb(old(selectable_items)@, aabb));
        }
    }
}

/// What the host hands the pipeline each frame: the button edges, the
/// device-space pointer position if the pointer is inside the window, the
/// window's pixel dimensions and the active camera's transform.
#[derive(Clone, Copy, Debug)]
pub struct FrameInput {
    pub just_pressed: bool,
    pub just_released: bool,
    pub cursor: Option<(i64, i64)>,
    pub wnd_width: u32,
    pub wnd_height: u32,
    pub camera: CameraTransform,
}

impl FrameInput {
    /// The mapped world coordinates of this frame's pointer position fit
    /// the machine integer range.
    pub open spec fn fits(self) -> bool {
        spec_world_pos_fits(self.cursor, self.wnd_width, self.wnd_height, self.camera)
    }
}

/// One complete pass through the ordered pipeline: the pointer position is
/// mapped to world space, then tracker, builder and applier run in that
/// strict order on the state and the items.
pub open spec fn spec_frame(
    s: SelectionState,
    items: Seq<SelectableItem>,
    input: FrameInput,
) -> (SelectionState, Seq<SelectableItem>) {
    let world_pos = spec_world_pos(input.cursor, input.wnd_width, input.wnd_height, input.camera);
    let stored = spec_store_click_drag(
        s,
        items,
        input.just_pressed,
        input.just_released,
        world_pos,
    );
    let s2 = spec_construct_aabb(stored.0);
    let consumed = spec_consume_selection(s2.selection_aabb, stored.1);
    (
        SelectionState {
            click_drag: s2.click_drag,
            selection_aabb: consumed.0,
            on_drag_completed: s2.on_drag_completed,
        },
        consumed.1,
    )
}

/// The controller: runs the three stages once, in order, for one frame
/// tick. The previous tick left no signal outstanding, and neither does
/// this one; a pending rectangle never survives the tick that runs the
/// applier after the builder.
pub fn frame_tick(state: &mut SelectionState, items: &mut Vec<SelectableItem>, input: &FrameInput)
    requires
        old(state).on_drag_completed is None,
        input.fits(),
    ensures
        *final(state) == spec_frame(*old(state), old(items)@, *input).0,
        final(items)@ == spec_frame(*old(state), old(items)@, *input).1,
        final(state).wf(),
        final(state).on_drag_completed is None,
        final(state).selection_aabb.selection is None,
{
    let world_pos = transform_to_world(
        input.cursor,
        input.wnd_width,
        input.wnd_height,
        &input.camera,
    );
    store_click_drag(state, items, input.just_pressed, input.just_released, world_pos);
    construct_aabb(state);
    consume_selection(&mut state.selection_aabb, items);
}

/// Starting a new drag — a press edge with a resolvable world position —
/// clears every item's marker to `Unselected` before any new selection is
/// computed, whatever the prior markers, pending rectangle and captured
/// corners were.
pub proof fn lemma_new_drag_resets_markers(
    s: SelectionState,
    items: Seq<SelectableItem>,
    just_released: bool,
    p: (i64, i64),
)
    ensures
        ({
            let stored = spec_store_click_drag(s, items, true, just_released, Some(p));
            &&& stored.1.len() == items.len()
            &&& forall|j: int|
                0 <= j < items.len() ==> stored.1[j].marker == Marker::Unselected
                    && stored.1[j].pos == items[j].pos
            &&& stored.0.click_drag.a_click == Some(p)
        }),
{
}

/// The applier selects zero items out of a degenerate drag, one whose
/// start and end coincide: applying its rectangle leaves every item as it
/// was.
pub proof fn lemma_degenerate_apply(items: Seq<SelectableItem>, p: (i64, i64))
    ensures
        spec_apply_aabb(items, spec_new_aabb(p, p)) == items,
{
    crate::rect::lemma_degenerate_aabb(p);
    assert(spec_apply_aabb(items, spec_new_aabb(p, p)) =~= items);
}

/// Resetting the markers twice is the same as resetting them once.
pub proof fn lemma_reset_items_idempotent(items: Seq<SelectableItem>)
    ensures
        spec_reset_items(spec_reset_items(items)) == spec_reset_items(items),
{
    assert(spec_reset_items(spec_reset_items(items)) =~= spec_reset_items(items));
}

/// One completed gesture with no applier run: a press at `a` and a release
/// at `b`, the tracker and the builder each running in both frames.
pub open spec fn spec_completed_drag(
    s: SelectionState,
    items: Seq<SelectableItem>,
    a_click: (i64, i64),
    b_click: (i64, i64),
) -> (SelectionState, Seq<SelectableItem>) {
    let pressed = spec_store_click_drag(s, items, true, false, Some(a_click));
    let built0 = spec_construct_aabb(pressed.0);
    let released = spec_store_click_drag(built0, pressed.1, false, true, Some(b_click));
    let built1 = spec_construct_aabb(released.0);
    (built1, released.1)
}

/// A sequence of completed gestures, none of them followed by an applier
/// run.
pub open spec fn spec_completed_drags(
    s: SelectionState,
    items: Seq<SelectableItem>,
    drags: Seq<((i64, i64), (i64, i64))>,
) -> (SelectionState, Seq<SelectableItem>)
    decreases drags.len(),
{
    if drags.len() == 0 {
        (s, items)
    } else {
        let prev = spec_completed_drags(s, items, drags.drop_last());
        spec_completed_drag(prev.0, prev.1, drags.last().0, drags.last().1)
    }
}

/// A single completed gesture, started with no signal outstanding, leaves
/// exactly the rectangle of its two points pending, the corners cleared
/// and the signal spent.
pub proof fn lemma_completed_drag_pending(
    s: SelectionState,
    items: Seq<SelectableItem>,
    a_click: (i64, i64),
    b_click: (i64, i64),
)
    requires
        s.on_drag_completed is None,
    ensures
        spec_completed_drag(s, items, a_click, b_click).0 == (SelectionState {
            click_drag: ClickDrag { a_click: None, b_click: None },
            selection_aabb: SomeSelection { selection: Some(spec_new_aabb(a_click, b_click)) },
            on_drag_completed: None,
        }),
{
}

/// At most one pending rectangle: after any number of consecutive
/// completed drags with no intervening applier run, the pending holder
/// contains exactly the rectangle of the most recent drag — never more
/// than one, and never a stale one — and no signal is outstanding.
pub proof fn lemma_at_most_one_pending(
    s: SelectionState,
    items: Seq<SelectableItem>,
    drags: Seq<((i64, i64), (i64, i64))>,
)
    requires
        s.on_drag_completed is None,
        drags.len() > 0,
    ensures
        spec_completed_drags(s, items, drags).0.selection_aabb.selection == Some(
            spec_new_aabb(drags.last().0, drags.last().1),
        ),
        spec_completed_drags(s, items, drags).0.on_drag_completed is None,
    decreases drags.len(),
{
    let prev = spec_completed_drags(s, items, drags.drop_last());
    if drags.len() == 1 {
        assert(drags.drop_last().len() == 0);
        assert(prev == (s, items));
    } else {
        lemma_at_most_one_pending(s, items, drags.drop_last());
    }
    lemma_completed_drag_pending(prev.0, prev.1, drags.last().0, drags.last().1);
}

} // verus!
