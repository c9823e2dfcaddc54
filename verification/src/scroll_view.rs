//! The compound scroll-region control: its per-tick mutable state, the
//! input-aggregation passes that turn wheel and drag deltas into an
//! unclamped offset change, the clamp pass, and the layout pass that
//! derives content clipping and scrollbar handle geometry.

use vstd::prelude::*;

use crate::geometry::{
    clamp_axis_offset, clamp_int, drag_scroll_delta, fits_i64, handle_extent, handle_offset,
    scale_by_ratio, spec_along, spec_drag_delta, spec_wheel_pixels, wheel_offset, ScrollAxis,
    ScrollUnit, Size, Vec2,
};
use crate::node::{NodeArena, NodeId, UiNode, PLACEHOLDER};
use crate::pseudo_state::PseudoState;
use crate::ui_style::{
    state_disables_scrolling, LockableStyleAttribute, LockedStyleAttributes, StyleValue,
    TrackedStyleState,
};
use vstd::string::StringExecFns;

verus! {

broadcast use vstd::seq::group_seq_axioms, vstd::set::group_set_axioms, vstd::map::group_map_axioms;

/// A wheel delta aggregated for one tick: its axis, its magnitude along
/// that axis, and its unit.
#[derive(Clone, Copy, Debug, PartialEq, Eq, Structural)]
pub struct ScrollInput {
    pub axis: ScrollAxis,
    pub amount: i32,
    pub unit: ScrollUnit,
}

/// The per-tick wheel record attached to a scrollable node; absence of a
/// last change means no wheel input this tick.
#[derive(Clone, Copy, Debug, PartialEq, Eq, Structural)]
pub struct Scrollable {
    pub last_change: Option<ScrollInput>,
}

impl Scrollable {
    /// The wheel delta received this tick, if any.
    pub fn last_change(&self) -> (r: Option<ScrollInput>)
        ensures
            r == self.last_change,
    {
        self.last_change
    }
}

impl Default for Scrollable {
    fn default() -> (r: Self)
        ensures
            r == (Scrollable { last_change: None }),
    {
        Scrollable { last_change: None }
    }
}

/// The phase of a drag interaction. Only an active phase produces a
/// consumable per-tick delta.
#[derive(Clone, Copy, Debug, PartialEq, Eq, Structural)]
pub enum DragState {
    Inactive,
    MaybeDragged,
    Dragged,
    Released,
    Canceled,
}

/// Whether a drag phase produces a consumable delta: only `Dragged` and
/// `Released` do; `Inactive`, `MaybeDragged` and `Canceled` are ignored
/// by the scroll pass.
pub open spec fn drag_state_active(state: DragState) -> bool {
    state == DragState::Dragged || state == DragState::Released
}

/// The per-tick drag record attached to a scrollbar handle.
#[derive(Clone, Copy, Debug, PartialEq, Eq, Structural)]
pub struct Draggable {
    pub state: DragState,
    pub diff: Option<Vec2>,
}

impl Default for Draggable {
    fn default() -> (r: Self)
        ensures
            r == (Draggable { state: DragState::Inactive, diff: None }),
    {
        Draggable { state: DragState::Inactive, diff: None }
    }
}

/// Marker tying a scrollbar handle node to its region and axis.
#[derive(Clone, Copy, Debug, PartialEq, Eq, Structural)]
pub struct ScrollBarHandle {
    pub axis: ScrollAxis,
    pub scroll_view: NodeId,
}

impl Default for ScrollBarHandle {
    fn default() -> (r: Self)
        ensures
            r == (ScrollBarHandle { axis: ScrollAxis::Horizontal, scroll_view: PLACEHOLDER }),
    {
        ScrollBarHandle { axis: ScrollAxis::Horizontal, scroll_view: PLACEHOLDER }
    }
}

/// Marker tying a scrollbar track node to its region, axis and handle.
#[derive(Clone, Copy, Debug, PartialEq, Eq, Structural)]
pub struct ScrollBar {
    pub axis: ScrollAxis,
    pub scroll_view: NodeId,
    pub handle: NodeId,
}

impl Default for ScrollBar {
    fn default() -> (r: Self)
        ensures
            r == (ScrollBar {
                axis: ScrollAxis::Horizontal,
                scroll_view: PLACEHOLDER,
                handle: PLACEHOLDER,
            }),
    {
        ScrollBar { axis: ScrollAxis::Horizontal, scroll_view: PLACEHOLDER, handle: PLACEHOLDER }
    }
}

/// Marker tying a content-container node to its region.
#[derive(Clone, Copy, Debug, PartialEq, Eq, Structural)]
pub struct ScrollViewContent {
    pub scroll_view: NodeId,
}

impl Default for ScrollViewContent {
    fn default() -> (r: Self)
        ensures
            r == (ScrollViewContent { scroll_view: PLACEHOLDER }),
    {
        ScrollViewContent { scroll_view: PLACEHOLDER }
    }
}

/// Marker tying a clipped viewport node to its region.
#[derive(Clone, Copy, Debug, PartialEq, Eq, Structural)]
pub struct ScrollViewViewport {
    pub scroll_view: NodeId,
}

impl Default for ScrollViewViewport {
    fn default() -> (r: Self)
        ensures
            r == (ScrollViewViewport { scroll_view: PLACEHOLDER }),
    {
        ScrollViewViewport { scroll_view: PLACEHOLDER }
    }
}

/// The compound scroll region: the identities of its six role nodes and
/// its per-tick mutable state. The stored offset has no inherent bounds;
/// only the clamp pass enforces them.
#[derive(Clone, Copy, Debug, PartialEq, Eq, Structural)]
pub struct ScrollView {
    pub viewport: NodeId,
    pub content_container: NodeId,
    pub horizontal_scroll_bar: NodeId,
    pub horizontal_scroll_bar_handle: NodeId,
    pub vertical_scroll_bar: NodeId,
    pub vertical_scroll_bar_handle: NodeId,
    pub scroll_offset: Vec2,
    pub restricted_to: Option<ScrollAxis>,
    pub disabled: bool,
}

impl Default for ScrollView {
    fn default() -> (r: Self)
        ensures
            r == (ScrollView {
                viewport: PLACEHOLDER,
                content_container: PLACEHOLDER,
                horizontal_scroll_bar: PLACEHOLDER,
                horizontal_scroll_bar_handle: PLACEHOLDER,
                vertical_scroll_bar: PLACEHOLDER,
                vertical_scroll_bar_handle: PLACEHOLDER,
                scroll_offset: Vec2 { x: 0, y: 0 },
                restricted_to: None,
                disabled: false,
            }),
    {
        ScrollView {
            viewport: PLACEHOLDER,
            content_container: PLACEHOLDER,
            horizontal_scroll_bar: PLACEHOLDER,
            horizontal_scroll_bar_handle: PLACEHOLDER,
            vertical_scroll_bar: PLACEHOLDER,
            vertical_scroll_bar_handle: PLACEHOLDER,
            scroll_offset: Vec2 { x: 0, y: 0 },
            restricted_to: None,
            disabled: false,
        }
    }
}

impl ScrollView {
    /// The six role nodes of the compound control are live in `arena`.
    pub open spec fn roles_live(self, arena: NodeArena) -> bool {
        &&& arena.is_live(self.viewport)
        &&& arena.is_live(self.content_container)
        &&& arena.is_live(self.horizontal_scroll_bar)
        &&& arena.is_live(self.horizontal_scroll_bar_handle)
        &&& arena.is_live(self.vertical_scroll_bar)
        &&& arena.is_live(self.vertical_scroll_bar_handle)
    }

    /// All seven nodes of the compound control — the frame and the six
    /// role nodes — are live in `arena` and pairwise distinct, as
    /// construction guarantees.
    pub open spec fn valid_in(self, arena: NodeArena, frame: NodeId) -> bool {
        &&& arena.is_live(frame)
        &&& self.roles_live(arena)
        &&& seq![
            frame,
            self.viewport,
            self.content_container,
            self.horizontal_scroll_bar,
            self.horizontal_scroll_bar_handle,
            self.vertical_scroll_bar,
            self.vertical_scroll_bar_handle,
        ].no_duplicates()
    }

    /// The viewport node's identity.
    pub fn viewport_id(&self) -> (r: NodeId)
        ensures
            r == self.viewport,
    {
        self.viewport
    }
}

/// The `(x, y)` scroll-offset change one wheel input produces: the
/// magnitude canonicalized to pixels and mapped onto the input's axis.
pub open spec fn spec_wheel_vec(input: ScrollInput) -> (int, int) {
    match input.axis {
        ScrollAxis::Horizontal => (spec_wheel_pixels(input.amount as int, input.unit), 0),
        ScrollAxis::Vertical => (0, spec_wheel_pixels(input.amount as int, input.unit)),
    }
}

/// Derives a region's `disabled` flag from the interaction phase its
/// frame is interaction through: entering and transitioning suspend it.
pub fn update_scroll_view_on_tracked_style_state_change(
    scroll_view: &mut ScrollView,
    state: TrackedStyleState,
)
    ensures
        *final(scroll_view) == (ScrollView {
            disabled: state_disables_scrolling(state),
            ..*old(scroll_view)
        }),
{
    let should_disable = state == TrackedStyleState::Enter || state
        == TrackedStyleState::Transitioning;
    if scroll_view.disabled != should_disable {
        scroll_view.disabled = should_disable;
    }
}

/// Resolves which region a wheel event targets: a viewport node targets
/// its own region directly, a handle node targets the region that owns
/// its bar.
pub fn scroll_target_region(
    viewport: Option<&ScrollViewViewport>,
    handle: Option<&ScrollBarHandle>,
) -> (r: Option<NodeId>)
    ensures
        r == match viewport {
            Some(v) => Some(v.scroll_view),
            None => match handle {
                Some(h) => Some(h.scroll_view),
                None => None::<NodeId>,
            },
        },
{
    match viewport {
        Some(v) => Some(v.scroll_view),
        None => match handle {
            Some(h) => Some(h.scroll_view),
            None => None,
        },
    }
}

/// The wheel-input pass for one region: a per-tick wheel delta is
/// canonicalized to pixels and added, unclamped, to the stored offset.
/// A disabled region, or a tick without input, changes nothing.
pub fn update_scroll_view_on_scroll(scroll_view: &mut ScrollView, scrollable: &Scrollable)
    requires
        match scrollable.last_change {
            Some(input) => !old(scroll_view).disabled ==> fits_i64(
                old(scroll_view).scroll_offset.x + spec_wheel_vec(input).0,
            ) && fits_i64(old(scroll_view).scroll_offset.y + spec_wheel_vec(input).1),
            None => true,
        },
    ensures
        old(scroll_view).disabled || scrollable.last_change is None ==> *final(scroll_view) == *old(scroll_view),
        match scrollable.last_change {
            Some(input) => !old(scroll_view).disabled ==> *final(scroll_view) == (ScrollView {
                scroll_offset: Vec2 {
                    x: (old(scroll_view).scroll_offset.x + spec_wheel_vec(input).0) as i64,
                    y: (old(scroll_view).scroll_offset.y + spec_wheel_vec(input).1) as i64,
                },
                ..*old(scroll_view)
            }),
            None => true,
        },
{
    let input = match scrollable.last_change() {
        Some(input) => input,
        None => {
            return ;
        },
    };
    if scroll_view.disabled {
        return ;
    }
    let diff = wheel_offset(input.axis, input.amount, input.unit);
    scroll_view.scroll_offset = Vec2 {
        x: scroll_view.scroll_offset.x + diff.x,
        y: scroll_view.scroll_offset.y + diff.y,
    };
}

/// The drag-input pass for one region: an active drag on a scrollbar
/// handle is remapped from track space to content space by the ratio
/// `overflow / remaining_track` and added, unclamped, to the stored
/// offset. Inactive drag phases, a disabled region, a tick without a
/// delta, a region without overflow, and a track fully covered by its
/// handle all scroll nothing.
pub fn update_scroll_view_on_drag(
    scroll_view: &mut ScrollView,
    draggable: &Draggable,
    axis: ScrollAxis,
    container: Size,
    content: Size,
    handle: Size,
)
    requires
        match draggable.diff {
            Some(diff) => drag_state_active(draggable.state) && !old(scroll_view).disabled ==> {
                let raw = match axis {
                    ScrollAxis::Horizontal => diff.x as int,
                    ScrollAxis::Vertical => diff.y as int,
                };
                &&& -0x8000_0000 <= raw <= 0x8000_0000
                &&& fits_i64(
                    match axis {
                        ScrollAxis::Horizontal => old(scroll_view).scroll_offset.x as int,
                        ScrollAxis::Vertical => old(scroll_view).scroll_offset.y as int,
                    } + spec_drag_delta(
                        raw,
                        spec_along(container, axis) as int,
                        spec_along(content, axis) as int,
                        spec_along(handle, axis) as int,
                    ),
                )
            },
            None => true,
        },
    ensures
        !drag_state_active(draggable.state) || old(scroll_view).disabled || draggable.diff is None
            ==> *final(scroll_view) == *old(scroll_view),
        match draggable.diff {
            Some(diff) => drag_state_active(draggable.state) && !old(scroll_view).disabled ==> {
                let raw = match axis {
                    ScrollAxis::Horizontal => diff.x as int,
                    ScrollAxis::Vertical => diff.y as int,
                };
                let delta = spec_drag_delta(
                    raw,
                    spec_along(container, axis) as int,
                    spec_along(content, axis) as int,
                    spec_along(handle, axis) as int,
                );
                *final(scroll_view) == (ScrollView {
                    scroll_offset: match axis {
                        ScrollAxis::Horizontal => Vec2 {
                            x: (old(scroll_view).scroll_offset.x + delta) as i64,
                            y: old(scroll_view).scroll_offset.y,
                        },
                        ScrollAxis::Vertical => Vec2 {
                            x: old(scroll_view).scroll_offset.x,
                            y: (old(scroll_view).scroll_offset.y + delta) as i64,
                        },
                    },
                    ..*old(scroll_view)
                })
            },
            None => true,
        },
{
    if draggable.state == DragState::Inactive || draggable.state == DragState::MaybeDragged
        || draggable.state == DragState::Canceled {
        return ;
    }
    if scroll_view.disabled {
        return ;
    }
    let diff = match draggable.diff {
        Some(diff) => diff,
        None => {
            return ;
        },
    };
    let raw = match axis {
        ScrollAxis::Horizontal => diff.x,
        ScrollAxis::Vertical => diff.y,
    };
    let delta = drag_scroll_delta(raw, container.along(axis), content.along(axis), handle.along(axis));
    match axis {
        ScrollAxis::Horizontal => {
            scroll_view.scroll_offset = Vec2 {
                x: scroll_view.scroll_offset.x + delta,
                y: scroll_view.scroll_offset.y,
            };
        },
        ScrollAxis::Vertical => {
            scroll_view.scroll_offset = Vec2 {
                x: scroll_view.scroll_offset.x,
                y: scroll_view.scroll_offset.y + delta,
            };
        },
    }
}

/// One offset component after the clamp pass, given the container and
/// content extents on its axis: with a zero container extent the axis is
/// skipped; with positive overflow the offset is clamped into
/// `[0, overflow]`; otherwise the stored value is kept.
pub open spec fn spec_clamped_axis_offset(offset: int, container: int, content: int) -> int {
    if container == 0 {
        offset
    } else if content - container > 0 {
        clamp_int(offset, 0, content - container)
    } else {
        offset
    }
}

/// The pre-layout clamp pass for one region: each offset component is
/// clamped against the overflow on its axis. An axis whose container
/// extent is still zero is skipped entirely, avoiding division by zero
/// and flicker while layout settles; an axis without overflow keeps its
/// stored value.
pub fn update_scroll_view_offset(scroll_view: &mut ScrollView, container: Size, content: Size)
    ensures
        *final(scroll_view) == (ScrollView {
            scroll_offset: Vec2 {
                x: spec_clamped_axis_offset(
                    old(scroll_view).scroll_offset.x as int,
                    container.width as int,
                    content.width as int,
                ) as i64,
                y: spec_clamped_axis_offset(
                    old(scroll_view).scroll_offset.y as int,
                    container.height as int,
                    content.height as int,
                ) as i64,
            },
            ..*old(scroll_view)
        }),
        container.width > 0 && content.width > container.width ==> 0 <= final(scroll_view).scroll_offset.x <= content.width - container.width,
        container.width == 0 || content.width <= container.width ==> final(scroll_view).scroll_offset.x == old(scroll_view).scroll_offset.x,
        container.height > 0 && content.height > container.height ==> 0 <= final(scroll_view).scroll_offset.y <= content.height - container.height,
        container.height == 0 || content.height <= container.height ==> final(scroll_view).scroll_offset.y == old(scroll_view).scroll_offset.y,
{
    let x = if container.width == 0 {
        scroll_view.scroll_offset.x
    } else {
        clamp_axis_offset(
            scroll_view.scroll_offset.x,
            content.width as i64 - container.width as i64,
        )
    };
    let y = if container.height == 0 {
        scroll_view.scroll_offset.y
    } else {
        clamp_axis_offset(
            scroll_view.scroll_offset.y,
            content.height as i64 - container.height as i64,
        )
    };
    scroll_view.scroll_offset = Vec2 { x, y };
}

/// A pseudo-state set after one axis of the layout pass: where the axis
/// ran, its overflow tag is set or cleared to match the overflow; a
/// skipped axis changes nothing.
pub open spec fn spec_axis_tag(
    s: Set<PseudoState>,
    ran: bool,
    overflowing: bool,
    tag: PseudoState,
) -> Set<PseudoState> {
    if !ran {
        s
    } else if overflowing {
        s.insert(tag)
    } else {
        s.remove(tag)
    }
}

/// A content-container style map after one axis of the layout pass: with
/// overflow the offset attribute is set to the negated clamped offset,
/// without it the attribute is reset to zero; a skipped axis changes
/// nothing.
pub open spec fn spec_content_offset_write(
    m: Map<LockableStyleAttribute, StyleValue>,
    ran: bool,
    overflow: int,
    clamped: int,
    attr: LockableStyleAttribute,
) -> Map<LockableStyleAttribute, StyleValue> {
    if !ran {
        m
    } else if overflow > 0 {
        m.insert(attr, StyleValue::Px((-clamped) as i64))
    } else {
        m.insert(attr, StyleValue::Px(0))
    }
}

/// A handle style map after its axis of the layout pass: with overflow
/// its extent and position are written; otherwise it is untouched.
pub open spec fn spec_handle_write(
    m: Map<LockableStyleAttribute, StyleValue>,
    ran: bool,
    extent_attr: LockableStyleAttribute,
    extent: int,
    offset_attr: LockableStyleAttribute,
    offset: int,
) -> Map<LockableStyleAttribute, StyleValue> {
    if ran {
        m.insert(extent_attr, StyleValue::Px(extent as i64)).insert(
            offset_attr,
            StyleValue::Px(offset as i64),
        )
    } else {
        m
    }
}

/// What the layout pass leaves behind, relating the arena before (`a0`)
/// to the arena after (`a1`). A disabled region only gains the `Disabled`
/// tag on its frame. Otherwise, per axis independently: a zero container
/// extent skips the axis; positive overflow clamps the offset into
/// `[0, overflow]`, sets the overflow tag, positions the content
/// container at the negated clamped offset and writes the handle's
/// extent and position by proportional mapping; no overflow clears the
/// tag and resets the content offset. Nothing else changes.
pub open spec fn layout_post(a0: NodeArena, a1: NodeArena, frame: NodeId, v: ScrollView) -> bool {
    let cw = a0.node(frame).size.width as int;
    let ch = a0.node(frame).size.height as int;
    let tw = a0.node(v.content_container).size.width as int;
    let th = a0.node(v.content_container).size.height as int;
    let ov_x = tw - cw;
    let ov_y = th - ch;
    let clamped_x = clamp_int(v.scroll_offset.x as int, 0, ov_x);
    let clamped_y = clamp_int(v.scroll_offset.y as int, 0, ov_y);
    let track_w = a0.node(v.horizontal_scroll_bar).size.width as int;
    let track_h = a0.node(v.vertical_scroll_bar).size.height as int;
    let extent_x = crate::geometry::spec_handle_extent(cw, tw, track_w);
    let extent_y = crate::geometry::spec_handle_extent(ch, th, track_h);
    let off_x = scale_by_ratio(track_w - extent_x, clamped_x, ov_x);
    let off_y = scale_by_ratio(track_h - extent_y, clamped_y, ov_y);
    let run_y = !v.disabled && ch > 0;
    let run_x = !v.disabled && cw > 0;
    let frame0 = a0.node(frame);
    let frame1 = a1.node(frame);
    let content0 = a0.node(v.content_container);
    let content1 = a1.node(v.content_container);
    let vh0 = a0.node(v.vertical_scroll_bar_handle);
    let vh1 = a1.node(v.vertical_scroll_bar_handle);
    let hh0 = a0.node(v.horizontal_scroll_bar_handle);
    let hh1 = a1.node(v.horizontal_scroll_bar_handle);
    &&& a1.nodes@.len() == a0.nodes@.len()
    &&& forall|j: int|
        0 <= j < a0.nodes@.len() && j != frame && j != v.content_container && j
            != v.vertical_scroll_bar_handle && j != v.horizontal_scroll_bar_handle
            ==> a1.nodes@[j] == a0.nodes@[j]
    &&& frame1 == (UiNode { pseudo_states: frame1.pseudo_states, ..frame0 })
    &&& frame1.pseudo_states@ == if v.disabled {
        frame0.pseudo_states@.insert(PseudoState::Disabled)
    } else {
        spec_axis_tag(
            spec_axis_tag(
                frame0.pseudo_states@.remove(PseudoState::Disabled),
                run_y,
                ov_y > 0,
                PseudoState::OverflowY,
            ),
            run_x,
            ov_x > 0,
            PseudoState::OverflowX,
        )
    }
    &&& content1 == (UiNode { computed: content1.computed, ..content0 })
    &&& content1.computed@ == spec_content_offset_write(
        spec_content_offset_write(
            content0.computed@,
            run_y,
            ov_y,
            clamped_y,
            LockableStyleAttribute::Top,
        ),
        run_x,
        ov_x,
        clamped_x,
        LockableStyleAttribute::Left,
    )
    &&& vh1 == (UiNode { computed: vh1.computed, ..vh0 })
    &&& vh1.computed@ == spec_handle_write(
        vh0.computed@,
        run_y && ov_y > 0,
        LockableStyleAttribute::Height,
        extent_y,
        LockableStyleAttribute::Top,
        off_y,
    )
    &&& hh1 == (UiNode { computed: hh1.computed, ..hh0 })
    &&& hh1.computed@ == spec_handle_write(
        hh0.computed@,
        run_x && ov_x > 0,
        LockableStyleAttribute::Width,
        extent_x,
        LockableStyleAttribute::Left,
        off_x,
    )
}

/// The layout pass for one region. A disabled region is marked with the
/// `Disabled` pseudo-state and left alone for the tick. Otherwise, per
/// axis: overflow is computed from the frame and content extents; with
/// positive overflow the content container is offset by the negated
/// clamped scroll offset through the lock-bypassing write path, the
/// overflow pseudo-state is set on the frame, and the scrollbar handle's
/// extent and position are derived by proportional mapping; without
/// overflow the tag is cleared and the content offset reset. An axis
/// whose container extent is still zero is skipped.
pub fn update_scroll_view_layout(arena: &mut NodeArena, frame: NodeId, scroll_view: &ScrollView)
    requires
        old(arena).wf(),
        scroll_view.valid_in(*old(arena), frame),
    ensures
        final(arena).wf(),
        layout_post(*old(arena), *final(arena), frame, *scroll_view),
{
    if scroll_view.disabled {
        arena.add_pseudo_state(frame, PseudoState::Disabled);
        return ;
    }
    arena.remove_pseudo_state(frame, PseudoState::Disabled);

    let container = arena.size_of(frame);
    let content = arena.size_of(scroll_view.content_container);

    if container.height > 0 {
        let overflow_y: i64 = content.height as i64 - container.height as i64;
        if overflow_y > 0 {
            let scroll_offset_y = clamp_axis_offset(scroll_view.scroll_offset.y, overflow_y);
            arena.style_unchecked(
                scroll_view.content_container,
                LockableStyleAttribute::Top,
                StyleValue::Px(-scroll_offset_y),
            );
            arena.add_pseudo_state(frame, PseudoState::OverflowY);

            let bar_height = arena.size_of(scroll_view.vertical_scroll_bar).height;
            let handle_height = handle_extent(container.height, content.height, bar_height);
            let bar_offset = handle_offset(scroll_offset_y, overflow_y, bar_height, handle_height);
            arena.style_unchecked(
                scroll_view.vertical_scroll_bar_handle,
                LockableStyleAttribute::Height,
                StyleValue::Px(handle_height as i64),
            );
            arena.style_unchecked(
                scroll_view.vertical_scroll_bar_handle,
                LockableStyleAttribute::Top,
                StyleValue::Px(bar_offset),
            );
        } else {
            arena.style_unchecked(
                scroll_view.content_container,
                LockableStyleAttribute::Top,
                StyleValue::Px(0),
            );
            arena.remove_pseudo_state(frame, PseudoState::OverflowY);
        }
    }

    if container.width > 0 {
        let overflow_x: i64 = content.width as i64 - container.width as i64;
        if overflow_x > 0 {
            let scroll_offset_x = clamp_axis_offset(scroll_view.scroll_offset.x, overflow_x);
            arena.style_unchecked(
                scroll_view.content_container,
                LockableStyleAttribute::Left,
                StyleValue::Px(-scroll_offset_x),
            );
            arena.add_pseudo_state(frame, PseudoState::OverflowX);

            let bar_width = arena.size_of(scroll_view.horizontal_scroll_bar).width;
            let handle_width = handle_extent(container.width, content.width, bar_width);
            let bar_offset = handle_offset(scroll_offset_x, overflow_x, bar_width, handle_width);
            arena.style_unchecked(
                scroll_view.horizontal_scroll_bar_handle,
                LockableStyleAttribute::Width,
                StyleValue::Px(handle_width as i64),
            );
            arena.style_unchecked(
                scroll_view.horizontal_scroll_bar_handle,
                LockableStyleAttribute::Left,
                StyleValue::Px(bar_offset),
            );
        } else {
            arena.style_unchecked(
                scroll_view.content_container,
                LockableStyleAttribute::Left,
                StyleValue::Px(0),
            );
            arena.remove_pseudo_state(frame, PseudoState::OverflowX);
        }
    }
}

/// The region's `disabled` flag after the interaction update at the head
/// of a tick.
pub open spec fn spec_tick_disabled(v: ScrollView, interaction: Option<TrackedStyleState>) -> bool {
    match interaction {
        Some(state) => state_disables_scrolling(state),
        None => v.disabled,
    }
}

/// The unclamped `(x, y)` offset a tick's input passes aggregate, before
/// the clamp pass: the stored offset plus the wheel delta plus the drag
/// delta, all suppressed while the region is suspended.
pub open spec fn spec_tick_unclamped(
    v: ScrollView,
    interaction: Option<TrackedStyleState>,
    wheel: Option<ScrollInput>,
    drag: Option<(ScrollAxis, Draggable)>,
    container: Size,
    content: Size,
    handle: Size,
) -> (int, int) {
    let disabled = spec_tick_disabled(v, interaction);
    let w = if disabled {
        (0int, 0int)
    } else {
        match wheel {
            Some(input) => spec_wheel_vec(input),
            None => (0int, 0int),
        }
    };
    let d = if disabled {
        (0int, 0int)
    } else {
        match drag {
            Some((axis, draggable)) => match draggable.diff {
                Some(diff) => if drag_state_active(draggable.state) {
                    let raw = match axis {
                        ScrollAxis::Horizontal => diff.x as int,
                        ScrollAxis::Vertical => diff.y as int,
                    };
                    let delta = spec_drag_delta(
                        raw,
                        spec_along(container, axis) as int,
                        spec_along(content, axis) as int,
                        spec_along(handle, axis) as int,
                    );
                    match axis {
                        ScrollAxis::Horizontal => (delta, 0int),
                        ScrollAxis::Vertical => (0int, delta),
                    }
                } else {
                    (0int, 0int)
                },
                None => (0int, 0int),
            },
            None => (0int, 0int),
        }
    };
    (v.scroll_offset.x + w.0 + d.0, v.scroll_offset.y + w.1 + d.1)
}

/// The `(x, y)` scroll offset a full tick leaves stored: the aggregated
/// unclamped offset, clamped per axis against the overflow.
pub open spec fn spec_tick_offsets(
    v: ScrollView,
    interaction: Option<TrackedStyleState>,
    wheel: Option<ScrollInput>,
    drag: Option<(ScrollAxis, Draggable)>,
    container: Size,
    content: Size,
    handle: Size,
) -> (int, int) {
    let raw = spec_tick_unclamped(v, interaction, wheel, drag, container, content, handle);
    (
        spec_clamped_axis_offset(raw.0, container.width as int, content.width as int),
        spec_clamped_axis_offset(raw.1, container.height as int, content.height as int),
    )
}

/// The handle node a drag on `axis` reads its extent from.
pub open spec fn spec_drag_handle_node(v: ScrollView, drag: Option<(ScrollAxis, Draggable)>) -> NodeId {
    match drag {
        Some((ScrollAxis::Horizontal, _)) => v.horizontal_scroll_bar_handle,
        Some((ScrollAxis::Vertical, _)) => v.vertical_scroll_bar_handle,
        None => v.horizontal_scroll_bar_handle,
    }
}

/// The machine-limit side conditions one tick needs: every intermediate
/// offset sum fits the offset type, and a drag delta fits the bound that
/// keeps the proportional product within the machine word.
pub open spec fn tick_input_fits(
    v: ScrollView,
    interaction: Option<TrackedStyleState>,
    wheel: Option<ScrollInput>,
    drag: Option<(ScrollAxis, Draggable)>,
    container: Size,
    content: Size,
    handle: Size,
) -> bool {
    let disabled = spec_tick_disabled(v, interaction);
    let w = match wheel {
        Some(input) => spec_wheel_vec(input),
        None => (0int, 0int),
    };
    let after_drag = spec_tick_unclamped(v, interaction, wheel, drag, container, content, handle);
    &&& !disabled ==> fits_i64(v.scroll_offset.x + w.0) && fits_i64(v.scroll_offset.y + w.1)
    &&& !disabled ==> fits_i64(after_drag.0) && fits_i64(after_drag.1)
    &&& !disabled ==> match drag {
        Some((axis, draggable)) => match draggable.diff {
            Some(diff) => drag_state_active(draggable.state) ==> -0x8000_0000 <= (match axis {
                ScrollAxis::Horizontal => diff.x as int,
                ScrollAxis::Vertical => diff.y as int,
            }) <= 0x8000_0000,
            None => true,
        },
        None => true,
    }
}

/// One full tick of the pipeline for one region, in the fixed pass
/// order: interaction update, wheel input, drag input, offset clamp,
/// layout. Each later pass observes only what the earlier passes
/// committed; no pass re-reads its own output. The wheel event, if any,
/// has already been resolved to this region; the drag event carries the
/// axis of the handle it happened on.
pub fn tick(
    arena: &mut NodeArena,
    frame: NodeId,
    scroll_view: &mut ScrollView,
    interaction: Option<TrackedStyleState>,
    wheel: Option<ScrollInput>,
    drag: Option<(ScrollAxis, Draggable)>,
)
    requires
        old(arena).wf(),
        old(scroll_view).valid_in(*old(arena), frame),
        tick_input_fits(
            *old(scroll_view),
            interaction,
            wheel,
            drag,
            old(arena).node(frame).size,
            old(arena).node(old(scroll_view).content_container).size,
            old(arena).node(spec_drag_handle_node(*old(scroll_view), drag)).size,
        ),
    ensures
        final(arena).wf(),
        final(scroll_view).disabled == spec_tick_disabled(*old(scroll_view), interaction),
        *final(scroll_view) == (ScrollView {
            scroll_offset: final(scroll_view).scroll_offset,
            disabled: final(scroll_view).disabled,
            ..*old(scroll_view)
        }),
        (final(scroll_view).scroll_offset.x as int, final(scroll_view).scroll_offset.y as int)
            == spec_tick_offsets(
            *old(scroll_view),
            interaction,
            wheel,
            drag,
            old(arena).node(frame).size,
            old(arena).node(old(scroll_view).content_container).size,
            old(arena).node(spec_drag_handle_node(*old(scroll_view), drag)).size,
        ),
        layout_post(*old(arena), *final(arena), frame, *final(scroll_view)),
{
    match interaction {
        Some(state) => update_scroll_view_on_tracked_style_state_change(scroll_view, state),
        None => (),
    }
    let scrollable = Scrollable { last_change: wheel };
    update_scroll_view_on_scroll(scroll_view, &scrollable);
    match drag {
        Some((axis, draggable)) => {
            let container = arena.size_of(frame);
            let content = arena.size_of(scroll_view.content_container);
            let handle_id = match axis {
                ScrollAxis::Horizontal => scroll_view.horizontal_scroll_bar_handle,
                ScrollAxis::Vertical => scroll_view.vertical_scroll_bar_handle,
            };
            let handle = arena.size_of(handle_id);
            update_scroll_view_on_drag(scroll_view, &draggable, axis, container, content, handle);
        },
        None => (),
    }
    let container = arena.size_of(frame);
    let content = arena.size_of(scroll_view.content_container);
    update_scroll_view_offset(scroll_view, container, content);
    update_scroll_view_layout(arena, frame, scroll_view);
}

/// The arenas hold the same nodes up to views: same sizes, lock sets,
/// computed style maps and pseudo-state sets.
pub open spec fn arena_views_equal(a: NodeArena, b: NodeArena) -> bool {
    &&& a.nodes@.len() == b.nodes@.len()
    &&& forall|j: int|
        0 <= j < a.nodes@.len() ==> {
            &&& (#[trigger] a.nodes@[j]).size == b.nodes@[j].size
            &&& a.nodes@[j].locked@ == b.nodes@[j].locked@
            &&& a.nodes@[j].computed@ == b.nodes@[j].computed@
            &&& a.nodes@[j].pseudo_states@ == b.nodes@[j].pseudo_states@
        }
}

/// The roles of a valid region are pairwise distinct nodes.
pub proof fn lemma_roles_distinct(v: ScrollView, arena: NodeArena, frame: NodeId)
    requires
        v.valid_in(arena, frame),
    ensures
        frame != v.viewport,
        frame != v.content_container,
        frame != v.horizontal_scroll_bar,
        frame != v.horizontal_scroll_bar_handle,
        frame != v.vertical_scroll_bar,
        frame != v.vertical_scroll_bar_handle,
        v.content_container != v.viewport,
        v.content_container != v.horizontal_scroll_bar,
        v.content_container != v.horizontal_scroll_bar_handle,
        v.content_container != v.vertical_scroll_bar,
        v.content_container != v.vertical_scroll_bar_handle,
        v.vertical_scroll_bar_handle != v.viewport,
        v.vertical_scroll_bar_handle != v.horizontal_scroll_bar,
        v.vertical_scroll_bar_handle != v.horizontal_scroll_bar_handle,
        v.vertical_scroll_bar_handle != v.vertical_scroll_bar,
        v.horizontal_scroll_bar_handle != v.viewport,
        v.horizontal_scroll_bar_handle != v.horizontal_scroll_bar,
        v.horizontal_scroll_bar_handle != v.vertical_scroll_bar,
{
    let ids = seq![
        frame,
        v.viewport,
        v.content_container,
        v.horizontal_scroll_bar,
        v.horizontal_scroll_bar_handle,
        v.vertical_scroll_bar,
        v.vertical_scroll_bar_handle,
    ];
    assert(ids.no_duplicates());
    assert(ids[0] == frame);
    assert(ids[1] == v.viewport);
    assert(ids[2] == v.content_container);
    assert(ids[3] == v.horizontal_scroll_bar);
    assert(ids[4] == v.horizontal_scroll_bar_handle);
    assert(ids[5] == v.vertical_scroll_bar);
    assert(ids[6] == v.vertical_scroll_bar_handle);
}

/// Running the layout pass twice with no intervening input produces
/// identical derived state: the second run writes exactly the values the
/// first run wrote, so the arenas after the first and after the second
/// run agree on every node's size, locks, computed style and
/// pseudo-states.
pub proof fn lemma_layout_idempotent(
    a0: NodeArena,
    a1: NodeArena,
    a2: NodeArena,
    frame: NodeId,
    v: ScrollView,
)
    requires
        v.valid_in(a0, frame),
        layout_post(a0, a1, frame, v),
        layout_post(a1, a2, frame, v),
    ensures
        arena_views_equal(a2, a1),
{
    lemma_roles_distinct(v, a0, frame);
    let f = frame as int;
    let c = v.content_container as int;
    let vb = v.vertical_scroll_bar as int;
    let hb = v.horizontal_scroll_bar as int;
    let vh = v.vertical_scroll_bar_handle as int;
    let hh = v.horizontal_scroll_bar_handle as int;
    assert(a1.nodes@[f].size == a0.nodes@[f].size);
    assert(a1.nodes@[c].size == a0.nodes@[c].size);
    assert(a1.nodes@[vb] == a0.nodes@[vb]);
    assert(a1.nodes@[hb] == a0.nodes@[hb]);
    assert(a1.nodes@[vh].size == a0.nodes@[vh].size);
    assert(a1.nodes@[hh].size == a0.nodes@[hh].size);
    assert(a2.nodes@[f].pseudo_states@ =~= a1.nodes@[f].pseudo_states@);
    assert(a2.nodes@[c].computed@ =~= a1.nodes@[c].computed@);
    assert(a2.nodes@[vh].computed@ =~= a1.nodes@[vh].computed@);
    assert(a2.nodes@[hh].computed@ =~= a1.nodes@[hh].computed@);
}

/// Scrolling is suspended while the region's interaction phase is
/// entering or transitioning: a tick that sees such a phase ignores its
/// wheel and drag input and leaves the stored offset where it was. The
/// law speaks of a settled offset — one the clamp pass would leave in
/// place — since the clamp pass corrects an out-of-range stored offset
/// even on a suspended tick.
pub proof fn lemma_disabled_suspends_scrolling(
    v: ScrollView,
    state: TrackedStyleState,
    wheel: ScrollInput,
    drag: Option<(ScrollAxis, Draggable)>,
    container: Size,
    content: Size,
    handle: Size,
)
    requires
        state_disables_scrolling(state),
        v.scroll_offset.x as int == spec_clamped_axis_offset(
            v.scroll_offset.x as int,
            container.width as int,
            content.width as int,
        ),
        v.scroll_offset.y as int == spec_clamped_axis_offset(
            v.scroll_offset.y as int,
            container.height as int,
            content.height as int,
        ),
    ensures
        spec_tick_offsets(v, Some(state), Some(wheel), drag, container, content, handle) == (
            v.scroll_offset.x as int,
            v.scroll_offset.y as int,
        ),
{
}

/// Whether two string slices hold the same characters.
fn str_eq(a: &str, b: &str) -> (r: bool)
    ensures
        r == (a@ == b@),
{
    broadcast use vstd::string::group_string_axioms;

    let sa: String = a.to_string();
    let sb: String = b.to_string();
    sa == sb
}

impl ScrollView {
    /// Resolves a sub-element of this region by its symbolic name; an
    /// unknown name is a reportable error listing the valid names, not a
    /// panic, since it is reachable from external misconfiguration.
    pub fn get(&self, target: &str) -> (r: Result<NodeId, String>)
        ensures
            target@ == "Viewport"@ ==> r == Ok::<NodeId, String>(self.viewport),
            target@ == "ContentContainer"@ ==> r == Ok::<NodeId, String>(self.content_container),
            target@ == "HorizontalScrollBar"@ ==> r == Ok::<NodeId, String>(
                self.horizontal_scroll_bar,
            ),
            target@ == "HorizontalScrollHandle"@ ==> r == Ok::<NodeId, String>(
                self.horizontal_scroll_bar_handle,
            ),
            target@ == "VerticalScrollBar"@ ==> r == Ok::<NodeId, String>(
                self.vertical_scroll_bar,
            ),
            target@ == "VerticalScrollHandle"@ ==> r == Ok::<NodeId, String>(
                self.vertical_scroll_bar_handle,
            ),
            target@ != "Viewport"@ && target@ != "ContentContainer"@ && target@
                != "HorizontalScrollBar"@ && target@ != "HorizontalScrollHandle"@ && target@
                != "VerticalScrollBar"@ && target@ != "VerticalScrollHandle"@ ==> match r {
                Err(message) => message@ == target@
                    + " does not exist for ScrollView. Possible contexts: Viewport, ContentContainer, HorizontalScrollBar, HorizontalScrollHandle, VerticalScrollBar, VerticalScrollHandle"@,
                Ok(_) => false,
            },
    {
        broadcast use vstd::string::group_string_axioms;

        proof {
            reveal_strlit("Viewport");
            reveal_strlit("ContentContainer");
            reveal_strlit("HorizontalScrollBar");
            reveal_strlit("HorizontalScrollHandle");
            reveal_strlit("VerticalScrollBar");
            reveal_strlit("VerticalScrollHandle");
            assert("Viewport"@.len() == 8);
            assert("ContentContainer"@.len() == 16);
            assert("HorizontalScrollBar"@.len() == 19);
            assert("HorizontalScrollHandle"@.len() == 22);
            assert("VerticalScrollBar"@.len() == 17);
            assert("VerticalScrollHandle"@.len() == 20);
        }
        if str_eq(target, "Viewport") {
            Ok(self.viewport)
        } else if str_eq(target, "ContentContainer") {
            Ok(self.content_container)
        } else if str_eq(target, "HorizontalScrollBar") {
            Ok(self.horizontal_scroll_bar)
        } else if str_eq(target, "HorizontalScrollHandle") {
            Ok(self.horizontal_scroll_bar_handle)
        } else if str_eq(target, "VerticalScrollBar") {
            Ok(self.vertical_scroll_bar)
        } else if str_eq(target, "VerticalScrollHandle") {
            Ok(self.vertical_scroll_bar_handle)
        } else {
            let mut message: String = target.to_string();
            message.append(
                " does not exist for ScrollView. Possible contexts: Viewport, ContentContainer, HorizontalScrollBar, HorizontalScrollHandle, VerticalScrollBar, VerticalScrollHandle",
            );
            Err(message)
        }
    }

    /// The symbolic names of this control's sub-elements, in the order
    /// the theme targets them.
    pub fn contexts(&self) -> (r: Vec<&'static str>)
        ensures
            r@.len() == 6,
            r@[0]@ == "Viewport"@,
            r@[1]@ == "ContentContainer"@,
            r@[2]@ == "HorizontalScrollBar"@,
            r@[3]@ == "HorizontalScrollHandle"@,
            r@[4]@ == "VerticalScrollBar"@,
            r@[5]@ == "VerticalScrollHandle"@,
    {
        let mut r: Vec<&'static str> = Vec::new();
        r.push("Viewport");
        r.push("ContentContainer");
        r.push("HorizontalScrollBar");
        r.push("HorizontalScrollHandle");
        r.push("VerticalScrollBar");
        r.push("VerticalScrollHandle");
        r
    }

    /// The lock table of the frame node: the attributes the control's
    /// own layout owns on it.
    pub fn frame() -> (r: LockedStyleAttributes)
        ensures
            r.wf(),
            r@ == set![
                LockableStyleAttribute::Width,
                LockableStyleAttribute::Height,
                LockableStyleAttribute::Border,
                LockableStyleAttribute::Padding,
                LockableStyleAttribute::FlexDirection,
            ],
    {
        let r = LockedStyleAttributes::from_vec(
            vec![
                LockableStyleAttribute::Width,
                LockableStyleAttribute::Height,
                LockableStyleAttribute::Border,
                LockableStyleAttribute::Padding,
                LockableStyleAttribute::FlexDirection,
            ],
        );
        proof {
            assert(r@ =~= set![
                LockableStyleAttribute::Width,
                LockableStyleAttribute::Height,
                LockableStyleAttribute::Border,
                LockableStyleAttribute::Padding,
                LockableStyleAttribute::FlexDirection,
            ]);
        }
        r
    }

    /// The lock table of the clipped viewport node.
    pub fn viewport(_scroll_view: NodeId) -> (r: LockedStyleAttributes)
        ensures
            r.wf(),
            r@ == set![
                LockableStyleAttribute::PositionType,
                LockableStyleAttribute::Width,
                LockableStyleAttribute::Height,
                LockableStyleAttribute::Overflow,
                LockableStyleAttribute::FocusPolicy,
                LockableStyleAttribute::Border,
                LockableStyleAttribute::Padding,
                LockableStyleAttribute::Margin,
            ],
    {
        let r = LockedStyleAttributes::from_vec(
            vec![
                LockableStyleAttribute::PositionType,
                LockableStyleAttribute::Width,
                LockableStyleAttribute::Height,
                LockableStyleAttribute::Overflow,
                LockableStyleAttribute::FocusPolicy,
                LockableStyleAttribute::Border,
                LockableStyleAttribute::Padding,
                LockableStyleAttribute::Margin,
            ],
        );
        proof {
            assert(r@ =~= set![
                LockableStyleAttribute::PositionType,
                LockableStyleAttribute::Width,
                LockableStyleAttribute::Height,
                LockableStyleAttribute::Overflow,
                LockableStyleAttribute::FocusPolicy,
                LockableStyleAttribute::Border,
                LockableStyleAttribute::Padding,
                LockableStyleAttribute::Margin,
            ]);
        }
        r
    }

    /// The initial width and height of the content container — an axis
    /// restriction pins the cross axis to the viewport — and its lock
    /// table.
    pub fn content(_scroll_view: NodeId, restrict_to: Option<ScrollAxis>) -> (r: (
        StyleValue,
        StyleValue,
        LockedStyleAttributes,
    ))
        ensures
            r.0 == match restrict_to {
                Some(ScrollAxis::Horizontal) => StyleValue::Auto,
                Some(ScrollAxis::Vertical) => StyleValue::Percent(100),
                None => StyleValue::Auto,
            },
            r.1 == match restrict_to {
                Some(ScrollAxis::Horizontal) => StyleValue::Percent(100),
                Some(ScrollAxis::Vertical) => StyleValue::Auto,
                None => StyleValue::Auto,
            },
            r.2.wf(),
            r.2@ == set![
                LockableStyleAttribute::PositionType,
                LockableStyleAttribute::MinWidth,
                LockableStyleAttribute::MinHeight,
                LockableStyleAttribute::JustifySelf,
                LockableStyleAttribute::AlignSelf,
                LockableStyleAttribute::FlexDirection,
                LockableStyleAttribute::FlexShrink,
            ],
    {
        let width = match restrict_to {
            Some(ScrollAxis::Horizontal) => StyleValue::Auto,
            Some(ScrollAxis::Vertical) => StyleValue::Percent(100),
            None => StyleValue::Auto,
        };
        let height = match restrict_to {
            Some(ScrollAxis::Horizontal) => StyleValue::Percent(100),
            Some(ScrollAxis::Vertical) => StyleValue::Auto,
            None => StyleValue::Auto,
        };
        let locked = LockedStyleAttributes::from_vec(
            vec![
                LockableStyleAttribute::PositionType,
                LockableStyleAttribute::MinWidth,
                LockableStyleAttribute::MinHeight,
                LockableStyleAttribute::JustifySelf,
                LockableStyleAttribute::AlignSelf,
                LockableStyleAttribute::FlexDirection,
                LockableStyleAttribute::FlexShrink,
            ],
        );
        proof {
            assert(locked@ =~= set![
                LockableStyleAttribute::PositionType,
                LockableStyleAttribute::MinWidth,
                LockableStyleAttribute::MinHeight,
                LockableStyleAttribute::JustifySelf,
                LockableStyleAttribute::AlignSelf,
                LockableStyleAttribute::FlexDirection,
                LockableStyleAttribute::FlexShrink,
            ]);
        }
        (width, height, locked)
    }

    /// The lock table of a scrollbar track node.
    pub fn scroll_bar(_axis: ScrollAxis) -> (r: LockedStyleAttributes)
        ensures
            r.wf(),
            r@ == set![
                LockableStyleAttribute::PositionType,
                LockableStyleAttribute::JustifyContent,
                LockableStyleAttribute::FocusPolicy,
                LockableStyleAttribute::ZIndex,
            ],
    {
        let r = LockedStyleAttributes::from_vec(
            vec![
                LockableStyleAttribute::PositionType,
                LockableStyleAttribute::JustifyContent,
                LockableStyleAttribute::FocusPolicy,
                LockableStyleAttribute::ZIndex,
            ],
        );
        proof {
            assert(r@ =~= set![
                LockableStyleAttribute::PositionType,
                LockableStyleAttribute::JustifyContent,
                LockableStyleAttribute::FocusPolicy,
                LockableStyleAttribute::ZIndex,
            ]);
        }
        r
    }

    /// The lock table of a scrollbar handle node: the attributes the
    /// layout pass writes through the lock-bypassing path.
    pub fn scroll_bar_handle(_scroll_view: NodeId, _axis: ScrollAxis) -> (r: LockedStyleAttributes)
        ensures
            r.wf(),
            r@ == set![
                LockableStyleAttribute::Width,
                LockableStyleAttribute::Height,
                LockableStyleAttribute::Top,
                LockableStyleAttribute::Left,
            ],
    {
        let r = LockedStyleAttributes::from_vec(
            vec![
                LockableStyleAttribute::Width,
                LockableStyleAttribute::Height,
                LockableStyleAttribute::Top,
                LockableStyleAttribute::Left,
            ],
        );
        proof {
            assert(r@ =~= set![
                LockableStyleAttribute::Width,
                LockableStyleAttribute::Height,
                LockableStyleAttribute::Top,
                LockableStyleAttribute::Left,
            ]);
        }
        r
    }
}

impl NodeArena {
    /// Constructs the compound scroll-region control: seven fresh nodes
    /// — frame, viewport, content container, two bars, two handles —
    /// each with the lock table its role demands, and the region record
    /// with every role identity assigned before it is returned. The
    /// content container's initial extent follows the axis restriction.
    pub fn scroll_view(&mut self, restrict_to: Option<ScrollAxis>) -> (r: (NodeId, ScrollView))
        requires
            old(self).wf(),
        ensures
            final(self).wf(),
            final(self).nodes@.len() == old(self).nodes@.len() + 7,
            forall|j: int|
                0 <= j < old(self).nodes@.len() ==> final(self).nodes@[j] == old(self).nodes@[j],
            r.1.valid_in(*final(self), r.0),
            r.0 == old(self).nodes@.len(),
            r.1 == (ScrollView {
                viewport: (old(self).nodes@.len() + 1) as usize,
                content_container: (old(self).nodes@.len() + 2) as usize,
                horizontal_scroll_bar: (old(self).nodes@.len() + 3) as usize,
                horizontal_scroll_bar_handle: (old(self).nodes@.len() + 4) as usize,
                vertical_scroll_bar: (old(self).nodes@.len() + 5) as usize,
                vertical_scroll_bar_handle: (old(self).nodes@.len() + 6) as usize,
                scroll_offset: Vec2 { x: 0, y: 0 },
                restricted_to: restrict_to,
                disabled: false,
            }),
            final(self).node(r.0).locked@ == set![
                LockableStyleAttribute::Width,
                LockableStyleAttribute::Height,
                LockableStyleAttribute::Border,
                LockableStyleAttribute::Padding,
                LockableStyleAttribute::FlexDirection,
            ],
            final(self).node(r.1.content_container).locked@ == set![
                LockableStyleAttribute::PositionType,
                LockableStyleAttribute::MinWidth,
                LockableStyleAttribute::MinHeight,
                LockableStyleAttribute::JustifySelf,
                LockableStyleAttribute::AlignSelf,
                LockableStyleAttribute::FlexDirection,
                LockableStyleAttribute::FlexShrink,
            ],
            final(self).node(r.1.horizontal_scroll_bar_handle).locked@ == set![
                LockableStyleAttribute::Width,
                LockableStyleAttribute::Height,
                LockableStyleAttribute::Top,
                LockableStyleAttribute::Left,
            ],
            final(self).node(r.1.vertical_scroll_bar_handle).locked@ == set![
                LockableStyleAttribute::Width,
                LockableStyleAttribute::Height,
                LockableStyleAttribute::Top,
                LockableStyleAttribute::Left,
            ],
            final(self).node(r.1.content_container).computed@ == Map::<
                LockableStyleAttribute,
                StyleValue,
            >::empty().insert(
                LockableStyleAttribute::Width,
                match restrict_to {
                    Some(ScrollAxis::Horizontal) => StyleValue::Auto,
                    Some(ScrollAxis::Vertical) => StyleValue::Percent(100),
                    None => StyleValue::Auto,
                },
            ).insert(
                LockableStyleAttribute::Height,
                match restrict_to {
                    Some(ScrollAxis::Horizontal) => StyleValue::Percent(100),
                    Some(ScrollAxis::Vertical) => StyleValue::Auto,
                    None => StyleValue::Auto,
                },
            ),
            final(self).node(r.0).pseudo_states@ == Set::<PseudoState>::empty(),
    {
        let zero = Size { width: 0, height: 0 };
        let frame = self.spawn(zero, ScrollView::frame());
        let viewport = self.spawn(zero, ScrollView::viewport(frame));
        let (content_width, content_height, content_locks) = ScrollView::content(
            frame,
            restrict_to,
        );
        let content_container = self.spawn(zero, content_locks);
        self.style_unchecked(content_container, LockableStyleAttribute::Width, content_width);
        self.style_unchecked(content_container, LockableStyleAttribute::Height, content_height);
        let horizontal_scroll_bar = self.spawn(zero, ScrollView::scroll_bar(ScrollAxis::Horizontal));
        let horizontal_scroll_bar_handle = self.spawn(
            zero,
            ScrollView::scroll_bar_handle(frame, ScrollAxis::Horizontal),
        );
        let vertical_scroll_bar = self.spawn(zero, ScrollView::scroll_bar(ScrollAxis::Vertical));
        let vertical_scroll_bar_handle = self.spawn(
            zero,
            ScrollView::scroll_bar_handle(frame, ScrollAxis::Vertical),
        );
        let view = ScrollView {
            viewport,
            content_container,
            horizontal_scroll_bar,
            horizontal_scroll_bar_handle,
            vertical_scroll_bar,
            vertical_scroll_bar_handle,
            scroll_offset: Vec2 { x: 0, y: 0 },
            restricted_to: restrict_to,
            disabled: false,
        };
        (frame, view)
    }
}

} // verus!
