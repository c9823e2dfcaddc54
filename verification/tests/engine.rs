use sickle_scroll::geometry::{
    clamp_axis_offset, drag_scroll_delta, handle_extent, handle_offset, wheel_offset, ScrollAxis,
    ScrollUnit, Size, Vec2,
};
use sickle_scroll::node::NodeArena;
use sickle_scroll::pseudo_state::PseudoState;
use sickle_scroll::scroll_view::{
    scroll_target_region, update_scroll_view_layout, update_scroll_view_offset,
    update_scroll_view_on_drag, update_scroll_view_on_scroll,
    update_scroll_view_on_tracked_style_state_change, tick, DragState, Draggable, ScrollBarHandle,
    ScrollInput, ScrollView, ScrollViewViewport, Scrollable,
};
use sickle_scroll::ui_style::{LockableStyleAttribute, StyleValue, TrackedStyleState};

fn sized_region(
    arena: &mut NodeArena,
    container: (u32, u32),
    content: (u32, u32),
) -> (usize, ScrollView) {
    let (frame, view) = arena.scroll_view(Some(ScrollAxis::Vertical));
    arena.set_size(frame, Size { width: container.0, height: container.1 });
    arena.set_size(view.content_container, Size { width: content.0, height: content.1 });
    arena.set_size(view.vertical_scroll_bar, Size { width: 12, height: container.1 });
    arena.set_size(view.horizontal_scroll_bar, Size { width: container.0, height: 12 });
    (frame, view)
}

#[test]
fn zero_offset_is_the_default() {
    assert_eq!(Vec2::zero(), Vec2 { x: 0, y: 0 });
    assert_eq!(Vec2::default(), Vec2::zero());
    assert_eq!(Size::default(), Size { width: 0, height: 0 });
    assert_eq!(ScrollAxis::default(), ScrollAxis::Horizontal);
}

#[test]
fn wheel_line_delta_scales_by_twenty() {
    let d = wheel_offset(ScrollAxis::Vertical, 3, ScrollUnit::Line);
    assert_eq!(d, Vec2 { x: 0, y: 60 });
    let d = wheel_offset(ScrollAxis::Horizontal, -2, ScrollUnit::Line);
    assert_eq!(d, Vec2 { x: -40, y: 0 });
}

#[test]
fn wheel_pixel_delta_passes_through() {
    let d = wheel_offset(ScrollAxis::Vertical, 17, ScrollUnit::Pixel);
    assert_eq!(d, Vec2 { x: 0, y: 17 });
    let d = wheel_offset(ScrollAxis::Horizontal, -9, ScrollUnit::Pixel);
    assert_eq!(d, Vec2 { x: -9, y: 0 });
}

#[test]
fn clamp_bounds_offset_only_with_overflow() {
    assert_eq!(clamp_axis_offset(660, 600), 600);
    assert_eq!(clamp_axis_offset(-5, 600), 0);
    assert_eq!(clamp_axis_offset(50, 600), 50);
    // without overflow the stored value is kept, not pinned to zero
    assert_eq!(clamp_axis_offset(77, 0), 77);
    assert_eq!(clamp_axis_offset(-3, -10), -3);
}

#[test]
fn drag_delta_scales_by_overflow_over_remaining_track() {
    // overflow 600, remaining track 200, ratio 3
    assert_eq!(drag_scroll_delta(10, 300, 900, 100), 30);
    assert_eq!(drag_scroll_delta(-10, 300, 900, 100), -30);
}

#[test]
fn drag_without_overflow_scrolls_nothing() {
    assert_eq!(drag_scroll_delta(10, 300, 300, 100), 0);
    assert_eq!(drag_scroll_delta(10, 300, 200, 100), 0);
}

#[test]
fn drag_with_full_track_handle_scrolls_nothing() {
    // handle fills the whole track: filtered before the ratio division
    assert_eq!(drag_scroll_delta(10, 300, 900, 300), 0);
    assert_eq!(drag_scroll_delta(10, 300, 900, 400), 0);
}

#[test]
fn handle_extent_is_proportional() {
    // visible ratio 300/900 on a 300 track
    assert_eq!(handle_extent(300, 900, 300), 100);
    assert_eq!(handle_extent(300, 300, 300), 300);
    assert_eq!(handle_extent(100, 200, 50), 25);
}

#[test]
fn handle_extent_floor_keeps_handles_grabbable() {
    assert_eq!(handle_extent(1, 1_000_000, 300), 5);
    assert_eq!(handle_extent(10, 1000, 200), 5);
    assert_eq!(handle_extent(10, 20, 3), 5);
}

#[test]
fn handle_offset_remaps_clamped_offset_onto_track() {
    // offset 60 of overflow 600, remaining track 200
    assert_eq!(handle_offset(60, 600, 300, 100), 20);
    assert_eq!(handle_offset(600, 600, 300, 100), 200);
    assert_eq!(handle_offset(0, 600, 300, 100), 0);
}

#[test]
fn handle_offset_with_tiny_track_goes_negative() {
    // the floor makes the handle larger than its 3 px track, so the
    // remaining track is negative and the offset leans past the start
    assert_eq!(handle_extent(10, 20, 3), 5);
    assert_eq!(handle_offset(10, 10, 3, 5), -2);
}

#[test]
fn horizontal_wheel_scenario() {
    let mut arena = NodeArena::new();
    let (frame, mut view) = sized_region(&mut arena, (400, 300), (600, 300));
    tick(
        &mut arena,
        frame,
        &mut view,
        None,
        Some(ScrollInput { axis: ScrollAxis::Horizontal, amount: 2, unit: ScrollUnit::Line }),
        None,
    );
    assert_eq!(view.scroll_offset, Vec2 { x: 40, y: 0 });
    assert!(arena.has_pseudo_state(frame, PseudoState::OverflowX));
    assert!(!arena.has_pseudo_state(frame, PseudoState::OverflowY));
    assert_eq!(
        arena.get_attr(view.content_container, LockableStyleAttribute::Left),
        Some(StyleValue::Px(-40))
    );
}

#[test]
fn tracked_state_enter_and_transitioning_disable() {
    let mut view = ScrollView::default();
    update_scroll_view_on_tracked_style_state_change(&mut view, TrackedStyleState::Enter);
    assert!(view.disabled);
    update_scroll_view_on_tracked_style_state_change(&mut view, TrackedStyleState::Transitioning);
    assert!(view.disabled);
    update_scroll_view_on_tracked_style_state_change(&mut view, TrackedStyleState::Idle);
    assert!(!view.disabled);
}

#[test]
fn wheel_target_prefers_viewport_then_handle() {
    let viewport = ScrollViewViewport { scroll_view: 3 };
    let handle = ScrollBarHandle { axis: ScrollAxis::Vertical, scroll_view: 9 };
    assert_eq!(scroll_target_region(Some(&viewport), Some(&handle)), Some(3));
    assert_eq!(scroll_target_region(None, Some(&handle)), Some(9));
    assert_eq!(scroll_target_region(None, None), None);
}

#[test]
fn wheel_pass_adds_unclamped() {
    let mut view = ScrollView::default();
    let input = Scrollable {
        last_change: Some(ScrollInput {
            axis: ScrollAxis::Vertical,
            amount: 50,
            unit: ScrollUnit::Line,
        }),
    };
    update_scroll_view_on_scroll(&mut view, &input);
    // 50 lines * 20 px, not yet clamped by any overflow
    assert_eq!(view.scroll_offset, Vec2 { x: 0, y: 1000 });
}

#[test]
fn wheel_pass_skips_disabled_regions() {
    let mut view = ScrollView::default();
    view.disabled = true;
    let input = Scrollable {
        last_change: Some(ScrollInput {
            axis: ScrollAxis::Vertical,
            amount: 3,
            unit: ScrollUnit::Line,
        }),
    };
    update_scroll_view_on_scroll(&mut view, &input);
    assert_eq!(view.scroll_offset, Vec2 { x: 0, y: 0 });
}

#[test]
fn drag_pass_ignores_inactive_phases() {
    for state in [DragState::Inactive, DragState::MaybeDragged, DragState::Canceled] {
        let mut view = ScrollView::default();
        let draggable = Draggable { state, diff: Some(Vec2 { x: 0, y: 10 }) };
        update_scroll_view_on_drag(
            &mut view,
            &draggable,
            ScrollAxis::Vertical,
            Size { width: 400, height: 300 },
            Size { width: 400, height: 900 },
            Size { width: 12, height: 100 },
        );
        assert_eq!(view.scroll_offset, Vec2 { x: 0, y: 0 });
    }
}

#[test]
fn drag_pass_applies_ratio() {
    let mut view = ScrollView::default();
    let draggable = Draggable { state: DragState::Dragged, diff: Some(Vec2 { x: 0, y: 10 }) };
    update_scroll_view_on_drag(
        &mut view,
        &draggable,
        ScrollAxis::Vertical,
        Size { width: 400, height: 300 },
        Size { width: 400, height: 900 },
        Size { width: 12, height: 100 },
    );
    // overflow 600 over remaining track 200: ratio 3
    assert_eq!(view.scroll_offset, Vec2 { x: 0, y: 30 });
}

#[test]
fn clamp_pass_clamps_each_axis_independently() {
    let mut view = ScrollView::default();
    view.scroll_offset = Vec2 { x: -40, y: 700 };
    update_scroll_view_offset(
        &mut view,
        Size { width: 400, height: 300 },
        Size { width: 500, height: 900 },
    );
    assert_eq!(view.scroll_offset, Vec2 { x: 0, y: 600 });
}

#[test]
fn clamp_pass_skips_zero_extent_axis_and_keeps_no_overflow_offset() {
    let mut view = ScrollView::default();
    view.scroll_offset = Vec2 { x: 33, y: 44 };
    // zero container width: horizontal axis untouched; no vertical overflow:
    // the stored value is kept
    update_scroll_view_offset(
        &mut view,
        Size { width: 0, height: 300 },
        Size { width: 500, height: 300 },
    );
    assert_eq!(view.scroll_offset, Vec2 { x: 33, y: 44 });
}

#[test]
fn vertical_wheel_scenario_produces_expected_geometry() {
    // container 400x300, content 400x900, wheel 3 lines on the vertical axis
    let mut arena = NodeArena::new();
    let (frame, mut view) = sized_region(&mut arena, (400, 300), (400, 900));
    tick(
        &mut arena,
        frame,
        &mut view,
        None,
        Some(ScrollInput { axis: ScrollAxis::Vertical, amount: 3, unit: ScrollUnit::Line }),
        None,
    );
    // raw delta 60 px, clamped into [0, 600]
    assert_eq!(view.scroll_offset, Vec2 { x: 0, y: 60 });
    assert!(arena.has_pseudo_state(frame, PseudoState::OverflowY));
    assert!(!arena.has_pseudo_state(frame, PseudoState::OverflowX));
    assert_eq!(
        arena.get_attr(view.content_container, LockableStyleAttribute::Top),
        Some(StyleValue::Px(-60))
    );
    // visible ratio 300/900 on the 300 px track, offset (60/600) * 200
    assert_eq!(
        arena.get_attr(view.vertical_scroll_bar_handle, LockableStyleAttribute::Height),
        Some(StyleValue::Px(100))
    );
    assert_eq!(
        arena.get_attr(view.vertical_scroll_bar_handle, LockableStyleAttribute::Top),
        Some(StyleValue::Px(20))
    );
}

#[test]
fn no_overflow_scenario_clears_tags_and_resets_offsets() {
    let mut arena = NodeArena::new();
    let (frame, mut view) = sized_region(&mut arena, (400, 300), (400, 300));
    view.scroll_offset = Vec2 { x: 25, y: 25 };
    tick(&mut arena, frame, &mut view, None, None, None);
    assert!(!arena.has_pseudo_state(frame, PseudoState::OverflowX));
    assert!(!arena.has_pseudo_state(frame, PseudoState::OverflowY));
    assert_eq!(
        arena.get_attr(view.content_container, LockableStyleAttribute::Top),
        Some(StyleValue::Px(0))
    );
    assert_eq!(
        arena.get_attr(view.content_container, LockableStyleAttribute::Left),
        Some(StyleValue::Px(0))
    );
    // only layout resets the visual offset, never the stored value
    assert_eq!(view.scroll_offset, Vec2 { x: 25, y: 25 });
    // no handle geometry was ever derived
    assert_eq!(
        arena.get_attr(view.vertical_scroll_bar_handle, LockableStyleAttribute::Height),
        None
    );
}

#[test]
fn disabled_tick_leaves_offset_unchanged() {
    for state in [TrackedStyleState::Enter, TrackedStyleState::Transitioning] {
        let mut arena = NodeArena::new();
        let (frame, mut view) = sized_region(&mut arena, (400, 300), (400, 900));
        view.scroll_offset = Vec2 { x: 0, y: 50 };
        tick(
            &mut arena,
            frame,
            &mut view,
            Some(state),
            Some(ScrollInput { axis: ScrollAxis::Vertical, amount: 3, unit: ScrollUnit::Line }),
            None,
        );
        assert_eq!(view.scroll_offset, Vec2 { x: 0, y: 50 });
        assert!(view.disabled);
        assert!(arena.has_pseudo_state(frame, PseudoState::Disabled));
    }
}

#[test]
fn drag_tick_with_full_track_handle_moves_nothing() {
    let mut arena = NodeArena::new();
    let (frame, mut view) = sized_region(&mut arena, (400, 300), (400, 900));
    // the measured handle fills the whole track
    arena.set_size(view.vertical_scroll_bar_handle, Size { width: 12, height: 300 });
    tick(
        &mut arena,
        frame,
        &mut view,
        None,
        None,
        Some((
            ScrollAxis::Vertical,
            Draggable { state: DragState::Dragged, diff: Some(Vec2 { x: 0, y: 10 }) },
        )),
    );
    assert_eq!(view.scroll_offset, Vec2 { x: 0, y: 0 });
}

#[test]
fn drag_tick_applies_and_clamps() {
    let mut arena = NodeArena::new();
    let (frame, mut view) = sized_region(&mut arena, (400, 300), (400, 900));
    arena.set_size(view.vertical_scroll_bar_handle, Size { width: 12, height: 100 });
    tick(
        &mut arena,
        frame,
        &mut view,
        None,
        None,
        Some((
            ScrollAxis::Vertical,
            Draggable { state: DragState::Dragged, diff: Some(Vec2 { x: 0, y: 10 }) },
        )),
    );
    assert_eq!(view.scroll_offset, Vec2 { x: 0, y: 30 });
}

#[test]
fn layout_pass_is_idempotent() {
    let mut arena = NodeArena::new();
    let (frame, mut view) = sized_region(&mut arena, (400, 300), (500, 900));
    view.scroll_offset = Vec2 { x: 30, y: 60 };
    update_scroll_view_layout(&mut arena, frame, &view);
    let first = (
        arena.get_attr(view.content_container, LockableStyleAttribute::Top),
        arena.get_attr(view.content_container, LockableStyleAttribute::Left),
        arena.get_attr(view.vertical_scroll_bar_handle, LockableStyleAttribute::Height),
        arena.get_attr(view.vertical_scroll_bar_handle, LockableStyleAttribute::Top),
        arena.get_attr(view.horizontal_scroll_bar_handle, LockableStyleAttribute::Width),
        arena.get_attr(view.horizontal_scroll_bar_handle, LockableStyleAttribute::Left),
    );
    update_scroll_view_layout(&mut arena, frame, &view);
    let second = (
        arena.get_attr(view.content_container, LockableStyleAttribute::Top),
        arena.get_attr(view.content_container, LockableStyleAttribute::Left),
        arena.get_attr(view.vertical_scroll_bar_handle, LockableStyleAttribute::Height),
        arena.get_attr(view.vertical_scroll_bar_handle, LockableStyleAttribute::Top),
        arena.get_attr(view.horizontal_scroll_bar_handle, LockableStyleAttribute::Width),
        arena.get_attr(view.horizontal_scroll_bar_handle, LockableStyleAttribute::Left),
    );
    assert_eq!(first, second);
}

#[test]
fn layout_pass_marks_disabled_and_writes_nothing_else() {
    let mut arena = NodeArena::new();
    let (frame, mut view) = sized_region(&mut arena, (400, 300), (400, 900));
    view.disabled = true;
    view.scroll_offset = Vec2 { x: 0, y: 60 };
    update_scroll_view_layout(&mut arena, frame, &view);
    assert!(arena.has_pseudo_state(frame, PseudoState::Disabled));
    assert!(!arena.has_pseudo_state(frame, PseudoState::OverflowY));
    assert_eq!(arena.get_attr(view.content_container, LockableStyleAttribute::Top), None);
}
