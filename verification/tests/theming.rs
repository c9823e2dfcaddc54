use sickle_scroll::geometry::{ScrollAxis, Size};
use sickle_scroll::node::{NodeArena, PLACEHOLDER};
use sickle_scroll::pseudo_state::{PseudoState, PseudoStateSet};
use sickle_scroll::scroll_view::{ScrollBar, ScrollView, ScrollViewContent};
use sickle_scroll::theme::{
    apply_style_writes, apply_theme, ScrollTarget, StyleWrite, ThemeData,
};
use sickle_scroll::ui_style::{
    AnimatedVals, LockableStyleAttribute, LockedStyleAttributes, LogicalEq, Rgba, StyleValue,
    TrackedStyleState,
};

fn overflowing_region(arena: &mut NodeArena) -> (usize, ScrollView) {
    let (frame, view) = arena.scroll_view(None);
    arena.set_size(frame, Size { width: 400, height: 300 });
    arena.set_size(view.content_container, Size { width: 400, height: 900 });
    arena.set_size(view.vertical_scroll_bar, Size { width: 12, height: 300 });
    arena.set_size(view.horizontal_scroll_bar, Size { width: 400, height: 12 });
    (frame, view)
}

fn states(tags: &[PseudoState]) -> PseudoStateSet {
    let mut s = PseudoStateSet::new();
    for tag in tags {
        s.add(*tag);
    }
    s
}

#[test]
fn locked_attributes_deduplicate() {
    let locks = LockedStyleAttributes::from_vec(vec![
        LockableStyleAttribute::Width,
        LockableStyleAttribute::Width,
        LockableStyleAttribute::Height,
    ]);
    assert!(locks.contains(LockableStyleAttribute::Width));
    assert!(locks.contains(LockableStyleAttribute::Height));
    assert!(!locks.contains(LockableStyleAttribute::Top));
}

#[test]
fn lock_of_single_attribute() {
    let locks = LockedStyleAttributes::lock(LockableStyleAttribute::ZIndex);
    assert!(locks.contains(LockableStyleAttribute::ZIndex));
    assert!(!locks.contains(LockableStyleAttribute::Width));
}

#[test]
fn checked_write_respects_lock_unchecked_bypasses_it() {
    let mut arena = NodeArena::new();
    let node = arena.spawn(
        Size { width: 0, height: 0 },
        LockedStyleAttributes::lock(LockableStyleAttribute::Width),
    );
    arena.style_unchecked(node, LockableStyleAttribute::Width, StyleValue::Px(10));
    assert_eq!(arena.get_attr(node, LockableStyleAttribute::Width), Some(StyleValue::Px(10)));

    // a checked write to a locked attribute must not change the value
    arena.style(node, LockableStyleAttribute::Width, StyleValue::Px(99));
    assert_eq!(arena.get_attr(node, LockableStyleAttribute::Width), Some(StyleValue::Px(10)));

    // an unchecked write must
    arena.style_unchecked(node, LockableStyleAttribute::Width, StyleValue::Px(99));
    assert_eq!(arena.get_attr(node, LockableStyleAttribute::Width), Some(StyleValue::Px(99)));

    // a checked write to an unlocked attribute goes through
    arena.style(node, LockableStyleAttribute::Height, StyleValue::Px(7));
    assert_eq!(arena.get_attr(node, LockableStyleAttribute::Height), Some(StyleValue::Px(7)));
}

#[test]
fn theme_resolution_picks_most_specific_subset() {
    let data = ThemeData::default();
    let theme = ScrollView::theme(&data);
    assert_eq!(theme.resolve(&states(&[])), Some(0));
    assert_eq!(theme.resolve(&states(&[PseudoState::Disabled])), Some(1));
    assert_eq!(theme.resolve(&states(&[PseudoState::OverflowX])), Some(2));
    assert_eq!(theme.resolve(&states(&[PseudoState::OverflowY])), Some(3));
    assert_eq!(
        theme.resolve(&states(&[PseudoState::OverflowX, PseudoState::OverflowY])),
        Some(4)
    );
    // an unrelated extra tag does not change the most specific match
    assert_eq!(theme.resolve(&states(&[PseudoState::Hover, PseudoState::OverflowY])), Some(3));
    // equally specific matches fall back to theme order
    assert_eq!(
        theme.resolve(&states(&[PseudoState::Disabled, PseudoState::OverflowX])),
        Some(1)
    );
    // a tag no pattern mentions still matches the base entry
    assert_eq!(theme.resolve(&states(&[PseudoState::Hover])), Some(0));
    // both overflow tags beat each single-axis pattern even when disabled
    assert_eq!(
        theme.resolve(&states(&[
            PseudoState::Disabled,
            PseudoState::OverflowX,
            PseudoState::OverflowY,
        ])),
        Some(4)
    );
}

#[test]
fn base_theme_hides_scrollbars() {
    let mut arena = NodeArena::new();
    let (frame, view) = overflowing_region(&mut arena);
    let data = ThemeData::default();
    let theme = ScrollView::theme(&data);
    apply_theme(&mut arena, frame, &view, &theme);
    assert_eq!(
        arena.get_attr(view.horizontal_scroll_bar, LockableStyleAttribute::Visibility),
        Some(StyleValue::VisibilityHidden)
    );
    assert_eq!(
        arena.get_attr(view.vertical_scroll_bar, LockableStyleAttribute::Visibility),
        Some(StyleValue::VisibilityHidden)
    );
    assert_eq!(
        arena.get_attr(view.horizontal_scroll_bar, LockableStyleAttribute::Height),
        Some(StyleValue::Px(12))
    );
}

#[test]
fn overflow_theme_shows_bar_and_pads_content() {
    let mut arena = NodeArena::new();
    let (frame, view) = overflowing_region(&mut arena);
    arena.add_pseudo_state(frame, PseudoState::OverflowY);
    let data = ThemeData::default();
    let theme = ScrollView::theme(&data);
    apply_theme(&mut arena, frame, &view, &theme);
    assert_eq!(
        arena.get_attr(view.vertical_scroll_bar, LockableStyleAttribute::Visibility),
        Some(StyleValue::VisibilityInherited)
    );
    assert_eq!(
        arena.get_attr(view.content_container, LockableStyleAttribute::Margin),
        Some(StyleValue::Rect { top: 0, right: 12, bottom: 0, left: 0 })
    );
}

#[test]
fn theme_write_to_locked_attribute_is_a_no_op() {
    let mut arena = NodeArena::new();
    let (_frame, view) = overflowing_region(&mut arena);
    // the handle locks its geometry so the theme cannot fight the layout pass
    let writes = vec![StyleWrite {
        target: ScrollTarget::VerticalScrollHandle,
        attr: LockableStyleAttribute::Width,
        value: StyleValue::Px(77),
    }];
    apply_style_writes(&mut arena, &view, &writes);
    assert_eq!(
        arena.get_attr(view.vertical_scroll_bar_handle, LockableStyleAttribute::Width),
        None
    );
}

#[test]
fn later_write_overrides_earlier_one() {
    let mut arena = NodeArena::new();
    let (_frame, view) = overflowing_region(&mut arena);
    let writes = vec![
        StyleWrite {
            target: ScrollTarget::VerticalScrollBar,
            attr: LockableStyleAttribute::Right,
            value: StyleValue::Px(1),
        },
        StyleWrite {
            target: ScrollTarget::VerticalScrollBar,
            attr: LockableStyleAttribute::Right,
            value: StyleValue::Px(2),
        },
    ];
    apply_style_writes(&mut arena, &view, &writes);
    assert_eq!(
        arena.get_attr(view.vertical_scroll_bar, LockableStyleAttribute::Right),
        Some(StyleValue::Px(2))
    );
}

#[test]
fn context_lookup_resolves_role_names() {
    let mut arena = NodeArena::new();
    let (_frame, view) = overflowing_region(&mut arena);
    assert_eq!(view.get("Viewport"), Ok(view.viewport));
    assert_eq!(view.get("ContentContainer"), Ok(view.content_container));
    assert_eq!(view.get("HorizontalScrollBar"), Ok(view.horizontal_scroll_bar));
    assert_eq!(view.get("HorizontalScrollHandle"), Ok(view.horizontal_scroll_bar_handle));
    assert_eq!(view.get("VerticalScrollBar"), Ok(view.vertical_scroll_bar));
    assert_eq!(view.get("VerticalScrollHandle"), Ok(view.vertical_scroll_bar_handle));
}

#[test]
fn context_lookup_reports_unknown_names() {
    let view = ScrollView::default();
    let err = view.get("Nope").unwrap_err();
    assert_eq!(
        err,
        "Nope does not exist for ScrollView. Possible contexts: Viewport, ContentContainer, \
         HorizontalScrollBar, HorizontalScrollHandle, VerticalScrollBar, VerticalScrollHandle"
    );
    let names = view.contexts();
    assert_eq!(
        names,
        vec![
            "Viewport",
            "ContentContainer",
            "HorizontalScrollBar",
            "HorizontalScrollHandle",
            "VerticalScrollBar",
            "VerticalScrollHandle",
        ]
    );
}

#[test]
fn builder_assigns_all_roles_before_returning() {
    let mut arena = NodeArena::new();
    let (frame, view) = arena.scroll_view(Some(ScrollAxis::Vertical));
    for id in [
        frame,
        view.viewport,
        view.content_container,
        view.horizontal_scroll_bar,
        view.horizontal_scroll_bar_handle,
        view.vertical_scroll_bar,
        view.vertical_scroll_bar_handle,
    ] {
        assert!(id != PLACEHOLDER);
        assert!(id < arena.len());
    }
    assert!(!view.disabled);
    assert_eq!(view.restricted_to, Some(ScrollAxis::Vertical));
    // a vertical-only region pins the content width to the viewport
    assert_eq!(
        arena.get_attr(view.content_container, LockableStyleAttribute::Width),
        Some(StyleValue::Percent(100))
    );
    assert_eq!(
        arena.get_attr(view.content_container, LockableStyleAttribute::Height),
        Some(StyleValue::Auto)
    );
}

#[test]
fn defaults_use_placeholder_identities() {
    let view = ScrollView::default();
    assert_eq!(view.viewport, PLACEHOLDER);
    assert_eq!(view.content_container, PLACEHOLDER);
    let bar = ScrollBar::default();
    assert_eq!(bar.scroll_view, PLACEHOLDER);
    assert_eq!(bar.handle, PLACEHOLDER);
    assert_eq!(bar.axis, ScrollAxis::Horizontal);
    let content = ScrollViewContent::default();
    assert_eq!(content.scroll_view, PLACEHOLDER);
}

#[test]
fn tracked_style_state_default_vals_cover_each_phase() {
    let vals: AnimatedVals<TrackedStyleState> = TrackedStyleState::default_vals();
    assert_eq!(vals.idle, TrackedStyleState::Idle);
    assert_eq!(vals.hover, Some(TrackedStyleState::Hover));
    assert_eq!(vals.press, Some(TrackedStyleState::Pressed));
    assert_eq!(vals.cancel, Some(TrackedStyleState::Canceled));
    assert_eq!(vals.enter_from, Some(TrackedStyleState::Enter));
    assert_eq!(TrackedStyleState::default(), TrackedStyleState::Untracked);
}

#[test]
fn logical_eq_on_style_values() {
    let a = StyleValue::Color(Rgba { red: 1, green: 2, blue: 3, alpha: 4 });
    let b = StyleValue::Color(Rgba { red: 1, green: 2, blue: 3, alpha: 4 });
    let c = StyleValue::Px(5);
    assert!(a.logical_eq(&b));
    assert!(a.logical_ne(&c));
}
