//! The theme resolution engine: ordered (pseudo-state pattern, style
//! procedure) entries, resolved by most-specific subset match against a
//! node's current pseudo-state set, and applied through the checked
//! write path so that locked attributes stay untouched.

use vstd::prelude::*;

use crate::node::{NodeArena, NodeId, UiNode};
use crate::pseudo_state::{PseudoState, PseudoStateSet};
use crate::scroll_view::ScrollView;
use crate::ui_style::{LockableStyleAttribute, Rgba, StyleValue};

verus! {

broadcast use vstd::seq::group_seq_axioms, vstd::set::group_set_axioms, vstd::map::group_map_axioms;

/// Spacing values resolved from the theme data.
#[derive(Clone, Copy, Debug, PartialEq, Eq, Structural)]
pub struct ThemeSpacing {
    pub scroll_bar_size: u32,
    pub border_extra_small: u32,
}

impl Default for ThemeSpacing {
    fn default() -> (r: Self)
        ensures
            r == (ThemeSpacing { scroll_bar_size: 12, border_extra_small: 1 }),
    {
        ThemeSpacing { scroll_bar_size: 12, border_extra_small: 1 }
    }
}

/// The palette colors the scroll-view theme reads.
#[derive(Clone, Copy, Debug, PartialEq, Eq, Structural)]
pub struct ThemeColors {
    pub accent_shadow: Rgba,
    pub surface_background: Rgba,
    pub container_tertiary: Rgba,
}

impl Default for ThemeColors {
    fn default() -> (r: Self)
        ensures
            r == (ThemeColors {
                accent_shadow: Rgba { red: 0, green: 0, blue: 0, alpha: 255 },
                surface_background: Rgba { red: 28, green: 28, blue: 30, alpha: 255 },
                container_tertiary: Rgba { red: 88, green: 88, blue: 92, alpha: 255 },
            }),
    {
        ThemeColors {
            accent_shadow: Rgba { red: 0, green: 0, blue: 0, alpha: 255 },
            surface_background: Rgba { red: 28, green: 28, blue: 30, alpha: 255 },
            container_tertiary: Rgba { red: 88, green: 88, blue: 92, alpha: 255 },
        }
    }
}

/// The data a style procedure draws its values from.
#[derive(Clone, Copy, Debug, PartialEq, Eq, Structural)]
pub struct ThemeData {
    pub spacing: ThemeSpacing,
    pub colors: ThemeColors,
}

impl Default for ThemeData {
    fn default() -> (r: Self)
        ensures
            r.spacing == (ThemeSpacing { scroll_bar_size: 12, border_extra_small: 1 }),
            r.colors == (ThemeColors {
                accent_shadow: Rgba { red: 0, green: 0, blue: 0, alpha: 255 },
                surface_background: Rgba { red: 28, green: 28, blue: 30, alpha: 255 },
                container_tertiary: Rgba { red: 88, green: 88, blue: 92, alpha: 255 },
            }),
    {
        ThemeData { spacing: ThemeSpacing::default(), colors: ThemeColors::default() }
    }
}

/// A sub-element of the compound control that a style write targets,
/// resolved to a node through the owning region.
#[derive(Clone, Copy, Debug, PartialEq, Eq, Structural)]
pub enum ScrollTarget {
    Viewport,
    ContentContainer,
    HorizontalScrollBar,
    HorizontalScrollHandle,
    VerticalScrollBar,
    VerticalScrollHandle,
}

/// The node a target resolves to within a region.
pub open spec fn spec_target_node(v: ScrollView, target: ScrollTarget) -> NodeId {
    match target {
        ScrollTarget::Viewport => v.viewport,
        ScrollTarget::ContentContainer => v.content_container,
        ScrollTarget::HorizontalScrollBar => v.horizontal_scroll_bar,
        ScrollTarget::HorizontalScrollHandle => v.horizontal_scroll_bar_handle,
        ScrollTarget::VerticalScrollBar => v.vertical_scroll_bar,
        ScrollTarget::VerticalScrollHandle => v.vertical_scroll_bar_handle,
    }
}

/// Resolves a target to its node within `view`.
pub fn target_node(view: &ScrollView, target: ScrollTarget) -> (r: NodeId)
    ensures
        r == spec_target_node(*view, target),
{
    match target {
        ScrollTarget::Viewport => view.viewport,
        ScrollTarget::ContentContainer => view.content_container,
        ScrollTarget::HorizontalScrollBar => view.horizontal_scroll_bar,
        ScrollTarget::HorizontalScrollHandle => view.horizontal_scroll_bar_handle,
        ScrollTarget::VerticalScrollBar => view.vertical_scroll_bar,
        ScrollTarget::VerticalScrollHandle => view.vertical_scroll_bar_handle,
    }
}

/// One attribute write of a style procedure.
#[derive(Clone, Copy, Debug, PartialEq, Eq, Structural)]
pub struct StyleWrite {
    pub target: ScrollTarget,
    pub attr: LockableStyleAttribute,
    pub value: StyleValue,
}

/// Builds the ordered write list of a style procedure: attribute calls
/// record a write against the current target.
#[derive(Debug)]
pub struct StyleBuilder {
    pub target: ScrollTarget,
    pub writes: Vec<StyleWrite>,
}

impl StyleBuilder {
    /// An empty procedure, initially targeting the viewport.
    pub fn new() -> (r: StyleBuilder)
        ensures
            r.target == ScrollTarget::Viewport,
            r.writes@ == Seq::<StyleWrite>::empty(),
    {
        StyleBuilder { target: ScrollTarget::Viewport, writes: Vec::new() }
    }

    /// Directs the following writes at another sub-element.
    pub fn switch_target(&mut self, target: ScrollTarget)
        ensures
            *final(self) == (StyleBuilder { target, ..*old(self) }),
    {
        self.target = target;
    }

    /// Records a write of `value` to `attr` on the current target.
    pub fn write(&mut self, attr: LockableStyleAttribute, value: StyleValue)
        ensures
            final(self).target == old(self).target,
            final(self).writes@ == old(self).writes@.push(
                StyleWrite { target: old(self).target, attr, value },
            ),
    {
        let w = StyleWrite { target: self.target, attr, value };
        self.writes.push(w);
    }
}

/// The index of the entry whose pattern is the most specific subset of
/// `states`, or `-1` where none matches: among matching entries the
/// largest pattern wins, and of equally large patterns the earliest in
/// theme order.
pub open spec fn spec_resolve(entries: Seq<PseudoTheme>, states: Set<PseudoState>) -> int
    decreases entries.len(),
{
    if entries.len() == 0 {
        -1
    } else {
        let rest = spec_resolve(entries.drop_last(), states);
        if entries.last().pattern@.subset_of(states) && (rest == -1
            || entries.last().pattern@.len() > entries[rest].pattern@.len()) {
            entries.len() - 1
        } else {
            rest
        }
    }
}

/// `spec_resolve` stays within the entry list (or is `-1`).
pub proof fn lemma_spec_resolve_bounds(entries: Seq<PseudoTheme>, states: Set<PseudoState>)
    ensures
        -1 <= spec_resolve(entries, states) < entries.len(),
    decreases entries.len(),
{
    if entries.len() != 0 {
        lemma_spec_resolve_bounds(entries.drop_last(), states);
    }
}

/// A theme whose first entry carries the base (empty) pattern always
/// resolves, whatever pseudo-states the node is in: the empty pattern is
/// a subset of every state set, so it is the fallback when nothing more
/// specific matches.
pub proof fn lemma_base_pattern_always_resolves(entries: Seq<PseudoTheme>, states: Set<PseudoState>)
    requires
        entries.len() > 0,
        entries[0].pattern@ == Set::<PseudoState>::empty(),
    ensures
        spec_resolve(entries, states) >= 0,
    decreases entries.len(),
{
    broadcast use vstd::set::group_set_axioms;

    if entries.len() == 1 {
        assert(entries.drop_last().len() == 0);
        assert(spec_resolve(entries.drop_last(), states) == -1);
        assert(entries.last() == entries[0]);
        assert(entries[0].pattern@.subset_of(states));
    } else {
        assert(entries.drop_last()[0] == entries[0]);
        lemma_base_pattern_always_resolves(entries.drop_last(), states);
    }
}

/// One theme entry: a pseudo-state pattern and the style procedure that
/// runs when the pattern is the most specific match.
#[derive(Debug)]
pub struct PseudoTheme {
    pub pattern: PseudoStateSet,
    pub writes: Vec<StyleWrite>,
}

/// The ordered theme of a control: its entries, base (empty) pattern
/// first.
#[derive(Debug)]
pub struct Theme {
    pub entries: Vec<PseudoTheme>,
}

impl Theme {
    /// Every entry's pattern is a well-formed set.
    pub open spec fn wf(self) -> bool {
        forall|i: int|
            0 <= i < self.entries@.len() ==> (#[trigger] self.entries@[i]).pattern.wf()
    }

    /// Finds the entry whose pattern is the most specific subset of
    /// `states`: among the entries whose pattern is contained in
    /// `states`, one with the largest pattern wins, and of equally large
    /// patterns the earliest in theme order. `None` only where no entry
    /// matches at all — a theme with the base (empty) pattern always
    /// resolves.
    pub fn resolve(&self, states: &PseudoStateSet) -> (r: Option<usize>)
        requires
            self.wf(),
        ensures
            r == if spec_resolve(self.entries@, states@) == -1 {
                None
            } else {
                Some(spec_resolve(self.entries@, states@) as usize)
            },
            match r {
                Some(i) => {
                    &&& i < self.entries@.len()
                    &&& self.entries@[i as int].pattern@.subset_of(states@)
                    &&& forall|j: int|
                        0 <= j < self.entries@.len() && (
                        #[trigger] self.entries@[j]).pattern@.subset_of(states@)
                            ==> self.entries@[j].pattern@.len()
                            < self.entries@[i as int].pattern@.len() || (
                        self.entries@[j].pattern@.len() == self.entries@[i as int].pattern@.len()
                            && i <= j)
                },
                None => forall|j: int|
                    0 <= j < self.entries@.len() ==> !(
                    #[trigger] self.entries@[j]).pattern@.subset_of(states@),
            },
    {
        let mut best: Option<usize> = None;
        let mut best_count: usize = 0;
        let mut j: usize = 0;
        while j < self.entries.len()
            invariant
                self.wf(),
                0 <= j <= self.entries@.len(),
                match best {
                    Some(i) => i == spec_resolve(self.entries@.take(j as int), states@),
                    None => spec_resolve(self.entries@.take(j as int), states@) == -1,
                },
                match best {
                    Some(i) => {
                        &&& i < j
                        &&& self.entries@[i as int].pattern@.subset_of(states@)
                        &&& best_count == self.entries@[i as int].pattern@.len()
                        &&& forall|k: int|
                            0 <= k < j && (#[trigger] self.entries@[k]).pattern@.subset_of(states@)
                                ==> self.entries@[k].pattern@.len()
                                < self.entries@[i as int].pattern@.len() || (
                            self.entries@[k].pattern@.len()
                                == self.entries@[i as int].pattern@.len() && i <= k)
                    },
                    None => forall|k: int|
                        0 <= k < j ==> !(#[trigger] self.entries@[k]).pattern@.subset_of(states@),
                },
            decreases self.entries@.len() - j,
        {
            proof {
                assert(self.entries@.take(j as int + 1).drop_last() =~= self.entries@.take(
                    j as int,
                ));
                assert(self.entries@.take(j as int + 1).last() == self.entries@[j as int]);
            }
            let entry = &self.entries[j];
            if entry.pattern.is_subset_of(states) {
                let count = entry.pattern.count();
                match best {
                    Some(_) => {
                        if count > best_count {
                            best = Some(j);
                            best_count = count;
                        }
                    },
                    None => {
                        best = Some(j);
                        best_count = count;
                    },
                }
            }
            j += 1;
        }
        proof {
            assert(self.entries@.take(self.entries@.len() as int) =~= self.entries@);
        }
        best
    }
}

/// Whether one style write addresses attribute `a` on node `n`, with
/// targets resolved through `v`.
pub open spec fn write_hits(w: StyleWrite, v: ScrollView, n: int, a: LockableStyleAttribute) -> bool {
    spec_target_node(v, w.target) == n && w.attr == a
}

/// The index of the last write in `ws` addressing `(n, a)`, or `-1`
/// where none does: the write whose value survives application.
pub open spec fn last_hit(
    ws: Seq<StyleWrite>,
    v: ScrollView,
    n: int,
    a: LockableStyleAttribute,
) -> int
    decreases ws.len(),
{
    if ws.len() == 0 {
        -1
    } else if write_hits(ws.last(), v, n, a) {
        ws.len() - 1
    } else {
        last_hit(ws.drop_last(), v, n, a)
    }
}

/// `last_hit` stays in range and names a write that addresses `(n, a)`;
/// `-1` means no write does.
pub proof fn lemma_last_hit_props(ws: Seq<StyleWrite>, v: ScrollView, n: int, a: LockableStyleAttribute)
    ensures
        -1 <= last_hit(ws, v, n, a) < ws.len(),
        last_hit(ws, v, n, a) >= 0 ==> write_hits(ws[last_hit(ws, v, n, a)], v, n, a),
        last_hit(ws, v, n, a) == -1 ==> forall|k: int|
            0 <= k < ws.len() ==> !write_hits(#[trigger] ws[k], v, n, a),
    decreases ws.len(),
{
    if ws.len() != 0 && !write_hits(ws.last(), v, n, a) {
        lemma_last_hit_props(ws.drop_last(), v, n, a);
        assert(forall|k: int| 0 <= k < ws.len() - 1 ==> ws.drop_last()[k] == #[trigger] ws[k]);
    }
}

/// What applying a style procedure through the checked path leaves
/// behind: sizes, lock tables and pseudo-states everywhere unchanged;
/// on every node, an attribute whose last addressing write exists and is
/// not locked there holds that write's value, and every other attribute
/// keeps its old value (or stays unwritten).
pub open spec fn theme_apply_post(
    a0: NodeArena,
    a1: NodeArena,
    v: ScrollView,
    ws: Seq<StyleWrite>,
) -> bool {
    &&& a1.nodes@.len() == a0.nodes@.len()
    &&& forall|n: int|
        0 <= n < a0.nodes@.len() ==> (#[trigger] a1.nodes@[n]) == (UiNode {
            computed: a1.nodes@[n].computed,
            ..a0.nodes@[n]
        })
    &&& forall|n: int, a: LockableStyleAttribute|
        0 <= n < a0.nodes@.len() ==> {
            let k = #[trigger] last_hit(ws, v, n, a);
            if k >= 0 && !a0.nodes@[n].locked@.contains(a) {
                a1.nodes@[n].computed@.dom().contains(a) && a1.nodes@[n].computed@[a]
                    == ws[k].value
            } else {
                a1.nodes@[n].computed@.dom().contains(a) == a0.nodes@[n].computed@.dom().contains(
                    a,
                ) && (a0.nodes@[n].computed@.dom().contains(a) ==> a1.nodes@[n].computed@[a]
                    == a0.nodes@[n].computed@[a])
            }
        }
}

/// Applies a resolved style procedure to a region through the checked
/// write path, in order: a later write to the same attribute overrides
/// an earlier one, and a write to an attribute locked on its target node
/// is a no-op.
pub fn apply_style_writes(arena: &mut NodeArena, view: &ScrollView, writes: &Vec<StyleWrite>)
    requires
        old(arena).wf(),
        view.roles_live(*old(arena)),
    ensures
        final(arena).wf(),
        theme_apply_post(*old(arena), *final(arena), *view, writes@),
{
    proof {
        assert forall|n: int, a: LockableStyleAttribute|
            true implies last_hit(writes@.take(0), *view, n, a) == -1 by {
            assert(writes@.take(0).len() == 0);
        }
    }
    let mut i: usize = 0;
    while i < writes.len()
        invariant
            arena.wf(),
            view.roles_live(*arena),
            0 <= i <= writes@.len(),
            arena.nodes@.len() == old(arena).nodes@.len(),
            theme_apply_post(*old(arena), *arena, *view, writes@.take(i as int)),
        decreases writes@.len() - i,
    {
        let ghost pre = *arena;
        let w = writes[i];
        let n = target_node(view, w.target);
        arena.style(n, w.attr, w.value);
        proof {
            let ws1 = writes@.take(i as int + 1);
            let ws0 = writes@.take(i as int);
            assert(ws1.drop_last() =~= ws0);
            assert(ws1.last() == writes@[i as int]);
            assert forall|m: int, a: LockableStyleAttribute| 0 <= m < old(arena).nodes@.len() implies {
                let k = #[trigger] last_hit(ws1, *view, m, a);
                if k >= 0 && !old(arena).nodes@[m].locked@.contains(a) {
                    arena.nodes@[m].computed@.dom().contains(a) && arena.nodes@[m].computed@[a]
                        == ws1[k].value
                } else {
                    arena.nodes@[m].computed@.dom().contains(a) == old(
                        arena,
                    ).nodes@[m].computed@.dom().contains(a) && (old(
                        arena,
                    ).nodes@[m].computed@.dom().contains(a) ==> arena.nodes@[m].computed@[a] == old(
                        arena,
                    ).nodes@[m].computed@[a])
                }
            } by {
                let k0 = last_hit(ws0, *view, m, a);
                lemma_last_hit_props(ws0, *view, m, a);
                lemma_last_hit_props(ws1, *view, m, a);
                assert(pre.nodes@[m].locked@ == old(arena).nodes@[m].locked@);
            }
        }
        i += 1;
    }
    proof {
        assert(writes@.take(writes@.len() as int) =~= writes@);
    }
}

/// The theme data in force when the host configures nothing.
pub open spec fn spec_default_theme_data() -> ThemeData {
    ThemeData {
        spacing: ThemeSpacing { scroll_bar_size: 12, border_extra_small: 1 },
        colors: ThemeColors {
            accent_shadow: Rgba { red: 0, green: 0, blue: 0, alpha: 255 },
            surface_background: Rgba { red: 28, green: 28, blue: 30, alpha: 255 },
            container_tertiary: Rgba { red: 88, green: 88, blue: 92, alpha: 255 },
        },
    }
}

/// The writes of the base style procedure: scrollbar chrome anchored to
/// the frame's edges, sized from the theme spacing, colored from the
/// palette, and hidden until an overflow pseudo-state shows it.
pub open spec fn spec_primary_writes(d: ThemeData) -> Seq<StyleWrite> {
    seq![
        StyleWrite {
            target: ScrollTarget::HorizontalScrollBar,
            attr: LockableStyleAttribute::Bottom,
            value: StyleValue::Px(0),
        },
        StyleWrite {
            target: ScrollTarget::HorizontalScrollBar,
            attr: LockableStyleAttribute::Left,
            value: StyleValue::Px(0),
        },
        StyleWrite {
            target: ScrollTarget::HorizontalScrollBar,
            attr: LockableStyleAttribute::Right,
            value: StyleValue::Px(0),
        },
        StyleWrite {
            target: ScrollTarget::HorizontalScrollBar,
            attr: LockableStyleAttribute::Height,
            value: StyleValue::Px(d.spacing.scroll_bar_size as i64),
        },
        StyleWrite {
            target: ScrollTarget::HorizontalScrollBar,
            attr: LockableStyleAttribute::Border,
            value: StyleValue::Rect {
                top: d.spacing.border_extra_small as i64,
                right: 0,
                bottom: 0,
                left: 0,
            },
        },
        StyleWrite {
            target: ScrollTarget::HorizontalScrollBar,
            attr: LockableStyleAttribute::BorderColor,
            value: StyleValue::Color(d.colors.accent_shadow),
        },
        StyleWrite {
            target: ScrollTarget::HorizontalScrollBar,
            attr: LockableStyleAttribute::BackgroundColor,
            value: StyleValue::Color(Rgba { alpha: 51, ..d.colors.surface_background }),
        },
        StyleWrite {
            target: ScrollTarget::HorizontalScrollBar,
            attr: LockableStyleAttribute::Display,
            value: StyleValue::DisplayFlex,
        },
        StyleWrite {
            target: ScrollTarget::HorizontalScrollBar,
            attr: LockableStyleAttribute::Visibility,
            value: StyleValue::VisibilityHidden,
        },
        StyleWrite {
            target: ScrollTarget::HorizontalScrollHandle,
            attr: LockableStyleAttribute::BackgroundColor,
            value: StyleValue::Color(d.colors.container_tertiary),
        },
        StyleWrite {
            target: ScrollTarget::VerticalScrollBar,
            attr: LockableStyleAttribute::Right,
            value: StyleValue::Px(0),
        },
        StyleWrite {
            target: ScrollTarget::VerticalScrollBar,
            attr: LockableStyleAttribute::Width,
            value: StyleValue::Px(d.spacing.scroll_bar_size as i64),
        },
        StyleWrite {
            target: ScrollTarget::VerticalScrollBar,
            attr: LockableStyleAttribute::Height,
            value: StyleValue::Percent(100),
        },
        StyleWrite {
            target: ScrollTarget::VerticalScrollBar,
            attr: LockableStyleAttribute::Border,
            value: StyleValue::Rect {
                top: 0,
                right: 0,
                bottom: 0,
                left: d.spacing.border_extra_small as i64,
            },
        },
        StyleWrite {
            target: ScrollTarget::VerticalScrollBar,
            attr: LockableStyleAttribute::BorderColor,
            value: StyleValue::Color(d.colors.accent_shadow),
        },
        StyleWrite {
            target: ScrollTarget::VerticalScrollBar,
            attr: LockableStyleAttribute::BackgroundColor,
            value: StyleValue::Color(Rgba { alpha: 51, ..d.colors.surface_background }),
        },
        StyleWrite {
            target: ScrollTarget::VerticalScrollBar,
            attr: LockableStyleAttribute::Display,
            value: StyleValue::DisplayFlex,
        },
        StyleWrite {
            target: ScrollTarget::VerticalScrollBar,
            attr: LockableStyleAttribute::Visibility,
            value: StyleValue::VisibilityHidden,
        },
        StyleWrite {
            target: ScrollTarget::VerticalScrollHandle,
            attr: LockableStyleAttribute::BackgroundColor,
            value: StyleValue::Color(d.colors.container_tertiary),
        },
    ]
}

/// The writes of the disabled style procedure: both scrollbars removed
/// from layout while the region is suspended.
pub open spec fn spec_disabled_writes() -> Seq<StyleWrite> {
    seq![
        StyleWrite {
            target: ScrollTarget::HorizontalScrollBar,
            attr: LockableStyleAttribute::Display,
            value: StyleValue::DisplayNone,
        },
        StyleWrite {
            target: ScrollTarget::VerticalScrollBar,
            attr: LockableStyleAttribute::Display,
            value: StyleValue::DisplayNone,
        },
    ]
}

/// The writes of the horizontal-overflow style procedure: the horizontal
/// bar shown, and the content given a bottom margin so the bar does not
/// cover it.
pub open spec fn spec_overflow_x_writes(d: ThemeData) -> Seq<StyleWrite> {
    seq![
        StyleWrite {
            target: ScrollTarget::HorizontalScrollBar,
            attr: LockableStyleAttribute::Visibility,
            value: StyleValue::VisibilityInherited,
        },
        StyleWrite {
            target: ScrollTarget::ContentContainer,
            attr: LockableStyleAttribute::Margin,
            value: StyleValue::Rect {
                top: 0,
                right: 0,
                bottom: d.spacing.scroll_bar_size as i64,
                left: 0,
            },
        },
    ]
}

/// The writes of the vertical-overflow style procedure: the vertical bar
/// shown, and the content given a right margin.
pub open spec fn spec_overflow_y_writes(d: ThemeData) -> Seq<StyleWrite> {
    seq![
        StyleWrite {
            target: ScrollTarget::VerticalScrollBar,
            attr: LockableStyleAttribute::Visibility,
            value: StyleValue::VisibilityInherited,
        },
        StyleWrite {
            target: ScrollTarget::ContentContainer,
            attr: LockableStyleAttribute::Margin,
            value: StyleValue::Rect {
                top: 0,
                right: d.spacing.scroll_bar_size as i64,
                bottom: 0,
                left: 0,
            },
        },
    ]
}

/// The writes of the both-axes style procedure: the horizontal bar
/// shortened so the two bars do not overlap in the corner.
pub open spec fn spec_overflow_xy_writes(d: ThemeData) -> Seq<StyleWrite> {
    seq![
        StyleWrite {
            target: ScrollTarget::HorizontalScrollBar,
            attr: LockableStyleAttribute::Right,
            value: StyleValue::Px(d.spacing.scroll_bar_size as i64),
        },
    ]
}

impl ScrollView {
    /// The base style procedure, run when no more specific pattern
    /// matches.
    pub fn primary_style(style_builder: &mut StyleBuilder, theme_data: &ThemeData)
        ensures
            final(style_builder).writes@ == old(style_builder).writes@
                + spec_primary_writes(*theme_data),
    {
        let spacing = theme_data.spacing;
        let colors = theme_data.colors;

        style_builder.switch_target(ScrollTarget::HorizontalScrollBar);
        style_builder.write(LockableStyleAttribute::Bottom, StyleValue::Px(0));
        style_builder.write(LockableStyleAttribute::Left, StyleValue::Px(0));
        style_builder.write(LockableStyleAttribute::Right, StyleValue::Px(0));
        style_builder.write(
            LockableStyleAttribute::Height,
            StyleValue::Px(spacing.scroll_bar_size as i64),
        );
        style_builder.write(
            LockableStyleAttribute::Border,
            StyleValue::Rect { top: spacing.border_extra_small as i64, right: 0, bottom: 0, left: 0 },
        );
        style_builder.write(
            LockableStyleAttribute::BorderColor,
            StyleValue::Color(colors.accent_shadow),
        );
        style_builder.write(
            LockableStyleAttribute::BackgroundColor,
            StyleValue::Color(colors.surface_background.with_alpha(51)),
        );
        style_builder.write(LockableStyleAttribute::Display, StyleValue::DisplayFlex);
        style_builder.write(LockableStyleAttribute::Visibility, StyleValue::VisibilityHidden);

        style_builder.switch_target(ScrollTarget::HorizontalScrollHandle);
        style_builder.write(
            LockableStyleAttribute::BackgroundColor,
            StyleValue::Color(colors.container_tertiary),
        );

        style_builder.switch_target(ScrollTarget::VerticalScrollBar);
        style_builder.write(LockableStyleAttribute::Right, StyleValue::Px(0));
        style_builder.write(
            LockableStyleAttribute::Width,
            StyleValue::Px(spacing.scroll_bar_size as i64),
        );
        style_builder.write(LockableStyleAttribute::Height, StyleValue::Percent(100));
        style_builder.write(
            LockableStyleAttribute::Border,
            StyleValue::Rect { top: 0, right: 0, bottom: 0, left: spacing.border_extra_small as i64 },
        );
        style_builder.write(
            LockableStyleAttribute::BorderColor,
            StyleValue::Color(colors.accent_shadow),
        );
        style_builder.write(
            LockableStyleAttribute::BackgroundColor,
            StyleValue::Color(colors.surface_background.with_alpha(51)),
        );
        style_builder.write(LockableStyleAttribute::Display, StyleValue::DisplayFlex);
        style_builder.write(LockableStyleAttribute::Visibility, StyleValue::VisibilityHidden);

        style_builder.switch_target(ScrollTarget::VerticalScrollHandle);
        style_builder.write(
            LockableStyleAttribute::BackgroundColor,
            StyleValue::Color(colors.container_tertiary),
        );
        proof {
            assert(style_builder.writes@ =~= old(style_builder).writes@ + spec_primary_writes(
                *theme_data,
            ));
        }
    }

    /// The style procedure of the `Disabled` pattern.
    pub fn disabled_style(style_builder: &mut StyleBuilder, _theme_data: &ThemeData)
        ensures
            final(style_builder).writes@ == old(style_builder).writes@ + spec_disabled_writes(),
    {
        style_builder.switch_target(ScrollTarget::HorizontalScrollBar);
        style_builder.write(LockableStyleAttribute::Display, StyleValue::DisplayNone);
        style_builder.switch_target(ScrollTarget::VerticalScrollBar);
        style_builder.write(LockableStyleAttribute::Display, StyleValue::DisplayNone);
        proof {
            assert(style_builder.writes@ =~= old(style_builder).writes@ + spec_disabled_writes());
        }
    }

    /// The style procedure of the `OverflowX` pattern.
    pub fn overflow_x_style(style_builder: &mut StyleBuilder, theme_data: &ThemeData)
        ensures
            final(style_builder).writes@ == old(style_builder).writes@ + spec_overflow_x_writes(
                *theme_data,
            ),
    {
        let spacing = theme_data.spacing;
        style_builder.switch_target(ScrollTarget::HorizontalScrollBar);
        style_builder.write(LockableStyleAttribute::Visibility, StyleValue::VisibilityInherited);
        style_builder.switch_target(ScrollTarget::ContentContainer);
        style_builder.write(
            LockableStyleAttribute::Margin,
            StyleValue::Rect { top: 0, right: 0, bottom: spacing.scroll_bar_size as i64, left: 0 },
        );
        proof {
            assert(style_builder.writes@ =~= old(style_builder).writes@ + spec_overflow_x_writes(
                *theme_data,
            ));
        }
    }

    /// The style procedure of the `OverflowY` pattern.
    pub fn overflow_y_style(style_builder: &mut StyleBuilder, theme_data: &ThemeData)
        ensures
            final(style_builder).writes@ == old(style_builder).writes@ + spec_overflow_y_writes(
                *theme_data,
            ),
    {
        let spacing = theme_data.spacing;
        style_builder.switch_target(ScrollTarget::VerticalScrollBar);
        style_builder.write(LockableStyleAttribute::Visibility, StyleValue::VisibilityInherited);
        style_builder.switch_target(ScrollTarget::ContentContainer);
        style_builder.write(
            LockableStyleAttribute::Margin,
            StyleValue::Rect { top: 0, right: spacing.scroll_bar_size as i64, bottom: 0, left: 0 },
        );
        proof {
            assert(style_builder.writes@ =~= old(style_builder).writes@ + spec_overflow_y_writes(
                *theme_data,
            ));
        }
    }

    /// The style procedure of the `OverflowX` + `OverflowY` pattern.
    pub fn overflow_xy_style(style_builder: &mut StyleBuilder, theme_data: &ThemeData)
        ensures
            final(style_builder).writes@ == old(style_builder).writes@ + spec_overflow_xy_writes(
                *theme_data,
            ),
    {
        let spacing = theme_data.spacing;
        style_builder.switch_target(ScrollTarget::HorizontalScrollBar);
        style_builder.write(
            LockableStyleAttribute::Right,
            StyleValue::Px(spacing.scroll_bar_size as i64),
        );
        proof {
            assert(style_builder.writes@ =~= old(style_builder).writes@ + spec_overflow_xy_writes(
                *theme_data,
            ));
        }
    }

    /// The scroll-view theme: base, disabled, horizontal-overflow,
    /// vertical-overflow and both-axes entries, in that order. Subset
    /// specificity, not this order, decides which entry a node gets.
    pub fn theme(theme_data: &ThemeData) -> (r: Theme)
        ensures
            r.wf(),
            r.entries@.len() == 5,
            r.entries@[0].pattern@ == Set::<PseudoState>::empty(),
            r.entries@[0].writes@ == spec_primary_writes(*theme_data),
            r.entries@[1].pattern@ == Set::<PseudoState>::empty().insert(PseudoState::Disabled),
            r.entries@[1].writes@ == spec_disabled_writes(),
            r.entries@[2].pattern@ == Set::<PseudoState>::empty().insert(PseudoState::OverflowX),
            r.entries@[2].writes@ == spec_overflow_x_writes(*theme_data),
            r.entries@[3].pattern@ == Set::<PseudoState>::empty().insert(PseudoState::OverflowY),
            r.entries@[3].writes@ == spec_overflow_y_writes(*theme_data),
            r.entries@[4].pattern@ == Set::<PseudoState>::empty().insert(
                PseudoState::OverflowX,
            ).insert(PseudoState::OverflowY),
            r.entries@[4].writes@ == spec_overflow_xy_writes(*theme_data),
    {
        let base_pattern = PseudoStateSet::new();
        let mut base_builder = StyleBuilder::new();
        ScrollView::primary_style(&mut base_builder, theme_data);

        let mut disabled_pattern = PseudoStateSet::new();
        disabled_pattern.add(PseudoState::Disabled);
        let mut disabled_builder = StyleBuilder::new();
        ScrollView::disabled_style(&mut disabled_builder, theme_data);

        let mut overflow_x_pattern = PseudoStateSet::new();
        overflow_x_pattern.add(PseudoState::OverflowX);
        let mut overflow_x_builder = StyleBuilder::new();
        ScrollView::overflow_x_style(&mut overflow_x_builder, theme_data);

        let mut overflow_y_pattern = PseudoStateSet::new();
        overflow_y_pattern.add(PseudoState::OverflowY);
        let mut overflow_y_builder = StyleBuilder::new();
        ScrollView::overflow_y_style(&mut overflow_y_builder, theme_data);

        let mut overflow_xy_pattern = PseudoStateSet::new();
        overflow_xy_pattern.add(PseudoState::OverflowX);
        overflow_xy_pattern.add(PseudoState::OverflowY);
        let mut overflow_xy_builder = StyleBuilder::new();
        ScrollView::overflow_xy_style(&mut overflow_xy_builder, theme_data);

        let mut entries: Vec<PseudoTheme> = Vec::new();
        entries.push(PseudoTheme { pattern: base_pattern, writes: base_builder.writes });
        entries.push(PseudoTheme { pattern: disabled_pattern, writes: disabled_builder.writes });
        entries.push(
            PseudoTheme { pattern: overflow_x_pattern, writes: overflow_x_builder.writes },
        );
        entries.push(
            PseudoTheme { pattern: overflow_y_pattern, writes: overflow_y_builder.writes },
        );
        entries.push(
            PseudoTheme { pattern: overflow_xy_pattern, writes: overflow_xy_builder.writes },
        );
        Theme { entries }
    }

    /// The theme the control carries when nothing overrides it: the
    /// scroll-view theme built from the default theme data.
    pub fn default_theme() -> (r: Option<Theme>)
        ensures
            match r {
                Some(theme) => {
                    &&& theme.wf()
                    &&& theme.entries@.len() == 5
                    &&& theme.entries@[0].pattern@ == Set::<PseudoState>::empty()
                    &&& theme.entries@[0].writes@ == spec_primary_writes(spec_default_theme_data())
                    &&& theme.entries@[1].pattern@ == Set::<PseudoState>::empty().insert(
                        PseudoState::Disabled,
                    )
                    &&& theme.entries@[1].writes@ == spec_disabled_writes()
                    &&& theme.entries@[2].pattern@ == Set::<PseudoState>::empty().insert(
                        PseudoState::OverflowX,
                    )
                    &&& theme.entries@[2].writes@ == spec_overflow_x_writes(
                        spec_default_theme_data(),
                    )
                    &&& theme.entries@[3].pattern@ == Set::<PseudoState>::empty().insert(
                        PseudoState::OverflowY,
                    )
                    &&& theme.entries@[3].writes@ == spec_overflow_y_writes(
                        spec_default_theme_data(),
                    )
                    &&& theme.entries@[4].pattern@ == Set::<PseudoState>::empty().insert(
                        PseudoState::OverflowX,
                    ).insert(PseudoState::OverflowY)
                    &&& theme.entries@[4].writes@ == spec_overflow_xy_writes(
                        spec_default_theme_data(),
                    )
                },
                None => false,
            },
    {
        let theme_data = ThemeData::default();
        Some(ScrollView::theme(&theme_data))
    }
}

/// Re-resolves and applies the theme for one region: the entry whose
/// pattern is the most specific subset of the frame's current
/// pseudo-states runs through the checked write path; with no matching
/// entry nothing changes. Re-resolution is triggered by pseudo-state or
/// theme changes, not every tick; the caller decides when.
pub fn apply_theme(arena: &mut NodeArena, frame: NodeId, view: &ScrollView, theme: &Theme)
    requires
        old(arena).wf(),
        old(arena).is_live(frame),
        view.roles_live(*old(arena)),
        theme.wf(),
    ensures
        final(arena).wf(),
        ({
            let i = spec_resolve(theme.entries@, old(arena).node(frame).pseudo_states@);
            if i == -1 {
                *final(arena) == *old(arena)
            } else {
                theme_apply_post(*old(arena), *final(arena), *view, theme.entries@[i].writes@)
            }
        }),
{
    proof {
        lemma_spec_resolve_bounds(theme.entries@, old(arena).node(frame).pseudo_states@);
    }
    let ghost spec_idx = spec_resolve(theme.entries@, old(arena).node(frame).pseudo_states@);
    let resolved = theme.resolve(&arena.nodes[frame].pseudo_states);
    match resolved {
        Some(i) => {
            proof {
                vstd::std_specs::vec::axiom_spec_len(&theme.entries);
                assert(spec_idx != -1);
                assert(i as int == spec_idx);
            }
            apply_style_writes(arena, view, &theme.entries[i].writes);
            proof {
                assert(theme_apply_post(
                    *old(arena),
                    *arena,
                    *view,
                    theme.entries@[i as int].writes@,
                ));
            }
        },
        None => {
            proof {
                assert(spec_idx == -1);
            }
        },
    }
}

} // verus!
