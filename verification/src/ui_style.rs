//! The closed registry of styleable visual attributes, the values written
//! to them, and the per-node lock table that the checked write path
//! consults. Also the interaction-tracking state that decides whether a
//! scroll region is suspended.

use vstd::prelude::*;

use crate::vec_set::lemma_to_set_push;

verus! {

broadcast use vstd::seq::group_seq_axioms, vstd::set::group_set_axioms;

/// A styleable visual attribute, usable as a set element in a node's lock
/// table. The set is closed: every write names one of these.
#[derive(Clone, Copy, Debug, PartialEq, Eq, Structural)]
pub enum LockableStyleAttribute {
    Width,
    Height,
    MinWidth,
    MinHeight,
    Top,
    Left,
    Right,
    Bottom,
    Border,
    Padding,
    Margin,
    PositionType,
    Overflow,
    FocusPolicy,
    FlexDirection,
    FlexShrink,
    JustifyContent,
    JustifySelf,
    AlignSelf,
    ZIndex,
    BackgroundColor,
    BorderColor,
    Display,
    Visibility,
}

/// A color as resolved from the theme palette, with an 8-bit alpha.
#[derive(Clone, Copy, Debug, PartialEq, Eq, Structural)]
pub struct Rgba {
    pub red: u8,
    pub green: u8,
    pub blue: u8,
    pub alpha: u8,
}

impl Rgba {
    /// The same color with its alpha replaced.
    pub fn with_alpha(&self, alpha: u8) -> (r: Rgba)
        ensures
            r == (Rgba { alpha, ..*self }),
    {
        Rgba { red: self.red, green: self.green, blue: self.blue, alpha }
    }
}

/// A value written to a styleable attribute, in whole pixels where a
/// length is meant.
#[derive(Clone, Copy, Debug, PartialEq, Eq, Structural)]
pub enum StyleValue {
    /// An absolute pixel length or offset.
    Px(i64),
    /// A percentage of the parent's extent.
    Percent(i64),
    /// A length resolved by the layout engine.
    Auto,
    /// Four pixel edge widths, for borders and margins.
    Rect { top: i64, right: i64, bottom: i64, left: i64 },
    /// A palette color.
    Color(Rgba),
    /// Participate in flex layout.
    DisplayFlex,
    /// Removed from layout entirely.
    DisplayNone,
    /// Invisible but still laid out.
    VisibilityHidden,
    /// Visibility follows the parent.
    VisibilityInherited,
}

/// Semantic equality, for attribute values whose derived equality is
/// finer than the equality their consumers care about.
pub trait LogicalEq: Sized {
    /// What this type's semantic equality means.
    spec fn logical_eq_spec(&self, other: &Self) -> bool;

    /// Whether `self` and `other` are semantically equal.
    fn logical_eq(&self, other: &Self) -> (r: bool)
        ensures
            r == self.logical_eq_spec(other),
    ;

    /// The negation of [`LogicalEq::logical_eq`].
    fn logical_ne(&self, other: &Self) -> (r: bool)
        ensures
            r == !self.logical_eq_spec(other),
    {
        !self.logical_eq(other)
    }
}

impl LogicalEq for StyleValue {
    open spec fn logical_eq_spec(&self, other: &Self) -> bool {
        self == other
    }

    fn logical_eq(&self, other: &Self) -> (r: bool) {
        self == other
    }
}

/// A node's set of locked attributes: an attribute present here is never
/// mutated through the checked (theme) write path for that node. The
/// lock-bypassing path ignores it.
#[derive(Clone, Debug)]
pub struct LockedStyleAttributes {
    pub attrs: Vec<LockableStyleAttribute>,
}

impl View for LockedStyleAttributes {
    type V = Set<LockableStyleAttribute>;

    open spec fn view(&self) -> Set<LockableStyleAttribute> {
        self.attrs@.to_set()
    }
}

impl LockedStyleAttributes {
    /// The backing vector holds each attribute at most once.
    pub open spec fn wf(self) -> bool {
        self.attrs@.no_duplicates()
    }

    /// An empty lock table.
    pub fn new() -> (r: LockedStyleAttributes)
        ensures
            r@ == Set::<LockableStyleAttribute>::empty(),
            r.attrs@ == Seq::<LockableStyleAttribute>::empty(),
            r.wf(),
    {
        let r = LockedStyleAttributes { attrs: Vec::new() };
        proof {
            assert(r@ =~= Set::<LockableStyleAttribute>::empty());
        }
        r
    }

    /// A lock table holding one attribute.
    pub fn lock(attribute: LockableStyleAttribute) -> (r: LockedStyleAttributes)
        ensures
            r@ == Set::<LockableStyleAttribute>::empty().insert(attribute),
            r.wf(),
    {
        let mut r = LockedStyleAttributes::new();
        proof {
            assert(!r.attrs@.contains(attribute));
            lemma_to_set_push(r.attrs@, attribute);
        }
        r.attrs.push(attribute);
        r
    }

    /// A lock table holding the given attributes, duplicates dropped.
    pub fn from_vec(attributes: Vec<LockableStyleAttribute>) -> (r: LockedStyleAttributes)
        ensures
            r@ == attributes@.to_set(),
            r.wf(),
    {
        let mut r = LockedStyleAttributes::new();
        let mut i: usize = 0;
        while i < attributes.len()
            invariant
                0 <= i <= attributes@.len(),
                r.wf(),
                r@ == attributes@.subrange(0, i as int).to_set(),
            decreases attributes@.len() - i,
        {
            let attribute = attributes[i];
            proof {
                assert(attributes@.subrange(0, i as int + 1) =~= attributes@.subrange(
                    0,
                    i as int,
                ).push(attribute));
            }
            if !r.contains(attribute) {
                proof {
                    lemma_to_set_push(r.attrs@, attribute);
                    lemma_to_set_push(attributes@.subrange(0, i as int), attribute);
                }
                r.attrs.push(attribute);
            } else {
                proof {
                    lemma_to_set_push(attributes@.subrange(0, i as int), attribute);
                    assert(r@.insert(attribute) =~= r@);
                }
            }
            i += 1;
        }
        proof {
            assert(attributes@.subrange(0, attributes@.len() as int) =~= attributes@);
        }
        r
    }

    /// Whether `attr` is locked.
    pub fn contains(&self, attr: LockableStyleAttribute) -> (r: bool)
        ensures
            r == self@.contains(attr),
    {
        let mut i: usize = 0;
        while i < self.attrs.len()
            invariant
                0 <= i <= self.attrs@.len(),
                forall|j: int| 0 <= j < i ==> self.attrs@[j] != attr,
            decreases self.attrs@.len() - i,
        {
            if self.attrs[i] == attr {
                return true;
            }
            i += 1;
        }
        false
    }
}

impl Default for LockedStyleAttributes {
    fn default() -> (r: Self)
        ensures
            r@ == Set::<LockableStyleAttribute>::empty(),
            r.wf(),
    {
        LockedStyleAttributes::new()
    }
}

/// The interaction phase a themed control is tracked through, as the
/// animation layer reports it. `Enter` and `Transitioning` suspend
/// scrolling while the enter/transition animation plays.
#[derive(Clone, Copy, Debug, PartialEq, Eq, Structural)]
pub enum TrackedStyleState {
    Untracked,
    Transitioning,
    Enter,
    Idle,
    Hover,
    Pressed,
    Released,
    Canceled,
}

impl Default for TrackedStyleState {
    fn default() -> (r: Self)
        ensures
            r == TrackedStyleState::Untracked,
    {
        TrackedStyleState::Untracked
    }
}

/// Whether a tracked interaction state suspends its scroll region:
/// scrolling is disabled while the region is entering or transitioning.
pub open spec fn state_disables_scrolling(state: TrackedStyleState) -> bool {
    state == TrackedStyleState::Enter || state == TrackedStyleState::Transitioning
}

/// Per-interaction-phase values of an animated attribute.
#[derive(Clone, Copy, Debug, PartialEq, Eq, Structural)]
pub struct AnimatedVals<T> {
    pub idle: T,
    pub hover: Option<T>,
    pub press: Option<T>,
    pub cancel: Option<T>,
    pub enter_from: Option<T>,
}

impl TrackedStyleState {
    /// The animated values that track a control's interaction phase: each
    /// phase maps to its own tag.
    pub fn default_vals() -> (r: AnimatedVals<TrackedStyleState>)
        ensures
            r == (AnimatedVals {
                idle: TrackedStyleState::Idle,
                hover: Some(TrackedStyleState::Hover),
                press: Some(TrackedStyleState::Pressed),
                cancel: Some(TrackedStyleState::Canceled),
                enter_from: Some(TrackedStyleState::Enter),
            }),
    {
        AnimatedVals {
            idle: TrackedStyleState::Idle,
            hover: Some(TrackedStyleState::Hover),
            press: Some(TrackedStyleState::Pressed),
            cancel: Some(TrackedStyleState::Canceled),
            enter_from: Some(TrackedStyleState::Enter),
        }
    }
}

} // verus!
