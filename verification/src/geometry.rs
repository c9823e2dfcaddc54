//! Scalar and vector geometry for the scroll engine: axes, pixel vectors,
//! node sizes, and the proportional-mapping arithmetic used by the input
//! and layout passes.

use vstd::prelude::*;

verus! {

/// The two scroll directions of a scroll region.
#[derive(Clone, Copy, Debug, PartialEq, Eq, Structural)]
pub enum ScrollAxis {
    Horizontal,
    Vertical,
}

impl Default for ScrollAxis {
    fn default() -> (r: Self)
        ensures
            r == ScrollAxis::Horizontal,
    {
        ScrollAxis::Horizontal
    }
}

/// A two-dimensional pixel offset. `x` grows rightward, `y` grows downward.
#[derive(Clone, Copy, Debug, PartialEq, Eq, Structural)]
pub struct Vec2 {
    pub x: i64,
    pub y: i64,
}

impl Vec2 {
    /// The zero offset.
    pub fn zero() -> (r: Vec2)
        ensures
            r == (Vec2 { x: 0, y: 0 }),
    {
        Vec2 { x: 0, y: 0 }
    }
}

impl Default for Vec2 {
    fn default() -> (r: Self)
        ensures
            r == (Vec2 { x: 0, y: 0 }),
    {
        Vec2 { x: 0, y: 0 }
    }
}

/// The resolved layout size of a node, in whole pixels.
#[derive(Clone, Copy, Debug, PartialEq, Eq, Structural)]
pub struct Size {
    pub width: u32,
    pub height: u32,
}

impl Size {
    /// The extent of this size along the given axis.
    pub fn along(&self, axis: ScrollAxis) -> (r: u32)
        ensures
            r == spec_along(*self, axis),
    {
        match axis {
            ScrollAxis::Horizontal => self.width,
            ScrollAxis::Vertical => self.height,
        }
    }
}

impl Default for Size {
    fn default() -> (r: Self)
        ensures
            r == (Size { width: 0, height: 0 }),
    {
        Size { width: 0, height: 0 }
    }
}

/// The extent of `size` along `axis`.
pub open spec fn spec_along(size: Size, axis: ScrollAxis) -> u32 {
    match axis {
        ScrollAxis::Horizontal => size.width,
        ScrollAxis::Vertical => size.height,
    }
}

/// `v` clamped into `[lo, hi]`.
pub open spec fn clamp_int(v: int, lo: int, hi: int) -> int
    recommends
        lo <= hi,
{
    if v < lo {
        lo
    } else if v > hi {
        hi
    } else {
        v
    }
}

/// The unit of a wheel delta: one discrete line step, or a continuous
/// pixel amount.
#[derive(Clone, Copy, Debug, PartialEq, Eq, Structural)]
pub enum ScrollUnit {
    Line,
    Pixel,
}

/// Pixels per discrete line step: a line-unit wheel delta is scaled by
/// this factor to approximate one step in pixel space.
pub const LINE_STEP_PIXELS: i64 = 20;

/// A wheel delta canonicalized to pixels: line deltas scale by
/// [`LINE_STEP_PIXELS`], pixel deltas pass through unscaled.
pub open spec fn spec_wheel_pixels(amount: int, unit: ScrollUnit) -> int {
    match unit {
        ScrollUnit::Line => amount * 20,
        ScrollUnit::Pixel => amount,
    }
}

/// The unclamped scroll-offset change produced by one wheel delta:
/// canonicalized to pixels and mapped onto its axis, the other axis zero.
pub fn wheel_offset(axis: ScrollAxis, amount: i32, unit: ScrollUnit) -> (r: Vec2)
    ensures
        axis == ScrollAxis::Horizontal ==> r.x == spec_wheel_pixels(amount as int, unit) && r.y
            == 0,
        axis == ScrollAxis::Vertical ==> r.x == 0 && r.y == spec_wheel_pixels(amount as int, unit),
{
    let pixels: i64 = match unit {
        ScrollUnit::Line => amount as i64 * LINE_STEP_PIXELS,
        ScrollUnit::Pixel => amount as i64,
    };
    match axis {
        ScrollAxis::Horizontal => Vec2 { x: pixels, y: 0 },
        ScrollAxis::Vertical => Vec2 { x: 0, y: pixels },
    }
}

/// `raw` scaled by the ratio `num / den`, with the quotient truncated
/// toward zero, as a drag delta is remapped from track space to content
/// space.
pub open spec fn scale_by_ratio(raw: int, num: int, den: int) -> int
    recommends
        num >= 0,
        den > 0,
{
    if raw >= 0 {
        raw * num / den
    } else {
        -((-raw) * num / den)
    }
}

/// Whether a mathematical integer fits the machine's offset type.
pub open spec fn fits_i64(v: int) -> bool {
    i64::MIN <= v <= i64::MAX
}

/// The scroll delta a drag delta of `raw` produces, given the container,
/// content and handle extents along the drag axis. Without overflow, or
/// with the track fully covered by its handle, a drag scrolls nothing;
/// otherwise the delta is scaled by `overflow / remaining_track`.
pub open spec fn spec_drag_delta(raw: int, container: int, content: int, handle: int) -> int {
    if content <= container {
        0
    } else if container <= handle {
        0
    } else {
        scale_by_ratio(raw, content - container, container - handle)
    }
}

/// The scroll delta produced by one drag delta on a scrollbar handle.
/// `raw` is the pointer movement along the handle's axis; `container`,
/// `content` and `handle` are the extents along that axis. The bound on
/// `raw` keeps the proportional product within the machine word.
pub fn drag_scroll_delta(raw: i64, container: u32, content: u32, handle: u32) -> (r: i64)
    requires
        -0x8000_0000 <= raw <= 0x8000_0000,
    ensures
        r == spec_drag_delta(raw as int, container as int, content as int, handle as int),
{
    if content <= container {
        return 0;
    }
    if handle >= container {
        return 0;
    }
    let overflow: u64 = (content - container) as u64;
    let remaining: u64 = (container - handle) as u64;
    if raw >= 0 {
        proof {
            lemma_mul_bounds_u64(raw as int, 0x8000_0000, overflow as int, 0xffff_ffff);
        }
        let prod: u64 = (raw as u64) * overflow;
        proof {
            lemma_div_le_dividend(prod as int, remaining as int);
        }
        (prod / remaining) as i64
    } else {
        let mag: u64 = (-raw) as u64;
        proof {
            lemma_mul_bounds_u64(mag as int, 0x8000_0000, overflow as int, 0xffff_ffff);
        }
        let prod: u64 = mag * overflow;
        proof {
            lemma_div_le_dividend(prod as int, remaining as int);
        }
        -((prod / remaining) as i64)
    }
}

/// Dividing a non-negative value by a positive divisor never grows it.
proof fn lemma_div_le_dividend(x: int, d: int)
    requires
        0 <= x,
        1 <= d,
    ensures
        x / d <= x,
{
    vstd::arithmetic::div_mod::lemma_div_is_ordered_by_denominator(x, 1, d);
    vstd::arithmetic::div_mod::lemma_div_basics(x);
}

/// `a * b <= abound * bbound` for non-negative factors within their bounds.
proof fn lemma_mul_bounds_u64(a: int, abound: int, b: int, bbound: int)
    requires
        0 <= a <= abound,
        0 <= b <= bbound,
    ensures
        a * b <= abound * bbound,
{
    vstd::arithmetic::mul::lemma_mul_upper_bound(a, abound, b, bbound);
}

/// The hard floor on a scrollbar handle's extent, in pixels: a handle is
/// never computed smaller than this, so it stays grabbable.
pub const HANDLE_FLOOR: u32 = 5;

/// The extent of a scrollbar handle along its axis: the track extent
/// scaled by the visible ratio `container / content`, floored at
/// [`HANDLE_FLOOR`] and capped at the track extent (or at the floor where
/// the track itself is smaller).
pub open spec fn spec_handle_extent(container: int, content: int, track: int) -> int
    recommends
        0 < container <= content,
{
    clamp_int(container * track / content, 5, vstd::math::max(track, 5))
}

/// Computes a scrollbar handle's extent from the container, content and
/// track extents along its axis. The floor keeps every handle grabbable.
pub fn handle_extent(container: u32, content: u32, track: u32) -> (r: u32)
    requires
        0 < container,
        container <= content,
    ensures
        r as int == spec_handle_extent(container as int, content as int, track as int),
        5 <= r,
        r as int <= vstd::math::max(track as int, 5),
{
    proof {
        lemma_mul_bounds_u64(container as int, 0xffff_ffff, track as int, 0xffff_ffff);
    }
    let prod: u64 = container as u64 * track as u64;
    let q: u64 = prod / (content as u64);
    proof {
        vstd::arithmetic::mul::lemma_mul_inequality(container as int, content as int, track as int);
        vstd::arithmetic::div_mod::lemma_div_is_ordered(
            container as int * track as int,
            content as int * track as int,
            content as int,
        );
        vstd::arithmetic::div_mod::lemma_div_by_multiple(track as int, content as int);
    }
    let v: u32 = q as u32;
    let hi: u32 = if track < HANDLE_FLOOR {
        HANDLE_FLOOR
    } else {
        track
    };
    if v < HANDLE_FLOOR {
        HANDLE_FLOOR
    } else if v > hi {
        hi
    } else {
        v
    }
}

/// The position of a scrollbar handle along its track: the clamped scroll
/// offset remapped proportionally onto the track space left over by the
/// handle, `(clamped / overflow) * (track - handle)` with the quotient
/// truncated toward zero.
pub fn handle_offset(clamped: i64, overflow: i64, track: u32, handle: u32) -> (r: i64)
    requires
        0 < overflow <= 0xffff_ffff,
        0 <= clamped <= overflow,
        handle as int <= vstd::math::max(track as int, 5),
    ensures
        r == scale_by_ratio(track as int - handle as int, clamped as int, overflow as int),
        handle <= track ==> 0 <= r <= track as int - handle as int,
{
    broadcast use vstd::arithmetic::mul::lemma_mul_is_commutative;

    if handle <= track {
        let rem: u64 = (track - handle) as u64;
        proof {
            lemma_mul_bounds_u64(clamped as int, 0xffff_ffff, rem as int, 0xffff_ffff);
        }
        let prod: u64 = (clamped as u64) * rem;
        let q: u64 = prod / (overflow as u64);
        proof {
            vstd::arithmetic::mul::lemma_mul_inequality(
                clamped as int,
                overflow as int,
                rem as int,
            );
            vstd::arithmetic::div_mod::lemma_div_is_ordered(
                clamped as int * rem as int,
                overflow as int * rem as int,
                overflow as int,
            );
            vstd::arithmetic::div_mod::lemma_div_by_multiple(rem as int, overflow as int);
        }
        q as i64
    } else {
        let rem_past: u64 = (handle - track) as u64;
        proof {
            lemma_mul_bounds_u64(clamped as int, 0xffff_ffff, rem_past as int, 5);
        }
        let prod: u64 = (clamped as u64) * rem_past;
        let q: u64 = prod / (overflow as u64);
        proof {
            lemma_div_le_dividend(prod as int, overflow as int);
        }
        -(q as i64)
    }
}

/// One scroll offset component clamped against the overflow on its axis:
/// with positive overflow the offset is forced into `[0, overflow]`; with
/// no overflow the stored offset is kept as it is (only the layout pass
/// resets the visual offset, never the stored value).
pub fn clamp_axis_offset(offset: i64, overflow: i64) -> (r: i64)
    ensures
        overflow > 0 ==> r == clamp_int(offset as int, 0, overflow as int),
        overflow <= 0 ==> r == offset,
{
    if overflow > 0 {
        if offset < 0 {
            0
        } else if offset > overflow {
            overflow
        } else {
            offset
        }
    } else {
        offset
    }
}

} // verus!
