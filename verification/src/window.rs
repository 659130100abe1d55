//! The window rules that the desktop shell applies on Windows: how the four
//! corner roundings map onto what the window manager offers, how the system
//! caption is taken off a window's style, and where a maximised window goes.

use vstd::prelude::*;

verus! {

/// How round the window's corners should be, as the user picks it.
#[derive(Clone, Copy, PartialEq, Eq, Debug)]
pub enum Rounding {
    Square,
    Subtle,
    Rounded,
    Round,
}

/// The corner presets that the window manager offers: no arbitrary radius,
/// only none, a small one and the normal one.
#[derive(Clone, Copy, PartialEq, Eq, Debug)]
pub enum CornerPreference {
    DoNotRound,
    RoundSmall,
    Round,
}

/// The preset for a rounding: `Square` turns rounding off, `Subtle` gets the
/// small radius, and `Rounded` and `Round` both get the normal one, since the
/// window manager has nothing rounder than that.
pub fn corner_preference(rounding: Rounding) -> (preference: CornerPreference)
    ensures
        preference == match rounding {
            Rounding::Square => CornerPreference::DoNotRound,
            Rounding::Subtle => CornerPreference::RoundSmall,
            Rounding::Rounded | Rounding::Round => CornerPreference::Round,
        },
{
    match rounding {
        Rounding::Square => CornerPreference::DoNotRound,
        Rounding::Subtle => CornerPreference::RoundSmall,
        Rounding::Rounded | Rounding::Round => CornerPreference::Round,
    }
}

/// The style a window gets once its system caption is taken off, or `None`
/// when `style` has none of the `caption` bits and is left as it is.
pub fn style_without_caption(style: isize, caption: isize) -> (r: Option<isize>)
    ensures
        (style & caption == 0) <==> r is None,
        r matches Some(s) ==> s == style & !caption && s & caption == 0,
{
    if style & caption == 0 {
        None
    } else {
        let s = style & !caption;
        assert(s & caption == 0) by (bit_vector)
            requires
                s == style & !caption,
        ;
        Some(s)
    }
}

/// A style without its caption has nothing left to take off.
pub proof fn lemma_caption_removal_is_idempotent(style: isize, caption: isize)
    ensures
        (style & !caption) & caption == 0,
{
    assert((style & !caption) & caption == 0) by (bit_vector);
}

/// A rectangle in screen coordinates.
#[derive(Clone, Copy, PartialEq, Eq, Debug)]
pub struct Rect {
    pub left: i32,
    pub top: i32,
    pub right: i32,
    pub bottom: i32,
}

/// A point, or a size.
#[derive(Clone, Copy, PartialEq, Eq, Debug)]
pub struct Point {
    pub x: i32,
    pub y: i32,
}

/// Where a maximised window goes and how large it may grow.
#[derive(Clone, Copy, PartialEq, Eq, Debug)]
pub struct MaximizedBounds {
    /// The maximised window's corner, relative to the monitor's.
    pub max_position: Point,
    /// The maximised window's size.
    pub max_size: Point,
    /// The largest size the window may be dragged to.
    pub max_track_size: Point,
}

/// True when a window of `style` has no sizing frame: it is full screen.
pub open spec fn is_full_screen(style: u32, thick_frame: u32) -> bool {
    style & thick_frame == 0
}

/// True when the sizes and offsets that placing a maximised window of
/// `style` computes fit in `i32`.
pub open spec fn placement_fits(screen: Rect, work: Rect, style: u32, thick_frame: u32) -> bool {
    &&& i32::MIN <= screen.right - screen.left <= i32::MAX
    &&& i32::MIN <= screen.bottom - screen.top <= i32::MAX
    &&& !is_full_screen(style, thick_frame) ==> {
        &&& i32::MIN <= work.left - screen.left <= i32::MAX
        &&& i32::MIN <= work.top - screen.top <= i32::MAX
        &&& i32::MIN <= work.right - work.left <= i32::MAX
        &&& i32::MIN <= work.bottom - work.top <= i32::MAX
    }
}

/// The larger of two values.
pub open spec fn larger(a: int, b: int) -> int {
    if a >= b {
        a
    } else {
        b
    }
}

/// The larger of two values is one of them and at least both.
pub proof fn lemma_larger(a: int, b: int)
    ensures
        larger(a, b) >= a,
        larger(a, b) >= b,
        larger(a, b) == a || larger(a, b) == b,
{
}

/// A window is full screen exactly when its style has none of the
/// sizing-frame bits.
pub proof fn lemma_full_screen_means_no_sizing_frame(style: u32, thick_frame: u32)
    ensures
        is_full_screen(style, thick_frame) <==> style & thick_frame == 0,
        is_full_screen(0, thick_frame),
        thick_frame != 0 ==> !is_full_screen(thick_frame, thick_frame),
{
    assert(0u32 & thick_frame == 0) by (bit_vector);
    assert(thick_frame != 0 ==> thick_frame & thick_frame != 0) by (bit_vector);
}

fn max_i32(a: i32, b: i32) -> (m: i32)
    ensures
        m == larger(a as int, b as int),
{
    if a >= b {
        a
    } else {
        b
    }
}

/// Where a window maximises on a monitor whose full area is `screen` and
/// whose work area (the part the taskbar leaves free) is `work`, as a release
/// build computes it: differences that do not fit in `i32` wrap around. A
/// window without a sizing frame (`style` has none of the `thick_frame` bits)
/// is full screen and covers the whole monitor; any other window covers the
/// work area. Either way it may be dragged to at least the monitor's size,
/// and never to less than `track`, the largest size allowed so far.
pub fn maximized_bounds_wrapping(
    screen: Rect,
    work: Rect,
    style: u32,
    thick_frame: u32,
    track: Point,
) -> (b: MaximizedBounds)
    ensures
        is_full_screen(style, thick_frame) ==> {
            &&& b.max_position == Point { x: 0, y: 0 }
            &&& b.max_size.x == screen.right.wrapping_sub(screen.left)
            &&& b.max_size.y == screen.bottom.wrapping_sub(screen.top)
        },
        !is_full_screen(style, thick_frame) ==> {
            &&& b.max_position.x == work.left.wrapping_sub(screen.left)
            &&& b.max_position.y == work.top.wrapping_sub(screen.top)
            &&& b.max_size.x == work.right.wrapping_sub(work.left)
            &&& b.max_size.y == work.bottom.wrapping_sub(work.top)
        },
        b.max_track_size.x == larger(screen.right.wrapping_sub(screen.left) as int, track.x as int),
        b.max_track_size.y == larger(screen.bottom.wrapping_sub(screen.top) as int, track.y as int),
{
    let screen_width = screen.right.wrapping_sub(screen.left);
    let screen_height = screen.bottom.wrapping_sub(screen.top);
    let max_track_size = Point {
        x: max_i32(screen_width, track.x),
        y: max_i32(screen_height, track.y),
    };
    if style & thick_frame == 0 {
        MaximizedBounds {
            max_position: Point { x: 0, y: 0 },
            max_size: Point { x: screen_width, y: screen_height },
            max_track_size,
        }
    } else {
        MaximizedBounds {
            max_position: Point {
                x: work.left.wrapping_sub(screen.left),
                y: work.top.wrapping_sub(screen.top),
            },
            max_size: Point {
                x: work.right.wrapping_sub(work.left),
                y: work.bottom.wrapping_sub(work.top),
            },
            max_track_size,
        }
    }
}

/// Where a window maximises, as a debug build computes it: the same as
/// `maximized_bounds_wrapping`, on the inputs whose differences fit in `i32`
/// (elsewhere a debug build panics on the overflow).
pub fn maximized_bounds(screen: Rect, work: Rect, style: u32, thick_frame: u32, track: Point) -> (b:
    MaximizedBounds)
    requires
        placement_fits(screen, work, style, thick_frame),
    ensures
        is_full_screen(style, thick_frame) ==> {
            &&& b.max_position == Point { x: 0, y: 0 }
            &&& b.max_size.x == screen.right - screen.left
            &&& b.max_size.y == screen.bottom - screen.top
        },
        !is_full_screen(style, thick_frame) ==> {
            &&& b.max_position.x == work.left - screen.left
            &&& b.max_position.y == work.top - screen.top
            &&& b.max_size.x == work.right - work.left
            &&& b.max_size.y == work.bottom - work.top
        },
        b.max_track_size.x == larger(screen.right - screen.left, track.x as int),
        b.max_track_size.y == larger(screen.bottom - screen.top, track.y as int),
{
    maximized_bounds_wrapping(screen, work, style, thick_frame, track)
}

} // verus!
