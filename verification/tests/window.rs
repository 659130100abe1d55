use sonora::window::corner_preference;
use sonora::window::maximized_bounds;
use sonora::window::maximized_bounds_wrapping;
use sonora::window::style_without_caption;
use sonora::window::CornerPreference;
use sonora::window::MaximizedBounds;
use sonora::window::Point;
use sonora::window::Rect;
use sonora::window::Rounding;

const CAPTION: isize = 0x00C0_0000;
const THICK_FRAME: u32 = 0x0004_0000;

#[test]
fn roundings_map_onto_the_presets() {
    assert_eq!(corner_preference(Rounding::Square), CornerPreference::DoNotRound);
    assert_eq!(corner_preference(Rounding::Subtle), CornerPreference::RoundSmall);
    assert_eq!(corner_preference(Rounding::Rounded), CornerPreference::Round);
    assert_eq!(corner_preference(Rounding::Round), CornerPreference::Round);
}

#[test]
fn caption_bits_are_taken_off() {
    let style: isize = 0x14CF_0000;
    assert_eq!(style_without_caption(style, CAPTION), Some(0x140F_0000));
    assert_eq!(style_without_caption(0x140F_0000, CAPTION), None);
    assert_eq!(style_without_caption(0x0040_0000, CAPTION), Some(0));
}

#[test]
fn windowed_maximize_fills_the_work_area() {
    let screen = Rect { left: 1920, top: 0, right: 3840, bottom: 1080 };
    let work = Rect { left: 1920, top: 0, right: 3840, bottom: 1040 };
    let bounds = maximized_bounds(screen, work, THICK_FRAME | 0x10, THICK_FRAME, Point { x: 100, y: 100 });
    assert_eq!(
        bounds,
        MaximizedBounds {
            max_position: Point { x: 0, y: 0 },
            max_size: Point { x: 1920, y: 1040 },
            max_track_size: Point { x: 1920, y: 1080 },
        }
    );
}

#[test]
fn windowed_maximize_leaves_a_taskbar_on_the_left() {
    let screen = Rect { left: 0, top: 0, right: 1600, bottom: 900 };
    let work = Rect { left: 60, top: 20, right: 1600, bottom: 900 };
    let bounds = maximized_bounds(screen, work, THICK_FRAME, THICK_FRAME, Point { x: 4000, y: 10 });
    assert_eq!(bounds.max_position, Point { x: 60, y: 20 });
    assert_eq!(bounds.max_size, Point { x: 1540, y: 880 });
    assert_eq!(bounds.max_track_size, Point { x: 4000, y: 900 });
}

#[test]
fn full_screen_maximize_covers_the_monitor() {
    let screen = Rect { left: -1280, top: -200, right: 0, bottom: 824 };
    let work = Rect { left: -1280, top: -200, right: 0, bottom: 784 };
    let bounds = maximized_bounds(screen, work, 0x10, THICK_FRAME, Point { x: 0, y: 0 });
    assert_eq!(
        bounds,
        MaximizedBounds {
            max_position: Point { x: 0, y: 0 },
            max_size: Point { x: 1280, y: 1024 },
            max_track_size: Point { x: 1280, y: 1024 },
        }
    );
}

#[test]
fn wrapping_placement_agrees_where_nothing_overflows() {
    let screen = Rect { left: 0, top: 0, right: 1600, bottom: 900 };
    let work = Rect { left: 60, top: 20, right: 1600, bottom: 900 };
    let track = Point { x: 4000, y: 10 };
    assert_eq!(
        maximized_bounds_wrapping(screen, work, THICK_FRAME, THICK_FRAME, track),
        maximized_bounds(screen, work, THICK_FRAME, THICK_FRAME, track)
    );
}

#[test]
fn wrapping_placement_wraps_overflowing_sizes() {
    let screen = Rect { left: i32::MIN, top: 0, right: 10, bottom: 900 };
    let work = screen;
    let bounds = maximized_bounds_wrapping(screen, work, 0, THICK_FRAME, Point { x: 0, y: 0 });
    assert_eq!(bounds.max_size, Point { x: 10i32.wrapping_sub(i32::MIN), y: 900 });
    assert_eq!(bounds.max_track_size, Point { x: 0, y: 900 });
}
