//! Window sizes, tray-icon rectangles and the placement of the window
//! below the tray icon.

use vstd::prelude::*;

verus! {

/// Width used when the window's size cannot be determined, in pixels.
pub const DEFAULT_WIDTH: u32 = 600;

/// Height used when the window's size cannot be determined, in pixels.
pub const DEFAULT_HEIGHT: u32 = 400;

/// Vertical gap between the tray icon's bottom edge and the window's top
/// edge, in pixels.
pub const TRAY_GAP: u32 = 5;

/// Outer size of the window in physical pixels.
///
/// A size is *valid* when both sides are positive; only valid sizes are
/// ever written to the preference store.
#[derive(Clone, Copy, Debug, PartialEq, Eq, Structural)]
pub struct WindowGeometry {
    pub width: u32,
    pub height: u32,
}

/// Bounding rectangle of the tray icon in physical pixels.
#[derive(Clone, Copy, Debug, PartialEq, Eq, Structural)]
pub struct TrayRect {
    pub x: i32,
    pub y: i32,
    pub width: u32,
    pub height: u32,
}

/// Top-left corner of the window in physical pixels.
#[derive(Clone, Copy, Debug, PartialEq, Eq, Structural)]
pub struct WindowPosition {
    pub x: i32,
    pub y: i32,
}

impl WindowGeometry {
    /// Both sides are positive.
    pub open spec fn is_valid(self) -> bool {
        self.width > 0 && self.height > 0
    }

    /// The size used when no other size is known.
    pub open spec fn spec_fallback() -> WindowGeometry {
        WindowGeometry { width: DEFAULT_WIDTH, height: DEFAULT_HEIGHT }
    }

    /// Builds a size, refusing one with an empty side.
    pub fn new(width: u32, height: u32) -> (r: Option<WindowGeometry>)
        ensures
            r == (if width > 0 && height > 0 {
                Some(WindowGeometry { width, height })
            } else {
                None
            }),
    {
        if width > 0 && height > 0 {
            Some(WindowGeometry { width, height })
        } else {
            None
        }
    }

    /// The size used when no other size is known: 600 by 400.
    #[verifier::when_used_as_spec(spec_fallback)]
    pub fn fallback() -> (r: WindowGeometry)
        ensures
            r == Self::spec_fallback(),
            r.is_valid(),
    {
        WindowGeometry { width: DEFAULT_WIDTH, height: DEFAULT_HEIGHT }
    }

    /// Tells whether both sides are positive.
    pub fn valid(&self) -> (r: bool)
        ensures
            r == self.is_valid(),
    {
        self.width > 0 && self.height > 0
    }
}

/// The given size, or the fallback size where none is known.
pub open spec fn size_or_fallback(size: Option<WindowGeometry>) -> WindowGeometry {
    match size {
        Some(s) => s,
        None => WindowGeometry::spec_fallback(),
    }
}

/// The nearest value to `v` that an `i32` can hold.
pub open spec fn saturate_i32(v: int) -> int {
    if v < i32::MIN {
        i32::MIN as int
    } else if v > i32::MAX {
        i32::MAX as int
    } else {
        v
    }
}

/// Left edge that puts the horizontal centre of a window of width
/// `window_width` on the horizontal centre of the tray icon.
pub open spec fn centered_x(tray: TrayRect, window_width: u32) -> int {
    tray.x + tray.width / 2 - window_width / 2
}

/// Top edge that lies `TRAY_GAP` pixels below the tray icon's bottom edge.
pub open spec fn below_y(tray: TrayRect) -> int {
    tray.y + tray.height + TRAY_GAP
}

/// Where a window of the given size goes for the given tray rectangle.
/// Each coordinate is the exact one where an `i32` can hold it, and the
/// nearest representable one otherwise.
pub open spec fn position_below(tray: TrayRect, size: WindowGeometry) -> WindowPosition {
    WindowPosition {
        x: saturate_i32(centered_x(tray, size.width)) as i32,
        y: saturate_i32(below_y(tray)) as i32,
    }
}

fn saturate(v: i64) -> (r: i32)
    ensures
        r == saturate_i32(v as int),
{
    if v < i32::MIN as i64 {
        i32::MIN
    } else if v > i32::MAX as i64 {
        i32::MAX
    } else {
        v as i32
    }
}

/// Computes the window's position from the tray icon's rectangle and the
/// window's outer size: centred under the icon, `TRAY_GAP` pixels below it.
pub fn position_below_tray(tray: TrayRect, size: WindowGeometry) -> (r: WindowPosition)
    ensures
        r == position_below(tray, size),
        r.x == saturate_i32(tray.x + tray.width / 2 - size.width / 2),
        r.y == saturate_i32(tray.y + tray.height + 5),
{
    let half_tray: i64 = (tray.width / 2) as i64;
    let half_window: i64 = (size.width / 2) as i64;
    let x: i64 = tray.x as i64 + half_tray - half_window;
    let y: i64 = tray.y as i64 + tray.height as i64 + TRAY_GAP as i64;
    WindowPosition { x: saturate(x), y: saturate(y) }
}

/// The window's size if it could be queried, 600 by 400 otherwise.
pub fn outer_size_or_fallback(size: Option<WindowGeometry>) -> (r: WindowGeometry)
    ensures
        r == size_or_fallback(size),
{
    match size {
        Some(s) => s,
        None => WindowGeometry::fallback(),
    }
}

/// Placement law: whenever both coordinates of the exact placement fit the
/// pixel coordinate type, the computed position is exactly
/// `(x + w/2 - ww/2, y + h + 5)` with integer halving. This covers every
/// tray rectangle and window on a real screen.
pub proof fn lemma_position_is_exact(tray: TrayRect, size: WindowGeometry)
    requires
        i32::MIN <= tray.x + tray.width / 2 - size.width / 2 <= i32::MAX,
        i32::MIN <= tray.y + tray.height + 5 <= i32::MAX,
    ensures
        position_below(tray, size).x == tray.x + tray.width / 2 - size.width / 2,
        position_below(tray, size).y == tray.y + tray.height + 5,
{
}

/// The placement centres the window under the icon: twice the distance
/// between the two centres is less than two pixels, the share that halving
/// an odd width loses.
pub proof fn lemma_position_is_centered(tray: TrayRect, size: WindowGeometry)
    requires
        i32::MIN <= centered_x(tray, size.width) <= i32::MAX,
    ensures
        ({
            let window_center2 = 2 * position_below(tray, size).x + size.width;
            let tray_center2 = 2 * tray.x + tray.width;
            -1 <= window_center2 - tray_center2 <= 1
        }),
{
}

} // verus!
