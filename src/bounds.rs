use vstd::prelude::*;

verus! {

/// Micro-units in one pixel.
pub const UNITS_PER_PIXEL: i64 = 1_000_000;

/// The logo image's native width, in pixels.
pub const LOGO_WIDTH: i64 = 1024;

/// The logo image's native height, in pixels.
pub const LOGO_HEIGHT: i64 = 589;

/// The uniform scale of the logo, in millionths.
pub const SCALE: i64 = 150_000;

/// The logo's speed along each axis, in pixels per second.
pub const LOGO_SPEED: u32 = 200;

/// The rendered width of the logo in micro-units: twice its half-width.
pub const LOGO_EXTENT_X: i64 = LOGO_WIDTH * SCALE;

/// The rendered height of the logo in micro-units: twice its half-height.
pub const LOGO_EXTENT_Y: i64 = LOGO_HEIGHT * SCALE;

/// `pos` lies below the lowest valid centre `extent / 2`.
pub open spec fn below_min(pos: int, extent: int) -> bool {
    2 * pos < extent
}

/// `pos` lies above the highest valid centre `window - extent / 2`.
pub open spec fn above_max(pos: int, extent: int, window: int) -> bool {
    2 * pos > 2 * window - extent
}

/// A sprite of size `extent` centred at `pos` has crossed an edge of a window
/// of size `window` along that axis. A centre exactly on a bound has not.
pub open spec fn crosses(pos: int, extent: int, window: int) -> bool {
    below_min(pos, extent) || above_max(pos, extent, window)
}

/// Tells whether a sprite of size `extent` centred at `pos` lies outside
/// `[extent / 2, window - extent / 2]`, bounds excluded.
pub fn is_crossing(pos: i64, extent: i64, window: u64) -> (r: bool)
    ensures
        r == crosses(pos as int, extent as int, window as int),
{
    let twice: i128 = 2 * (pos as i128);
    twice < extent as i128 || twice > 2 * (window as i128) - extent as i128
}

} // verus!
