use vstd::prelude::*;

use crate::bounds::{crosses, is_crossing, LOGO_EXTENT_X, LOGO_EXTENT_Y, LOGO_SPEED};
use crate::color::Color;
use crate::motion::{integrate, integrated, Heading};
use crate::random::random_color;

verus! {

/// The bouncing sprite: its centre in micro-units, its heading along each
/// axis and its display color.
#[derive(Clone, Copy, Debug, PartialEq, Eq, Structural)]
pub struct Logo {
    pub x: i64,
    pub y: i64,
    pub heading_x: Heading,
    pub heading_y: Heading,
    pub color: Color,
}

impl Logo {
    pub open spec fn wf(self) -> bool {
        self.color.wf()
    }
}

/// The heading along one axis after the edge check: reversed exactly when
/// the sprite has crossed a bound of that axis.
pub open spec fn reflected_heading(heading: Heading, pos: int, extent: int, window: int) -> Heading {
    if crosses(pos, extent, window) {
        heading.flipped()
    } else {
        heading
    }
}

/// The logo has crossed a bound on at least one axis of a window of
/// `width` by `height` micro-units.
pub open spec fn bounces(logo: Logo, width: int, height: int) -> bool {
    crosses(logo.x as int, LOGO_EXTENT_X as int, width)
        || crosses(logo.y as int, LOGO_EXTENT_Y as int, height)
}

/// The logo after the edge check of one frame, with `fresh` as the color
/// drawn for a bounce: each crossed axis reversed, and one new color in all
/// if any axis was crossed.
pub open spec fn after_reflection(logo: Logo, width: int, height: int, fresh: Color) -> Logo {
    Logo {
        heading_x: reflected_heading(logo.heading_x, logo.x as int, LOGO_EXTENT_X as int, width),
        heading_y: reflected_heading(logo.heading_y, logo.y as int, LOGO_EXTENT_Y as int, height),
        color: if bounces(logo, width, height) {
            fresh
        } else {
            logo.color
        },
        ..logo
    }
}

/// The logo after travelling `delta` microseconds along its headings.
pub open spec fn after_movement(logo: Logo, delta: int) -> Logo {
    Logo {
        x: integrated(logo.x as int, logo.heading_x, LOGO_SPEED as int, delta) as i64,
        y: integrated(logo.y as int, logo.heading_y, LOGO_SPEED as int, delta) as i64,
        ..logo
    }
}

/// The displacement of one frame keeps both coordinates within `i64`.
pub open spec fn movement_fits(logo: Logo, delta: int) -> bool {
    i64::MIN <= integrated(logo.x as int, logo.heading_x, LOGO_SPEED as int, delta) <= i64::MAX
        && i64::MIN <= integrated(logo.y as int, logo.heading_y, LOGO_SPEED as int, delta)
        <= i64::MAX
}

/// A new logo at the centre of a window of `width` by `height` micro-units,
/// heading right and up, in opaque white.
pub fn spawn_logo(width: u64, height: u64) -> (logo: Logo)
    ensures
        logo.x == width / 2,
        logo.y == height / 2,
        logo.heading_x == Heading::Positive,
        logo.heading_y == Heading::Positive,
        logo.color == Color::spec_white(),
        logo.wf(),
{
    Logo {
        x: (width / 2) as i64,
        y: (height / 2) as i64,
        heading_x: Heading::Positive,
        heading_y: Heading::Positive,
        color: Color::white(),
    }
}

/// Moves the logo for one frame of `delta` microseconds:
/// `position += heading * LOGO_SPEED * delta` on each axis.
pub fn logo_movement(logo: &mut Logo, delta: u64)
    requires
        movement_fits(*old(logo), delta as int),
    ensures
        *final(logo) == after_movement(*old(logo), delta as int),
        final(logo).x == integrated(old(logo).x as int, old(logo).heading_x, LOGO_SPEED as int, delta as int),
        final(logo).y == integrated(old(logo).y as int, old(logo).heading_y, LOGO_SPEED as int, delta as int),
{
    logo.x = integrate(logo.x, logo.heading_x, LOGO_SPEED, delta);
    logo.y = integrate(logo.y, logo.heading_y, LOGO_SPEED, delta);
}

/// Reverses the heading along each axis on which the logo has crossed a
/// bound of a window of `width` by `height` micro-units, and tells whether
/// any axis was crossed. Position and color are left as they are.
pub fn reflect_direction(logo: &mut Logo, width: u64, height: u64) -> (bounced: bool)
    ensures
        bounced == bounces(*old(logo), width as int, height as int),
        *final(logo) == after_reflection(*old(logo), width as int, height as int, old(logo).color),
{
    let mut bounced = false;
    if is_crossing(logo.x, LOGO_EXTENT_X, width) {
        logo.heading_x = logo.heading_x.flip();
        bounced = true;
    }
    if is_crossing(logo.y, LOGO_EXTENT_Y, height) {
        logo.heading_y = logo.heading_y.flip();
        bounced = true;
    }
    bounced
}

/// The edge check of one frame with `fresh` as the color for a bounce:
/// reverses each crossed axis and, if any was crossed, takes `fresh` once.
pub fn bounce_with_color(logo: &mut Logo, width: u64, height: u64, fresh: Color) -> (bounced: bool)
    ensures
        bounced == bounces(*old(logo), width as int, height as int),
        *final(logo) == after_reflection(*old(logo), width as int, height as int, fresh),
{
    let bounced = reflect_direction(logo, width, height);
    if bounced {
        logo.color = fresh;
    }
    bounced
}

/// The edge check of one frame: reverses each crossed axis and, if any was
/// crossed, gives the logo one color freshly drawn from `[0, 1)` per channel.
/// Nothing is drawn on a frame without a bounce.
pub fn update_logo_direction(logo: &mut Logo, width: u64, height: u64) -> (bounced: bool)
    requires
        old(logo).wf(),
    ensures
        bounced == bounces(*old(logo), width as int, height as int),
        *final(logo) == after_reflection(*old(logo), width as int, height as int, final(logo).color),
        bounced ==> final(logo).color.is_drawn(),
        !bounced ==> final(logo).color == old(logo).color,
        final(logo).wf(),
{
    let bounced = reflect_direction(logo, width, height);
    if bounced {
        logo.color = random_color();
    }
    bounced
}

} // verus!
