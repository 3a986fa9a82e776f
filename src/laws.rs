//! Laws of the edge check of one frame, stated over `after_reflection`,
//! which `bounce_with_color` and `update_logo_direction` both meet.
use vstd::prelude::*;

use crate::bounds::{below_min, crosses, LOGO_EXTENT_X, LOGO_EXTENT_Y};
use crate::color::Color;
use crate::logo::{after_reflection, bounces, Logo};
use crate::motion::Heading;

verus! {

/// A logo that has passed the left bound while heading left turns to head
/// right; while its centre is within the vertical bounds, its vertical
/// heading stays as it was.
pub proof fn lemma_reflects_off_left_edge(logo: Logo, width: int, height: int, fresh: Color)
    requires
        below_min(logo.x as int, LOGO_EXTENT_X as int),
        logo.heading_x == Heading::Negative,
        !crosses(logo.y as int, LOGO_EXTENT_Y as int, height),
    ensures
        after_reflection(logo, width, height, fresh).heading_x == Heading::Positive,
        after_reflection(logo, width, height, fresh).heading_y == logo.heading_y,
{
}

/// A logo centred exactly on the left or the right bound keeps its
/// horizontal heading: the bounds are exclusive. This needs a window at
/// least as wide as the logo, so that the left bound is not past the right.
pub proof fn lemma_edge_does_not_flip(logo: Logo, width: int, height: int, fresh: Color)
    requires
        2 * logo.x == LOGO_EXTENT_X || 2 * logo.x == 2 * width - LOGO_EXTENT_X,
        LOGO_EXTENT_X <= width,
    ensures
        after_reflection(logo, width, height, fresh).heading_x == logo.heading_x,
{
}

/// When both axes are crossed in one frame, both headings reverse and the
/// logo takes a single new color, the one drawn for that frame.
pub proof fn lemma_single_recolor(logo: Logo, width: int, height: int, fresh: Color)
    requires
        crosses(logo.x as int, LOGO_EXTENT_X as int, width),
        crosses(logo.y as int, LOGO_EXTENT_Y as int, height),
    ensures
        after_reflection(logo, width, height, fresh).heading_x == logo.heading_x.flipped(),
        after_reflection(logo, width, height, fresh).heading_y == logo.heading_y.flipped(),
        after_reflection(logo, width, height, fresh).color == fresh,
{
}

/// On a frame without a bounce the logo is left exactly as it was, its
/// color included.
pub proof fn lemma_no_recolor_without_bounce(logo: Logo, width: int, height: int, fresh: Color)
    requires
        !bounces(logo, width, height),
    ensures
        after_reflection(logo, width, height, fresh) == logo,
{
}

} // verus!
