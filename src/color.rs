use vstd::prelude::*;

verus! {

/// The fixed-point denominator of a color channel: a channel holding `n`
/// stands for the intensity `n / CHANNEL_ONE`.
pub const CHANNEL_ONE: u32 = 65536;

/// An RGB color, each channel a fraction over `CHANNEL_ONE`.
#[derive(Clone, Copy, Debug, PartialEq, Eq, Structural)]
pub struct Color {
    pub red: u32,
    pub green: u32,
    pub blue: u32,
}

impl Color {
    /// Every channel lies in `[0, 1]`.
    pub open spec fn wf(self) -> bool {
        self.red <= CHANNEL_ONE && self.green <= CHANNEL_ONE && self.blue <= CHANNEL_ONE
    }

    /// Every channel lies in `[0, 1)`, the range that a fresh color is drawn from.
    pub open spec fn is_drawn(self) -> bool {
        self.red < CHANNEL_ONE && self.green < CHANNEL_ONE && self.blue < CHANNEL_ONE
    }

    /// Opaque white: every channel at full intensity.
    pub open spec fn spec_white() -> Color {
        Color { red: CHANNEL_ONE, green: CHANNEL_ONE, blue: CHANNEL_ONE }
    }

    /// Opaque white, the color a logo starts with.
    pub fn white() -> (c: Color)
        ensures
            c == Color::spec_white(),
            c.wf(),
    {
        Color { red: CHANNEL_ONE, green: CHANNEL_ONE, blue: CHANNEL_ONE }
    }
}

} // verus!
