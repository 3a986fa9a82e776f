use vstd::prelude::*;

verus! {

/// The travel direction along one axis.
#[derive(Clone, Copy, Debug, PartialEq, Eq, Structural)]
pub enum Heading {
    Positive,
    Negative,
}

impl Heading {
    /// The sign that the heading stands for: `+1` or `-1`.
    pub open spec fn sign(self) -> int {
        match self {
            Heading::Positive => 1,
            Heading::Negative => -1,
        }
    }

    /// The opposite heading.
    pub open spec fn flipped(self) -> Heading {
        match self {
            Heading::Positive => Heading::Negative,
            Heading::Negative => Heading::Positive,
        }
    }

    /// Reverses the heading.
    pub fn flip(self) -> (r: Heading)
        ensures
            r == self.flipped(),
            r.sign() == -self.sign(),
    {
        match self {
            Heading::Positive => Heading::Negative,
            Heading::Negative => Heading::Positive,
        }
    }
}

/// The coordinate reached from `pos` after travelling `delta` microseconds
/// at `speed` units per second along `heading`, in micro-units.
pub open spec fn integrated(pos: int, heading: Heading, speed: int, delta: int) -> int {
    pos + heading.sign() * speed * delta
}

/// Advances one coordinate by `heading * speed * delta`.
///
/// With the position in micro-units, the speed in units per second and the
/// time in microseconds, the step is an exact integer.
pub fn integrate(pos: i64, heading: Heading, speed: u32, delta: u64) -> (r: i64)
    requires
        i64::MIN <= integrated(pos as int, heading, speed as int, delta as int) <= i64::MAX,
    ensures
        r == integrated(pos as int, heading, speed as int, delta as int),
{
    proof {
        let s: int = speed as int;
        let d: int = delta as int;
        assert(0 <= s * d <= 0xffff_ffff * 0xffff_ffff_ffff_ffff) by (nonlinear_arith)
            requires
                0 <= s <= 0xffff_ffff,
                0 <= d <= 0xffff_ffff_ffff_ffff,
        ;
        assert(heading.sign() * s * d == heading.sign() * (s * d)) by (nonlinear_arith);
    }
    let step: i128 = (speed as i128) * (delta as i128);
    let next: i128 = match heading {
        Heading::Positive => pos as i128 + step,
        Heading::Negative => pos as i128 - step,
    };
    next as i64
}

} // verus!
