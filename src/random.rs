use rand::Rng;
use vstd::prelude::*;

use crate::color::{Color, CHANNEL_ONE};

verus! {

#[verifier::external_type_specification]
#[verifier::external_body]
pub struct ExThreadRng(rand::rngs::ThreadRng);

/// Relies on rand::thread_rng: a handle to the thread-local generator,
/// seeded by the system.
#[verifier::external_body]
fn new_rng() -> (r: rand::rngs::ThreadRng) {
    rand::thread_rng()
}

/// Relies on rand::Rng::gen_range: a value of the half-open range
/// `0..bound`; it panics only on an empty range, which `requires` leaves out.
#[verifier::external_body]
fn gen_below(rng: &mut rand::rngs::ThreadRng, bound: u32) -> (r: u32)
    requires
        bound > 0,
    ensures
        r < bound,
{
    rng.gen_range(0..bound)
}

/// Draws a color whose three channels are independent values of `[0, 1)`,
/// from a generator seeded by the system.
pub fn random_color() -> (c: Color)
    ensures
        c.is_drawn(),
        c.wf(),
{
    let mut rng = new_rng();
    let red = gen_below(&mut rng, CHANNEL_ONE);
    let green = gen_below(&mut rng, CHANNEL_ONE);
    let blue = gen_below(&mut rng, CHANNEL_ONE);
    Color { red, green, blue }
}

} // verus!
