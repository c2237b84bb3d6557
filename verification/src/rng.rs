//! A seeded random source whose draws can be replayed.

use vstd::prelude::*;

verus! {

/// What `fastrand` draws below `bound` from a generator in state `state`:
/// the number drawn, and the state that the generator is left in.
pub uninterp spec fn seeded_draw(state: u64, bound: u32) -> (u32, u64);

/// One draw of `fastrand::Rng::u32` on the range from zero up to, and
/// without, `bound`, made by a generator that `fastrand::Rng::with_seed`
/// set to `state`; `fastrand::Rng::get_seed` reads the state it is left in.
///
/// The generator is a pure function of its state, so the same state and
/// bound give the same draw everywhere. The number drawn is below `bound`.
/// An empty range is not accepted: `bound` is positive.
#[verifier::external_body]
fn draw_below(state: u64, bound: u32) -> (drawn: (u32, u64))
    requires
        bound > 0,
    ensures
        drawn == seeded_draw(state, bound),
        drawn.0 < bound,
{
    let mut generator = fastrand::Rng::with_seed(state);
    let number = generator.u32(0..bound);
    (number, generator.get_seed())
}

/// A random source that is fully described by its current seed.
#[derive(Debug, Clone, Copy, PartialEq, Eq, Structural)]
pub struct Rng {
    seed: u64,
}

impl View for Rng {
    type V = u64;

    /// The current seed.
    closed spec fn view(&self) -> u64 {
        self.seed
    }
}

impl Rng {
    /// A source that starts at `seed`. Equal seeds give equal sequences of
    /// draws.
    pub fn with_seed(seed: u64) -> (rng: Rng)
        ensures
            rng@ == seed,
    {
        Rng { seed }
    }

    /// The current seed: a source made from it continues as this one does.
    pub fn get_seed(&self) -> (seed: u64)
        ensures
            seed == self@,
    {
        self.seed
    }

    /// Draws a number below `bound`, which is positive.
    pub fn below(&mut self, bound: u32) -> (number: u32)
        requires
            bound > 0,
        ensures
            number < bound,
            number == seeded_draw(old(self)@, bound).0,
            final(self)@ == seeded_draw(old(self)@, bound).1,
    {
        let drawn = draw_below(self.seed, bound);
        self.seed = drawn.1;
        drawn.0
    }
}

} // verus!
