//! The seeded pseudo-random generator that places the obstacles.

use bevy_rand::prelude::WyRand;
use rand::{Rng, SeedableRng};
use vstd::prelude::*;

verus! {

/// The generator of the `bevy_rand` crate, as a value that is only passed on.
#[verifier::external_type_specification]
#[verifier::external_body]
pub struct ExWyRand(WyRand);

/// What a generator holds: the 64-bit word that it steps from next. It holds
/// nothing else, so two generators at the same word give the same numbers.
pub uninterp spec fn generator_word(rng: WyRand) -> u64;

/// Drawing from `low..high` with a generator that stands at `word`: the value
/// drawn, and the word the generator is left at. Both follow from the word
/// and the bounds alone, in the same way on every machine.
pub uninterp spec fn range_draw(word: u64, low: i64, high: i64) -> (i64, u64);

/// Builds a generator that stands at `word`, with `SeedableRng::from_seed`.
///
/// Trusted: `WyRand::from_seed` reads its eight seed bytes as a word in
/// native order and starts from that word, so the bytes of `word` in native
/// order give a generator at `word`.
#[verifier::external_body]
fn generator_at(word: u64) -> (rng: WyRand)
    ensures
        generator_word(rng) == word,
{
    WyRand::from_seed(word.to_ne_bytes())
}

/// Draws one integer from `low..high` with `Rng::gen_range`.
///
/// Trusted: the value lies in the range, and both the value and the word the
/// generator is left at depend on nothing but the word it stood at and the
/// two bounds: `gen_range` multiplies 64-bit numbers from the generator into
/// the range until one is accepted, and the generator makes each number from
/// its word alone. `gen_range` panics on an empty range, which is left out.
#[verifier::external_body]
fn draw_in_range(rng: &mut WyRand, low: i64, high: i64) -> (value: i64)
    requires
        low < high,
    ensures
        low <= value < high,
        (value, generator_word(*final(rng))) == range_draw(generator_word(*old(rng)), low, high),
{
    rng.gen_range(low..high)
}

/// A source of reproducible random numbers.
pub struct Entropy {
    rng: WyRand,
}

impl View for Entropy {
    type V = u64;

    /// The word the generator stands at.
    closed spec fn view(&self) -> u64 {
        generator_word(self.rng)
    }
}

impl Entropy {
    /// A source that starts at `word`.
    pub fn with_seed(word: u64) -> (entropy: Self)
        ensures
            entropy@ == word,
    {
        Entropy { rng: generator_at(word) }
    }

    /// Draws a value from `low..high` and moves the source on.
    pub fn gen_range(&mut self, low: i64, high: i64) -> (value: i64)
        requires
            low < high,
        ensures
            low <= value < high,
            value == range_draw(old(self)@, low, high).0,
            final(self)@ == range_draw(old(self)@, low, high).1,
    {
        draw_in_range(&mut self.rng, low, high)
    }
}

} // verus!
