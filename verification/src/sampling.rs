//! The source of chance: uniform picks and Bernoulli trials.
//!
//! A generator is a seed and a position in the stream of numbers that the
//! seed fixes. Each pick is made at the position of the generator, which
//! then moves on by one: what a generator gives is fixed by its seed and by
//! how many picks were made before.

use rand_pcg::Pcg32;
use vstd::prelude::*;

verus! {

/// The denominator of a chance: chances are counted in thousandths.
pub const CHANCE_SCALE: u32 = 1_000;

/// The number that `rand_distr`'s `Uniform::new(low, high)` gives when it is
/// sampled once from the `Pcg32` that `seed_from_u64(seed)` makes and
/// `advance(position)` has moved on.
pub uninterp spec fn uniform_pick(seed: u64, position: u64, low: u32, high: u32) -> u32;

/// Calls `SeedableRng::from_entropy` of `rand` for a `Pcg32` and takes the
/// first `next_u64` of it: a number that the operating system decides.
/// Nothing is claimed of it. (The call aborts where the system cannot
/// provide entropy.)
#[verifier::external_body]
fn entropy_seed() -> (seed: u64) {
    rand::RngCore::next_u64(&mut <Pcg32 as rand::SeedableRng>::from_entropy())
}

/// Makes the `Pcg32` of `rand_pcg` that `SeedableRng::seed_from_u64(seed)`
/// gives, moves it on with `advance(position)`, and samples
/// `rand_distr`'s `Uniform::new(low, high)` from it once. Each of these
/// depends on its arguments alone, so the outcome is the number that
/// [`uniform_pick`] names; by the documentation of `Uniform::new` it lies in
/// the half-open range from `low` to `high`. `Uniform::new` aborts where the
/// range is empty, so `low < high` is asked for.
#[verifier::external_body]
fn sample_uniform(seed: u64, position: u64, low: u32, high: u32) -> (n: u32)
    requires
        low < high,
    ensures
        low <= n < high,
        n == uniform_pick(seed, position, low, high),
{
    let mut rng = <Pcg32 as rand::SeedableRng>::seed_from_u64(seed);
    rng.advance(position);
    rand_distr::Distribution::sample(&rand_distr::Uniform::new(low, high), &mut rng)
}

/// Whether a trial with a chance of `chance` thousandths succeeds on a roll
/// that was drawn uniformly from the thousand numbers below [`CHANCE_SCALE`].
pub open spec fn roll_succeeds(roll: u32, chance: u32) -> bool {
    roll < chance
}

/// The exec form of [`roll_succeeds`].
pub fn roll_hits(roll: u32, chance: u32) -> (hit: bool)
    ensures
        hit == roll_succeeds(roll, chance),
{
    roll < chance
}

/// What a generator is, as contracts speak of it: the seed that fixes its
/// stream of numbers, and its position in that stream.
pub struct Chance {
    pub seed: u64,
    pub position: u64,
}

impl Chance {
    /// The generator after one pick: one position on. (After the last
    /// position the stream starts anew.)
    pub open spec fn moved_on(self) -> Chance {
        Chance {
            position: if self.position == u64::MAX {
                0
            } else {
                (self.position + 1) as u64
            },
            ..self
        }
    }

    /// The number from `low` up to, and not including, `high` that the
    /// generator picks next.
    pub open spec fn pick(self, low: u32, high: u32) -> u32 {
        uniform_pick(self.seed, self.position, low, high)
    }
}

/// The generator of all the random numbers of one game.
#[derive(Debug)]
pub struct SampleGenerator {
    seed: u64,
    position: u64,
}

impl View for SampleGenerator {
    type V = Chance;

    closed spec fn view(&self) -> Chance {
        Chance { seed: self.seed, position: self.position }
    }
}

impl SampleGenerator {
    /// A generator at the start of a stream that the operating system
    /// chooses.
    pub fn new() -> (generator: Self)
        ensures
            generator@.position == 0,
    {
        SampleGenerator { seed: entropy_seed(), position: 0 }
    }

    /// A generator at the start of the stream that `seed` fixes: two
    /// generators of one seed give the same numbers.
    pub fn from_seed(seed: u64) -> (generator: Self)
        ensures
            generator@ == (Chance { seed, position: 0 }),
    {
        SampleGenerator { seed, position: 0 }
    }

    /// Picks a number from `low` up to, and not including, `high`: the one
    /// that the stream of the generator gives at its position. The generator
    /// moves on by one position.
    pub fn gen_range(&mut self, low: u32, high: u32) -> (n: u32)
        requires
            low < high,
        ensures
            low <= n < high,
            n == old(self)@.pick(low, high),
            final(self)@ == old(self)@.moved_on(),
    {
        let n = sample_uniform(self.seed, self.position, low, high);
        self.position = if self.position == u64::MAX {
            0
        } else {
            self.position + 1
        };
        n
    }

    /// Picks `true` with a chance of `chance` thousandths: the trial
    /// succeeds on a roll below [`CHANCE_SCALE`], so never for a chance of
    /// zero, and always for one of a thousand or more. The roll is the next
    /// pick of the generator.
    pub fn gen_bool(&mut self, chance: u32) -> (hit: bool)
        ensures
            hit == roll_succeeds(old(self)@.pick(0, CHANCE_SCALE), chance),
            old(self)@.pick(0, CHANCE_SCALE) < CHANCE_SCALE,
            final(self)@ == old(self)@.moved_on(),
            chance == 0 ==> !hit,
            chance >= CHANCE_SCALE ==> hit,
    {
        let roll = self.gen_range(0, CHANCE_SCALE);
        roll_hits(roll, chance)
    }
}

} // verus!
