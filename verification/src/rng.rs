use vstd::prelude::*;

verus! {

/// A source of uniform random integers.
///
/// `Os` draws from the operating system's cryptographically strong
/// generator, as a live pass does.  `Seeded` runs a small deterministic
/// linear congruential generator, so that a pass can be replayed
/// exactly, value for value, from the same seed.
#[derive(Clone, Copy)]
pub enum RandomSource {
    Os,
    Seeded { state: u64 },
}

/// Relies on `rand::Rng::gen_range` over `rand::rngs::OsRng`: it returns a
/// uniform value of the half-open range handed to it, and panics only on an
/// empty range, which the precondition rules out.
#[verifier::external_body]
fn os_random_below(bound: u64) -> (r: u64)
    requires
        bound >= 1,
    ensures
        r < bound,
{
    rand::Rng::gen_range(&mut rand::rngs::OsRng, 0..bound)
}

impl RandomSource {
    /// A deterministic source started from `seed`.
    pub fn seeded(seed: u64) -> (r: RandomSource)
        ensures
            r == (RandomSource::Seeded { state: seed }),
    {
        RandomSource::Seeded { state: seed }
    }

    /// Draw one value uniformly from `[0, bound)`.
    ///
    /// Of the value itself nothing more is promised than its range: every
    /// caller must be correct whatever comes back.
    pub fn next_below(&mut self, bound: u64) -> (r: u64)
        requires
            bound >= 1,
        ensures
            r < bound,
    {
        match *self {
            RandomSource::Os => os_random_below(bound),
            RandomSource::Seeded { state } => {
                let mixed: u64 = state
                    .wrapping_mul(6364136223846793005)
                    .wrapping_add(1442695040888963407);
                *self = RandomSource::Seeded { state: mixed };
                (mixed >> 33) % bound
            },
        }
    }
}

} // verus!
