use vstd::prelude::*;
use bevy_rand::prelude::WyRand;
use rand::RngExt;

verus! {

/// The game's global random number generator component (`bevy_prng::WyRand`,
/// re-exported by `bevy_rand`). Verus sees nothing inside it.
#[verifier::external_type_specification]
#[verifier::external_body]
pub struct ExWyRand(WyRand);

/// Draws a number with `rand::RngExt::random_range(low..high)` on the game's
/// generator. The contract claims only what rand documents for every outcome:
/// the value lies in the half-open range `[low, high)`. The call panics on an
/// empty range, which `requires` rules out. Which value comes out depends on
/// the generator's hidden state, so nothing more is stated.
#[verifier::external_body]
fn random_in_range(rng: &mut WyRand, low: u32, high: u32) -> (r: u32)
    requires
        low < high,
    ensures
        low <= r < high,
{
    rng.random_range(low..high)
}

/// The game's generator together with a record, for proofs only, of every
/// draw made through it: the range asked for and the value that came out.
pub struct GameRng {
    rng: WyRand,
    draws: Ghost<Seq<(u32, u32, u32)>>,
}

impl GameRng {
    /// The draws made so far, oldest first, each as `(low, high, value)`.
    pub closed spec fn draws(&self) -> Seq<(u32, u32, u32)> {
        self.draws@
    }

    /// Wraps a generator; no draws are recorded yet.
    pub fn new(rng: WyRand) -> (g: GameRng)
        ensures
            g.draws() == Seq::<(u32, u32, u32)>::empty(),
    {
        GameRng { rng, draws: Ghost(Seq::empty()) }
    }

    /// Gives the generator back, in the state the draws left it.
    pub fn into_rng(self) -> WyRand {
        self.rng
    }

    /// Draws a number in `[low, high)` and records the draw.
    pub fn draw(&mut self, low: u32, high: u32) -> (r: u32)
        requires
            low < high,
        ensures
            low <= r < high,
            final(self).draws() == old(self).draws().push((low, high, r)),
    {
        let r = random_in_range(&mut self.rng, low, high);
        self.draws = Ghost(self.draws@.push((low, high, r)));
        r
    }
}

} // verus!
