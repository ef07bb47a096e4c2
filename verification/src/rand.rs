use vstd::prelude::*;

verus! {

/// The step by which the seeding sequence moves on.
pub const GOLDEN_GAMMA: u64 = 0x9e37_79b9_7f4a_7c15;

/// `x` turned left by `k` bits, for `k` from 1 to 63.
pub open spec fn rotl(x: u64, k: u64) -> u64 {
    (x << k) | (x >> ((64 - k) as u64))
}

/// The number that the seeding sequence gives at the point `z`.
pub open spec fn mix(z: u64) -> u64 {
    let a = (z ^ (z >> 30)).wrapping_mul(0xbf58_476d_1ce4_e5b9);
    let b = (a ^ (a >> 27)).wrapping_mul(0x94d0_49bb_1331_11eb);
    b ^ (b >> 31)
}

/// A generator of pseudo-random numbers: four words of state that a seed
/// fills by way of a mixing sequence, and that each draw scrambles.
///
/// The same seed always gives the same numbers.
#[derive(Clone, Copy, Debug, PartialEq, Eq, Structural)]
pub struct SplitMixXoshiro256Rng {
    pub s0: u64,
    pub s1: u64,
    pub s2: u64,
    pub s3: u64,
}

impl SplitMixXoshiro256Rng {
    /// The generator that `seed` gives.
    pub open spec fn seeded(seed: u64) -> SplitMixXoshiro256Rng {
        let z0 = seed.wrapping_add(GOLDEN_GAMMA);
        let z1 = z0.wrapping_add(GOLDEN_GAMMA);
        let z2 = z1.wrapping_add(GOLDEN_GAMMA);
        let z3 = z2.wrapping_add(GOLDEN_GAMMA);
        SplitMixXoshiro256Rng { s0: mix(z0), s1: mix(z1), s2: mix(z2), s3: mix(z3) }
    }

    /// The number that the next draw returns.
    pub open spec fn output(self) -> u64 {
        rotl(self.s1.wrapping_mul(5), 7).wrapping_mul(9)
    }

    /// The generator after one draw.
    pub open spec fn advanced(self) -> SplitMixXoshiro256Rng {
        let t = self.s1 << 17;
        let s2 = self.s2 ^ self.s0;
        let s3 = self.s3 ^ self.s1;
        let s1 = self.s1 ^ s2;
        let s0 = self.s0 ^ s3;
        SplitMixXoshiro256Rng { s0, s1, s2: s2 ^ t, s3: rotl(s3, 45) }
    }

    /// A generator seeded with `seed`.
    pub fn new(seed: u64) -> (rng: Self)
        ensures
            rng == Self::seeded(seed),
    {
        let z0 = seed.wrapping_add(GOLDEN_GAMMA);
        let z1 = z0.wrapping_add(GOLDEN_GAMMA);
        let z2 = z1.wrapping_add(GOLDEN_GAMMA);
        let z3 = z2.wrapping_add(GOLDEN_GAMMA);
        SplitMixXoshiro256Rng {
            s0: mix_word(z0),
            s1: mix_word(z1),
            s2: mix_word(z2),
            s3: mix_word(z3),
        }
    }

    /// Draws the next number.
    pub fn next_u64(&mut self) -> (drawn: u64)
        ensures
            drawn == old(self).output(),
            *final(self) == old(self).advanced(),
    {
        let drawn = rotate_left(self.s1.wrapping_mul(5), 7).wrapping_mul(9);
        let t = self.s1 << 17;
        self.s2 ^= self.s0;
        self.s3 ^= self.s1;
        self.s1 ^= self.s2;
        self.s0 ^= self.s3;
        self.s2 ^= t;
        self.s3 = rotate_left(self.s3, 45);
        drawn
    }
}

fn mix_word(z: u64) -> (mixed: u64)
    ensures
        mixed == mix(z),
{
    let a = (z ^ (z >> 30)).wrapping_mul(0xbf58_476d_1ce4_e5b9);
    let b = (a ^ (a >> 27)).wrapping_mul(0x94d0_49bb_1331_11eb);
    b ^ (b >> 31)
}

fn rotate_left(x: u64, k: u64) -> (turned: u64)
    requires
        0 < k < 64,
    ensures
        turned == rotl(x, k),
{
    (x << k) | (x >> (64 - k))
}

} // verus!
