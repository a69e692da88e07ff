//! The integer state of the Wichmann-Hill pseudo-random generator.

use vstd::prelude::*;

verus! {

/// The largest size a seed of the generator may have: any larger seed would
/// overflow when it is multiplied in the first step.
pub const SEED_LIMIT: i64 = 1_000_000_000_000_000;

/// The remainder of a division that truncates towards zero, as Rust's `%` on
/// signed integers computes it: it has the sign of the dividend.
pub open spec fn truncated_rem(a: int, m: int) -> int {
    if a >= 0 { a % m } else { -((-a) % m) }
}

/// The three seeds after one step of the generator.
pub open spec fn wichmann_hill_next(s1: int, s2: int, s3: int) -> (int, int, int) {
    (truncated_rem(171 * s1, 30269), truncated_rem(172 * s2, 30307), truncated_rem(170 * s3, 30323))
}

/// The Wichmann-Hill generator: three multiplicative congruential generators
/// whose outputs are combined.
#[derive(Debug, Clone, Copy)]
pub struct WichmannHill {
    s1: i64,
    s2: i64,
    s3: i64,
}

pub open spec fn seed_ok(s: int) -> bool {
    -SEED_LIMIT <= s <= SEED_LIMIT
}

fn step_seed(s: i64, factor: i64, modulus: i64) -> (r: i64)
    requires
        seed_ok(s as int),
        0 < factor <= 172,
        0 < modulus <= 30323,
    ensures
        r == truncated_rem(factor * s, modulus as int),
        seed_ok(r as int),
{
    assert(-172 * SEED_LIMIT <= factor * s <= 172 * SEED_LIMIT) by (nonlinear_arith)
        requires 0 < factor <= 172, -SEED_LIMIT <= s <= SEED_LIMIT;
    let p = factor * s;
    if p >= 0 {
        p % modulus
    } else {
        -((-p) % modulus)
    }
}

impl WichmannHill {
    /// The generator with the given seeds.
    pub fn from_seeds(s1: i64, s2: i64, s3: i64) -> (r: Self)
        requires
            seed_ok(s1 as int),
            seed_ok(s2 as int),
            seed_ok(s3 as int),
        ensures
            r.seeds() == (s1 as int, s2 as int, s3 as int),
    {
        WichmannHill { s1, s2, s3 }
    }

    /// The current seeds.
    pub closed spec fn seeds(&self) -> (int, int, int) {
        (self.s1 as int, self.s2 as int, self.s3 as int)
    }

    #[verifier::type_invariant]
    spec fn seeds_in_range(&self) -> bool {
        seed_ok(self.s1 as int) && seed_ok(self.s2 as int) && seed_ok(self.s3 as int)
    }

    /// Advances the three generators one step and returns their new seeds, from
    /// which the random value is made.
    pub fn advance(&mut self) -> (r: (i64, i64, i64))
        ensures
            final(self).seeds() == wichmann_hill_next(old(self).seeds().0, old(self).seeds().1, old(self).seeds().2),
            (r.0 as int, r.1 as int, r.2 as int) == final(self).seeds(),
    {
        proof { use_type_invariant(&*self); }
        let s1 = step_seed(self.s1, 171, 30269);
        let s2 = step_seed(self.s2, 172, 30307);
        let s3 = step_seed(self.s3, 170, 30323);
        self.s1 = s1;
        self.s2 = s2;
        self.s3 = s3;
        (s1, s2, s3)
    }
}

/// After a step every seed is smaller in size than its modulus, whatever the
/// seeds were.
pub proof fn lemma_seeds_stay_small(s1: int, s2: int, s3: int)
    ensures
        -30269 < wichmann_hill_next(s1, s2, s3).0 < 30269,
        -30307 < wichmann_hill_next(s1, s2, s3).1 < 30307,
        -30323 < wichmann_hill_next(s1, s2, s3).2 < 30323,
{
}

} // verus!
