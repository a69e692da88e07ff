//! Integer helpers: powers that keep the sign of their base.

use vstd::prelude::*;

verus! {

/// `x` to the power `n`.
pub open spec fn power(x: int, n: nat) -> int
    decreases n,
{
    if n == 0 { 1 } else { x * power(x, (n - 1) as nat) }
}

pub open spec fn abs(x: int) -> int {
    if x < 0 { -x } else { x }
}

pub open spec fn signum(x: int) -> int {
    if x < 0 { -1 } else if x == 0 { 0 } else { 1 }
}

/// The size of `x` to the power `n`, with the sign of `x`.
pub open spec fn pow_signum_spec(x: int, n: nat) -> int {
    abs(power(x, n)) * signum(x)
}

proof fn lemma_abs_power_step(x: int, k: nat)
    ensures
        abs(power(x, k + 1)) == abs(x) * abs(power(x, k)),
{
    let p = power(x, k);
    assert(power(x, k + 1) == x * p);
    assert(abs(x * p) == abs(x) * abs(p)) by (nonlinear_arith);
}

/// For a base other than zero, the size of its powers never shrinks as the
/// exponent grows.
proof fn lemma_abs_power_monotone(x: int, i: nat, n: nat)
    requires
        x != 0,
        i <= n,
    ensures
        abs(power(x, i)) <= abs(power(x, n)),
    decreases n - i,
{
    if i < n {
        lemma_abs_power_monotone(x, i, (n - 1) as nat);
        lemma_abs_power_step(x, (n - 1) as nat);
        let q = abs(power(x, (n - 1) as nat));
        assert(abs(x) >= 1);
        assert(q >= 0);
        assert(abs(x) * q >= q) by (nonlinear_arith)
            requires abs(x) >= 1, q >= 0;
    }
}

/// `x` to the power `n`, made positive, with the sign of `x`, where that
/// power's size is at most `limit`.
fn pow_signum_wide(x: i128, n: u32, limit: i128) -> (r: i128)
    requires
        0 <= limit,
        abs(power(x as int, n as nat)) <= limit,
    ensures
        r == pow_signum_spec(x as int, n as nat),
{
    let mut acc: i128 = 1;
    let mut i: u32 = 0;
    while i < n
        invariant
            0 <= i <= n,
            0 <= limit,
            abs(power(x as int, n as nat)) <= limit,
            acc == power(x as int, i as nat),
        decreases n - i,
    {
        proof {
            if x != 0 {
                lemma_abs_power_monotone(x as int, (i + 1) as nat, n as nat);
            }
            lemma_abs_power_step(x as int, i as nat);
            assert(power(x as int, (i + 1) as nat) == x * power(x as int, i as nat));
            if x == 0 {
                assert(x * acc == 0) by (nonlinear_arith) requires x == 0;
            }
        }
        acc = acc * x;
        i = i + 1;
    }
    let size = if acc < 0 { -acc } else { acc };
    if x < 0 {
        -size
    } else if x == 0 {
        0
    } else {
        size
    }
}

/// Powers of signed integers that keep the sign of the base.
pub trait T5FIntExt: Sized {
    /// The value as a mathematical integer.
    spec fn value_of(self) -> int;

    /// The value lies in the range of this integer type.
    spec fn in_range(v: int) -> bool;

    /// The size of `self` to the power `n`, with the sign of `self`; that size
    /// must fit in the type (as `pow` and `abs` require).
    fn pow_signum(self, n: u32) -> (r: Self)
        requires
            Self::in_range(abs(power(self.value_of(), n as nat))),
        ensures
            r.value_of() == pow_signum_spec(self.value_of(), n as nat),
    ;
}

proof fn lemma_pow_signum_bound(x: int, n: nat, max: int)
    requires
        abs(power(x, n)) <= max,
        0 <= max,
    ensures
        -max <= pow_signum_spec(x, n) <= max,
{
}

impl T5FIntExt for i8 {
    open spec fn value_of(self) -> int { self as int }
    open spec fn in_range(v: int) -> bool { i8::MIN <= v <= i8::MAX }

    fn pow_signum(self, n: u32) -> (r: Self) {
        let wide = pow_signum_wide(self as i128, n, i8::MAX as i128);
        proof { lemma_pow_signum_bound(self as int, n as nat, i8::MAX as int); }
        wide as i8
    }
}

impl T5FIntExt for i16 {
    open spec fn value_of(self) -> int { self as int }
    open spec fn in_range(v: int) -> bool { i16::MIN <= v <= i16::MAX }

    fn pow_signum(self, n: u32) -> (r: Self) {
        let wide = pow_signum_wide(self as i128, n, i16::MAX as i128);
        proof { lemma_pow_signum_bound(self as int, n as nat, i16::MAX as int); }
        wide as i16
    }
}

impl T5FIntExt for i32 {
    open spec fn value_of(self) -> int { self as int }
    open spec fn in_range(v: int) -> bool { i32::MIN <= v <= i32::MAX }

    fn pow_signum(self, n: u32) -> (r: Self) {
        let wide = pow_signum_wide(self as i128, n, i32::MAX as i128);
        proof { lemma_pow_signum_bound(self as int, n as nat, i32::MAX as int); }
        wide as i32
    }
}

impl T5FIntExt for i64 {
    open spec fn value_of(self) -> int { self as int }
    open spec fn in_range(v: int) -> bool { i64::MIN <= v <= i64::MAX }

    fn pow_signum(self, n: u32) -> (r: Self) {
        let wide = pow_signum_wide(self as i128, n, i64::MAX as i128);
        proof { lemma_pow_signum_bound(self as int, n as nat, i64::MAX as int); }
        wide as i64
    }
}

impl T5FIntExt for i128 {
    open spec fn value_of(self) -> int { self as int }
    open spec fn in_range(v: int) -> bool { i128::MIN <= v <= i128::MAX }

    fn pow_signum(self, n: u32) -> (r: Self) {
        pow_signum_wide(self, n, i128::MAX)
    }
}

/// The result has the sign of the base and the size of the power.
pub proof fn lemma_pow_signum_sign(x: int, n: nat)
    ensures
        signum(pow_signum_spec(x, n)) == if power(x, n) == 0 { 0 } else { signum(x) },
        abs(pow_signum_spec(x, n)) == if x == 0 { 0 } else { abs(power(x, n)) },
{
    let p = abs(power(x, n));
    assert(p >= 0);
    if x < 0 {
        assert(pow_signum_spec(x, n) == -p);
    } else if x == 0 {
        assert(pow_signum_spec(x, n) == 0);
    } else {
        assert(pow_signum_spec(x, n) == p);
    }
}

} // verus!
