//! Integer helpers: powers and basis-point fees.

use vstd::prelude::*;

verus! {

/// `b` raised to the power `e`, over the naturals.
pub open spec fn pow_nat(b: nat, e: nat) -> nat
    decreases e,
{
    if e == 0 {
        1
    } else {
        b * pow_nat(b, (e - 1) as nat)
    }
}

pub proof fn lemma_pow_positive(b: nat, e: nat)
    requires
        b >= 1,
    ensures
        pow_nat(b, e) >= 1,
    decreases e,
{
    if e > 0 {
        lemma_pow_positive(b, (e - 1) as nat);
        assert(b * pow_nat(b, (e - 1) as nat) >= 1) by (nonlinear_arith)
            requires
                b >= 1,
                pow_nat(b, (e - 1) as nat) >= 1,
        ;
    }
}

/// A larger base never gives a smaller power.
pub proof fn lemma_pow_base_mono(a: nat, b: nat, e: nat)
    requires
        a <= b,
    ensures
        pow_nat(a, e) <= pow_nat(b, e),
    decreases e,
{
    if e > 0 {
        let pa = pow_nat(a, (e - 1) as nat);
        let pb = pow_nat(b, (e - 1) as nat);
        lemma_pow_base_mono(a, b, (e - 1) as nat);
        assert(a * pa <= b * pb) by (nonlinear_arith)
            requires
                a <= b,
                pa <= pb,
        ;
    }
}

/// `floor(a * rate / 10000)` for a rate of at most 10000, without overflow.
pub fn mul_div_basis_points(a: u128, rate: u128) -> (r: u128)
    requires
        rate <= 10000,
    ensures
        r as int == (a as int * rate as int) / 10000,
        r <= a,
{
    let q = a / 10000;
    let m = a % 10000;
    proof {
        assert(q * rate <= a) by (nonlinear_arith)
            requires
                q == a / 10000,
                rate <= 10000,
        ;
        assert(m * rate < 100000000) by (nonlinear_arith)
            requires
                m < 10000,
                rate <= 10000,
        ;
    }
    let high = q * rate;
    let low = (m * rate) / 10000;
    proof {
        assert(a * rate == 10000 * (q * rate) + m * rate) by (nonlinear_arith)
            requires
                q == a / 10000,
                m == a % 10000,
        ;
        assert((10000 * (q * rate) + m * rate) / 10000 == q * rate + (m * rate) / 10000)
            by (nonlinear_arith)
            requires
                q * rate >= 0,
                m * rate >= 0,
        ;
        assert(high + low <= a) by (nonlinear_arith)
            requires
                high == q * rate,
                low == (m * rate) / 10000,
                a == 10000 * q + m,
                m < 10000,
                rate <= 10000,
        ;
    }
    high + low
}

} // verus!
