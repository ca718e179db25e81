//! Natural numbers of any size, as little-endian 64-bit limbs, with the few
//! operations the release curve needs.

use vstd::prelude::*;

use crate::arith::{lemma_pow_base_mono, lemma_pow_positive, pow_nat};

verus! {

/// The weight of one limb.
pub open spec fn limb_base() -> nat {
    0x1_0000_0000_0000_0000
}

/// The number that little-endian limbs stand for.
pub open spec fn big_val(s: Seq<u64>) -> nat
    decreases s.len(),
{
    if s.len() == 0 {
        0
    } else {
        (big_val(s.drop_last()) + s.last() * pow_nat(limb_base(), (s.len() - 1) as nat)) as nat
    }
}

proof fn lemma_prefix_step(s: Seq<u64>, i: int)
    requires
        0 <= i < s.len(),
    ensures
        big_val(s.subrange(0, i + 1)) == big_val(s.subrange(0, i)) + s[i] * pow_nat(
            limb_base(),
            i as nat,
        ),
{
    assert(s.subrange(0, i + 1).drop_last() =~= s.subrange(0, i));
}

proof fn lemma_push_step(s: Seq<u64>, x: u64)
    ensures
        big_val(s.push(x)) == big_val(s) + x * pow_nat(limb_base(), s.len()),
{
    assert(s.push(x).drop_last() =~= s);
}

/// Limbs never stand for more than their width allows.
proof fn lemma_big_val_bound(s: Seq<u64>)
    ensures
        big_val(s) < pow_nat(limb_base(), s.len()),
    decreases s.len(),
{
    if s.len() > 0 {
        let n = (s.len() - 1) as nat;
        lemma_big_val_bound(s.drop_last());
        let p = pow_nat(limb_base(), n);
        let v = big_val(s.drop_last());
        let l = s.last() as nat;
        assert(v + l * p < limb_base() * p) by (nonlinear_arith)
            requires
                v < p,
                l < limb_base(),
        ;
    }
}

/// A zero limb in front multiplies by the limb weight.
proof fn lemma_shift(s: Seq<u64>)
    ensures
        big_val(seq![0u64] + s) == limb_base() * big_val(s),
    decreases s.len(),
{
    let t = seq![0u64] + s;
    if s.len() == 0 {
        assert(t.drop_last() =~= Seq::<u64>::empty());
        assert(big_val(Seq::<u64>::empty()) == 0);
        assert(t.last() == 0);
    } else {
        assert(t.drop_last() =~= seq![0u64] + s.drop_last());
        lemma_shift(s.drop_last());
        let p = pow_nat(limb_base(), (s.len() - 1) as nat);
        let l = s.last() as nat;
        let v = big_val(s.drop_last());
        assert(t.last() == s.last());
        assert(pow_nat(limb_base(), s.len()) == limb_base() * p);
        assert(limb_base() * v + l * (limb_base() * p) == limb_base() * (v + l * p))
            by (nonlinear_arith);
    }
}

/// `s` with zero limbs appended up to length `n`; the value is unchanged.
fn pad(s: &Vec<u64>, n: usize) -> (r: Vec<u64>)
    ensures
        big_val(r@) == big_val(s@),
        r@.len() == if n > s@.len() {
            n as int
        } else {
            s@.len() as int
        },
{
    let mut r: Vec<u64> = Vec::new();
    let mut i: usize = 0;
    while i < s.len()
        invariant
            i <= s@.len(),
            r@ == s@.subrange(0, i as int),
        decreases s@.len() - i,
    {
        r.push(s[i]);
        i = i + 1;
        assert(r@ =~= s@.subrange(0, i as int));
    }
    assert(r@ =~= s@);
    while r.len() < n
        invariant
            big_val(r@) == big_val(s@),
            r@.len() >= s@.len(),
            r@.len() <= n || r@.len() == s@.len(),
        decreases n - r@.len(),
    {
        proof {
            lemma_push_step(r@, 0);
        }
        r.push(0);
    }
    r
}

/// `x` times the word `m`.
pub fn mul_word(x: &Vec<u64>, m: u64) -> (r: Vec<u64>)
    ensures
        big_val(r@) == big_val(x@) * m,
{
    let ghost b = limb_base();
    let mut r: Vec<u64> = Vec::new();
    let mut carry: u64 = 0;
    let mut i: usize = 0;
    assert(x@.subrange(0, 0) =~= Seq::<u64>::empty());
    assert(big_val(Seq::<u64>::empty()) == 0);
    while i < x.len()
        invariant
            b == limb_base(),
            i <= x@.len(),
            r@.len() == i,
            big_val(r@) + carry * pow_nat(b, i as nat) == big_val(x@.subrange(0, i as int)) * m,
        decreases x@.len() - i,
    {
        let xi = x[i];
        assert((xi as int) * (m as int) + carry <= 0xffff_ffff_ffff_ffff_0000_0000_0000_0000int)
            by (nonlinear_arith)
            requires
                xi <= 0xffff_ffff_ffff_ffffu64,
                m <= 0xffff_ffff_ffff_ffffu64,
                carry <= 0xffff_ffff_ffff_ffffu64,
        ;
        let t: u128 = (xi as u128) * (m as u128) + (carry as u128);
        let lo = (t % 0x1_0000_0000_0000_0000u128) as u64;
        let hi = (t / 0x1_0000_0000_0000_0000u128) as u64;
        let ghost old_r = r@;
        let ghost old_carry = carry;
        r.push(lo);
        carry = hi;
        proof {
            let p = pow_nat(b, i as nat);
            lemma_prefix_step(x@, i as int);
            lemma_push_step(old_r, lo);
            assert(pow_nat(b, (i + 1) as nat) == b * p);
            assert(lo + hi * b == t);
            let x0 = big_val(x@.subrange(0, i as int));
            let x1 = big_val(x@.subrange(0, i + 1));
            assert(big_val(r@) + hi * (b * p) == x1 * m) by (nonlinear_arith)
                requires
                    big_val(r@) == big_val(old_r) + lo * p,
                    big_val(old_r) + old_carry * p == x0 * m,
                    x1 == x0 + xi * p,
                    lo + hi * b == xi * m + old_carry,
            ;
        }
        i = i + 1;
    }
    proof {
        assert(x@.subrange(0, x@.len() as int) =~= x@);
        lemma_push_step(r@, carry);
    }
    r.push(carry);
    r
}

/// `x` plus `y`.
pub fn big_add(x: &Vec<u64>, y: &Vec<u64>) -> (r: Vec<u64>)
    ensures
        big_val(r@) == big_val(x@) + big_val(y@),
{
    let ghost b = limb_base();
    let n = if x.len() > y.len() {
        x.len()
    } else {
        y.len()
    };
    let xs = pad(x, n);
    let ys = pad(y, n);
    let mut r: Vec<u64> = Vec::new();
    let mut carry: u64 = 0;
    let mut i: usize = 0;
    assert(xs@.subrange(0, 0) =~= Seq::<u64>::empty());
    assert(ys@.subrange(0, 0) =~= Seq::<u64>::empty());
    assert(big_val(Seq::<u64>::empty()) == 0);
    while i < n
        invariant
            b == limb_base(),
            xs@.len() == n,
            ys@.len() == n,
            i <= n,
            r@.len() == i,
            carry <= 1,
            big_val(r@) + carry * pow_nat(b, i as nat) == big_val(xs@.subrange(0, i as int))
                + big_val(ys@.subrange(0, i as int)),
        decreases n - i,
    {
        let t: u128 = (xs[i] as u128) + (ys[i] as u128) + (carry as u128);
        let lo = (t % 0x1_0000_0000_0000_0000u128) as u64;
        let hi = (t / 0x1_0000_0000_0000_0000u128) as u64;
        let ghost old_r = r@;
        let ghost old_carry = carry;
        r.push(lo);
        carry = hi;
        proof {
            let p = pow_nat(b, i as nat);
            lemma_prefix_step(xs@, i as int);
            lemma_prefix_step(ys@, i as int);
            lemma_push_step(old_r, lo);
            assert(pow_nat(b, (i + 1) as nat) == b * p);
            assert(lo + hi * b == t);
            let x0 = big_val(xs@.subrange(0, i as int));
            let y0 = big_val(ys@.subrange(0, i as int));
            let x1 = big_val(xs@.subrange(0, i + 1));
            let y1 = big_val(ys@.subrange(0, i + 1));
            assert(big_val(r@) + hi * (b * p) == x1 + y1) by (nonlinear_arith)
                requires
                    big_val(r@) == big_val(old_r) + lo * p,
                    big_val(old_r) + old_carry * p == x0 + y0,
                    x1 == x0 + xs[i as int] * p,
                    y1 == y0 + ys[i as int] * p,
                    lo + hi * b == xs[i as int] + ys[i as int] + old_carry,
            ;
        }
        i = i + 1;
    }
    proof {
        assert(xs@.subrange(0, n as int) =~= xs@);
        assert(ys@.subrange(0, n as int) =~= ys@);
        lemma_push_step(r@, carry);
    }
    r.push(carry);
    r
}

/// Whether `x` is at most `y`.
pub fn le(x: &Vec<u64>, y: &Vec<u64>) -> (r: bool)
    ensures
        r == (big_val(x@) <= big_val(y@)),
{
    let ghost b = limb_base();
    let n = if x.len() > y.len() {
        x.len()
    } else {
        y.len()
    };
    let xs = pad(x, n);
    let ys = pad(y, n);
    let mut borrow: u64 = 0;
    let ghost mut dv: int = 0;
    let mut i: usize = 0;
    assert(xs@.subrange(0, 0) =~= Seq::<u64>::empty());
    assert(ys@.subrange(0, 0) =~= Seq::<u64>::empty());
    assert(big_val(Seq::<u64>::empty()) == 0);
    while i < n
        invariant
            b == limb_base(),
            xs@.len() == n,
            ys@.len() == n,
            i <= n,
            borrow <= 1,
            0 <= dv < pow_nat(b, i as nat),
            dv - borrow * pow_nat(b, i as nat) == big_val(ys@.subrange(0, i as int)) - big_val(
                xs@.subrange(0, i as int),
            ),
        decreases n - i,
    {
        let xi = xs[i];
        let yi = ys[i];
        let ghost d: int;
        let next: u64;
        if (yi as u128) >= (xi as u128) + (borrow as u128) {
            proof {
                d = yi - xi - borrow;
            }
            next = 0;
        } else {
            proof {
                d = yi + b - xi - borrow;
            }
            next = 1;
        }
        proof {
            let p = pow_nat(b, i as nat);
            lemma_prefix_step(xs@, i as int);
            lemma_prefix_step(ys@, i as int);
            assert(pow_nat(b, (i + 1) as nat) == b * p);
            assert(0 <= d < b);
            assert(d - next * b == yi - xi - borrow);
            let x0 = big_val(xs@.subrange(0, i as int));
            let y0 = big_val(ys@.subrange(0, i as int));
            let x1 = big_val(xs@.subrange(0, i + 1));
            let y1 = big_val(ys@.subrange(0, i + 1));
            assert(dv + d * p < b * p && dv + d * p >= 0) by (nonlinear_arith)
                requires
                    0 <= dv < p,
                    0 <= d < b,
            ;
            assert((dv + d * p) - next * (b * p) == y1 - x1) by (nonlinear_arith)
                requires
                    d - next * b == yi - xi - borrow,
                    dv - borrow * p == y0 - x0,
                    x1 == x0 + xi * p,
                    y1 == y0 + yi * p,
            ;
            dv = dv + d * p;
        }
        borrow = next;
        i = i + 1;
    }
    proof {
        assert(xs@.subrange(0, n as int) =~= xs@);
        assert(ys@.subrange(0, n as int) =~= ys@);
    }
    borrow == 0
}

/// `x` times `m`.
pub fn mul_u128(x: &Vec<u64>, m: u128) -> (r: Vec<u64>)
    ensures
        big_val(r@) == big_val(x@) * m,
{
    let lo = (m % 0x1_0000_0000_0000_0000u128) as u64;
    let hi = (m / 0x1_0000_0000_0000_0000u128) as u64;
    let low = mul_word(x, lo);
    let mut high = mul_word(x, hi);
    let ghost h = high@;
    high.insert(0, 0);
    proof {
        assert(high@ =~= seq![0u64] + h);
        lemma_shift(h);
        let v = big_val(x@);
        assert(v * lo + limb_base() * (v * hi) == v * m) by (nonlinear_arith)
            requires
                lo + hi * limb_base() == m,
        ;
    }
    big_add(&low, &high)
}

/// `base` raised to the power `exp`.
pub fn pow_big(base: u64, exp: u32) -> (r: Vec<u64>)
    ensures
        big_val(r@) == pow_nat(base as nat, exp as nat),
{
    let mut r: Vec<u64> = Vec::new();
    proof {
        lemma_push_step(r@, 1);
    }
    r.push(1);
    let mut i: u32 = 0;
    while i < exp
        invariant
            i <= exp,
            big_val(r@) == pow_nat(base as nat, i as nat),
        decreases exp - i,
    {
        let ghost before = big_val(r@);
        r = mul_word(&r, base);
        proof {
            assert(pow_nat(base as nat, (i + 1) as nat) == base * pow_nat(base as nat, i as nat));
            assert(before * base == base * before) by (nonlinear_arith);
        }
        i = i + 1;
    }
    r
}

/// `floor(e^k * a / d^k)` for `e <= d`, computed exactly.
pub fn scaled_power_ratio(e: u64, d: u64, k: u32, a: u128) -> (r: u128)
    requires
        e <= d,
        d >= 1,
    ensures
        r as int == (pow_nat(e as nat, k as nat) * a) / pow_nat(d as nat, k as nat) as int,
{
    let ghost pe = pow_nat(e as nat, k as nat);
    let ghost pd = pow_nat(d as nat, k as nat);
    let ghost n = pe * a;
    let ghost q = n / pd as int;
    proof {
        lemma_pow_base_mono(e as nat, d as nat, k as nat);
        lemma_pow_positive(d as nat, k as nat);
        assert(pe * a <= pd * a) by (nonlinear_arith)
            requires
                pe <= pd,
                a >= 0,
        ;
        vstd::arithmetic::div_mod::lemma_div_is_ordered(n as int, pd * a, pd as int);
        vstd::arithmetic::div_mod::lemma_div_multiples_vanish(a as int, pd as int);
        vstd::arithmetic::div_mod::lemma_div_pos_is_pos(n as int, pd as int);
        assert(pd * a == a * pd) by (nonlinear_arith);
        vstd::arithmetic::div_mod::lemma_fundamental_div_mod(n as int, pd as int);
        vstd::arithmetic::div_mod::lemma_mod_bound(n as int, pd as int);
    }
    let numerator = mul_u128(&pow_big(e, k), a);
    let denominator = pow_big(d, k);
    let mut lo: u128 = 0;
    let mut hi: u128 = a;
    while lo < hi
        invariant
            big_val(numerator@) == n,
            big_val(denominator@) == pd,
            pd >= 1,
            n == pd * q + n % (pd as int),
            0 <= n % (pd as int) < pd,
            lo <= q <= hi,
        decreases hi - lo,
    {
        let mid = lo + (hi - lo) / 2 + 1;
        let product = mul_u128(&denominator, mid);
        let fits = le(&product, &numerator);
        proof {
            let rem = n % (pd as int);
            assert((mid * pd <= n) == (mid <= q)) by (nonlinear_arith)
                requires
                    n == pd * q + rem,
                    0 <= rem < pd,
                    pd >= 1,
            ;
        }
        if fits {
            lo = mid;
        } else {
            hi = mid - 1;
        }
    }
    lo
}

} // verus!
