//! Double-precision arithmetic, worked out on integers.
//!
//! Order sizes are rounded in double precision. A decimal fraction such as half a
//! lot mostly has no double of its own, so on which side of it the nearest double
//! lies decides how the size is rounded.

use vstd::arithmetic::power2::{lemma2_to64, lemma_pow2_unfold, pow2};
use vstd::prelude::*;

use crate::units::ONE;

verus! {

/// Two to the power of 53: a double has a significand below it.
pub const PRECISION: u128 = 9_007_199_254_740_992;

/// The whole number nearest to `a / b`, the even one where two are as near.
pub open spec fn nearest_even(a: nat, b: nat) -> nat {
    let below = a / b;
    let rest = a % b;
    if 2 * rest < b || (2 * rest == b && below % 2 == 0) {
        below
    } else {
        below + 1
    }
}

/// The whole number nearest to `a / b`, the greater one where two are as near.
pub open spec fn nearest_up(a: nat, b: nat) -> nat {
    (2 * a + b) / (2 * b)
}

/// The double nearest to the amount of `scaled / unit` billionths, as a fraction.
/// Both numbers are doubled until the significand takes up the whole precision.
pub open spec fn amount_as_double(scaled: nat, unit: nat) -> (nat, nat)
    decreases PRECISION * ONE - scaled,
{
    if scaled == 0 || 2 * scaled >= PRECISION * ONE {
        (nearest_even(scaled, ONE as nat), unit)
    } else {
        amount_as_double(2 * scaled, 2 * unit)
    }
}

/// How far apart the doubles are that lie around a whole number.
pub open spec fn spacing(whole: nat) -> nat
    decreases whole,
{
    if whole < PRECISION {
        1
    } else {
        2 * spacing(whole / 2)
    }
}

/// The double nearest to a whole number.
pub open spec fn whole_as_double(whole: nat) -> nat {
    nearest_even(whole, spacing(whole)) * spacing(whole)
}

proof fn lemma_nearest_even(a: nat, b: nat)
    requires
        b > 0,
    ensures
        -b <= 2 * (nearest_even(a, b) * b - a) <= b,
{
    let below = a / b;
    vstd::arithmetic::div_mod::lemma_fundamental_div_mod(a as int, b as int);
    assert((below + 1) * b == below * b + b) by (nonlinear_arith);
    assert(b * below == below * b) by (nonlinear_arith);
}

proof fn lemma_nearest_up(a: nat, b: nat)
    requires
        b > 0,
    ensures
        -b <= 2 * (nearest_up(a, b) * b - a) <= b,
{
    let n = nearest_up(a, b) as int;
    vstd::arithmetic::div_mod::lemma_fundamental_div_mod((2 * a + b) as int, (2 * b) as int);
    assert((2 * b) * n == 2 * (n * b)) by (nonlinear_arith);
}

/// The doubles around a number lie apart by at most its part 1/2^52.
proof fn lemma_spacing(whole: nat)
    ensures
        1 <= spacing(whole),
        2 * whole >= PRECISION ==> spacing(whole) * PRECISION <= 2 * whole,
    decreases whole,
{
    if whole >= PRECISION {
        lemma_spacing(whole / 2);
    }
}

/// Scaling by the same factor keeps the amount.
proof fn lemma_amount_as_double(amount: nat, scaled: nat, unit: nat)
    requires
        0 < amount,
        0 < unit,
        scaled == amount * unit,
        scaled < PRECISION * ONE,
    ensures
        ({
            let (significand, denominator) = amount_as_double(scaled, unit);
            &&& denominator > 0
            &&& PRECISION * ONE <= 2 * (amount * denominator)
            &&& amount * denominator < PRECISION * ONE
            &&& significand == nearest_even(amount * denominator, ONE as nat)
            &&& PRECISION / 2 <= significand <= PRECISION
        }),
    decreases PRECISION * ONE - scaled,
{
    assert(scaled > 0) by (nonlinear_arith)
        requires
            scaled == amount * unit,
            0 < amount,
            0 < unit,
    ;
    if 2 * scaled < PRECISION * ONE {
        assert(amount * (2 * unit) == 2 * (amount * unit)) by (nonlinear_arith);
        lemma_amount_as_double(amount, 2 * scaled, 2 * unit);
    }
}

fn round_even(a: u128, b: u128) -> (r: u128)
    requires
        0 < b <= a < 0x1_0000_0000_0000_0000_0000_0000,
    ensures
        r == nearest_even(a as nat, b as nat),
        r <= a + 1,
{
    let below: u128 = a / b;
    let rest: u128 = a % b;
    assert(below <= a) by (nonlinear_arith)
        requires
            below == a / b,
            b > 0,
    ;
    assert(rest < b);
    if 2 * rest < b || (2 * rest == b && below % 2 == 0) {
        below
    } else {
        below + 1
    }
}

fn double_of_amount(scaled: u128, unit: u128) -> (r: (u128, u128))
    requires
        0 < unit <= scaled < PRECISION * ONE,
    ensures
        (r.0 as nat, r.1 as nat) == amount_as_double(scaled as nat, unit as nat),
        0 < r.1 < PRECISION * ONE,
        r.0 <= PRECISION,
    decreases PRECISION * ONE - scaled,
{
    let one: u128 = ONE as u128;
    if 2 * scaled >= PRECISION * one {
        (round_even(scaled, one), unit)
    } else {
        double_of_amount(2 * scaled, 2 * unit)
    }
}

fn spacing_of(whole: u128) -> (r: u128)
    ensures
        r == spacing(whole as nat),
        1 <= r,
        r <= whole || r == 1,
    decreases whole,
{
    if whole < PRECISION {
        1
    } else {
        2 * spacing_of(whole / 2)
    }
}

/// The lots of an order for an amount of shares in billionths: the amount as a
/// double, times ten thousand as a double, to the nearest whole number.
pub open spec fn lots_of(amount: nat) -> nat {
    if amount == 0 {
        0
    } else {
        let (significand, denominator) = amount_as_double(amount, 1);
        nearest_up(whole_as_double(significand * 10_000), denominator)
    }
}

/// Works out the lots of an order.
pub fn count_lots(amount: u64) -> (r: u128)
    requires
        amount <= 0x8000_0000_0000_0000,
    ensures
        r == lots_of(amount as nat),
{
    if amount == 0 {
        return 0;
    }
    let (significand, denominator): (u128, u128) = double_of_amount(amount as u128, 1);
    proof {
        lemma_amount_as_double(amount as nat, amount as nat, 1);
    }
    let product: u128 = significand * 10_000;
    let step: u128 = spacing_of(product);
    let steps: u128 = round_even(product, step);
    proof {
        lemma_spacing(product as nat);
        lemma_nearest_even(product as nat, step as nat);
    }
    let whole: u128 = steps * step;
    (2 * whole + denominator) / (2 * denominator)
}

/// The lots lie within half a lot of the exact amount; a little more where the
/// amount is so large that doubles lie far apart.
pub proof fn lemma_lots_are_near(amount: nat)
    requires
        amount <= 0x8000_0000_0000_0000,
    ensures
        -106_144 <= 2 * (lots_of(amount) * 100_000 - amount) <= 106_144,
        amount <= 1_000_000 * ONE ==> -100_000 <= 2 * (lots_of(amount) * 100_000 - amount)
            <= 100_000,
{
    if amount > 0 {
        let (significand, unit) = amount_as_double(amount, 1);
        let scaled = amount * unit;
        let product = significand * 10_000;
        let step = spacing(product);
        let whole = whole_as_double(product);
        let lots = lots_of(amount);
        lemma_amount_as_double(amount, amount, 1);
        lemma_nearest_even(scaled, ONE as nat);
        lemma_spacing(product);
        lemma_nearest_even(product, step);
        lemma_nearest_up(whole, unit);
        assert(step <= 20_000);
        let error = 2 * (lots * 100_000 - amount);
        assert(error * unit == 100_000 * (2 * (lots * unit - whole)) + 100_000 * (2 * (whole
            - product)) + 2 * (significand * ONE - scaled)) by (nonlinear_arith)
            requires
                error == 2 * (lots * 100_000 - amount),
                scaled == amount * unit,
                product == significand * 10_000,
                ONE == 1_000_000_000,
        ;
        let slack = 3 * ONE as int;
        assert(-(100_000 * unit + slack) <= error * unit <= 100_000 * unit + slack);
        assert(unit >= 488_282) by (nonlinear_arith)
            requires
                2 * (amount * unit) >= 9_007_199_254_740_992 * 1_000_000_000,
                amount <= 0x8000_0000_0000_0000,
        ;
        assert(-106_144 <= error <= 106_144) by (nonlinear_arith)
            requires
                -(100_000 * unit + slack) <= error * unit <= 100_000 * unit + slack,
                slack == 3_000_000_000,
                unit >= 488_282,
        ;
        if amount <= 1_000_000 * ONE {
            assert(unit > slack) by (nonlinear_arith)
                requires
                    2 * (amount * unit) >= 9_007_199_254_740_992 * 1_000_000_000,
                    amount <= 1_000_000 * 1_000_000_000,
                    slack == 3_000_000_000,
            ;
            assert(-100_000 <= error <= 100_000) by (nonlinear_arith)
                requires
                    -(100_000 * unit + slack) <= error * unit <= 100_000 * unit + slack,
                    unit > slack,
                    slack >= 0,
            ;
        }
    }
}

/// Half a step is rounded to the even side.
proof fn lemma_ties_to_even(a: nat, b: nat)
    requires
        b > 0,
        2 * (nearest_even(a, b) * b - a) == b || 2 * (nearest_even(a, b) * b - a) == -b,
    ensures
        nearest_even(a, b) % 2 == 0,
{
    let below = a / b;
    vstd::arithmetic::div_mod::lemma_fundamental_div_mod(a as int, b as int);
    assert((below + 1) * b == below * b + b) by (nonlinear_arith);
    assert(b * below == below * b) by (nonlinear_arith);
}

/// Half a step is rounded up.
proof fn lemma_ties_up(a: nat, b: nat)
    requires
        b > 0,
    ensures
        -b < 2 * (nearest_up(a, b) * b - a) <= b,
{
    let n = nearest_up(a, b) as int;
    vstd::arithmetic::div_mod::lemma_fundamental_div_mod((2 * a + b) as int, (2 * b) as int);
    assert((2 * b) * n == 2 * (n * b)) by (nonlinear_arith);
}

proof fn lemma_spacing_is_a_power(whole: nat) -> (s: nat)
    ensures
        spacing(whole) == pow2(s),
        whole < PRECISION * spacing(whole),
    decreases whole,
{
    lemma2_to64();
    if whole < PRECISION {
        0
    } else {
        let s = lemma_spacing_is_a_power(whole / 2);
        lemma_pow2_unfold(s + 1);
        s + 1
    }
}

proof fn lemma_denominator_is_a_power(scaled: nat, k: nat) -> (r: nat)
    ensures
        amount_as_double(scaled, pow2(k)).1 == pow2(r),
    decreases PRECISION * ONE - scaled,
{
    if scaled == 0 || 2 * scaled >= PRECISION * ONE {
        k
    } else {
        lemma_pow2_unfold(k + 1);
        lemma_denominator_is_a_power(2 * scaled, k + 1)
    }
}

/// The lots of an order, by what double-precision arithmetic requires of each step. The
/// amount in shares is `m / 2^k` with a significand `m` of 53 bits, nearest to the exact
/// one, ties to even. Ten thousand times that is `q * 2^s / 2^k` with a significand `q` of
/// 53 bits, again the nearest. The lots are the whole number nearest to it, ties up.
pub proof fn law_lots_are_worked_out_in_doubles(amount: nat) -> (r: (nat, nat, nat, nat))
    requires
        0 < amount <= 0x8000_0000_0000_0000,
    ensures
        ({
            let (k, m, s, q) = r;
            let first = 2 * (m * 1_000_000_000 - amount * pow2(k));
            let second = 2 * (q * pow2(s) - m * 10_000);
            let third = 2 * (lots_of(amount) * pow2(k) - q * pow2(s));
            &&& 4_503_599_627_370_496 * 1_000_000_000 <= amount * pow2(k)
                < 9_007_199_254_740_992 * 1_000_000_000
            &&& -1_000_000_000 <= first <= 1_000_000_000
            &&& first == 1_000_000_000 || first == -1_000_000_000 ==> m % 2 == 0
            &&& 4_503_599_627_370_496 * pow2(s) <= m * 10_000 < 9_007_199_254_740_992 * pow2(s)
            &&& -pow2(s) <= second <= pow2(s)
            &&& second == pow2(s) || second == -pow2(s) ==> q % 2 == 0
            &&& -pow2(k) < third <= pow2(k)
        }),
{
    lemma2_to64();
    let (m, unit) = amount_as_double(amount, 1);
    let product = m * 10_000;
    let step = spacing(product);
    let q = nearest_even(product, step);
    let k = lemma_denominator_is_a_power(amount, 0);
    let s = lemma_spacing_is_a_power(product);
    lemma_amount_as_double(amount, amount, 1);
    lemma_nearest_even(amount * unit, ONE as nat);
    if 2 * (m * ONE - amount * unit) == ONE || 2 * (m * ONE - amount * unit) == -ONE {
        lemma_ties_to_even(amount * unit, ONE as nat);
    }
    lemma_spacing(product);
    lemma_nearest_even(product, step);
    if 2 * (q * step - product) == step || 2 * (q * step - product) == -step {
        lemma_ties_to_even(product, step);
    }
    lemma_ties_up(q * step, unit);
    (k, m, s, q)
}

} // verus!
