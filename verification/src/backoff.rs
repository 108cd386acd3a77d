//! Exponential backoff, computed exactly.
//!
//! A delay that has grown over `steps` retries is the initial delay times
//! the backoff factor to the power of `steps`, rounded down once to whole
//! milliseconds. The factor is given in hundredths, so the product is a
//! decimal fraction with two more places for every step; it is kept in full,
//! as a whole part and a list of places, until the one rounding at the end.

use vstd::prelude::*;
use vstd::arithmetic::div_mod::{
    lemma_basic_div, lemma_div_by_multiple, lemma_div_is_ordered,
    lemma_div_multiples_vanish_quotient, lemma_fundamental_div_mod_converse_div,
};

verus! {

/// `base` to the power of `exponent`.
pub open spec fn power(base: nat, exponent: nat) -> nat
    decreases exponent,
{
    if exponent == 0 {
        1
    } else {
        base * power(base, (exponent - 1) as nat)
    }
}

/// The delay that `initial` has grown to after `steps` multiplications by
/// the factor `percent / 100`: the product, rounded down once.
pub open spec fn backoff(initial: nat, percent: nat, steps: nat) -> nat {
    initial * power(percent, steps) / power(100, steps)
}

/// A power of a positive number is positive.
pub proof fn lemma_power_positive(base: nat, exponent: nat)
    requires
        base > 0,
    ensures
        power(base, exponent) > 0,
    decreases exponent,
{
    if exponent > 0 {
        lemma_power_positive(base, (exponent - 1) as nat);
        let rest = power(base, (exponent - 1) as nat);
        assert(base * rest > 0) by (nonlinear_arith)
            requires
                base > 0,
                rest > 0,
        ;
    }
}

/// Powers of one base multiply by adding their exponents.
pub proof fn lemma_power_adds(base: nat, first: nat, second: nat)
    ensures
        power(base, first + second) == power(base, first) * power(base, second),
    decreases second,
{
    if second == 0 {
        assert(power(base, first) * 1 == power(base, first));
    } else {
        lemma_power_adds(base, first, (second - 1) as nat);
        assert((first + second - 1) as nat == first + (second - 1) as nat);
        let a = power(base, first);
        let b = power(base, (second - 1) as nat);
        assert(base * (a * b) == a * (base * b)) by (nonlinear_arith);
    }
}

/// A greater base has the greater powers.
pub proof fn lemma_power_of_greater_base(lesser: nat, greater: nat, exponent: nat)
    requires
        lesser <= greater,
    ensures
        power(lesser, exponent) <= power(greater, exponent),
    decreases exponent,
{
    if exponent > 0 {
        lemma_power_of_greater_base(lesser, greater, (exponent - 1) as nat);
        let a = power(lesser, (exponent - 1) as nat);
        let b = power(greater, (exponent - 1) as nat);
        assert(lesser * a <= greater * b) by (nonlinear_arith)
            requires
                lesser <= greater,
                a <= b,
        ;
    }
}

/// The power of a product is the product of the powers.
pub proof fn lemma_power_of_product(a: nat, b: nat, exponent: nat)
    ensures
        power(a * b, exponent) == power(a, exponent) * power(b, exponent),
    decreases exponent,
{
    if exponent == 0 {
        assert(power(a, 0) * power(b, 0) == 1) by (nonlinear_arith)
            requires
                power(a, 0) == 1,
                power(b, 0) == 1,
        ;
    } else {
        lemma_power_of_product(a, b, (exponent - 1) as nat);
        let x = power(a, (exponent - 1) as nat);
        let y = power(b, (exponent - 1) as nat);
        assert((a * b) * (x * y) == (a * x) * (b * y)) by (nonlinear_arith);
    }
}

/// With a whole factor there is nothing to round: the delay after `steps`
/// multiplications is the initial delay times the factor to the power of
/// `steps`.
pub proof fn lemma_backoff_whole_factor(initial: nat, factor: nat, steps: nat)
    ensures
        backoff(initial, factor * 100, steps) == initial * power(factor, steps),
{
    lemma_power_of_product(factor, 100, steps);
    lemma_power_positive(100, steps);
    let f = power(factor, steps);
    let h = power(100, steps);
    assert(initial * (f * h) == (initial * f) * h) by (nonlinear_arith);
    lemma_div_by_multiple((initial * f) as int, h as int);
}

/// No retry gives the initial delay.
pub proof fn lemma_backoff_start(initial: nat, percent: nat)
    ensures
        backoff(initial, percent, 0) == initial,
{
    assert(power(percent, 0) == 1 && power(100, 0) == 1);
    assert(initial * 1 == initial);
    assert(initial / 1 == initial);
}

/// With a factor of one or more, delays never shrink; with a factor of one
/// or less, they never grow.
pub proof fn lemma_backoff_is_monotone(initial: nat, percent: nat, steps: nat, more: nat)
    ensures
        percent >= 100 ==> backoff(initial, percent, steps) <= backoff(
            initial,
            percent,
            steps + more,
        ),
        percent <= 100 ==> backoff(initial, percent, steps) >= backoff(
            initial,
            percent,
            steps + more,
        ),
{
    let v = initial * power(percent, steps);
    let h = power(100, steps);
    let pm = power(percent, more);
    let hm = power(100, more);
    lemma_power_adds(percent, steps, more);
    lemma_power_adds(100, steps, more);
    lemma_power_positive(100, steps);
    lemma_power_positive(100, more);
    lemma_power_positive(100, steps + more);
    assert(initial * (power(percent, steps) * pm) == v * pm) by (nonlinear_arith)
        requires
            v == initial * power(percent, steps),
    ;
    // The delay after `steps`, written with the later denominator.
    lemma_div_multiples_vanish_quotient(hm as int, v as int, h as int);
    assert(hm * v == v * hm && hm * h == h * hm) by (nonlinear_arith);
    assert(backoff(initial, percent, steps) == (v * hm) / (h * hm));
    assert(backoff(initial, percent, steps + more) == (v * pm) / (h * hm));
    if percent >= 100 {
        lemma_power_of_greater_base(100, percent, more);
        assert(v * hm <= v * pm) by (nonlinear_arith)
            requires
                hm <= pm,
        ;
        lemma_div_is_ordered((v * hm) as int, (v * pm) as int, (h * hm) as int);
    }
    if percent <= 100 {
        lemma_power_of_greater_base(percent, 100, more);
        assert(v * pm <= v * hm) by (nonlinear_arith)
            requires
                pm <= hm,
        ;
        lemma_div_is_ordered((v * pm) as int, (v * hm) as int, (h * hm) as int);
    }
}

/// The number that a list of places stands for, counted in units of the
/// last place: each place is a digit to the base 100, the first place being
/// the least.
pub open spec fn places_value(places: Seq<u8>) -> nat
    decreases places.len(),
{
    if places.len() == 0 {
        0
    } else {
        places_value(places.subrange(0, places.len() - 1)) + (places[places.len() - 1] as nat)
            * power(100, (places.len() - 1) as nat)
    }
}

/// Whether every place is a digit to the base 100.
pub open spec fn are_places(places: Seq<u8>) -> bool {
    forall|i: int| 0 <= i < places.len() ==> #[trigger] places[i] < 100
}

/// Places stand for less than one whole.
pub proof fn lemma_places_bound(places: Seq<u8>)
    requires
        are_places(places),
    ensures
        places_value(places) < power(100, places.len()),
    decreases places.len(),
{
    if places.len() > 0 {
        let n = (places.len() - 1) as nat;
        let front = places.subrange(0, n as int);
        assert(are_places(front)) by {
            assert forall|i: int| 0 <= i < front.len() implies #[trigger] front[i] < 100 by {
                assert(front[i] == places[i]);
            }
        }
        lemma_places_bound(front);
        let h = power(100, n);
        let top = places[n as int] as nat;
        assert(top < 100);
        assert(places_value(front) + top * h < 100 * h) by (nonlinear_arith)
            requires
                places_value(front) < h,
                top <= 99,
        ;
    }
}

/// The places of `places` times `percent`: the places of the product, and
/// what the product carries over into the whole part.
fn scale(places: &Vec<u8>, percent: u32) -> (r: (Vec<u8>, u32))
    requires
        are_places(places@),
    ensures
        are_places(r.0@),
        r.0@.len() == places@.len(),
        places_value(r.0@) + r.1 * power(100, places@.len()) == places_value(places@) * percent,
        r.1 <= percent,
{
    let mut out: Vec<u8> = Vec::new();
    let mut carry: u32 = 0;
    let mut i: usize = 0;
    assert(places@.subrange(0, 0) =~= Seq::<u8>::empty());
    assert(places_value(out@) + carry * power(100, 0) == places_value(places@.subrange(0, 0))
        * percent) by {
        assert(0 * percent == 0);
    }
    while i < places.len()
        invariant
            i <= places@.len(),
            are_places(places@),
            are_places(out@),
            out@.len() == i,
            carry <= percent,
            places_value(out@) + carry * power(100, i as nat) == places_value(
                places@.subrange(0, i as int),
            ) * percent,
        decreases places@.len() - i,
    {
        let digit: u64 = places[i] as u64;
        assert(digit <= 99);
        assert(digit * percent <= 99 * 0xffff_ffff) by (nonlinear_arith)
            requires
                digit <= 99,
                percent <= 0xffff_ffff,
        ;
        let product: u64 = digit * percent as u64 + carry as u64;
        let place: u8 = (product % 100) as u8;
        let next: u64 = product / 100;
        assert(next <= percent) by (nonlinear_arith)
            requires
                next == product / 100,
                product == digit * percent + carry,
                digit <= 99,
                carry <= percent,
        ;
        proof {
            let h = power(100, i as nat);
            let before = places@.subrange(0, i as int);
            let after = places@.subrange(0, i + 1);
            assert(after.subrange(0, after.len() - 1) == before);
            assert(after[after.len() - 1] == places@[i as int]);
            assert(places_value(after) == places_value(before) + digit * h);
            let pushed = out@.push(place);
            assert(pushed.subrange(0, pushed.len() - 1) == out@);
            assert(places_value(pushed) == places_value(out@) + place * h);
            assert(power(100, (i + 1) as nat) == 100 * h);
            assert(product == 100 * next + place);
            assert(places_value(out@) + place * h + next * (100 * h) == (places_value(before)
                + digit * h) * percent) by (nonlinear_arith)
                requires
                    places_value(out@) + carry * h == places_value(before) * percent,
                    product == digit * percent + carry,
                    product == 100 * next + place,
            ;
            assert(are_places(pushed)) by {
                assert forall|j: int| 0 <= j < pushed.len() implies #[trigger] pushed[j]
                    < 100 by {
                    if j < out@.len() {
                        assert(pushed[j] == out@[j]);
                    }
                }
            }
        }
        out.push(place);
        carry = next as u32;
        i += 1;
    }
    assert(places@.subrange(0, places@.len() as int) == places@);
    (out, carry)
}

/// The delay that `initial` has grown to after `steps` multiplications by
/// the factor `percent / 100`, rounded down once, or `max` where that is
/// less.
pub fn capped_backoff(initial: u64, percent: u32, steps: u32, max: u64) -> (r: u64)
    ensures
        r == if backoff(initial as nat, percent as nat, steps as nat) <= max {
            backoff(initial as nat, percent as nat, steps as nat)
        } else {
            max as nat
        },
{
    let ghost goal = backoff(initial as nat, percent as nat, steps as nat);
    if percent == 100 || initial == 0 {
        proof {
            lemma_backoff_start(initial as nat, percent as nat);
            lemma_backoff_is_monotone(initial as nat, percent as nat, 0, steps as nat);
            if initial == 0 {
                lemma_power_positive(100, steps as nat);
                assert(0 * power(percent as nat, steps as nat) == 0);
                lemma_basic_div(0, power(100, steps as nat) as int);
            }
        }
        return if initial <= max {
            initial
        } else {
            max
        };
    }
    let mut whole: u64 = initial;
    let mut places: Vec<u8> = Vec::new();
    let mut done: u32 = 0;
    proof {
        assert(power(percent as nat, 0) == 1 && power(100, 0) == 1);
        assert(initial * 1 == whole * 1 + 0) by (nonlinear_arith)
            requires
                whole == initial,
        ;
    }
    while done < steps
        invariant
            done <= steps,
            percent != 100,
            goal == backoff(initial as nat, percent as nat, steps as nat),
            are_places(places@),
            places@.len() == done,
            initial * power(percent as nat, done as nat) == whole * power(100, done as nat)
                + places_value(places@),
        decreases steps - done,
    {
        proof {
            lemma_whole_is_backoff(
                initial as nat,
                percent as nat,
                done as nat,
                whole as nat,
                places@,
            );
            lemma_backoff_is_monotone(
                initial as nat,
                percent as nat,
                done as nat,
                (steps - done) as nat,
            );
        }
        if percent > 100 && whole >= max {
            return max;
        }
        if percent < 100 && whole == 0 {
            return 0;
        }
        let (mut scaled, carry) = scale(&places, percent);
        assert(whole as u128 * percent as u128 <= 0xffff_ffff_ffff_ffff * 0xffff_ffff)
            by (nonlinear_arith)
            requires
                whole <= 0xffff_ffff_ffff_ffff,
                percent <= 0xffff_ffff,
        ;
        let total: u128 = whole as u128 * percent as u128 + carry as u128;
        let next: u128 = total / 100;
        let place: u8 = (total % 100) as u8;
        proof {
            let h = power(100, done as nat);
            let v = initial * power(percent as nat, done as nat);
            let pushed = scaled@.push(place);
            assert(pushed.subrange(0, pushed.len() - 1) == scaled@);
            assert(places_value(pushed) == places_value(scaled@) + place * h);
            assert(power(100, (done + 1) as nat) == 100 * h);
            assert(power(percent as nat, (done + 1) as nat) == percent * power(
                percent as nat,
                done as nat,
            ));
            assert(initial * (percent * power(percent as nat, done as nat)) == v * percent)
                by (nonlinear_arith)
                requires
                    v == initial * power(percent as nat, done as nat),
            ;
            assert(total == 100 * next + place);
            assert(v * percent == next * (100 * h) + (places_value(scaled@) + place * h))
                by (nonlinear_arith)
                requires
                    v == whole * h + places_value(places@),
                    places_value(scaled@) + carry * h == places_value(places@) * percent,
                    total == whole * percent + carry,
                    total == 100 * next + place,
            ;
            assert(are_places(pushed)) by {
                assert forall|j: int| 0 <= j < pushed.len() implies #[trigger] pushed[j]
                    < 100 by {
                    if j < scaled@.len() {
                        assert(pushed[j] == scaled@[j]);
                    }
                }
            }
            lemma_whole_is_backoff(
                initial as nat,
                percent as nat,
                (done + 1) as nat,
                next as nat,
                pushed,
            );
            lemma_backoff_is_monotone(initial as nat, percent as nat, done as nat, 1);
            lemma_backoff_is_monotone(
                initial as nat,
                percent as nat,
                (done + 1) as nat,
                (steps - done - 1) as nat,
            );
        }
        scaled.push(place);
        if next > u64::MAX as u128 {
            return max;
        }
        whole = next as u64;
        places = scaled;
        done = done + 1;
    }
    proof {
        lemma_whole_is_backoff(
            initial as nat,
            percent as nat,
            done as nat,
            whole as nat,
            places@,
        );
    }
    if whole <= max {
        whole
    } else {
        max
    }
}

/// A product that is kept as a whole part and places is rounded down by
/// leaving the places out.
proof fn lemma_whole_is_backoff(
    initial: nat,
    percent: nat,
    steps: nat,
    whole: nat,
    places: Seq<u8>,
)
    requires
        are_places(places),
        places.len() == steps,
        initial * power(percent, steps) == whole * power(100, steps) + places_value(places),
    ensures
        whole == backoff(initial, percent, steps),
{
    lemma_places_bound(places);
    lemma_power_positive(100, steps);
    lemma_fundamental_div_mod_converse_div(
        (initial * power(percent, steps)) as int,
        power(100, steps) as int,
        whole as int,
        places_value(places) as int,
    );
}

} // verus!
