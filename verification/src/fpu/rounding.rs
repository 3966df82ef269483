//! The value of a floating-point number as a fraction, and its rounding to an integer.
use vstd::arithmetic::div_mod::*;
use vstd::arithmetic::mul::*;
use vstd::arithmetic::power2::*;
use vstd::prelude::*;

use super::bits::{FloatFormat, Round, STATUS_INEXACT, STATUS_INVALID_OP, STATUS_OK};

verus! {

/// The exponent field of an encoding, at least 1: numbers without a leading one have the exponent
/// of the smallest numbers with one.
pub open spec fn biased_exponent(f: FloatFormat, a: u64) -> int {
    let field = f.magnitude(a) / f.spec_fractions();
    if field == 0 {
        1
    } else {
        field
    }
}

/// The significand of an encoding as an integer.
pub open spec fn integer_significand(f: FloatFormat, a: u64) -> int {
    let fraction = f.magnitude(a) % f.spec_fractions();
    if f.magnitude(a) < f.spec_fractions() {
        fraction
    } else {
        f.spec_fractions() + fraction
    }
}

/// The exponent field of a number whose last significand bit weighs one.
pub open spec fn unit_exponent(f: FloatFormat) -> int {
    match f {
        FloatFormat::Single => 150,
        FloatFormat::Double => 1075,
    }
}

/// The magnitude of a finite number is `numerator / denominator`.
pub open spec fn numerator(f: FloatFormat, a: u64) -> int {
    let e = biased_exponent(f, a) - unit_exponent(f);
    if e >= 0 {
        integer_significand(f, a) * pow2(e as nat)
    } else {
        integer_significand(f, a)
    }
}

/// The magnitude of a finite number is `numerator / denominator`.
pub open spec fn denominator(f: FloatFormat, a: u64) -> int {
    let e = biased_exponent(f, a) - unit_exponent(f);
    if e >= 0 {
        1
    } else {
        pow2((-e) as nat) as int
    }
}

/// A finite number is `signed_numerator / denominator`.
pub open spec fn signed_numerator(f: FloatFormat, a: u64) -> int {
    if f.sign(a) {
        -numerator(f, a)
    } else {
        numerator(f, a)
    }
}

/// The magnitude `n / d` of a number rounded to an integer.
pub open spec fn rounded(negative: bool, n: int, d: int, round: Round) -> int {
    let (down, rest) = (n / d, n % d);
    let up = rest != 0 && match round {
        Round::TowardZero => false,
        Round::TowardPositive => !negative,
        Round::TowardNegative => negative,
        Round::NearestTiesToAway => 2 * rest >= d,
        Round::NearestTiesToEven => 2 * rest > d || (2 * rest == d && down % 2 == 1),
    };
    if up {
        down + 1
    } else {
        down
    }
}

/// The integer from `least` to `greatest` that a number is rounded to, and the status. A NaN gives
/// zero; a number that rounds to an integer out of the range gives the end of the range on its
/// side. Both are invalid.
pub open spec fn to_integer(
    f: FloatFormat,
    a: u64,
    least: int,
    greatest: int,
    round: Round,
) -> (int, u8) {
    let (n, d) = (numerator(f, a), denominator(f, a));
    let magnitude = rounded(f.sign(a), n, d, round);
    let value = if f.sign(a) {
        -magnitude
    } else {
        magnitude
    };
    if f.is_nan(a) {
        (0, STATUS_INVALID_OP)
    } else if f.sign(a) && (f.magnitude(a) == f.spec_infinity() || value < least) {
        (least, STATUS_INVALID_OP)
    } else if !f.sign(a) && (f.magnitude(a) == f.spec_infinity() || value > greatest) {
        (greatest, STATUS_INVALID_OP)
    } else if n % d == 0 {
        (value, STATUS_OK)
    } else {
        (value, STATUS_INEXACT)
    }
}

/// A fraction has a numerator and a denominator that are not negative, and the latter is not zero.
pub proof fn lemma_fraction(f: FloatFormat, a: u64)
    ensures
        numerator(f, a) >= 0,
        denominator(f, a) >= 1,
{
    let e = biased_exponent(f, a) - unit_exponent(f);
    assert(integer_significand(f, a) >= 0);
    if e >= 0 {
        lemma_pow2_pos(e as nat);
        lemma_mul_nonnegative(integer_significand(f, a), pow2(e as nat) as int);
    } else {
        lemma_pow2_pos((-e) as nat);
    }
}

/// How an integer `v` goes with the fraction `x / d` that it was rounded from.
pub open spec fn is_rounded(x: int, d: int, v: int, round: Round) -> bool {
    match round {
        Round::TowardZero => if x < 0 {
            v <= 0 && x <= v * d && (v - 1) * d < x
        } else {
            v >= 0 && v * d <= x && x < (v + 1) * d
        },
        Round::TowardNegative => v * d <= x && x < (v + 1) * d,
        Round::TowardPositive => (v - 1) * d < x && x <= v * d,
        Round::NearestTiesToEven => {
            let off = x - v * d;
            -d <= 2 * off <= d && (2 * off == d || 2 * off == -d ==> v % 2 == 0)
        },
        Round::NearestTiesToAway => {
            let off = x - v * d;
            -d <= 2 * off <= d && (2 * off == d ==> x < 0) && (2 * off == -d ==> x > 0)
        },
    }
}

/// Rounding a magnitude under a sign gives the integer that goes with the signed number.
pub proof fn lemma_rounded(negative: bool, n: int, d: int, round: Round)
    requires
        n >= 0,
        d >= 1,
    ensures
        ({
            let m = rounded(negative, n, d, round);
            let (x, v) = if negative {
                (-n, -m)
            } else {
                (n, m)
            };
            is_rounded(x, d, v, round) && m >= 0
        }),
{
    let (q, r) = (n / d, n % d);
    lemma_fundamental_div_mod(n, d);
    lemma_mod_bound(n, d);
    lemma_div_pos_is_pos(n, d);
    assert(d * q == q * d) by (nonlinear_arith);
    assert((q + 1) * d == q * d + d && (q - 1) * d == q * d - d && (q + 2) * d == q * d + 2 * d)
        by (nonlinear_arith);
    assert((-q) * d == -(q * d) && (-(q + 1)) * d == -(q * d) - d && (-(q - 1)) * d == -(q * d) + d
        && (-(q + 2)) * d == -(q * d) - 2 * d && (-q - 1) * d == -(q * d) - d && (-q + 1) * d == -(q
        * d) + d && (-(q + 1) - 1) * d == -(q * d) - 2 * d && (-(q + 1) + 1) * d == -(q * d) && ((q
        + 1) + 1) * d == q * d + 2 * d && ((q + 1) - 1) * d == q * d) by (nonlinear_arith);
    assert(q == 0 ==> q * d == 0) by (nonlinear_arith);
    let m = rounded(negative, n, d, round);
    assert(m == q || m == q + 1);
}

/// A number between two integers of a range is rounded to an integer of the range.
pub proof fn lemma_rounded_in_range(x: int, d: int, v: int, round: Round, least: int, greatest: int)
    requires
        d >= 1,
        is_rounded(x, d, v, round),
        least * d <= x <= greatest * d,
    ensures
        least <= v <= greatest,
{
    if v < least {
        assert((v + 1) * d <= least * d && (v + 1) * d == v * d + d && 2 * (v * d) + 2 * d <= 2 * (
        least * d)) by (nonlinear_arith)
            requires
                v < least,
                d >= 1,
        ;
        assert((v - 1) * d == v * d - d) by (nonlinear_arith);
    }
    if v > greatest {
        assert((v - 1) * d >= greatest * d && (v - 1) * d == v * d - d && (v + 1) * d == v * d + d)
            by (nonlinear_arith)
            requires
                v > greatest,
                d >= 1,
        ;
    }
}

/// A finite number of a range is converted to the integer of the range that the rounding direction
/// asks for; the status says whether it was an integer already.
pub proof fn law_conversion_in_range(
    f: FloatFormat,
    a: u64,
    least: int,
    greatest: int,
    round: Round,
)
    requires
        f.magnitude(a) < f.spec_infinity(),
        least * denominator(f, a) <= signed_numerator(f, a) <= greatest * denominator(f, a),
    ensures
        ({
            let (v, status) = to_integer(f, a, least, greatest, round);
            &&& least <= v <= greatest
            &&& is_rounded(signed_numerator(f, a), denominator(f, a), v, round)
            &&& status == STATUS_OK || status == STATUS_INEXACT
            &&& status == STATUS_OK <==> v * denominator(f, a) == signed_numerator(f, a)
        }),
{
    let (n, d) = (numerator(f, a), denominator(f, a));
    let negative = f.sign(a);
    lemma_fraction(f, a);
    lemma_rounded(negative, n, d, round);
    let m = rounded(negative, n, d, round);
    let (x, v) = if negative {
        (-n, -m)
    } else {
        (n, m)
    };
    lemma_rounded_in_range(x, d, v, round, least, greatest);
    lemma_fundamental_div_mod(n, d);
    lemma_mod_bound(n, d);
    let q = n / d;
    assert(d * q == q * d && (-q) * d == -(q * d) && (q + 1) * d == q * d + d && (-(q + 1)) * d == -(
    q * d) - d) by (nonlinear_arith);
}

/// A number that lies beyond the range by one or more is converted to the end of the range on its
/// side, and so is an infinity; that is invalid.
pub proof fn law_conversion_out_of_range(
    f: FloatFormat,
    a: u64,
    least: int,
    greatest: int,
    round: Round,
)
    requires
        !f.is_nan(a),
        least <= 0 <= greatest,
        f.magnitude(a) < f.spec_infinity() ==> signed_numerator(f, a) <= (least - 1) * denominator(
            f,
            a,
        ) || signed_numerator(f, a) >= (greatest + 1) * denominator(f, a),
    ensures
        to_integer(f, a, least, greatest, round) == (
            if f.sign(a) {
                least
            } else {
                greatest
            },
            STATUS_INVALID_OP,
        ),
{
    let (n, d) = (numerator(f, a), denominator(f, a));
    let negative = f.sign(a);
    lemma_fraction(f, a);
    lemma_rounded(negative, n, d, round);
    if f.magnitude(a) < f.spec_infinity() {
        let m = rounded(negative, n, d, round);
        let q = n / d;
        lemma_fundamental_div_mod(n, d);
        lemma_mod_bound(n, d);
        assert(d * q == q * d) by (nonlinear_arith);
        assert((greatest + 1) * d > 0 && (least - 1) * d < 0) by (nonlinear_arith)
            requires
                d >= 1,
                least <= 0 <= greatest,
        ;
        if negative {
            assert(q >= 1 - least) by (nonlinear_arith)
                requires
                    n == q * d + n % d,
                    n % d < d,
                    -n <= (least - 1) * d,
                    d >= 1,
            ;
        } else {
            assert(q >= greatest + 1) by (nonlinear_arith)
                requires
                    n == q * d + n % d,
                    n % d < d,
                    n >= (greatest + 1) * d,
                    d >= 1,
            ;
        }
    }
}

} // verus!
