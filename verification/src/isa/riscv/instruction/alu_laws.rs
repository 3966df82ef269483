//! What the integer operations are for, as relations between operands and results.
use vstd::arithmetic::div_mod::*;
use vstd::arithmetic::mul::*;
use vstd::arithmetic::power2::*;
use vstd::prelude::*;

use crate::utils;
use crate::utils::Width;

use super::alu;
use super::alu::{AluFn, CompareFn};

verus! {

/// A width of n bits has two to the n values, and the two readings of a value, unsigned and two's
/// complement, differ by nothing or by that number.
pub proof fn law_width(w: Width, a: u64, x: int)
    requires
        w.holds(a),
    ensures
        w.modulus() == pow2(w.spec_bits() as nat),
        w.spec_bits() == 8 * w.spec_bytes(),
        0 <= a < w.modulus(),
        w.half() * 2 == w.modulus(),
        -w.half() <= w.signed(a) < w.half(),
        w.signed(a) == a || w.signed(a) == a - w.modulus(),
        0 <= w.wrap(x) < w.modulus(),
        exists|k: int| x == w.wrap(x) + #[trigger] (k * w.modulus()),
        w.wrap(w.signed(a)) == a,
        -w.half() <= x < w.half() ==> w.signed(w.wrap(x)) == x,
{
    lemma2_to64();
    lemma2_to64_rest();
    let m = w.modulus();
    lemma_fundamental_div_mod(x, m);
    lemma_mul_is_commutative(x / m, m);
    assert(x == w.wrap(x) + (x / m) * m);
}

/// Widening keeps the two's complement value.
pub proof fn law_widened(w: Width, a: u64)
    requires
        w.holds(a),
    ensures
        Width::W64.signed(utils::widened(w, a)) == w.signed(a),
        w.wrap(utils::widened(w, a) as int) == a,
{
}

/// Sign extension keeps the low bits and gives a number that fits them as a signed one.
pub proof fn law_sign_extension(value: u64, from: u32)
    requires
        1 <= from < 64,
    ensures
        ({
            let x = Width::W64.signed(utils::sign_extended(value, from));
            &&& -(pow2((from - 1) as nat) as int) <= x < pow2((from - 1) as nat)
            &&& x % (pow2(from as nat) as int) == value as int % (pow2(from as nat) as int)
        }),
{
    let m = pow2(from as nat) as int;
    let h = pow2((from - 1) as nat) as int;
    lemma_pow2_unfold(from as nat);
    lemma_pow2_pos((from - 1) as nat);
    lemma2_to64_rest();
    if from < 63 {
        lemma_pow2_strictly_increases(from as nat, 63);
    }
    let low = value as int % m;
    lemma_mod_bound(value as int, m);
    lemma_mod_twice(value as int, m);
    if low >= h {
        lemma_mod_multiples_vanish(-1, low, m);
        assert(m * (-1) + low == low - m);
    }
}

/// Addition and subtraction are exact but for one turn round the width, and each undoes the other.
pub proof fn law_sum_and_difference(w: Width, a: u64, b: u64)
    requires
        w.holds(a),
        w.holds(b),
    ensures
        ({
            let sum = alu::alu(AluFn::Add, w, a, b);
            let diff = alu::alu(AluFn::Sub, w, a, b);
            &&& w.holds(sum)
            &&& (sum == a + b || sum == a + b - w.modulus())
            &&& w.holds(diff)
            &&& (diff == a - b || diff == a - b + w.modulus())
            &&& alu::alu(AluFn::Sub, w, sum, b) == a
            &&& alu::alu(AluFn::Add, w, diff, b) == a
            &&& alu::alu(AluFn::RevSub, w, b, a) == diff
        }),
{
}

/// The two halves of a product: the high half times the number of values of the width, plus the
/// low half, is the exact product of the operands as each form reads them.
pub proof fn law_product_halves(w: Width, a: u64, b: u64)
    requires
        w.holds(a),
        w.holds(b),
    ensures
        ({
            let low = alu::alu(AluFn::MulLow, w, a, b);
            let m = w.modulus();
            &&& a * b == alu::alu(AluFn::MulHighUnsigned, w, a, b) * m + low
            &&& w.signed(a) * w.signed(b) == w.signed(alu::alu(AluFn::MulHighSigned, w, a, b)) * m
                + low
            &&& w.signed(a) * b == w.signed(alu::alu(AluFn::MulHighSignedUnsigned, w, a, b)) * m
                + low
        }),
{
    let m = w.modulus();
    let (x, y) = (w.signed(a), w.signed(b));
    lemma_turned_product(x, y, a as int, b as int, m);
    lemma_turned_product(x, b as int, a as int, b as int, m);
    lemma_high_half(a as int, b as int, m, 0, m);
    lemma_high_half(x, y, m, -w.half(), w.half());
    lemma_high_half_mixed(x, b as int, m, w.half());
    lemma_halves(w, a as int * b as int);
    lemma_halves(w, x * y);
    lemma_halves(w, x * b as int);
}

/// A number as its floor by the modulus and what is left.
proof fn lemma_halves(w: Width, p: int)
    ensures
        p == (p / w.modulus()) * w.modulus() + w.wrap(p),
        w.wrap(p) == p % w.modulus(),
        0 <= p / w.modulus() < w.modulus() ==> w.wrap(p / w.modulus()) == p / w.modulus(),
        -w.half() <= p / w.modulus() < w.half() ==> w.signed(w.wrap(p / w.modulus())) == p
            / w.modulus(),
{
    lemma_fundamental_div_mod(p, w.modulus());
    lemma_mul_is_commutative(w.modulus(), p / w.modulus());
    lemma_reading(w, p / w.modulus());
}

/// A number in the range of a width is read back as itself.
proof fn lemma_reading(w: Width, x: int)
    ensures
        0 <= x < w.modulus() ==> w.wrap(x) == x,
        -w.half() <= x < w.half() ==> w.signed(w.wrap(x)) == x,
        w.holds(w.wrap(x)),
{
}

/// Products of numbers that agree modulo `m` agree modulo `m`.
proof fn lemma_turned_product(x: int, y: int, a: int, b: int, m: int)
    requires
        m > 0,
        x == a || x == a - m,
        y == b || y == b - m,
    ensures
        (x * y) % m == (a * b) % m,
{
    if x == a && y == b {
    } else if x == a {
        assert(x * y == m * (-a) + a * b) by (nonlinear_arith)
            requires
                x == a,
                y == b - m,
        ;
        lemma_mod_multiples_vanish(-a, a * b, m);
    } else if y == b {
        assert(x * y == m * (-b) + a * b) by (nonlinear_arith)
            requires
                x == a - m,
                y == b,
        ;
        lemma_mod_multiples_vanish(-b, a * b, m);
    } else {
        assert(x * y == m * (m - a - b) + a * b) by (nonlinear_arith)
            requires
                x == a - m,
                y == b - m,
        ;
        lemma_mod_multiples_vanish(m - a - b, a * b, m);
    }
}

/// The high half of a product of two numbers of a range that has room for it.
proof fn lemma_high_half(x: int, y: int, m: int, lo: int, hi: int)
    requires
        m > 0,
        lo <= x < hi,
        lo <= y < hi,
        (lo == 0 && hi == m) || (lo == -hi && 2 * hi == m),
    ensures
        lo <= (x * y) / m < hi,
{
    if lo == 0 {
        assert(0 <= x * y < m * m) by (nonlinear_arith)
            requires
                0 <= x < m,
                0 <= y < m,
        ;
        lemma_div_pos_is_pos(x * y, m);
        lemma_quotient_below(x * y, m, m);
    } else {
        assert(-(hi * hi) <= x * y <= hi * hi) by (nonlinear_arith)
            requires
                -hi <= x < hi,
                -hi <= y < hi,
        ;
        assert(hi * hi < hi * m && (-hi) * m <= -(hi * hi)) by (nonlinear_arith)
            requires
                2 * hi == m,
                m > 0,
        ;
        lemma_quotient_below(x * y, hi, m);
        lemma_quotient_above(x * y, -hi, m);
    }
}

/// The high half of a product of a signed and an unsigned number.
proof fn lemma_high_half_mixed(x: int, y: int, m: int, half: int)
    requires
        m > 0,
        2 * half == m,
        -half <= x < half,
        0 <= y < m,
    ensures
        -half <= (x * y) / m < half,
{
    assert((-half) * m <= x * y < half * m) by (nonlinear_arith)
        requires
            m > 0,
            2 * half == m,
            -half <= x < half,
            0 <= y < m,
    ;
    lemma_quotient_below(x * y, half, m);
    lemma_quotient_above(x * y, -half, m);
}

proof fn lemma_quotient_below(p: int, q: int, m: int)
    requires
        m > 0,
        p < q * m,
    ensures
        p / m < q,
{
    lemma_fundamental_div_mod(p, m);
    lemma_mod_bound(p, m);
    assert(p / m < q) by (nonlinear_arith)
        requires
            m > 0,
            p == m * (p / m) + p % m,
            0 <= p % m < m,
            p < q * m,
    ;
}

proof fn lemma_quotient_above(p: int, q: int, m: int)
    requires
        m > 0,
        q * m <= p,
    ensures
        q <= p / m,
{
    lemma_fundamental_div_mod(p, m);
    lemma_mod_bound(p, m);
    assert(q <= p / m) by (nonlinear_arith)
        requires
            m > 0,
            p == m * (p / m) + p % m,
            0 <= p % m < m,
            q * m <= p,
    ;
}

/// Signed division: quotient and remainder give the dividend back exactly, and the remainder is
/// smaller than the divisor and has the dividend's sign. By zero the quotient is -1 and the
/// remainder the dividend; the least number by -1 gives itself and leaves nothing.
pub proof fn law_signed_division(w: Width, a: u64, b: u64)
    requires
        w.holds(a),
        w.holds(b),
    ensures
        ({
            let q = alu::alu(AluFn::DivSigned, w, a, b);
            let r = alu::alu(AluFn::RemSigned, w, a, b);
            let (x, y) = (w.signed(a), w.signed(b));
            &&& w.holds(q) && w.holds(r)
            &&& b != 0 && !(x == -w.half() && y == -1) ==> {
                &&& x == y * w.signed(q) + w.signed(r)
                &&& alu::abs(w.signed(r)) < alu::abs(y)
                &&& w.signed(r) == 0 || (w.signed(r) < 0) == (x < 0)
            }
            &&& b == 0 ==> w.signed(q) == -1 && r == a
            &&& x == -w.half() && y == -1 ==> q == a && r == 0
        }),
{
    let (x, y) = (w.signed(a), w.signed(b));
    lemma_reading(w, -1);
    if b != 0 {
        lemma_truncated(x, y, w.half());
        lemma_reading(w, alu::trunc_div(x, y));
        lemma_reading(w, alu::trunc_rem(x, y));
    }
}

/// Division rounded towards zero, and the range of its results.
proof fn lemma_truncated(x: int, y: int, half: int)
    requires
        y != 0,
        -half <= x < half,
        -half <= y < half,
    ensures
        x == y * alu::trunc_div(x, y) + alu::trunc_rem(x, y),
        alu::abs(alu::trunc_rem(x, y)) < alu::abs(y),
        alu::trunc_rem(x, y) == 0 || (alu::trunc_rem(x, y) < 0) == (x < 0),
        !(x == -half && y == -1) ==> -half <= alu::trunc_div(x, y) < half,
        x == -half && y == -1 ==> alu::trunc_div(x, y) == half && alu::trunc_rem(x, y) == 0,
{
    let (n, d) = (alu::abs(x), alu::abs(y));
    let (q, r) = (n / d, n % d);
    lemma_fundamental_div_mod(n, d);
    lemma_mod_bound(n, d);
    lemma_div_pos_is_pos(n, d);
    lemma_div_nonincreasing(n, d);
    lemma_mul_unary_negation(d, q);
    lemma_mul_unary_negation(y, q);
    if d == 1 {
        lemma_div_basics(n);
        lemma_small_mod_one(n);
    } else if n > 0 {
        assert(q < n) by (nonlinear_arith)
            requires
                n == d * q + r,
                0 <= r,
                n > 0,
                d > 1,
                q >= 0,
        ;
    }
}

proof fn lemma_small_mod_one(x: int)
    ensures
        x % 1 == 0,
{
    lemma_mod_bound(x, 1);
}

/// Unsigned division: quotient and remainder give the dividend back, and the remainder is smaller
/// than the divisor. By zero the quotient has every bit set and the remainder is the dividend.
pub proof fn law_unsigned_division(w: Width, a: u64, b: u64)
    requires
        w.holds(a),
        w.holds(b),
    ensures
        ({
            let q = alu::alu(AluFn::DivUnsigned, w, a, b);
            let r = alu::alu(AluFn::RemUnsigned, w, a, b);
            &&& b != 0 ==> a == b * q + r && 0 <= r < b
            &&& b == 0 ==> q == w.modulus() - 1 && r == a
        }),
{
    if b != 0 {
        alu::law_division(w, a, b);
        lemma_mod_bound(a as int, b as int);
    }
}

/// Right shifts divide by a power of two and round down, the logical one the unsigned and the
/// arithmetic one the signed value; a left shift multiplies by it, but for whole turns round the
/// width. Only the low bits of the distance count.
pub proof fn law_shifts(w: Width, a: u64, b: u64)
    requires
        w.holds(a),
    ensures
        ({
            let d = pow2((b as int % w.spec_bits()) as nat);
            let sll = alu::alu(AluFn::Sll, w, a, b);
            let srl = alu::alu(AluFn::Srl, w, a, b);
            let sra = alu::alu(AluFn::Sra, w, a, b);
            &&& w.holds(sll) && w.holds(srl) && w.holds(sra)
            &&& srl * d <= a < (srl + 1) * d
            &&& w.signed(sra) * d <= w.signed(a) < (w.signed(sra) + 1) * d
            &&& exists|k: int| a * d == sll + #[trigger] (k * w.modulus())
            &&& a * d < w.modulus() ==> alu::alu(AluFn::Srl, w, sll, b) == a
        }),
{
    let n = (b as int % w.spec_bits()) as nat;
    let d = pow2(n) as int;
    lemma_pow2_pos(n);
    lemma_fundamental_div_mod(a as int, d);
    lemma_mod_bound(a as int, d);
    lemma_div_nonincreasing(a as int, d);
    lemma_div_pos_is_pos(a as int, d);
    let x = w.signed(a);
    lemma_fundamental_div_mod(x, d);
    lemma_mod_bound(x, d);
    assert(-w.half() <= x / d < w.half()) by {
        assert((-w.half()) * d <= x && x < w.half() * d) by (nonlinear_arith)
            requires
                d >= 1,
                -w.half() <= x < w.half(),
                w.half() > 0,
        ;
        lemma_quotient_below(x, w.half(), d);
        lemma_quotient_above(x, -w.half(), d);
    }
    let (p, q) = (a as int / d, x / d);
    assert(p * d <= a < (p + 1) * d && q * d <= x < (q + 1) * d) by (nonlinear_arith)
        requires
            a == d * p + a as int % d,
            0 <= a as int % d < d,
            x == d * q + x % d,
            0 <= x % d < d,
    ;
    let m = w.modulus();
    lemma_fundamental_div_mod(a * d, m);
    lemma_mul_is_commutative(m, (a * d) / m);
    assert(a * d == alu::alu(AluFn::Sll, w, a, b) + ((a * d) / m) * m);
    if a * d < m {
        lemma_mul_nonnegative(a as int, d);
        lemma_small_mod((a * d) as nat, m as nat);
        lemma_div_multiples_vanish(a as int, d);
        lemma_mul_is_commutative(a as int, d);
    }
}

/// Bit `i` of `v`.
pub open spec fn bit(v: u64, i: u64) -> bool {
    (v >> i) & 1 == 1
}

/// The bitwise operations work on each bit of the width by itself.
pub proof fn law_bitwise(w: Width, a: u64, b: u64, i: u64)
    requires
        w.holds(a),
        w.holds(b),
        i < w.spec_bits(),
    ensures
        bit(alu::alu(AluFn::And, w, a, b), i) == (bit(a, i) && bit(b, i)),
        bit(alu::alu(AluFn::Nand, w, a, b), i) == !(bit(a, i) && bit(b, i)),
        bit(alu::alu(AluFn::Andn, w, a, b), i) == (bit(a, i) && !bit(b, i)),
        bit(alu::alu(AluFn::Or, w, a, b), i) == (bit(a, i) || bit(b, i)),
        bit(alu::alu(AluFn::Nor, w, a, b), i) == !(bit(a, i) || bit(b, i)),
        bit(alu::alu(AluFn::Orn, w, a, b), i) == (bit(a, i) || !bit(b, i)),
        bit(alu::alu(AluFn::Xor, w, a, b), i) == (bit(a, i) != bit(b, i)),
        bit(alu::alu(AluFn::Xnor, w, a, b), i) == (bit(a, i) == bit(b, i)),
{
    let c = alu::complement(w, b);
    alu::lemma_bitwise_narrow(w, a, b);
    lemma_complement_bit(w, b, i);
    lemma_complement_bit(w, a & b, i);
    lemma_complement_bit(w, a | b, i);
    lemma_complement_bit(w, a ^ b, i);
    lemma_bit_by_bit(a, b, i);
    lemma_bit_by_bit(a, c, i);
}

proof fn lemma_bit_by_bit(a: u64, b: u64, i: u64)
    requires
        i < 64,
    ensures
        bit(a & b, i) == (bit(a, i) && bit(b, i)),
        bit(a | b, i) == (bit(a, i) || bit(b, i)),
        bit(a ^ b, i) == (bit(a, i) != bit(b, i)),
{
    assert(i < 64 ==> {
        &&& ((a & b) >> i & 1 == 1) == ((a >> i) & 1 == 1 && (b >> i) & 1 == 1)
        &&& ((a | b) >> i & 1 == 1) == ((a >> i) & 1 == 1 || (b >> i) & 1 == 1)
        &&& ((a ^ b) >> i & 1 == 1) == (((a >> i) & 1 == 1) != ((b >> i) & 1 == 1))
    }) by (bit_vector);
}

proof fn lemma_complement_bit(w: Width, v: u64, i: u64)
    requires
        w.holds(v),
        i < w.spec_bits(),
    ensures
        bit(alu::complement(w, v), i) == !bit(v, i),
{
    assert({
        &&& (v <= 0xff && i < 8 ==> (((0xffu64 - v) as u64) >> i & 1 == 1) == !((v >> i) & 1 == 1))
        &&& (v <= 0xffff && i < 16 ==> (((0xffffu64 - v) as u64) >> i & 1 == 1) == !((v >> i) & 1
            == 1))
        &&& (v <= 0xffff_ffff && i < 32 ==> (((0xffff_ffffu64 - v) as u64) >> i & 1 == 1) == !((v
            >> i) & 1 == 1))
        &&& (i < 64 ==> (((0xffff_ffff_ffff_ffffu64 - v) as u64) >> i & 1 == 1) == !((v >> i) & 1
            == 1))
    }) by (bit_vector);
}

/// The larger and the smaller of two numbers: one of them, and on the right side of both.
pub proof fn law_extremes(w: Width, a: u64, b: u64)
    ensures
        ({
            let (max, min) = (alu::alu(AluFn::Max, w, a, b), alu::alu(AluFn::Min, w, a, b));
            let (maxu, minu) = (alu::alu(AluFn::Maxu, w, a, b), alu::alu(AluFn::Minu, w, a, b));
            &&& (max == a || max == b) && w.signed(max) >= w.signed(a) && w.signed(max)
                >= w.signed(b)
            &&& (min == a || min == b) && w.signed(min) <= w.signed(a) && w.signed(min)
                <= w.signed(b)
            &&& (maxu == a || maxu == b) && maxu >= a && maxu >= b
            &&& (minu == a || minu == b) && minu <= a && minu <= b
        }),
{
}

/// The comparisons: the signed ones compare two's complement values, the unsigned ones the bits as
/// a number, each pair of opposites excludes and completes itself, and a set-if-less gives one or
/// zero as the branch of the same kind is taken or not.
pub proof fn law_comparisons(w: Width, a: u64, b: u64)
    requires
        w.holds(a),
        w.holds(b),
    ensures
        alu::compared(CompareFn::Equal, w, a, b) <==> a == b,
        alu::compared(CompareFn::NotEqual, w, a, b) <==> !alu::compared(CompareFn::Equal, w, a, b),
        alu::compared(CompareFn::UnsignedLess, w, a, b) <==> a < b,
        alu::compared(CompareFn::UnsignedGreatEqual, w, a, b) <==> b <= a,
        alu::compared(CompareFn::SignedLess, w, a, b) <==> w.signed(a) < w.signed(b),
        alu::compared(CompareFn::SignedGreatEqual, w, a, b) <==> w.signed(b) <= w.signed(a),
        (a < w.half()) == (b < w.half()) ==> alu::compared(CompareFn::SignedLess, w, a, b) == (a
            < b),
        a < w.half() <= b ==> !alu::compared(CompareFn::SignedLess, w, a, b),
        b < w.half() <= a ==> alu::compared(CompareFn::SignedLess, w, a, b),
        alu::alu(AluFn::SignedLess, w, a, b) == if w.signed(a) < w.signed(b) { 1u64 } else { 0 },
        alu::alu(AluFn::UnsignedLess, w, a, b) == if a < b { 1u64 } else { 0 },
{
}

} // verus!
