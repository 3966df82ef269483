//! Square roots.
use vstd::arithmetic::power2::*;
use vstd::prelude::*;

use super::bits::{FloatFormat, Round, STATUS_INEXACT, STATUS_INVALID_OP, STATUS_OK};
use super::rounding;

verus! {

/// Whether `q` is the integer square root of `n`.
pub open spec fn is_root(n: int, q: int) -> bool {
    0 <= q && q * q <= n < (q + 1) * (q + 1)
}

/// The integer square root of `n`.
pub open spec fn root_of(n: int) -> int {
    choose|q: int| is_root(n, q)
}

/// A number has one integer square root.
proof fn lemma_root_unique(n: int, p: int, q: int)
    requires
        is_root(n, p),
        is_root(n, q),
    ensures
        p == q,
{
    assert(p < q + 1) by (nonlinear_arith)
        requires
            0 <= p,
            0 <= q,
            p * p < (q + 1) * (q + 1),
    ;
    assert(q < p + 1) by (nonlinear_arith)
        requires
            0 <= p,
            0 <= q,
            q * q < (p + 1) * (p + 1),
    ;
}

/// Computes an integer square root of at most `top + 1` bits.
fn integer_root(n: u128, top: u32) -> (q: u128)
    requires
        top <= 54,
        n < (2 * pow2(top as nat)) * (2 * pow2(top as nat)),
    ensures
        q == root_of(n as int),
        is_root(n as int, q as int),
        q < 2 * pow2(top as nat),
{
    let limit: u128 = 2 * (crate::utils::pow2_u64(top) as u128);
    proof {
        assert(limit <= 0x80_0000_0000_0000) by {
            if top < 54 {
                lemma_pow2_strictly_increases(top as nat, 54);
            }
            lemma2_to64_rest();
        }
    }
    let mut d: u128 = limit / 2;
    let mut q: u128 = 0;
    let ghost mut e: nat = top as nat;
    while d > 0
        invariant
            limit <= 0x80_0000_0000_0000,
            limit == 2 * pow2(top as nat),
            q + 2 * d <= limit,
            d == 0 ==> q < limit,
            q * q <= n,
            d > 0 ==> d == pow2(e) && n < (q + 2 * d) * (q + 2 * d),
            d == 0 ==> n < (q + 1) * (q + 1),
        decreases d,
    {
        let t: u128 = q + d;
        proof {
            assert(t * t <= 0x80_0000_0000_0000 * 0x80_0000_0000_0000) by (nonlinear_arith)
                requires
                    t <= 0x80_0000_0000_0000,
            ;
            assert(0x80_0000_0000_0000int * 0x80_0000_0000_0000int < u128::MAX);
            if e > 0 {
                lemma_pow2_unfold(e);
            } else {
                lemma2_to64();
            }
        }
        if t * t <= n {
            q = t;
        }
        d = d / 2;
        proof {
            if e > 0 {
                e = (e - 1) as nat;
                lemma_pow2_pos(e);
            }
        }
    }
    proof {
        assert(is_root(n as int, q as int));
        lemma_root_unique(n as int, root_of(n as int), q as int);
    }
    q
}

/// The number of bits of `m`.
pub open spec fn bit_length(m: int) -> int
    decreases m,
{
    if m <= 0 {
        0
    } else {
        1 + bit_length(m / 2)
    }
}

/// A number of `n` bits lies between two powers of two.
proof fn lemma_bit_length(m: int)
    requires
        m > 0,
    ensures
        bit_length(m) >= 1,
        pow2((bit_length(m) - 1) as nat) <= m < pow2(bit_length(m) as nat),
    decreases m,
{
    if m == 1 {
        assert(bit_length(0) == 0);
        assert(bit_length(1) == 1 + bit_length(1int / 2));
        lemma2_to64();
    } else {
        lemma_bit_length(m / 2);
        lemma_pow2_unfold(bit_length(m) as nat);
        lemma_pow2_unfold((bit_length(m) - 1) as nat);
    }
}

/// A number below a power of two has no more bits than the exponent.
proof fn lemma_bit_length_at_most(m: int, p: nat)
    requires
        0 < m < pow2(p),
    ensures
        bit_length(m) <= p,
{
    lemma_bit_length(m);
    if bit_length(m) > p {
        if p < bit_length(m) - 1 {
            lemma_pow2_strictly_increases(p, (bit_length(m) - 1) as nat);
        }
    }
}

/// Computes the number of bits of `m`.
fn count_bits(m: u64) -> (r: u32)
    ensures
        r == bit_length(m as int),
        r <= 64,
{
    let mut rest: u64 = m;
    let mut r: u32 = 0;
    proof {
        lemma2_to64_rest();
        lemma2_to64();
        if m > 0 {
            lemma_bit_length(m as int);
            lemma_bit_length_at_most(m as int, 64);
        }
    }
    while rest > 0
        invariant
            r + bit_length(rest as int) == bit_length(m as int),
            bit_length(m as int) <= 64,
            rest > 0 ==> bit_length(rest as int) >= 1,
        decreases rest,
    {
        proof {
            if rest / 2 > 0 {
                lemma_bit_length(rest as int / 2);
            }
        }
        rest = rest / 2;
        r = r + 1;
    }
    r
}

impl FloatFormat {
    /// The number of bits of a significand.
    pub open spec fn spec_precision(self) -> int {
        match self {
            FloatFormat::Single => 24,
            FloatFormat::Double => 53,
        }
    }

    /// The exponent bias.
    pub open spec fn spec_bias(self) -> int {
        match self {
            FloatFormat::Single => 127,
            FloatFormat::Double => 1023,
        }
    }

    fn precision(self) -> (r: i64)
        ensures
            r == self.spec_precision(),
    {
        match self {
            FloatFormat::Single => 24,
            FloatFormat::Double => 53,
        }
    }

    fn bias(self) -> (r: i64)
        ensures
            r == self.spec_bias(),
    {
        match self {
            FloatFormat::Single => 127,
            FloatFormat::Double => 1023,
        }
    }

    /// The integer significand of a finite number without a sign.
    pub open spec fn significand(self, m: int) -> int {
        if m < self.spec_fractions() {
            m
        } else {
            self.spec_fractions() + m % self.spec_fractions()
        }
    }

    /// The exponent of the last bit of the significand of a finite number without a sign.
    pub open spec fn exponent(self, m: int) -> int {
        let biased = if m < self.spec_fractions() {
            1
        } else {
            m / self.spec_fractions()
        };
        biased - self.spec_bias() - (self.spec_precision() - 1)
    }
}

/// By how many bits the significand is shifted left so that the root has one bit more than a
/// significand and the exponent is even.
pub open spec fn root_shift(f: FloatFormat, m: int) -> int {
    let t = 2 * f.spec_precision() + 2 - bit_length(f.significand(m));
    if (f.exponent(m) - t) % 2 == 0 {
        t
    } else {
        t - 1
    }
}

/// Whether a significand is increased, when a half (`guard`) or less (`sticky`) was left over.
pub open spec fn root_rounds_up(round: Round, sig: int, guard: bool, sticky: bool) -> bool {
    match round {
        Round::NearestTiesToEven => guard && (sticky || sig % 2 == 1),
        Round::NearestTiesToAway => guard,
        Round::TowardPositive => guard || sticky,
        Round::TowardNegative => false,
        Round::TowardZero => false,
    }
}

/// The root of a finite positive number without a sign, and the status.
pub open spec fn root_of_positive(f: FloatFormat, m: int, round: Round) -> (u64, u8) {
    let s = root_shift(f, m);
    let n = f.significand(m) * pow2(s as nat);
    let q = root_of(n);
    let guard = q % 2 == 1;
    let sticky = q * q != n;
    let sig = q / 2;
    let kept = if root_rounds_up(round, sig, guard, sticky) {
        sig + 1
    } else {
        sig
    };
    let exponent = (f.exponent(m) - s) / 2 + f.spec_precision() + f.spec_bias();
    (
        ((exponent - 1) * f.spec_fractions() + kept) as u64,
        if guard || sticky {
            STATUS_INEXACT
        } else {
            STATUS_OK
        },
    )
}

/// The square root of a number, and the status.
pub open spec fn sqrt_of(f: FloatFormat, x: u64, round: Round) -> (u64, u8) {
    if f.is_nan(x) {
        (
            f.spec_canonical_nan(),
            if f.is_signaling(x) {
                STATUS_INVALID_OP
            } else {
                STATUS_OK
            },
        )
    } else if f.magnitude(x) == 0 {
        (x, STATUS_OK)
    } else if f.sign(x) {
        (f.spec_canonical_nan(), STATUS_INVALID_OP)
    } else if f.magnitude(x) == f.spec_infinity() {
        (x, STATUS_OK)
    } else {
        root_of_positive(f, f.magnitude(x), round)
    }
}

/// Shifts a number left.
fn shift_left(m: u64, s: u32) -> (r: u128)
    requires
        m * pow2(s as nat) <= 0x1000_0000_0000_0000_0000_0000_0000,
        m > 0,
    ensures
        r == m * pow2(s as nat),
{
    let mut r: u128 = m as u128;
    let mut i: u32 = 0;
    proof {
        lemma2_to64();
    }
    while i < s
        invariant
            i <= s,
            m > 0,
            r == m * pow2(i as nat),
            m * pow2(s as nat) <= 0x1000_0000_0000_0000_0000_0000_0000,
        decreases s - i,
    {
        proof {
            lemma_pow2_unfold((i + 1) as nat);
            if i + 1 < s {
                lemma_pow2_strictly_increases((i + 1) as nat, s as nat);
            }
            let a = pow2(i as nat) as int;
            let b = pow2((i + 1) as nat) as int;
            let c = pow2(s as nat) as int;
            assert(m * a * 2 == m * b && m * b <= m * c) by (nonlinear_arith)
                requires
                    b == 2 * a,
                    b <= c,
                    m > 0,
            ;
        }
        r = r * 2;
        i = i + 1;
    }
    r
}

/// The shifted significand has the right size, for a significand of `bl` bits.
proof fn lemma_shifted(m: int, bl: nat, s: nat, p: nat)
    requires
        pow2((bl - 1) as nat) <= m < pow2(bl),
        bl >= 1,
        s + bl == 2 * p + 2 || s + bl == 2 * p + 1,
        p <= 53,
    ensures
        pow2(2 * p) <= m * pow2(s) < pow2(2 * p + 2),
        m * pow2(s) <= 0x1000_0000_0000_0000_0000_0000_0000,
{
    lemma_pow2_adds((bl - 1) as nat, s);
    lemma_pow2_adds(bl, s);
    let a = pow2((bl - 1) as nat) as int;
    let b = pow2(bl) as int;
    let c = pow2(s) as int;
    lemma_pow2_pos(s);
    assert(a * c <= m * c < b * c) by (nonlinear_arith)
        requires
            a <= m < b,
            c > 0,
    ;
    if s + bl == 2 * p + 2 {
        lemma_pow2_strictly_increases(2 * p, 2 * p + 1);
    } else {
        lemma_pow2_strictly_increases(2 * p + 1, 2 * p + 2);
    }
    if p < 53 {
        lemma_pow2_strictly_increases(2 * p + 2, 108);
    }
    lemma2_to64_rest();
    lemma_pow2_adds(54, 54);
    assert(0x40_0000_0000_0000int * 0x40_0000_0000_0000int
        == 0x1000_0000_0000_0000_0000_0000_0000);
}

/// The root of a number of the right size has one bit more than a significand.
proof fn lemma_root_size(n: int, q: int, p: nat)
    requires
        is_root(n, q),
        pow2(2 * p) <= n < pow2(2 * p + 2),
    ensures
        pow2(p) <= q < 2 * pow2(p),
{
    let a = pow2(p) as int;
    lemma_pow2_adds(p, p);
    lemma_pow2_unfold(2 * p + 2);
    lemma_pow2_unfold(2 * p + 1);
    assert(a * a <= n < 4 * (a * a));
    lemma_pow2_pos(p);
    assert(a <= q) by (nonlinear_arith)
        requires
            0 <= q,
            a * a < (q + 1) * (q + 1),
            a > 0,
    ;
    assert(q < 2 * a) by (nonlinear_arith)
        requires
            0 <= q,
            q * q < 4 * (a * a),
            a > 0,
    ;
}

/// The significand of a number that is not zero is positive and fits.
proof fn lemma_significand(f: FloatFormat, m: int)
    requires
        0 < m < f.spec_infinity(),
    ensures
        0 < f.significand(m) < pow2(f.spec_precision() as nat),
        2 * f.spec_fractions() == pow2(f.spec_precision() as nat),
        1 - f.spec_bias() - (f.spec_precision() - 1) <= f.exponent(m),
        f.exponent(m) <= 2 * f.spec_bias() - f.spec_bias() - (f.spec_precision() - 1),
{
    lemma2_to64();
    lemma2_to64_rest();
    match f {
        FloatFormat::Single => {
            assert(0 <= m % 0x80_0000 < 0x80_0000);
            assert(m >= 0x80_0000 ==> 1 <= m / 0x80_0000 <= 254);
        },
        FloatFormat::Double => {
            assert(0 <= m % 0x10_0000_0000_0000 < 0x10_0000_0000_0000);
            assert(m >= 0x10_0000_0000_0000 ==> 1 <= m / 0x10_0000_0000_0000 <= 2046);
        },
    }
}

/// Computes the exponent, the shift and the shifted significand of a finite positive number
/// without a sign.
fn scale(f: FloatFormat, m: u64) -> (r: (i64, i64, u128))
    requires
        0 < m < f.spec_infinity(),
    ensures
        r.0 == f.exponent(m as int),
        r.1 == root_shift(f, m as int),
        r.2 == f.significand(m as int) * pow2(r.1 as nat),
        f.spec_precision() + 1 <= r.1 <= 2 * f.spec_precision() + 1,
        (r.0 - r.1) % 2 == 0,
        pow2((2 * f.spec_precision()) as nat) <= r.2 < pow2((2 * f.spec_precision() + 2) as nat),
{
    let p: i64 = f.precision();
    let fractions: u64 = f.fractions();
    let (sig, biased): (u64, i64) = if m < fractions {
        (m, 1)
    } else {
        (fractions + m % fractions, (m / fractions) as i64)
    };
    proof {
        lemma_significand(f, m as int);
        lemma_bit_length(sig as int);
        lemma_bit_length_at_most(sig as int, f.spec_precision() as nat);
    }
    let e: i64 = biased - f.bias() - (p - 1);
    let bl: u32 = count_bits(sig);
    let t: i64 = 2 * p + 2 - bl as i64;
    let s: i64 = if (e + 4096 - t) % 2 == 0 {
        t
    } else {
        t - 1
    };
    proof {
        lemma_shifted(sig as int, bl as nat, s as nat, p as nat);
    }
    (e, s, shift_left(sig, s as u32))
}

/// Computes the root of a scaled significand and whether it is inexact.
fn scaled_root(f: FloatFormat, n: u128) -> (r: (u64, bool))
    requires
        pow2((2 * f.spec_precision()) as nat) <= n < pow2((2 * f.spec_precision() + 2) as nat),
    ensures
        r.0 == root_of(n as int),
        r.1 == (root_of(n as int) * root_of(n as int) != n),
        2 * f.spec_fractions() <= r.0 < 4 * f.spec_fractions(),
{
    let p: u32 = f.precision() as u32;
    proof {
        let a = pow2(p as nat) as int;
        lemma_pow2_adds(p as nat, p as nat);
        lemma_pow2_unfold((2 * p + 2) as nat);
        lemma_pow2_unfold((2 * p + 1) as nat);
        assert((2 * a) * (2 * a) == 4 * (a * a)) by (nonlinear_arith);
    }
    let q: u128 = integer_root(n, p);
    proof {
        lemma_root_size(n as int, q as int, p as nat);
        lemma2_to64();
        lemma2_to64_rest();
        assert(is_root(n as int, q as int));
    }
    (q as u64, q * q != n)
}

/// The exponent of a root is in range.
proof fn lemma_root_exponent(f: FloatFormat, e: int, s: int, kept: int)
    requires
        1 - f.spec_bias() - (f.spec_precision() - 1) <= e <= f.spec_bias() - (f.spec_precision()
            - 1),
        f.spec_precision() + 1 <= s <= 2 * f.spec_precision() + 1,
        0 <= kept <= 2 * f.spec_fractions(),
    ensures
        2 <= (e - s) / 2 + f.spec_precision() + f.spec_bias() <= 2 * f.spec_bias() - 2,
        0 <= ((e - s) / 2 + f.spec_precision() + f.spec_bias() - 1) * f.spec_fractions(),
        ((e - s) / 2 + f.spec_precision() + f.spec_bias() - 1) * f.spec_fractions() + kept
            < f.spec_sign_unit(),
{
    let x = (e - s) / 2 + f.spec_precision() + f.spec_bias();
    match f {
        FloatFormat::Single => {
            assert((x - 1) * 0x80_0000 <= 251 * 0x80_0000);
        },
        FloatFormat::Double => {
            assert((x - 1) * 0x10_0000_0000_0000 <= 2043 * 0x10_0000_0000_0000);
        },
    }
}

/// Computes the root of a finite positive number without a sign.
fn positive_root(f: FloatFormat, m: u64, round: Round) -> (r: (u64, u8))
    requires
        0 < m < f.spec_infinity(),
    ensures
        r == root_of_positive(f, m as int, round),
        r.0 < f.spec_sign_unit(),
{
    let (e, s, n): (i64, i64, u128) = scale(f, m);
    let (q, sticky): (u64, bool) = scaled_root(f, n);
    let guard: bool = q % 2 == 1;
    let half: u64 = q / 2;
    let up: bool = match round {
        Round::NearestTiesToEven => guard && (sticky || half % 2 == 1),
        Round::NearestTiesToAway => guard,
        Round::TowardPositive => guard || sticky,
        Round::TowardNegative => false,
        Round::TowardZero => false,
    };
    let kept: u64 = if up {
        half + 1
    } else {
        half
    };
    proof {
        lemma_significand(f, m as int);
        lemma_root_exponent(f, e as int, s as int, kept as int);
    }
    let exponent: i64 = (e - s + 4096) / 2 - 2048 + f.precision() + f.bias();
    assert(exponent == (e - s) as int / 2 + f.spec_precision() + f.spec_bias());
    let status: u8 = if guard || sticky {
        STATUS_INEXACT
    } else {
        STATUS_OK
    };
    (((exponent - 1) as u64) * f.fractions() + kept, status)
}

/// Computes a square root.
pub fn sqrt(f: FloatFormat, x: u64, round: Round) -> (r: (u64, u8))
    requires
        f.encodes(x),
    ensures
        r == sqrt_of(f, x, round),
        f.encodes(r.0),
{
    if f.check_nan(x) {
        let status: u8 = if f.check_signaling(x) {
            STATUS_INVALID_OP
        } else {
            STATUS_OK
        };
        (f.canonical_nan(), status)
    } else if f.without_sign(x) == 0 {
        (x, STATUS_OK)
    } else if f.is_negative(x) {
        (f.canonical_nan(), STATUS_INVALID_OP)
    } else if x == f.infinity() {
        (x, STATUS_OK)
    } else {
        positive_root(f, x, round)
    }
}

/// Every number that is not negative has an integer square root.
proof fn lemma_root_exists(n: int)
    requires
        n >= 0,
    ensures
        is_root(n, root_of(n)),
    decreases n,
{
    if n == 0 {
        assert(is_root(0, 0));
    } else {
        lemma_root_exists(n - 1);
        let q = root_of(n - 1);
        assert((q + 2) * (q + 2) == (q + 1) * (q + 1) + 2 * q + 3) by (nonlinear_arith);
        if (q + 1) * (q + 1) <= n {
            assert((q + 1 + 1) * (q + 1 + 1) == (q + 2) * (q + 2));
            assert(is_root(n, q + 1));
        } else {
            assert(is_root(n, q));
        }
    }
}

/// Whether the significand `k`, with the exponent field `e`, is that of the rounded square root of
/// the number with the encoding `x`. Both are scaled by a power of two, the root to twice its last
/// place: its square is then compared with the number times two raised to `s`.
pub open spec fn is_rounded_root(
    f: FloatFormat,
    x: u64,
    k: int,
    e: int,
    s: int,
    round: Round,
) -> bool {
    let n = rounding::integer_significand(f, x) * pow2(s as nat);
    &&& s >= 0
    &&& 2 * (e - rounding::unit_exponent(f) - 1) + s == rounding::biased_exponent(f, x)
        - rounding::unit_exponent(f)
    &&& f.spec_fractions() <= k <= 2 * f.spec_fractions()
    &&& match round {
        Round::TowardZero | Round::TowardNegative => (2 * k) * (2 * k) <= n < (2 * k + 2) * (2 * k
            + 2),
        Round::TowardPositive => (2 * k - 2) * (2 * k - 2) < n <= (2 * k) * (2 * k),
        Round::NearestTiesToEven => (2 * k - 1) * (2 * k - 1) <= n <= (2 * k + 1) * (2 * k + 1) && (
        n == (2 * k - 1) * (2 * k - 1) || n == (2 * k + 1) * (2 * k + 1) ==> k % 2 == 0),
        Round::NearestTiesToAway => (2 * k - 1) * (2 * k - 1) <= n < (2 * k + 1) * (2 * k + 1),
    }
}

/// The square root of a positive number is the number of the format that the rounding direction asks
/// for: towards zero and down, its square is not above the number and the square of the next one is;
/// up, its square is not below and the square of the one before is; to the nearest, the squares of
/// the middles to both neighbours enclose the number. It is exact where its square is the number.
pub proof fn law_square_root(f: FloatFormat, x: u64, round: Round)
    requires
        0 < x < f.spec_infinity(),
    ensures
        ({
            let (r, status) = sqrt_of(f, x, round);
            exists|k: int, e: int, s: int|
                {
                    &&& #[trigger] is_rounded_root(f, x, k, e, s, round)
                    &&& r == (e - 1) * f.spec_fractions() + k
                    &&& status == STATUS_OK || status == STATUS_INEXACT
                    &&& status == STATUS_OK <==> (2 * k) * (2 * k)
                        == rounding::integer_significand(f, x) * pow2(s as nat)
                }
        }),
{
    let m = x as int;
    let s = root_shift(f, m);
    let sig = f.significand(m);
    let p = f.spec_precision();
    assert(f.magnitude(x) == m && !f.is_nan(x) && !f.sign(x));
    assert(rounding::integer_significand(f, x) == sig);
    assert(rounding::biased_exponent(f, x) - rounding::unit_exponent(f) == f.exponent(m)) by {
        if m < f.spec_fractions() {
            assert(m / f.spec_fractions() == 0);
        } else {
            assert(m / f.spec_fractions() >= 1);
        }
    }
    lemma_significand(f, m);
    lemma_bit_length(sig);
    lemma_bit_length_at_most(sig, p as nat);
    let bl = bit_length(sig);
    lemma_shifted(sig, bl as nat, s as nat, p as nat);
    let n = sig * pow2(s as nat);
    lemma_root_exists(n);
    let q = root_of(n);
    lemma_root_size(n, q, p as nat);
    let h = q / 2;
    let guard = q % 2 == 1;
    let sticky = q * q != n;
    let k = if root_rounds_up(round, h, guard, sticky) {
        h + 1
    } else {
        h
    };
    let e = (f.exponent(m) - s) / 2 + p + f.spec_bias();
    lemma_root_exponent(f, f.exponent(m), s, k);
    lemma_kept(n, q, k, round);
    assert(is_rounded_root(f, x, k, e, s, round));
}

/// The root of a positive number is a positive number.
pub proof fn lemma_root_encodes(f: FloatFormat, x: u64, round: Round)
    requires
        0 < x < f.spec_infinity(),
    ensures
        sqrt_of(f, x, round).0 < f.spec_sign_unit(),
        f.encodes(sqrt_of(f, x, round).0),
{
    let m = x as int;
    let s = root_shift(f, m);
    let sig = f.significand(m);
    let p = f.spec_precision();
    lemma_significand(f, m);
    lemma_bit_length(sig);
    lemma_bit_length_at_most(sig, p as nat);
    lemma_shifted(sig, bit_length(sig) as nat, s as nat, p as nat);
    let n = sig * pow2(s as nat);
    lemma_root_exists(n);
    let q = root_of(n);
    lemma_root_size(n, q, p as nat);
    let h = q / 2;
    let k = if root_rounds_up(round, h, q % 2 == 1, q * q != n) {
        h + 1
    } else {
        h
    };
    lemma_root_exponent(f, f.exponent(m), s, k);
}

/// How the significand that is kept goes with a scaled number.
proof fn lemma_kept(n: int, q: int, k: int, round: Round)
    requires
        is_root(n, q),
        k == if root_rounds_up(round, q / 2, q % 2 == 1, q * q != n) {
            q / 2 + 1
        } else {
            q / 2
        },
    ensures
        match round {
            Round::TowardZero | Round::TowardNegative => (2 * k) * (2 * k) <= n < (2 * k + 2) * (2
                * k + 2),
            Round::TowardPositive => (2 * k - 2) * (2 * k - 2) < n <= (2 * k) * (2 * k) || (q == 0
                && n == 0),
            Round::NearestTiesToEven => (2 * k - 1) * (2 * k - 1) <= n <= (2 * k + 1) * (2 * k + 1)
                && (n == (2 * k - 1) * (2 * k - 1) || n == (2 * k + 1) * (2 * k + 1) ==> k % 2 == 0)
                || q == 0,
            Round::NearestTiesToAway => (2 * k - 1) * (2 * k - 1) <= n < (2 * k + 1) * (2 * k + 1)
                || q == 0,
        },
        (q % 2 == 0 && q * q == n) <==> (2 * k) * (2 * k) == n,
{
    let h = q / 2;
    let a = h * h;
    assert((2 * h) * (2 * h) == 4 * a && (2 * h + 1) * (2 * h + 1) == 4 * a + 4 * h + 1 && (2 * h
        + 2) * (2 * h + 2) == 4 * a + 8 * h + 4 && (2 * h - 1) * (2 * h - 1) == 4 * a - 4 * h + 1
        && (2 * h - 2) * (2 * h - 2) == 4 * a - 8 * h + 4 && (2 * h + 3) * (2 * h + 3) == 4 * a + 12
        * h + 9 && a >= 0) by (nonlinear_arith)
        requires
            a == h * h,
    ;
    assert(2 * (h + 1) == 2 * h + 2);
    assert(q == 2 * h || q == 2 * h + 1);
    assert(q * q <= n < (q + 1) * (q + 1));
}

} // verus!
