//! Integer operations on operands of any width.
//!
//! Every operation takes two values of a width and gives a value of the same
//! width. The scalar instructions use the widths of 64 and 32 bits, the vector
//! instructions use all four.
use vstd::arithmetic::div_mod::*;
use vstd::arithmetic::mul::*;
use vstd::arithmetic::power2::*;
use vstd::prelude::*;

use crate::utils;
use crate::utils::Width;

verus! {

/// An integer operation.
#[derive(Clone, Copy, Debug, PartialEq, Eq, Structural)]
pub enum AluFn {
    Add,
    Sub,
    /// Subtraction with the second operand as the minuend.
    RevSub,
    MulLow,
    MulHighUnsigned,
    MulHighSigned,
    MulHighSignedUnsigned,
    DivSigned,
    DivUnsigned,
    RemSigned,
    RemUnsigned,
    Sll,
    Srl,
    Sra,
    And,
    Nand,
    Andn,
    Or,
    Nor,
    Orn,
    Xor,
    Xnor,
    Max,
    Maxu,
    Min,
    Minu,
    SignedLess,
    UnsignedLess,
}

/// A comparison of two integers.
#[derive(Clone, Copy, Debug, PartialEq, Eq, Structural)]
pub enum CompareFn {
    Equal,
    NotEqual,
    SignedLess,
    UnsignedLess,
    SignedGreatEqual,
    UnsignedGreatEqual,
}

/// The absolute value of `a`.
pub open spec fn abs(a: int) -> int {
    if a < 0 {
        -a
    } else {
        a
    }
}

/// The quotient of `a` by `b`, rounded towards zero.
pub open spec fn trunc_div(a: int, b: int) -> int {
    if (a < 0) == (b < 0) {
        abs(a) / abs(b)
    } else {
        -(abs(a) / abs(b))
    }
}

/// The remainder that goes with [`trunc_div`]; it has the sign of `a`.
pub open spec fn trunc_rem(a: int, b: int) -> int {
    if a < 0 {
        -(abs(a) % abs(b))
    } else {
        abs(a) % abs(b)
    }
}

/// The shift distance that `b` stands for: its low bits, as many as the width needs.
pub open spec fn shift_distance(w: Width, b: u64) -> nat {
    (b as int % w.spec_bits()) as nat
}

/// The complement of `v` within the width.
pub open spec fn complement(w: Width, v: u64) -> u64 {
    (w.modulus() - 1 - v) as u64
}

/// What `op` gives on the operands `a` and `b` of width `w`.
pub open spec fn alu(op: AluFn, w: Width, a: u64, b: u64) -> u64 {
    match op {
        AluFn::Add => w.wrap(a + b),
        AluFn::Sub => w.wrap(a - b),
        AluFn::RevSub => w.wrap(b - a),
        AluFn::MulLow => w.wrap(a * b),
        AluFn::MulHighUnsigned => w.wrap((a * b) / w.modulus()),
        AluFn::MulHighSigned => w.wrap((w.signed(a) * w.signed(b)) / w.modulus()),
        AluFn::MulHighSignedUnsigned => w.wrap((w.signed(a) * b) / w.modulus()),
        AluFn::DivSigned => if b == 0 {
            w.wrap(-1)
        } else {
            w.wrap(trunc_div(w.signed(a), w.signed(b)))
        },
        AluFn::DivUnsigned => if b == 0 {
            w.wrap(-1)
        } else {
            (a as int / b as int) as u64
        },
        AluFn::RemSigned => if b == 0 {
            a
        } else {
            w.wrap(trunc_rem(w.signed(a), w.signed(b)))
        },
        AluFn::RemUnsigned => if b == 0 {
            a
        } else {
            (a as int % b as int) as u64
        },
        AluFn::Sll => w.wrap(a * pow2(shift_distance(w, b))),
        AluFn::Srl => (a as int / pow2(shift_distance(w, b)) as int) as u64,
        AluFn::Sra => w.wrap(w.signed(a) / (pow2(shift_distance(w, b)) as int)),
        AluFn::And => a & b,
        AluFn::Nand => complement(w, a & b),
        AluFn::Andn => a & complement(w, b),
        AluFn::Or => a | b,
        AluFn::Nor => complement(w, a | b),
        AluFn::Orn => a | complement(w, b),
        AluFn::Xor => a ^ b,
        AluFn::Xnor => complement(w, a ^ b),
        AluFn::Max => if w.signed(a) > w.signed(b) {
            a
        } else {
            b
        },
        AluFn::Maxu => if a > b {
            a
        } else {
            b
        },
        AluFn::Min => if w.signed(a) < w.signed(b) {
            a
        } else {
            b
        },
        AluFn::Minu => if a < b {
            a
        } else {
            b
        },
        AluFn::SignedLess => if w.signed(a) < w.signed(b) {
            1
        } else {
            0
        },
        AluFn::UnsignedLess => if a < b {
            1
        } else {
            0
        },
    }
}

/// Whether the comparison `op` holds of `a` and `b`.
pub open spec fn compared(op: CompareFn, w: Width, a: u64, b: u64) -> bool {
    match op {
        CompareFn::Equal => a == b,
        CompareFn::NotEqual => a != b,
        CompareFn::SignedLess => w.signed(a) < w.signed(b),
        CompareFn::UnsignedLess => a < b,
        CompareFn::SignedGreatEqual => w.signed(a) >= w.signed(b),
        CompareFn::UnsignedGreatEqual => a >= b,
    }
}

/// Bitwise operations keep the bits above a width clear.
pub proof fn lemma_bitwise_narrow(w: Width, a: u64, b: u64)
    requires
        w.holds(a),
        w.holds(b),
    ensures
        w.holds(a & b),
        w.holds(a | b),
        w.holds(a ^ b),
{
    assert(a <= 0xff && b <= 0xff ==> (a & b) <= 0xff && (a | b) <= 0xff && (a ^ b) <= 0xff)
        by (bit_vector);
    assert(a <= 0xffff && b <= 0xffff ==> (a & b) <= 0xffff && (a | b) <= 0xffff && (a ^ b)
        <= 0xffff) by (bit_vector);
    assert(a <= 0xffff_ffff && b <= 0xffff_ffff ==> (a & b) <= 0xffff_ffff && (a | b)
        <= 0xffff_ffff && (a ^ b) <= 0xffff_ffff) by (bit_vector);
}

/// Compares two operands as two's complement numbers.
pub fn signed_less(w: Width, a: u64, b: u64) -> (r: bool)
    requires
        w.holds(a),
        w.holds(b),
    ensures
        r == (w.signed(a) < w.signed(b)),
{
    let na = w.is_negative(a);
    let nb = w.is_negative(b);
    if na == nb {
        a < b
    } else {
        na
    }
}

/// The distance of a shift.
pub fn shift_amount(w: Width, b: u64) -> (r: u32)
    ensures
        r == shift_distance(w, b),
        r < 64,
{
    match w {
        Width::W8 => (b % 8) as u32,
        Width::W16 => (b % 16) as u32,
        Width::W32 => (b % 32) as u32,
        Width::W64 => (b % 64) as u32,
    }
}

fn exec_add(w: Width, a: u64, b: u64) -> (r: u64)
    ensures
        r == alu(AluFn::Add, w, a, b),
        w.holds(r),
{
    w.truncate_u128(a as u128 + b as u128)
}

fn exec_sub(w: Width, a: u64, b: u64) -> (r: u64)
    requires
        w.holds(a),
        w.holds(b),
    ensures
        r == alu(AluFn::Sub, w, a, b),
        w.holds(r),
{
    if a >= b {
        a - b
    } else {
        (w.max_value() - b) + 1 + a
    }
}

/// The product of two operands.
fn product(a: u64, b: u64) -> (r: u128)
    ensures
        r == a * b,
{
    proof {
        lemma_mul_upper_bound(a as int, 0xffff_ffff_ffff_ffff, b as int, 0xffff_ffff_ffff_ffff);
        lemma_mul_nonnegative(a as int, b as int);
    }
    a as u128 * b as u128
}

fn exec_mul_low(w: Width, a: u64, b: u64) -> (r: u64)
    ensures
        r == alu(AluFn::MulLow, w, a, b),
        w.holds(r),
{
    w.truncate_u128(product(a, b))
}

/// The high half of a double-width number.
fn high_half(w: Width, p: u128) -> (r: u64)
    ensures
        r == w.wrap(p as int / w.modulus()),
        w.holds(r),
{
    match w {
        Width::W8 => w.truncate_u128(p / 0x100),
        Width::W16 => w.truncate_u128(p / 0x1_0000),
        Width::W32 => w.truncate_u128(p / 0x1_0000_0000),
        Width::W64 => w.truncate_u128(p / 0x1_0000_0000_0000_0000),
    }
}

/// The high half of the negation of a double-width number.
fn high_half_negated(w: Width, p: u128) -> (r: u64)
    requires
        p <= w.modulus() * w.modulus(),
    ensures
        r == w.wrap((-(p as int)) / w.modulus()),
        w.holds(r),
{
    if p == 0 {
        return 0;
    }
    match w {
        Width::W8 => high_half(w, 0x1_0000 - p),
        Width::W16 => high_half(w, 0x1_0000_0000 - p),
        Width::W32 => high_half(w, 0x1_0000_0000_0000_0000 - p),
        Width::W64 => high_half(w, (0xffff_ffff_ffff_ffff_ffff_ffff_ffff_ffff - p) + 1),
    }
}

fn exec_mul_high_unsigned(w: Width, a: u64, b: u64) -> (r: u64)
    ensures
        r == alu(AluFn::MulHighUnsigned, w, a, b),
        w.holds(r),
{
    high_half(w, product(a, b))
}

/// The product of two magnitudes bounds and signs the signed product.
proof fn lemma_signed_product(a: int, b: int, bound: int)
    requires
        abs(a) <= bound,
        abs(b) <= bound,
    ensures
        (a < 0) == (b < 0) ==> a * b == abs(a) * abs(b),
        (a < 0) != (b < 0) ==> a * b == -(abs(a) * abs(b)),
        abs(a) * abs(b) <= bound * bound,
{
    lemma_mul_cancels_negatives(a, b);
    lemma_mul_unary_negation(a, b);
    lemma_mul_upper_bound(abs(a), bound, abs(b), bound);
}

fn exec_mul_high_signed(w: Width, a: u64, b: u64) -> (r: u64)
    requires
        w.holds(a),
        w.holds(b),
    ensures
        r == alu(AluFn::MulHighSigned, w, a, b),
        w.holds(r),
{
    let p: u128 = product(w.magnitude(a), w.magnitude(b));
    proof {
        lemma_signed_product(w.signed(a), w.signed(b), w.modulus());
    }
    if w.is_negative(a) == w.is_negative(b) {
        high_half(w, p)
    } else {
        high_half_negated(w, p)
    }
}

fn exec_mul_high_signed_unsigned(w: Width, a: u64, b: u64) -> (r: u64)
    requires
        w.holds(a),
        w.holds(b),
    ensures
        r == alu(AluFn::MulHighSignedUnsigned, w, a, b),
        w.holds(r),
{
    let p: u128 = product(w.magnitude(a), b);
    proof {
        lemma_signed_product(w.signed(a), b as int, w.modulus());
    }
    if w.is_negative(a) {
        high_half_negated(w, p)
    } else {
        high_half(w, p)
    }
}

/// Gives back a magnitude under a sign.
fn with_sign(w: Width, negative: bool, magnitude: u64) -> (r: u64)
    requires
        magnitude <= w.half(),
    ensures
        r == w.wrap(
            if negative {
                -(magnitude as int)
            } else {
                magnitude as int
            },
        ),
        w.holds(r),
{
    if negative {
        w.negate(magnitude)
    } else {
        magnitude
    }
}

fn exec_div_signed(w: Width, a: u64, b: u64) -> (r: u64)
    requires
        w.holds(a),
        w.holds(b),
    ensures
        r == alu(AluFn::DivSigned, w, a, b),
        w.holds(r),
{
    if b == 0 {
        return w.max_value();
    }
    let ma: u64 = w.magnitude(a);
    let mb: u64 = w.magnitude(b);
    proof {
        lemma_div_nonincreasing(ma as int, mb as int);
        lemma_div_pos_is_pos(ma as int, mb as int);
    }
    let q: u64 = ma / mb;
    with_sign(w, w.is_negative(a) != w.is_negative(b), q)
}

fn exec_div_unsigned(w: Width, a: u64, b: u64) -> (r: u64)
    requires
        w.holds(a),
        w.holds(b),
    ensures
        r == alu(AluFn::DivUnsigned, w, a, b),
        w.holds(r),
{
    if b == 0 {
        return w.max_value();
    }
    proof {
        lemma_div_nonincreasing(a as int, b as int);
    }
    a / b
}

fn exec_rem_signed(w: Width, a: u64, b: u64) -> (r: u64)
    requires
        w.holds(a),
        w.holds(b),
    ensures
        r == alu(AluFn::RemSigned, w, a, b),
        w.holds(r),
{
    if b == 0 {
        return a;
    }
    let ma: u64 = w.magnitude(a);
    let mb: u64 = w.magnitude(b);
    proof {
        lemma_mod_bound(ma as int, mb as int);
    }
    let m: u64 = ma % mb;
    with_sign(w, w.is_negative(a), m)
}

fn exec_rem_unsigned(w: Width, a: u64, b: u64) -> (r: u64)
    requires
        w.holds(a),
        w.holds(b),
    ensures
        r == alu(AluFn::RemUnsigned, w, a, b),
        w.holds(r),
{
    if b == 0 {
        return a;
    }
    proof {
        lemma_mod_bound(a as int, b as int);
    }
    a % b
}

fn exec_sll(w: Width, a: u64, b: u64) -> (r: u64)
    ensures
        r == alu(AluFn::Sll, w, a, b),
        w.holds(r),
{
    let p: u64 = utils::pow2_u64(shift_amount(w, b));
    w.truncate_u128(product(a, p))
}

fn exec_srl(w: Width, a: u64, b: u64) -> (r: u64)
    requires
        w.holds(a),
    ensures
        r == alu(AluFn::Srl, w, a, b),
        w.holds(r),
{
    let p: u64 = utils::pow2_u64(shift_amount(w, b));
    proof {
        lemma_div_nonincreasing(a as int, p as int);
        lemma_div_pos_is_pos(a as int, p as int);
    }
    a / p
}

/// Floor division of a negative number goes away from zero.
proof fn lemma_negative_floor(n: int, p: int)
    requires
        n > 0,
        p > 0,
    ensures
        (-n) / p == -((n - 1) / p + 1),
        0 <= (n - 1) / p <= n - 1,
{
    let q = (n - 1) / p;
    let r = (n - 1) % p;
    lemma_fundamental_div_mod(n - 1, p);
    lemma_mod_bound(n - 1, p);
    lemma_div_pos_is_pos(n - 1, p);
    lemma_div_nonincreasing(n - 1, p);
    assert(-n == p * (-(q + 1)) + (p - 1 - r)) by (nonlinear_arith)
        requires
            n - 1 == p * q + r,
    ;
    lemma_mul_is_commutative(p, -(q + 1));
    lemma_fundamental_div_mod_converse(-n, p, -(q + 1), p - 1 - r);
}

fn exec_sra(w: Width, a: u64, b: u64) -> (r: u64)
    requires
        w.holds(a),
    ensures
        r == alu(AluFn::Sra, w, a, b),
        w.holds(r),
{
    let p: u64 = utils::pow2_u64(shift_amount(w, b));
    if w.is_negative(a) {
        let n: u64 = w.magnitude(a);
        proof {
            lemma_negative_floor(n as int, p as int);
        }
        w.negate((n - 1) / p + 1)
    } else {
        proof {
            lemma_div_nonincreasing(a as int, p as int);
            lemma_div_pos_is_pos(a as int, p as int);
        }
        a / p
    }
}

/// Complements the bits of `v` within the width.
fn complement_bits(w: Width, v: u64) -> (r: u64)
    requires
        w.holds(v),
    ensures
        r == complement(w, v),
        w.holds(r),
{
    w.max_value() - v
}

impl AluFn {
    /// Computes the operation on two operands of width `w`.
    pub fn exec(self, w: Width, a: u64, b: u64) -> (r: u64)
        requires
            w.holds(a),
            w.holds(b),
        ensures
            r == alu(self, w, a, b),
            w.holds(r),
    {
        proof {
            lemma_bitwise_narrow(w, a, b);
        }
        match self {
            AluFn::Add => exec_add(w, a, b),
            AluFn::Sub => exec_sub(w, a, b),
            AluFn::RevSub => exec_sub(w, b, a),
            AluFn::MulLow => exec_mul_low(w, a, b),
            AluFn::MulHighUnsigned => exec_mul_high_unsigned(w, a, b),
            AluFn::MulHighSigned => exec_mul_high_signed(w, a, b),
            AluFn::MulHighSignedUnsigned => exec_mul_high_signed_unsigned(w, a, b),
            AluFn::DivSigned => exec_div_signed(w, a, b),
            AluFn::DivUnsigned => exec_div_unsigned(w, a, b),
            AluFn::RemSigned => exec_rem_signed(w, a, b),
            AluFn::RemUnsigned => exec_rem_unsigned(w, a, b),
            AluFn::Sll => exec_sll(w, a, b),
            AluFn::Srl => exec_srl(w, a, b),
            AluFn::Sra => exec_sra(w, a, b),
            AluFn::And => a & b,
            AluFn::Nand => complement_bits(w, a & b),
            AluFn::Andn => {
                let c: u64 = complement_bits(w, b);
                proof {
                    lemma_bitwise_narrow(w, a, c);
                }
                a & c
            },
            AluFn::Or => a | b,
            AluFn::Nor => complement_bits(w, a | b),
            AluFn::Orn => {
                let c: u64 = complement_bits(w, b);
                proof {
                    lemma_bitwise_narrow(w, a, c);
                }
                a | c
            },
            AluFn::Xor => a ^ b,
            AluFn::Xnor => complement_bits(w, a ^ b),
            AluFn::Max => if signed_less(w, b, a) {
                a
            } else {
                b
            },
            AluFn::Maxu => if a > b {
                a
            } else {
                b
            },
            AluFn::Min => if signed_less(w, a, b) {
                a
            } else {
                b
            },
            AluFn::Minu => if a < b {
                a
            } else {
                b
            },
            AluFn::SignedLess => if signed_less(w, a, b) {
                1
            } else {
                0
            },
            AluFn::UnsignedLess => if a < b {
                1
            } else {
                0
            },
        }
    }

    /// Computes the operation on the low words of two registers and sign-extends the result.
    pub fn exec_word(self, a: u64, b: u64) -> (r: u64)
        ensures
            r == alu_word(self, a, b),
    {
        let w = Width::W32;
        let v: u64 = self.exec(w, w.truncate(a), w.truncate(b));
        utils::widen(w, v)
    }
}

/// What the word form of `op` gives on two registers.
pub open spec fn alu_word(op: AluFn, a: u64, b: u64) -> u64 {
    let w = Width::W32;
    utils::widened(w, alu(op, w, w.wrap(a as int), w.wrap(b as int)))
}

impl CompareFn {
    /// Computes the comparison of two operands of width `w`.
    pub fn exec(self, w: Width, a: u64, b: u64) -> (r: bool)
        requires
            w.holds(a),
            w.holds(b),
        ensures
            r == compared(self, w, a, b),
    {
        match self {
            CompareFn::Equal => a == b,
            CompareFn::NotEqual => a != b,
            CompareFn::SignedLess => signed_less(w, a, b),
            CompareFn::UnsignedLess => a < b,
            CompareFn::SignedGreatEqual => !signed_less(w, a, b),
            CompareFn::UnsignedGreatEqual => a >= b,
        }
    }
}

/// Quotient and remainder of a signed division with a non-zero divisor give the dividend back:
/// `a = b * (a / b) + a % b`, modulo the width.
pub proof fn law_division(w: Width, a: u64, b: u64)
    requires
        w.holds(a),
        w.holds(b),
        b != 0,
    ensures
        w.signed(a) == w.signed(b) * trunc_div(w.signed(a), w.signed(b)) + trunc_rem(
            w.signed(a),
            w.signed(b),
        ),
        a == b * alu(AluFn::DivUnsigned, w, a, b) + alu(AluFn::RemUnsigned, w, a, b),
{
    let x = w.signed(a);
    let y = w.signed(b);
    lemma_fundamental_div_mod(abs(x), abs(y));
    let q = abs(x) / abs(y);
    assert(y * q == if y < 0 { -(abs(y) * q) } else { abs(y) * q }) by {
        lemma_mul_unary_negation(abs(y), q);
    }
    assert(y * (-q) == -(y * q)) by {
        lemma_mul_unary_negation(y, q);
    }
    lemma_fundamental_div_mod(a as int, b as int);
    lemma_div_nonincreasing(a as int, b as int);
    lemma_div_pos_is_pos(a as int, b as int);
    lemma_mod_bound(a as int, b as int);
}

} // verus!
