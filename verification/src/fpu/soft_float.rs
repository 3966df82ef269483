//! The floating-point unit: registers, status and operations.
use vstd::prelude::*;

use crate::utils::Width;

use super::apfloat;
use super::bits;
use super::bits::{FloatFormat, FloatRelation, Round, SignInjection, STATUS_OK};
use super::sqrt;

verus! {

/// What the upper half of a register holds beside a single-precision number.
pub const BOX: u64 = 0xffff_ffff_0000_0000;

/// An operation on two numbers.
#[derive(Clone, Copy, Debug, PartialEq, Eq, Structural)]
pub enum FloatBinary {
    Add,
    Sub,
    Mul,
    Div,
}

/// A fused operation on three numbers.
#[derive(Clone, Copy, Debug, PartialEq, Eq, Structural)]
pub enum FloatTernary {
    /// `a * b + c`
    MulAdd,
    /// `a * b - c`
    MulSub,
    /// `-(a * b) - c`
    NegMulAdd,
    /// `-(a * b) + c`
    NegMulSub,
}

impl FloatBinary {
    /// The encoding and the status of the result.
    pub open spec fn result(self, f: FloatFormat, a: u64, b: u64, round: Round) -> (u64, u8) {
        match f {
            FloatFormat::Single => {
                let (x, y) = (a as u32, b as u32);
                let r = match self {
                    FloatBinary::Add => apfloat::single_add_of(x, y, round),
                    FloatBinary::Sub => apfloat::single_sub_of(x, y, round),
                    FloatBinary::Mul => apfloat::single_mul_of(x, y, round),
                    FloatBinary::Div => apfloat::single_div_of(x, y, round),
                };
                (r.0 as u64, r.1)
            },
            FloatFormat::Double => match self {
                FloatBinary::Add => apfloat::double_add_of(a, b, round),
                FloatBinary::Sub => apfloat::double_sub_of(a, b, round),
                FloatBinary::Mul => apfloat::double_mul_of(a, b, round),
                FloatBinary::Div => apfloat::double_div_of(a, b, round),
            },
        }
    }

    fn apply(self, f: FloatFormat, a: u64, b: u64, round: Round) -> (r: (u64, u8))
        requires
            f.encodes(a),
            f.encodes(b),
        ensures
            r == self.result(f, a, b, round),
            f.encodes(r.0),
    {
        match f {
            FloatFormat::Single => {
                let x: u32 = a as u32;
                let y: u32 = b as u32;
                let (value, status): (u32, u8) = match self {
                    FloatBinary::Add => apfloat::single_add(x, y, round),
                    FloatBinary::Sub => apfloat::single_sub(x, y, round),
                    FloatBinary::Mul => apfloat::single_mul(x, y, round),
                    FloatBinary::Div => apfloat::single_div(x, y, round),
                };
                (value as u64, status)
            },
            FloatFormat::Double => match self {
                FloatBinary::Add => apfloat::double_add(a, b, round),
                FloatBinary::Sub => apfloat::double_sub(a, b, round),
                FloatBinary::Mul => apfloat::double_mul(a, b, round),
                FloatBinary::Div => apfloat::double_div(a, b, round),
            },
        }
    }
}

impl FloatTernary {
    /// Whether the product is negated.
    pub open spec fn negates_product(self) -> bool {
        self == FloatTernary::NegMulAdd || self == FloatTernary::NegMulSub
    }

    /// Whether the addend is negated.
    pub open spec fn negates_addend(self) -> bool {
        self == FloatTernary::MulSub || self == FloatTernary::NegMulAdd
    }

    /// The encoding and the status of the result.
    pub open spec fn result(self, f: FloatFormat, a: u64, b: u64, c: u64, round: Round) -> (
        u64,
        u8,
    ) {
        let a = f.with_sign(a, f.sign(a) != self.negates_product());
        let c = f.with_sign(c, f.sign(c) != self.negates_addend());
        match f {
            FloatFormat::Single => {
                let r = apfloat::single_mul_add_of(a as u32, b as u32, c as u32, round);
                (r.0 as u64, r.1)
            },
            FloatFormat::Double => apfloat::double_mul_add_of(a, b, c, round),
        }
    }

    fn apply(self, f: FloatFormat, a: u64, b: u64, c: u64, round: Round) -> (r: (u64, u8))
        requires
            f.encodes(a),
            f.encodes(b),
            f.encodes(c),
        ensures
            r == self.result(f, a, b, c, round),
            f.encodes(r.0),
    {
        let (negate_product, negate_addend) = match self {
            FloatTernary::MulAdd => (false, false),
            FloatTernary::MulSub => (false, true),
            FloatTernary::NegMulAdd => (true, true),
            FloatTernary::NegMulSub => (true, false),
        };
        let a: u64 = f.set_sign(a, f.is_negative(a) != negate_product);
        let c: u64 = f.set_sign(c, f.is_negative(c) != negate_addend);
        match f {
            FloatFormat::Single => {
                let (value, status): (u32, u8) = apfloat::single_mul_add(
                    a as u32,
                    b as u32,
                    c as u32,
                    round,
                );
                (value as u64, status)
            },
            FloatFormat::Double => apfloat::double_mul_add(a, b, c, round),
        }
    }
}

/// The encoding of an unsigned integer, and the status.
pub open spec fn from_unsigned_of(f: FloatFormat, v: u64, round: Round) -> (u64, u8) {
    match f {
        FloatFormat::Single => {
            let r = apfloat::single_from_unsigned_of(v, round);
            (r.0 as u64, r.1)
        },
        FloatFormat::Double => apfloat::double_from_unsigned_of(v, round),
    }
}

/// The encoding of a signed integer, and the status.
pub open spec fn from_signed_of(f: FloatFormat, v: i64, round: Round) -> (u64, u8) {
    match f {
        FloatFormat::Single => {
            let r = apfloat::single_from_signed_of(v, round);
            (r.0 as u64, r.1)
        },
        FloatFormat::Double => apfloat::double_from_signed_of(v, round),
    }
}

/// The integer of width `w` that a conversion result stands for. A NaN gives the greatest one.
pub open spec fn integer_of(w: Width, signed: bool, nan: bool, value: int) -> u64 {
    if nan {
        if signed {
            (w.half() - 1) as u64
        } else {
            (w.modulus() - 1) as u64
        }
    } else {
        w.wrap(value)
    }
}

/// The unsigned integer of width `w` that a number is rounded to, and the status.
pub open spec fn to_unsigned_of(f: FloatFormat, a: u64, w: Width, round: Round) -> (u64, u8) {
    let (value, status) = match f {
        FloatFormat::Single => apfloat::single_to_unsigned_of(
            a as u32,
            w.spec_bits() as u32,
            round,
        ),
        FloatFormat::Double => apfloat::double_to_unsigned_of(a, w.spec_bits() as u32, round),
    };
    (integer_of(w, false, f.is_nan(a), value as int), status)
}

/// The signed integer of width `w` that a number is rounded to, and the status.
pub open spec fn to_signed_of(f: FloatFormat, a: u64, w: Width, round: Round) -> (u64, u8) {
    let (value, status) = match f {
        FloatFormat::Single => apfloat::single_to_signed_of(a as u32, w.spec_bits() as u32, round),
        FloatFormat::Double => apfloat::double_to_signed_of(a, w.spec_bits() as u32, round),
    };
    (integer_of(w, true, f.is_nan(a), value as int), status)
}

/// The encoding of a number in the other format, and the status.
pub open spec fn converted(from: FloatFormat, a: u64, round: Round) -> (u64, u8) {
    match from {
        FloatFormat::Single => apfloat::single_to_double_of(a as u32, round),
        FloatFormat::Double => {
            let r = apfloat::double_to_single_of(a, round);
            (r.0 as u64, r.1)
        },
    }
}

/// The other format.
pub open spec fn other_format(f: FloatFormat) -> FloatFormat {
    match f {
        FloatFormat::Single => FloatFormat::Double,
        FloatFormat::Double => FloatFormat::Single,
    }
}

/// The value of width `w` that is congruent to `x`.
fn wrap_signed(w: Width, x: i128) -> (r: u64)
    ensures
        r == w.wrap(x as int),
{
    if x >= 0 {
        w.truncate_u128(x as u128)
    } else {
        let m: u128 = (-(x + 1)) as u128;
        let low: u64 = w.truncate_u128(m);
        proof {
            match w {
                Width::W8 => assert(x as int % 0x100 == 0xff - m as int % 0x100),
                Width::W16 => assert(x as int % 0x1_0000 == 0xffff - m as int % 0x1_0000),
                Width::W32 => assert(x as int % 0x1_0000_0000 == 0xffff_ffff - m as int
                    % 0x1_0000_0000),
                Width::W64 => assert(x as int % 0x1_0000_0000_0000_0000 == 0xffff_ffff_ffff_ffff
                    - m as int % 0x1_0000_0000_0000_0000),
            }
        }
        w.max_value() - low
    }
}

/// Makes an integer of a conversion result.
pub fn pick_unsigned(w: Width, nan: bool, value: u128) -> (r: u64)
    ensures
        r == integer_of(w, false, nan, value as int),
        w.holds(r),
{
    if nan {
        w.max_value()
    } else {
        w.truncate_u128(value)
    }
}

/// Makes an integer of a conversion result.
pub fn pick_signed(w: Width, nan: bool, value: i128) -> (r: u64)
    ensures
        r == integer_of(w, true, nan, value as int),
        w.holds(r),
{
    if nan {
        w.max_value() / 2
    } else {
        wrap_signed(w, value)
    }
}

/// What a register holds for a number.
pub open spec fn boxed(f: FloatFormat, x: u64) -> u64 {
    match f {
        FloatFormat::Single => (BOX + x) as u64,
        FloatFormat::Double => x,
    }
}

/// The number that a register holds. A single-precision number that is not boxed reads as a NaN.
pub open spec fn unboxed(f: FloatFormat, raw: u64) -> u64 {
    match f {
        FloatFormat::Single => if raw >= BOX {
            (raw - BOX) as u64
        } else {
            f.spec_canonical_nan()
        },
        FloatFormat::Double => raw,
    }
}

/// A number reads back as it was written.
pub proof fn law_box_reads_back(f: FloatFormat, x: u64)
    requires
        f.encodes(x),
    ensures
        unboxed(f, boxed(f, x)) == x,
{
}

/// The floating-point unit as plain values.
#[verifier::ext_equal]
pub struct FpuState {
    pub regs: Seq<u64>,
    pub status: u8,
    pub canonical_nan: bool,
}

impl FpuState {
    pub open spec fn wf(self) -> bool {
        self.regs.len() == 32
    }

    /// The number in a register.
    pub open spec fn value(self, f: FloatFormat, i: u8) -> u64 {
        unboxed(f, self.regs[i as int])
    }

    /// The unit with a number in a register.
    pub open spec fn with_value(self, f: FloatFormat, i: u8, x: u64) -> FpuState {
        FpuState { regs: self.regs.update(i as int, boxed(f, x)), ..self }
    }

    /// The unit after an operation without a result in a register.
    pub open spec fn with_status(self, status: u8) -> FpuState {
        FpuState { status, ..self }
    }

    /// The unit after an operation with a result in a register. A NaN is made canonical if the
    /// unit does so.
    pub open spec fn finished(self, f: FloatFormat, rd: u8, result: (u64, u8)) -> FpuState {
        let x = if self.canonical_nan && f.is_nan(result.0) {
            f.spec_canonical_nan()
        } else {
            result.0
        };
        self.with_value(f, rd, x).with_status(result.1)
    }
}

/// The floating-point unit.
pub struct SoftFPU {
    pub regs: [u64; 32],
    pub status: u8,
    pub canonical_nan: bool,
}

impl View for SoftFPU {
    type V = FpuState;

    open spec fn view(&self) -> FpuState {
        FpuState {
            regs: self.regs@,
            status: self.status,
            canonical_nan: self.canonical_nan,
        }
    }
}

impl SoftFPU {
    /// A unit whose registers hold zeros.
    pub fn from(canonical_nan: bool) -> (r: SoftFPU)
        ensures
            r@.wf(),
            r@ == (FpuState {
                regs: Seq::new(32, |i: int| 0u64),
                status: STATUS_OK,
                canonical_nan,
            }),
    {
        let r = SoftFPU { regs: [0u64; 32], status: STATUS_OK, canonical_nan };
        assert(r.regs@ =~= Seq::new(32, |i: int| 0u64));
        r
    }

    /// The status of the last operation.
    pub fn last_status(&self) -> (r: u8)
        ensures
            r == self@.status,
    {
        self.status
    }

    /// The content of a register.
    pub fn load_raw(&self, i: u8) -> (r: u64)
        requires
            i < 32,
        ensures
            r == self@.regs[i as int],
    {
        self.regs[i as usize]
    }

    /// The number in a register.
    pub fn load(&self, f: FloatFormat, i: u8) -> (r: u64)
        requires
            i < 32,
        ensures
            r == self@.value(f, i),
            f.encodes(r),
    {
        let raw: u64 = self.regs[i as usize];
        match f {
            FloatFormat::Single => if raw >= BOX {
                raw - BOX
            } else {
                f.canonical_nan()
            },
            FloatFormat::Double => raw,
        }
    }

    /// Writes a number to a register.
    pub fn store_raw(&mut self, f: FloatFormat, i: u8, x: u64)
        requires
            i < 32,
            f.encodes(x),
        ensures
            final(self)@ == old(self)@.with_value(f, i, x),
    {
        let raw: u64 = match f {
            FloatFormat::Single => BOX + x,
            FloatFormat::Double => x,
        };
        self.regs[i as usize] = raw;
    }

    /// Writes the result of an operation.
    pub fn finish(&mut self, f: FloatFormat, rd: u8, result: (u64, u8))
        requires
            rd < 32,
            f.encodes(result.0),
        ensures
            final(self)@ == old(self)@.finished(f, rd, result),
    {
        let x: u64 = if self.canonical_nan && f.check_nan(result.0) {
            f.canonical_nan()
        } else {
            result.0
        };
        self.store_raw(f, rd, x);
        self.status = result.1;
    }

    /// Executes an operation on two registers.
    pub fn exec_binary_r(
        &mut self,
        op: FloatBinary,
        f: FloatFormat,
        rs1: u8,
        rs2: u8,
        rd: u8,
        round: Round,
    )
        requires
            rs1 < 32,
            rs2 < 32,
            rd < 32,
        ensures
            final(self)@ == old(self)@.finished(
                f,
                rd,
                op.result(f, old(self)@.value(f, rs1), old(self)@.value(f, rs2), round),
            ),
    {
        let result: (u64, u8) = op.apply(f, self.load(f, rs1), self.load(f, rs2), round);
        self.finish(f, rd, result);
    }

    /// Executes a fused operation on three registers.
    pub fn exec_ternary_r(
        &mut self,
        op: FloatTernary,
        f: FloatFormat,
        rs1: u8,
        rs2: u8,
        rs3: u8,
        rd: u8,
        round: Round,
    )
        requires
            rs1 < 32,
            rs2 < 32,
            rs3 < 32,
            rd < 32,
        ensures
            final(self)@ == old(self)@.finished(
                f,
                rd,
                op.result(
                    f,
                    old(self)@.value(f, rs1),
                    old(self)@.value(f, rs2),
                    old(self)@.value(f, rs3),
                    round,
                ),
            ),
    {
        let result: (u64, u8) = op.apply(
            f,
            self.load(f, rs1),
            self.load(f, rs2),
            self.load(f, rs3),
            round,
        );
        self.finish(f, rd, result);
    }

    /// Puts a sign on a number; a NaN keeps its payload.
    pub fn inject_sign(&mut self, op: SignInjection, f: FloatFormat, rs1: u8, rs2: u8, rd: u8)
        requires
            rs1 < 32,
            rs2 < 32,
            rd < 32,
        ensures
            final(self)@ == old(self)@.with_value(
                f,
                rd,
                op.injected(f, old(self)@.value(f, rs1), old(self)@.value(f, rs2)),
            ).with_status(STATUS_OK),
    {
        let x: u64 = op.apply(f, self.load(f, rs1), self.load(f, rs2));
        self.store_raw(f, rd, x);
        self.status = STATUS_OK;
    }

    /// Computes a square root.
    pub fn sqrt(&mut self, f: FloatFormat, rs1: u8, rd: u8, round: Round)
        requires
            rs1 < 32,
            rd < 32,
        ensures
            final(self)@ == old(self)@.finished(
                f,
                rd,
                sqrt::sqrt_of(f, old(self)@.value(f, rs1), round),
            ),
    {
        let result: (u64, u8) = sqrt::sqrt(f, self.load(f, rs1), round);
        self.finish(f, rd, result);
    }

    /// Picks the smaller of two numbers.
    pub fn min_num(&mut self, f: FloatFormat, rs1: u8, rs2: u8, rd: u8)
        requires
            rs1 < 32,
            rs2 < 32,
            rd < 32,
        ensures
            final(self)@ == old(self)@.finished(
                f,
                rd,
                bits::extreme_of(f, false, old(self)@.value(f, rs1), old(self)@.value(f, rs2)),
            ),
    {
        let result: (u64, u8) = bits::pick_extreme(
            f,
            false,
            self.load(f, rs1),
            self.load(f, rs2),
        );
        self.finish(f, rd, result);
    }

    /// Picks the greater of two numbers.
    pub fn max_num(&mut self, f: FloatFormat, rs1: u8, rs2: u8, rd: u8)
        requires
            rs1 < 32,
            rs2 < 32,
            rd < 32,
        ensures
            final(self)@ == old(self)@.finished(
                f,
                rd,
                bits::extreme_of(f, true, old(self)@.value(f, rs1), old(self)@.value(f, rs2)),
            ),
    {
        let result: (u64, u8) = bits::pick_extreme(f, true, self.load(f, rs1), self.load(f, rs2));
        self.finish(f, rd, result);
    }

    /// Compares two numbers.
    pub fn compare(&mut self, op: FloatRelation, f: FloatFormat, rs1: u8, rs2: u8) -> (r: bool)
        requires
            rs1 < 32,
            rs2 < 32,
        ensures
            r == op.compared(f, old(self)@.value(f, rs1), old(self)@.value(f, rs2)).0,
            final(self)@ == old(self)@.with_status(
                op.compared(f, old(self)@.value(f, rs1), old(self)@.value(f, rs2)).1,
            ),
    {
        let (holds, status): (bool, u8) = op.check(f, self.load(f, rs1), self.load(f, rs2));
        self.status = status;
        holds
    }

    /// Classifies a number.
    pub fn classify(&self, f: FloatFormat, rs1: u8) -> (r: u64)
        requires
            rs1 < 32,
        ensures
            r == bits::class_of(f, self@.value(f, rs1)),
    {
        bits::classify(f, self.load(f, rs1))
    }

    /// Rounds a number to an unsigned integer of width `w`.
    pub fn get_and_cvt_unsigned(&mut self, f: FloatFormat, rs1: u8, w: Width, round: Round) -> (r:
        u64)
        requires
            rs1 < 32,
        ensures
            r == to_unsigned_of(f, old(self)@.value(f, rs1), w, round).0,
            w.holds(r),
            final(self)@ == old(self)@.with_status(
                to_unsigned_of(f, old(self)@.value(f, rs1), w, round).1,
            ),
    {
        let a: u64 = self.load(f, rs1);
        let (value, status): (u128, u8) = match f {
            FloatFormat::Single => apfloat::single_to_unsigned(a as u32, w.bits(), round),
            FloatFormat::Double => apfloat::double_to_unsigned(a, w.bits(), round),
        };
        self.status = status;
        pick_unsigned(w, f.check_nan(a), value)
    }

    /// Rounds a number to a signed integer of width `w`.
    pub fn get_and_cvt_signed(&mut self, f: FloatFormat, rs1: u8, w: Width, round: Round) -> (r:
        u64)
        requires
            rs1 < 32,
        ensures
            r == to_signed_of(f, old(self)@.value(f, rs1), w, round).0,
            w.holds(r),
            final(self)@ == old(self)@.with_status(
                to_signed_of(f, old(self)@.value(f, rs1), w, round).1,
            ),
    {
        let a: u64 = self.load(f, rs1);
        let (value, status): (i128, u8) = match f {
            FloatFormat::Single => apfloat::single_to_signed(a as u32, w.bits(), round),
            FloatFormat::Double => apfloat::double_to_signed(a, w.bits(), round),
        };
        self.status = status;
        pick_signed(w, f.check_nan(a), value)
    }

    /// Rounds an unsigned integer to a number.
    pub fn cvt_unsigned_and_store(&mut self, f: FloatFormat, rd: u8, v: u64, round: Round)
        requires
            rd < 32,
        ensures
            final(self)@ == old(self)@.finished(f, rd, from_unsigned_of(f, v, round)),
    {
        let result: (u64, u8) = match f {
            FloatFormat::Single => {
                let (value, status): (u32, u8) = apfloat::single_from_unsigned(v, round);
                (value as u64, status)
            },
            FloatFormat::Double => apfloat::double_from_unsigned(v, round),
        };
        self.finish(f, rd, result);
    }

    /// Rounds a signed integer to a number.
    pub fn cvt_signed_and_store(&mut self, f: FloatFormat, rd: u8, v: i64, round: Round)
        requires
            rd < 32,
        ensures
            final(self)@ == old(self)@.finished(f, rd, from_signed_of(f, v, round)),
    {
        let result: (u64, u8) = match f {
            FloatFormat::Single => {
                let (value, status): (u32, u8) = apfloat::single_from_signed(v, round);
                (value as u64, status)
            },
            FloatFormat::Double => apfloat::double_from_signed(v, round),
        };
        self.finish(f, rd, result);
    }

    /// Converts a number to the other format.
    pub fn cvt_float_and_store(&mut self, from: FloatFormat, rd: u8, rs1: u8, round: Round)
        requires
            rd < 32,
            rs1 < 32,
        ensures
            final(self)@ == old(self)@.finished(
                other_format(from),
                rd,
                converted(from, old(self)@.value(from, rs1), round),
            ),
    {
        let a: u64 = self.load(from, rs1);
        match from {
            FloatFormat::Single => {
                let result: (u64, u8) = apfloat::single_to_double(a as u32, round);
                self.finish(FloatFormat::Double, rd, result);
            },
            FloatFormat::Double => {
                let (value, status): (u32, u8) = apfloat::double_to_single(a, round);
                self.finish(FloatFormat::Single, rd, (value as u64, status));
            },
        }
    }
}

} // verus!
