//! Vector instructions whose result is a vector: what they compute for each element.
use vstd::prelude::*;

use crate::isa::riscv::instruction::alu;
use crate::isa::riscv::instruction::alu::AluFn;
use crate::isa::riscv::trap::Exception;
use crate::utils::Width;

use super::state;
use super::state::{Vector, VectorState, VREG_BYTES};
use super::types;
use super::types::VectorConfig;

verus! {

/// The operand that is a vector in one form of an instruction and a scalar in another.
#[derive(Clone, Copy, Debug, PartialEq, Eq, Structural)]
pub enum Rhs {
    Reg(u8),
    Scalar(u64),
}

impl Rhs {
    /// The operand of element `i`, as a value of width `w`.
    pub open spec fn value(self, s: VectorState, i: int, w: Width) -> u64 {
        match self {
            Rhs::Reg(vs1) => state::element(s.bytes, vs1, i, w),
            Rhs::Scalar(x) => w.wrap(x as int),
        }
    }

    /// Whether the operand is a scalar or names a group of elements of width `w`.
    pub open spec fn ok(self, c: VectorConfig, w: Width) -> bool {
        match self {
            Rhs::Reg(vs1) => c.group_ok(vs1, w),
            Rhs::Scalar(_) => true,
        }
    }

    pub fn is_ok(self, c: VectorConfig, w: Width) -> (r: bool)
        ensures
            r == self.ok(c, w),
    {
        match self {
            Rhs::Reg(vs1) => c.check_group(vs1, w),
            Rhs::Scalar(_) => true,
        }
    }
}

/// A multiply-add.
#[derive(Clone, Copy, Debug, PartialEq, Eq, Structural)]
pub enum MulAddFn {
    /// `rhs * vs2 + vd`
    Macc,
    /// `-(rhs * vs2) + vd`
    Nmsac,
    /// `rhs * vd + vs2`
    Madd,
    /// `-(rhs * vd) + vs2`
    Nmsub,
}

/// An operation whose result has twice the selected width.
#[derive(Clone, Copy, Debug, PartialEq, Eq, Structural)]
pub enum WidenFn {
    Add,
    Addu,
    Sub,
    Subu,
    Mul,
    Mulu,
    /// Signed `vs2` times unsigned operand.
    Mulsu,
}

/// A multiply-add into twice the selected width.
#[derive(Clone, Copy, Debug, PartialEq, Eq, Structural)]
pub enum WidenMulAddFn {
    Maccu,
    Macc,
    /// Signed operand times unsigned `vs2`.
    Maccsu,
    /// Unsigned operand times signed `vs2`.
    Maccus,
}

/// What an instruction computes for each element.
#[allow(inconsistent_fields)]
#[derive(Clone, Copy, Debug, PartialEq, Eq, Structural)]
pub enum ElemFn {
    Alu { op: AluFn, vs2: u8, rhs: Rhs },
    MulAdd { op: MulAddFn, vs2: u8, rhs: Rhs, vd: u8 },
    /// `wide` says that `vs2` has twice the selected width already.
    Widen { op: WidenFn, vs2: u8, rhs: Rhs, wide: bool },
    WidenMulAdd { op: WidenMulAddFn, vs2: u8, rhs: Rhs, vd: u8 },
    /// A right shift of elements of twice the selected width.
    Narrow { arithmetic: bool, vs2: u8, rhs: Rhs },
    /// Addition with the carry, or subtraction with the borrow, that `v0` holds.
    Carry { subtract: bool, vs2: u8, rhs: Rhs },
    /// The operand where the bit of `v0` is set, `vs2` elsewhere.
    Merge { vs2: u8, rhs: Rhs },
    /// Extension of elements of a fraction of the selected width.
    Extend { signed: bool, factor: u8, vs2: u8 },
    Move { rhs: Rhs },
    SlideUp { offset: u64, vs2: u8 },
    SlideDown { offset: u64, vs2: u8 },
    Slide1Up { x: u64, vs2: u8 },
    Slide1Down { x: u64, vs2: u8 },
    Gather { vs2: u8, vs1: u8 },
    /// Every element is element `index` of `vs2`.
    GatherOne { vs2: u8, index: u64 },
    /// The indices have 16 bits, whatever the selected width.
    GatherEi16 { vs2: u8, vs1: u8 },
    /// The number of set bits of the mask `vs2` below the element.
    Iota { vs2: u8, masked: bool },
    /// The index of the element.
    Index,
}

/// Twice the width; 64 bits have none.
pub open spec fn double(w: Width) -> Width {
    match w {
        Width::W8 => Width::W16,
        Width::W16 => Width::W32,
        Width::W32 => Width::W64,
        Width::W64 => Width::W64,
    }
}

pub fn double_width(w: Width) -> (r: Width)
    ensures
        r == double(w),
{
    match w {
        Width::W8 => Width::W16,
        Width::W16 => Width::W32,
        Width::W32 => Width::W64,
        Width::W64 => Width::W64,
    }
}

/// A half, a quarter or an eighth of the width, where it is a width.
pub open spec fn fraction(w: Width, factor: u8) -> Option<Width> {
    match (w, factor) {
        (Width::W16, 2) => Some(Width::W8),
        (Width::W32, 2) => Some(Width::W16),
        (Width::W64, 2) => Some(Width::W32),
        (Width::W32, 4) => Some(Width::W8),
        (Width::W64, 4) => Some(Width::W16),
        (Width::W64, 8) => Some(Width::W8),
        _ => None,
    }
}

fn fraction_width(w: Width, factor: u8) -> (r: Option<Width>)
    ensures
        r == fraction(w, factor),
{
    match (w, factor) {
        (Width::W16, 2) => Some(Width::W8),
        (Width::W32, 2) => Some(Width::W16),
        (Width::W64, 2) => Some(Width::W32),
        (Width::W32, 4) => Some(Width::W8),
        (Width::W64, 4) => Some(Width::W16),
        (Width::W64, 8) => Some(Width::W8),
        _ => None,
    }
}

/// The number of bits that are set in the mask `vs2` below `n`, counting under `v0` if `masked`.
pub open spec fn count_set(bytes: Seq<u8>, vs2: u8, masked: bool, n: int) -> int
    decreases n,
{
    if n <= 0 {
        0
    } else {
        count_set(bytes, vs2, masked, n - 1) + if (!masked || state::mask_bit(bytes, 0, n - 1))
            && state::mask_bit(bytes, vs2, n - 1) {
            1int
        } else {
            0
        }
    }
}

impl MulAddFn {
    /// The result, before it is cut to the width.
    pub open spec fn exact(self, rhs: u64, vs2: u64, vd: u64) -> int {
        match self {
            MulAddFn::Macc => rhs * vs2 + vd,
            MulAddFn::Nmsac => vd - rhs * vs2,
            MulAddFn::Madd => rhs * vd + vs2,
            MulAddFn::Nmsub => vs2 - rhs * vd,
        }
    }
}

impl WidenFn {
    /// The result, before it is cut to twice the width `w`.
    pub open spec fn exact(self, w: Width, a: int, b: u64) -> int {
        match self {
            WidenFn::Add => a + w.signed(b),
            WidenFn::Addu => a + b,
            WidenFn::Sub => a - w.signed(b),
            WidenFn::Subu => a - b,
            WidenFn::Mul => a * w.signed(b),
            WidenFn::Mulu => a * b,
            WidenFn::Mulsu => a * b,
        }
    }

    /// Whether `vs2` is signed.
    pub open spec fn signed_vs2(self) -> bool {
        match self {
            WidenFn::Add | WidenFn::Sub | WidenFn::Mul | WidenFn::Mulsu => true,
            WidenFn::Addu | WidenFn::Subu | WidenFn::Mulu => false,
        }
    }
}

impl WidenMulAddFn {
    /// The result, before it is cut to twice the width `w`.
    pub open spec fn exact(self, w: Width, rhs: u64, vs2: u64, vd: u64) -> int {
        match self {
            WidenMulAddFn::Maccu => rhs * vs2 + vd,
            WidenMulAddFn::Macc => w.signed(rhs) * w.signed(vs2) + vd,
            WidenMulAddFn::Maccsu => w.signed(rhs) * vs2 + vd,
            WidenMulAddFn::Maccus => rhs * w.signed(vs2) + vd,
        }
    }
}

impl ElemFn {
    /// The width of the result.
    pub open spec fn dest_width(self, sew: Width) -> Width {
        match self {
            ElemFn::Widen { .. } | ElemFn::WidenMulAdd { .. } => double(sew),
            _ => sew,
        }
    }

    /// Whether the operands exist under a configuration and name register groups.
    pub open spec fn sources_ok(self, c: VectorConfig) -> bool {
        let w = c.vsew.spec_width();
        match self {
            ElemFn::Alu { vs2, rhs, .. } => c.group_ok(vs2, w) && rhs.ok(c, w),
            ElemFn::MulAdd { vs2, rhs, vd, .. } => c.group_ok(vs2, w) && rhs.ok(c, w)
                && c.group_ok(vd, w),
            ElemFn::Widen { vs2, rhs, wide, .. } => w != Width::W64 && c.group_ok(
                vs2,
                if wide {
                    double(w)
                } else {
                    w
                },
            ) && rhs.ok(c, w),
            ElemFn::WidenMulAdd { vs2, rhs, vd, .. } => w != Width::W64 && c.group_ok(vs2, w)
                && rhs.ok(c, w) && c.group_ok(vd, double(w)),
            ElemFn::Narrow { vs2, rhs, .. } => w != Width::W64 && c.group_ok(vs2, double(w))
                && rhs.ok(c, w),
            ElemFn::Carry { vs2, rhs, .. } => c.group_ok(vs2, w) && rhs.ok(c, w),
            ElemFn::Merge { vs2, rhs } => c.group_ok(vs2, w) && rhs.ok(c, w),
            ElemFn::Extend { factor, vs2, .. } => match fraction(w, factor) {
                Some(f) => c.group_ok(vs2, f),
                None => false,
            },
            ElemFn::Move { rhs } => rhs.ok(c, w),
            ElemFn::SlideUp { vs2, .. } => c.group_ok(vs2, w),
            ElemFn::SlideDown { vs2, .. } => c.group_ok(vs2, w),
            ElemFn::Slide1Up { vs2, .. } => c.group_ok(vs2, w),
            ElemFn::Slide1Down { vs2, .. } => c.group_ok(vs2, w),
            ElemFn::Gather { vs2, vs1 } => c.group_ok(vs2, w) && c.group_ok(vs1, w),
            ElemFn::GatherOne { vs2, .. } => c.group_ok(vs2, w),
            ElemFn::GatherEi16 { vs2, vs1 } => c.group_ok(vs2, w) && c.group_ok(
                vs1,
                Width::W16,
            ),
            ElemFn::Iota { vs2, .. } => vs2 < 32,
            ElemFn::Index => true,
        }
    }

    /// Whether the instruction is legal with the destination `vd`.
    pub open spec fn legal(self, c: VectorConfig, vd: u8) -> bool {
        self.sources_ok(c) && c.group_ok(vd, self.dest_width(c.vsew.spec_width()))
    }

    /// The result of element `i`, or nothing where the element keeps its value.
    pub open spec fn value(self, s: VectorState, i: int) -> Option<u64> {
        let w = s.sew();
        let w2 = double(w);
        let vlmax = types::vlmax_of(s.config.vlmul, w);
        match self {
            ElemFn::Alu { op, vs2, rhs } => Some(
                alu::alu(op, w, state::element(s.bytes, vs2, i, w), rhs.value(s, i, w)),
            ),
            ElemFn::MulAdd { op, vs2, rhs, vd } => Some(
                w.wrap(
                    op.exact(
                        rhs.value(s, i, w),
                        state::element(s.bytes, vs2, i, w),
                        state::element(s.bytes, vd, i, w),
                    ),
                ),
            ),
            ElemFn::Widen { op, vs2, rhs, wide } => {
                let a = if wide {
                    state::element(s.bytes, vs2, i, w2) as int
                } else if op.signed_vs2() {
                    w.signed(state::element(s.bytes, vs2, i, w))
                } else {
                    state::element(s.bytes, vs2, i, w) as int
                };
                Some(w2.wrap(op.exact(w, a, rhs.value(s, i, w))))
            },
            ElemFn::WidenMulAdd { op, vs2, rhs, vd } => Some(
                w2.wrap(
                    op.exact(
                        w,
                        rhs.value(s, i, w),
                        state::element(s.bytes, vs2, i, w),
                        state::element(s.bytes, vd, i, w2),
                    ),
                ),
            ),
            ElemFn::Narrow { arithmetic, vs2, rhs } => {
                let op = if arithmetic {
                    AluFn::Sra
                } else {
                    AluFn::Srl
                };
                let b = match rhs {
                    Rhs::Reg(vs1) => state::element(s.bytes, vs1, i, w),
                    Rhs::Scalar(x) => w2.wrap(x as int),
                };
                Some(w.wrap(alu::alu(op, w2, state::element(s.bytes, vs2, i, w2), b) as int))
            },
            ElemFn::Carry { subtract, vs2, rhs } => {
                let carry = if state::mask_bit(s.bytes, 0, i) {
                    1int
                } else {
                    0
                };
                let a = state::element(s.bytes, vs2, i, w);
                let b = rhs.value(s, i, w);
                Some(
                    w.wrap(
                        if subtract {
                            a - b - carry
                        } else {
                            a + b + carry
                        },
                    ),
                )
            },
            ElemFn::Merge { vs2, rhs } => Some(
                if state::mask_bit(s.bytes, 0, i) {
                    rhs.value(s, i, w)
                } else {
                    state::element(s.bytes, vs2, i, w)
                },
            ),
            ElemFn::Extend { signed, factor, vs2 } => {
                let f = fraction(w, factor)->0;
                let a = state::element(s.bytes, vs2, i, f);
                Some(
                    if signed {
                        w.wrap(f.signed(a))
                    } else {
                        a
                    },
                )
            },
            ElemFn::Move { rhs } => Some(rhs.value(s, i, w)),
            ElemFn::SlideUp { offset, vs2 } => if i < offset {
                None
            } else {
                Some(state::element(s.bytes, vs2, i - offset, w))
            },
            ElemFn::SlideDown { offset, vs2 } => Some(
                if i + offset >= vlmax {
                    0
                } else {
                    state::element(s.bytes, vs2, i + offset, w)
                },
            ),
            ElemFn::Slide1Up { x, vs2 } => Some(
                if i == 0 {
                    w.wrap(x as int)
                } else {
                    state::element(s.bytes, vs2, i - 1, w)
                },
            ),
            ElemFn::Slide1Down { x, vs2 } => Some(
                if i == s.config.vl - 1 {
                    w.wrap(x as int)
                } else {
                    state::element(s.bytes, vs2, i + 1, w)
                },
            ),
            ElemFn::Gather { vs2, vs1 } => {
                let index = state::element(s.bytes, vs1, i, w);
                Some(
                    if index >= vlmax {
                        0
                    } else {
                        state::element(s.bytes, vs2, index as int, w)
                    },
                )
            },
            ElemFn::GatherOne { vs2, index } => Some(
                if index >= vlmax {
                    0
                } else {
                    state::element(s.bytes, vs2, index as int, w)
                },
            ),
            ElemFn::GatherEi16 { vs2, vs1 } => {
                let index = state::element(s.bytes, vs1, i, Width::W16);
                Some(
                    if index >= vlmax {
                        0
                    } else {
                        state::element(s.bytes, vs2, index as int, w)
                    },
                )
            },
            ElemFn::Iota { vs2, masked } => Some(
                w.wrap(count_set(s.bytes, vs2, masked, i)),
            ),
            ElemFn::Index => Some(w.wrap(i)),
        }
    }

    /// The results of all elements. An element that the instruction does not work on has none.
    pub open spec fn results(self, s: VectorState, masked: bool, vstart: u64) -> Seq<Option<u64>> {
        Seq::new(
            s.config.vl as nat,
            |i: int|
                if s.active(i, masked, vstart) {
                    self.value(s, i)
                } else {
                    None
                },
        )
    }

    /// The unit after the instruction, and whether it is legal.
    pub open spec fn applied(self, s: VectorState, vd: u8, masked: bool, vstart: u64) -> (
        VectorState,
        Result<(), Exception>,
    ) {
        if self.legal(s.config, vd) {
            (
                s.with_results(vd, self.dest_width(s.sew()), self.results(s, masked, vstart)),
                Ok(()),
            )
        } else {
            (s, Err(Exception::IllegalInstruction))
        }
    }
}

/// An element of index below the group's capacity lies in the register file.
pub proof fn lemma_any_element_in_file(c: VectorConfig, reg: u8, i: int)
    requires
        c.group_ok(reg, c.vsew.spec_width()),
        0 <= i < types::vlmax_of(c.vlmul, c.vsew.spec_width()),
    ensures
        reg * 16 + i * c.vsew.spec_width().spec_bytes() + c.vsew.spec_width().spec_bytes()
            <= VREG_BYTES,
        i < 128,
{
    let full = VectorConfig {
        vl: types::vlmax_of(c.vlmul, c.vsew.spec_width()) as u16,
        ..c
    };
    assert(types::vlmax_of(c.vlmul, c.vsew.spec_width()) <= 128) by {
        match c.vsew {
            types::Vsew::E8 => {},
            types::Vsew::E16 => {},
            types::Vsew::E32 => {},
            types::Vsew::E64 => {},
        }
    }
    assert(full.emul(c.vsew.spec_width()) == c.emul(c.vsew.spec_width()));
    types::lemma_element_in_file(full, reg, c.vsew.spec_width(), i);
}

/// The results of an instruction fit in the register file.
pub proof fn lemma_results_fit(c: VectorConfig, vd: u8, w: Width)
    requires
        c.wf(),
        c.group_ok(vd, w),
    ensures
        vd * 16 + c.vl * w.spec_bytes() <= VREG_BYTES,
        c.vl <= 128,
{
    state::lemma_vl_bound(c);
    let wb = w.spec_bytes();
    let vl = c.vl as int;
    if vl > 0 {
        types::lemma_element_in_file(c, vd, w, vl - 1);
        assert((vl - 1) * wb + wb == vl * wb) by (nonlinear_arith);
    } else {
        assert(vl * wb == 0) by (nonlinear_arith)
            requires
                vl == 0,
        ;
    }
}

/// Reads an element that an instruction works on.
pub fn fetch(v: &Vector, reg: u8, i: usize, w: Width) -> (r: u64)
    requires
        v.wf(),
        v@.config.group_ok(reg, w),
        i < v@.config.vl,
    ensures
        r == state::element(v@.bytes, reg, i as int, w),
        w.holds(r),
{
    proof {
        state::lemma_vl_bound(v.config);
        types::lemma_element_in_file(v.config, reg, w, i as int);
    }
    v.get(reg, i, w)
}

/// Reads an element of any index of a group, zero beyond its end.
fn fetch_or_zero(v: &Vector, reg: u8, index: u64) -> (r: u64)
    requires
        v.wf(),
        v@.config.group_ok(reg, v@.sew()),
    ensures
        r == if index >= types::vlmax_of(v@.config.vlmul, v@.sew()) {
            0
        } else {
            state::element(v@.bytes, reg, index as int, v@.sew())
        },
        v@.sew().holds(r),
{
    let w = v.config.vsew.width();
    if index >= types::vlmax(v.config.vlmul, w) {
        0
    } else {
        proof {
            lemma_any_element_in_file(v.config, reg, index as int);
        }
        v.get(reg, index as usize, w)
    }
}

/// The operand of element `i`.
pub fn operand(v: &Vector, rhs: Rhs, i: usize, w: Width) -> (r: u64)
    requires
        v.wf(),
        rhs.ok(v@.config, w),
        i < v@.config.vl,
    ensures
        r == rhs.value(v@, i as int, w),
        w.holds(r),
{
    match rhs {
        Rhs::Reg(vs1) => fetch(v, vs1, i, w),
        Rhs::Scalar(x) => w.truncate(x),
    }
}

/// `w.wrap(a * b + c)` without overflow.
pub proof fn lemma_wrap_sum(w: Width, x: int, y: int)
    ensures
        w.wrap(w.wrap(x) as int + y) == w.wrap(x + y),
        w.wrap(y - w.wrap(x) as int) == w.wrap(y - x),
        w.holds(w.wrap(x)),
{
    let m = w.modulus();
    vstd::arithmetic::div_mod::lemma_add_mod_noop(x % m, y, m);
    vstd::arithmetic::div_mod::lemma_add_mod_noop(x, y, m);
    vstd::arithmetic::div_mod::lemma_sub_mod_noop(y, x % m, m);
    vstd::arithmetic::div_mod::lemma_sub_mod_noop(y, x, m);
    vstd::arithmetic::div_mod::lemma_mod_twice(x, m);
    vstd::arithmetic::div_mod::lemma_mod_bound(x, m);
}

fn mul_add(op: MulAddFn, w: Width, rhs: u64, vs2: u64, vd: u64) -> (r: u64)
    requires
        w.holds(rhs),
        w.holds(vs2),
        w.holds(vd),
    ensures
        r == w.wrap(op.exact(rhs, vs2, vd)),
        w.holds(r),
{
    proof {
        lemma_wrap_sum(w, rhs * vs2, vd as int);
        lemma_wrap_sum(w, rhs * vd, vs2 as int);
    }
    match op {
        MulAddFn::Macc => AluFn::Add.exec(w, AluFn::MulLow.exec(w, rhs, vs2), vd),
        MulAddFn::Nmsac => AluFn::Sub.exec(w, vd, AluFn::MulLow.exec(w, rhs, vs2)),
        MulAddFn::Madd => AluFn::Add.exec(w, AluFn::MulLow.exec(w, rhs, vd), vs2),
        MulAddFn::Nmsub => AluFn::Sub.exec(w, vs2, AluFn::MulLow.exec(w, rhs, vd)),
    }
}

/// Extends a value of width `w` to twice the width.
fn extend(w: Width, signed: bool, a: u64) -> (r: u64)
    requires
        w != Width::W64,
        w.holds(a),
    ensures
        r == double(w).wrap(
            if signed {
                w.signed(a)
            } else {
                a as int
            },
        ),
        double(w).holds(r),
{
    extend_to(w, double_width(w), signed, a)
}

/// Extends a value of width `w` to the width `to`.
fn extend_to(w: Width, to: Width, signed: bool, a: u64) -> (r: u64)
    requires
        w.modulus() < to.modulus(),
        w.holds(a),
    ensures
        r == to.wrap(
            if signed {
                w.signed(a)
            } else {
                a as int
            },
        ),
        to.holds(r),
{
    if signed && w.is_negative(a) {
        to.negate(w.magnitude(a))
    } else {
        a
    }
}

/// Sums and products depend on their operands only modulo the width.
proof fn lemma_wrap_ops(w: Width, x: int, y: int)
    ensures
        w.wrap(w.wrap(x) as int + w.wrap(y) as int) == w.wrap(x + y),
        w.wrap(w.wrap(x) as int - w.wrap(y) as int) == w.wrap(x - y),
        w.wrap(w.wrap(x) as int * w.wrap(y) as int) == w.wrap(x * y),
{
    let m = w.modulus();
    vstd::arithmetic::div_mod::lemma_mod_bound(x, m);
    vstd::arithmetic::div_mod::lemma_mod_bound(y, m);
    vstd::arithmetic::div_mod::lemma_add_mod_noop(x, y, m);
    vstd::arithmetic::div_mod::lemma_sub_mod_noop(x, y, m);
    vstd::arithmetic::div_mod::lemma_mul_mod_noop(x, y, m);
}

/// A small value is its own remainder.
proof fn lemma_wrap_small(w: Width, a: u64)
    requires
        w.holds(a),
    ensures
        w.wrap(a as int) == a,
{
}

fn widen_op(op: WidenFn, w: Width, a: u64, Ghost(exact_a): Ghost<int>, b: u64) -> (r: u64)
    requires
        w != Width::W64,
        a == double(w).wrap(exact_a),
        w.holds(b),
    ensures
        r == double(w).wrap(op.exact(w, exact_a, b)),
        double(w).holds(r),
{
    let w2 = double_width(w);
    proof {
        vstd::arithmetic::div_mod::lemma_mod_bound(exact_a, w2.modulus());
        lemma_wrap_ops(w2, exact_a, w.signed(b));
        lemma_wrap_ops(w2, exact_a, b as int);
    }
    match op {
        WidenFn::Add => AluFn::Add.exec(w2, a, extend(w, true, b)),
        WidenFn::Addu => AluFn::Add.exec(w2, a, extend(w, false, b)),
        WidenFn::Sub => AluFn::Sub.exec(w2, a, extend(w, true, b)),
        WidenFn::Subu => AluFn::Sub.exec(w2, a, extend(w, false, b)),
        WidenFn::Mul => AluFn::MulLow.exec(w2, a, extend(w, true, b)),
        WidenFn::Mulu => AluFn::MulLow.exec(w2, a, extend(w, false, b)),
        WidenFn::Mulsu => AluFn::MulLow.exec(w2, a, extend(w, false, b)),
    }
}

fn widen_mul_add(op: WidenMulAddFn, w: Width, rhs: u64, vs2: u64, vd: u64) -> (r: u64)
    requires
        w != Width::W64,
        w.holds(rhs),
        w.holds(vs2),
        double(w).holds(vd),
    ensures
        r == double(w).wrap(op.exact(w, rhs, vs2, vd)),
        double(w).holds(r),
{
    let w2 = double_width(w);
    let (sr, sv) = match op {
        WidenMulAddFn::Maccu => (false, false),
        WidenMulAddFn::Macc => (true, true),
        WidenMulAddFn::Maccsu => (true, false),
        WidenMulAddFn::Maccus => (false, true),
    };
    let a: u64 = extend(w, sr, rhs);
    let b: u64 = extend(w, sv, vs2);
    proof {
        let x = if sr {
            w.signed(rhs)
        } else {
            rhs as int
        };
        let y = if sv {
            w.signed(vs2)
        } else {
            vs2 as int
        };
        lemma_wrap_ops(w2, x, y);
        lemma_wrap_sum(w2, x * y, vd as int);
    }
    AluFn::Add.exec(w2, AluFn::MulLow.exec(w2, a, b), vd)
}

/// Counts set bits of a mask.
pub fn count_bits(v: &Vector, vs2: u8, masked: bool, n: usize) -> (r: u64)
    requires
        v.wf(),
        vs2 < 32,
        n <= 128,
    ensures
        r == count_set(v@.bytes, vs2, masked, n as int),
        r <= n,
{
    let mut i: usize = 0;
    let mut count: u64 = 0;
    while i < n
        invariant
            i <= n,
            n <= 128,
            v.wf(),
            vs2 < 32,
            count == count_set(v@.bytes, vs2, masked, i as int),
            count <= i,
        decreases n - i,
    {
        if (!masked || v.get_bit(0, i)) && v.get_bit(vs2, i) {
            count = count + 1;
        }
        i = i + 1;
    }
    count
}

/// Adds three values of a width.
fn add_carry(w: Width, subtract: bool, a: u64, b: u64, carry: bool) -> (r: u64)
    requires
        w.holds(a),
        w.holds(b),
    ensures
        r == w.wrap(
            if subtract {
                a - b - if carry {
                    1int
                } else {
                    0
                }
            } else {
                a + b + if carry {
                    1int
                } else {
                    0
                }
            },
        ),
        w.holds(r),
{
    let c: u64 = if carry {
        1
    } else {
        0
    };
    proof {
        lemma_wrap_sum(w, a + b, c as int);
        lemma_wrap_ops(w, a - b, c as int);
        lemma_wrap_small(w, c);
    }
    if subtract {
        AluFn::Sub.exec(w, AluFn::Sub.exec(w, a, b), c)
    } else {
        AluFn::Add.exec(w, AluFn::Add.exec(w, a, b), c)
    }
}

impl ElemFn {
    fn dest(self, sew: Width) -> (r: Width)
        ensures
            r == self.dest_width(sew),
    {
        match self {
            ElemFn::Widen { .. } => double_width(sew),
            ElemFn::WidenMulAdd { .. } => double_width(sew),
            _ => sew,
        }
    }

    fn check_sources(self, c: VectorConfig) -> (r: bool)
        ensures
            r == self.sources_ok(c),
    {
        let w = c.vsew.width();
        let w2 = double_width(w);
        let wide_exists = match w {
            Width::W64 => false,
            _ => true,
        };
        match self {
            ElemFn::Alu { op: _, vs2, rhs } => c.check_group(vs2, w) && rhs.is_ok(c, w),
            ElemFn::MulAdd { op: _, vs2, rhs, vd } => c.check_group(vs2, w) && rhs.is_ok(c, w)
                && c.check_group(vd, w),
            ElemFn::Widen { op: _, vs2, rhs, wide } => wide_exists && c.check_group(
                vs2,
                if wide {
                    w2
                } else {
                    w
                },
            ) && rhs.is_ok(c, w),
            ElemFn::WidenMulAdd { op: _, vs2, rhs, vd } => wide_exists && c.check_group(vs2, w)
                && rhs.is_ok(c, w) && c.check_group(vd, w2),
            ElemFn::Narrow { arithmetic: _, vs2, rhs } => wide_exists && c.check_group(vs2, w2)
                && rhs.is_ok(c, w),
            ElemFn::Carry { subtract: _, vs2, rhs } => c.check_group(vs2, w) && rhs.is_ok(c, w),
            ElemFn::Merge { vs2, rhs } => c.check_group(vs2, w) && rhs.is_ok(c, w),
            ElemFn::Extend { signed: _, factor, vs2 } => match fraction_width(w, factor) {
                Some(f) => c.check_group(vs2, f),
                None => false,
            },
            ElemFn::Move { rhs } => rhs.is_ok(c, w),
            ElemFn::SlideUp { offset: _, vs2 } => c.check_group(vs2, w),
            ElemFn::SlideDown { offset: _, vs2 } => c.check_group(vs2, w),
            ElemFn::Slide1Up { x: _, vs2 } => c.check_group(vs2, w),
            ElemFn::Slide1Down { x: _, vs2 } => c.check_group(vs2, w),
            ElemFn::Gather { vs2, vs1 } => c.check_group(vs2, w) && c.check_group(vs1, w),
            ElemFn::GatherOne { vs2, index: _ } => c.check_group(vs2, w),
            ElemFn::GatherEi16 { vs2, vs1 } => c.check_group(vs2, w) && c.check_group(
                vs1,
                Width::W16,
            ),
            ElemFn::Iota { vs2, masked: _ } => vs2 < 32,
            ElemFn::Index => true,
        }
    }

    /// Computes the result of one element.
    fn compute(self, v: &Vector, i: usize) -> (r: Option<u64>)
        requires
            v.wf(),
            self.sources_ok(v@.config),
            i < v@.config.vl,
        ensures
            r == self.value(v@, i as int),
    {
        let w = v.config.vsew.width();
        let w2 = double_width(w);
        proof {
            state::lemma_vl_bound(v.config);
        }
        match self {
            ElemFn::Alu { op, vs2, rhs } => Some(
                op.exec(w, fetch(v, vs2, i, w), operand(v, rhs, i, w)),
            ),
            ElemFn::MulAdd { op, vs2, rhs, vd } => Some(
                mul_add(op, w, operand(v, rhs, i, w), fetch(v, vs2, i, w), fetch(v, vd, i, w)),
            ),
            ElemFn::Widen { op, vs2, rhs, wide } => {
                let b: u64 = operand(v, rhs, i, w);
                if wide {
                    let a: u64 = fetch(v, vs2, i, w2);
                    proof {
                        lemma_wrap_small(w2, a);
                    }
                    Some(widen_op(op, w, a, Ghost(a as int), b))
                } else {
                    let signed = match op {
                        WidenFn::Add => true,
                        WidenFn::Sub => true,
                        WidenFn::Mul => true,
                        WidenFn::Mulsu => true,
                        _ => false,
                    };
                    let n: u64 = fetch(v, vs2, i, w);
                    let a: u64 = extend(w, signed, n);
                    let ghost exact = if signed {
                        w.signed(n)
                    } else {
                        n as int
                    };
                    Some(widen_op(op, w, a, Ghost(exact), b))
                }
            },
            ElemFn::WidenMulAdd { op, vs2, rhs, vd } => Some(
                widen_mul_add(
                    op,
                    w,
                    operand(v, rhs, i, w),
                    fetch(v, vs2, i, w),
                    fetch(v, vd, i, w2),
                ),
            ),
            ElemFn::Narrow { arithmetic, vs2, rhs } => {
                let op = if arithmetic {
                    AluFn::Sra
                } else {
                    AluFn::Srl
                };
                let b: u64 = match rhs {
                    Rhs::Reg(vs1) => fetch(v, vs1, i, w),
                    Rhs::Scalar(x) => w2.truncate(x),
                };
                Some(w.truncate(op.exec(w2, fetch(v, vs2, i, w2), b)))
            },
            ElemFn::Carry { subtract, vs2, rhs } => Some(
                add_carry(
                    w,
                    subtract,
                    fetch(v, vs2, i, w),
                    operand(v, rhs, i, w),
                    v.get_bit(0, i),
                ),
            ),
            ElemFn::Merge { vs2, rhs } => Some(
                if v.get_bit(0, i) {
                    operand(v, rhs, i, w)
                } else {
                    fetch(v, vs2, i, w)
                },
            ),
            ElemFn::Extend { signed, factor, vs2 } => {
                let f = fraction_width(w, factor).unwrap();
                let a: u64 = fetch(v, vs2, i, f);
                proof {
                    lemma_wrap_small(w, a);
                }
                Some(extend_to(f, w, signed, a))
            },
            ElemFn::Move { rhs } => Some(operand(v, rhs, i, w)),
            ElemFn::SlideUp { offset, vs2 } => if (i as u64) < offset {
                None
            } else {
                Some(fetch(v, vs2, i - offset as usize, w))
            },
            ElemFn::SlideDown { offset, vs2 } => Some(
                fetch_or_zero(v, vs2, (i as u64).saturating_add(offset)),
            ),
            ElemFn::Slide1Up { x, vs2 } => Some(
                if i == 0 {
                    w.truncate(x)
                } else {
                    fetch(v, vs2, i - 1, w)
                },
            ),
            ElemFn::Slide1Down { x, vs2 } => Some(
                if i + 1 == v.config.vl as usize {
                    w.truncate(x)
                } else {
                    fetch(v, vs2, i + 1, w)
                },
            ),
            ElemFn::Gather { vs2, vs1 } => Some(fetch_or_zero(v, vs2, fetch(v, vs1, i, w))),
            ElemFn::GatherOne { vs2, index } => Some(fetch_or_zero(v, vs2, index)),
            ElemFn::GatherEi16 { vs2, vs1 } => Some(
                fetch_or_zero(v, vs2, fetch(v, vs1, i, Width::W16)),
            ),
            ElemFn::Iota { vs2, masked } => Some(w.truncate(count_bits(v, vs2, masked, i))),
            ElemFn::Index => Some(w.truncate(i as u64)),
        }
    }

    /// Computes the results of all elements.
    fn collect(self, v: &Vector, masked: bool, vstart: u64) -> (r: Vec<Option<u64>>)
        requires
            v.wf(),
            self.sources_ok(v@.config),
        ensures
            r@ == self.results(v@, masked, vstart),
    {
        let n: usize = v.config.vl as usize;
        let mut out: Vec<Option<u64>> = Vec::new();
        let mut i: usize = 0;
        while i < n
            invariant
                i <= n,
                n == v@.config.vl,
                v.wf(),
                self.sources_ok(v@.config),
                out@ =~= self.results(v@, masked, vstart).take(i as int),
            decreases n - i,
        {
            let r = if v.is_active(i, masked, vstart) {
                self.compute(v, i)
            } else {
                None
            };
            out.push(r);
            i = i + 1;
        }
        out
    }
}

impl Vector {
    /// Executes an instruction whose result is a vector.
    pub fn exec_elements(&mut self, f: ElemFn, vd: u8, masked: bool, vstart: u64) -> (r: Result<
        (),
        Exception,
    >)
        requires
            old(self).wf(),
        ensures
            final(self).wf(),
            final(self)@ == f.applied(old(self)@, vd, masked, vstart).0,
            r == f.applied(old(self)@, vd, masked, vstart).1,
    {
        let w = f.dest(self.config.vsew.width());
        if !(f.check_sources(self.config) && self.config.check_group(vd, w)) {
            return Err(Exception::IllegalInstruction);
        }
        let results = f.collect(self, masked, vstart);
        proof {
            lemma_results_fit(self.config, vd, w);
        }
        self.write_results(vd, w, &results);
        Ok(())
    }
}

} // verus!
