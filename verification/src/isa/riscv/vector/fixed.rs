//! Fixed-point vector instructions.
use vstd::arithmetic::div_mod::*;
use vstd::arithmetic::power2::*;
use vstd::prelude::*;

use crate::isa::riscv::trap::Exception;
use crate::utils::{pow2_u64, Width};

use super::element;
use super::element::Rhs;
use super::state;
use super::state::{Vector, VectorState};
use super::types::VectorConfig;

verus! {

/// How a fixed-point instruction rounds.
#[derive(Clone, Copy, Debug, PartialEq, Eq, Structural)]
pub enum FixedPointRoundingMode {
    RoundToNearestUp,
    RoundToNearestEven,
    RoundDown,
    RoundToOdd,
}

impl FixedPointRoundingMode {
    /// The mode that a value of `vxrm` names.
    pub open spec fn of_bits(bits: u64) -> FixedPointRoundingMode {
        if bits == 0 {
            FixedPointRoundingMode::RoundToNearestUp
        } else if bits == 1 {
            FixedPointRoundingMode::RoundToNearestEven
        } else if bits == 2 {
            FixedPointRoundingMode::RoundDown
        } else {
            FixedPointRoundingMode::RoundToOdd
        }
    }

    pub fn from_bits(bits: u64) -> (r: FixedPointRoundingMode)
        requires
            bits < 4,
        ensures
            r == FixedPointRoundingMode::of_bits(bits),
    {
        match bits {
            0 => FixedPointRoundingMode::RoundToNearestUp,
            1 => FixedPointRoundingMode::RoundToNearestEven,
            2 => FixedPointRoundingMode::RoundDown,
            _ => FixedPointRoundingMode::RoundToOdd,
        }
    }

    /// Whether the quotient `q` is increased, when `rem` of `m` was left over.
    pub open spec fn rounds_up(self, q: int, rem: int, m: int) -> bool {
        match self {
            FixedPointRoundingMode::RoundToNearestUp => 2 * rem >= m,
            FixedPointRoundingMode::RoundToNearestEven => 2 * rem > m || (2 * rem == m && q % 2
                == 1),
            FixedPointRoundingMode::RoundDown => false,
            FixedPointRoundingMode::RoundToOdd => rem != 0 && q % 2 == 0,
        }
    }
}

/// The quotient of `v` and two raised to `d`, rounded.
pub open spec fn rounded(v: int, d: nat, mode: FixedPointRoundingMode) -> int {
    let m = pow2(d) as int;
    if mode.rounds_up(v / m, v % m, m) {
        v / m + 1
    } else {
        v / m
    }
}

/// Half of the range in which quotients are computed.
const BIAS: u128 = 0x4000_0000_0000_0000_0000_0000_0000_0000;

/// The bias is an even multiple of every divisor.
proof fn lemma_bias(v: int, d: nat)
    requires
        d <= 63,
    ensures
        BIAS as int % (pow2(d) as int) == 0,
        (BIAS as int / (pow2(d) as int)) % 2 == 0,
        (v + BIAS) / (pow2(d) as int) == v / (pow2(d) as int) + BIAS as int / (pow2(d) as int),
        (v + BIAS) % (pow2(d) as int) == v % (pow2(d) as int),
        pow2(d) >= 1,
{
    let m = pow2(d) as int;
    lemma_pow2_pos(d);
    lemma2_to64();
    lemma2_to64_rest();
    lemma_pow2_adds(63, 63);
    assert(BIAS == pow2(126)) by {
        assert(0x8000_0000_0000_0000int * 0x8000_0000_0000_0000int == BIAS);
    }
    let e = (126 - d) as nat;
    lemma_pow2_adds(d, e);
    let k = pow2(e) as int;
    assert(BIAS == m * k);
    assert(BIAS == k * m) by (nonlinear_arith)
        requires
            BIAS == m * k,
    ;
    lemma_div_multiples_vanish(k, m);
    assert(m * k == k * m) by (nonlinear_arith);
    lemma_mod_multiples_basic(k, m);
    lemma_pow2_unfold(e);
    assert(k == 2 * pow2((e - 1) as nat));
    lemma_hoist_over_denominator(v, k, m as nat);
    lemma_mod_multiples_vanish(k, v, m);
    assert(m * k + v == v + BIAS);
}

/// Divides by two raised to `d`, rounding.
fn round_off(v: i128, d: u32, mode: FixedPointRoundingMode) -> (r: i128)
    requires
        -(BIAS as int) <= v <= BIAS,
        d <= 63,
    ensures
        r == rounded(v as int, d as nat, mode),
        d >= 1 ==> -(BIAS as int) <= r <= BIAS,
        d == 0 ==> r == v,
{
    let m: u128 = pow2_u64(d) as u128;
    let u: u128 = if v >= 0 {
        BIAS + (v as u128)
    } else {
        BIAS - ((-v) as u128)
    };
    proof {
        lemma_bias(v as int, d as nat);
        lemma2_to64();
        lemma_div_is_ordered_by_denominator(u as int, 1, m as int);
        lemma_div_is_ordered_by_denominator(BIAS as int, 1, m as int);
        if d >= 1 {
            lemma_pow2_unfold(d as nat);
            lemma_pow2_pos((d - 1) as nat);
            lemma_div_is_ordered_by_denominator(u as int, 2, m as int);
            lemma_div_is_ordered_by_denominator(BIAS as int, 2, m as int);
        } else {
            assert(u as int / 1 == u);
            assert(u as int % 1 == 0);
        }
        lemma_div_pos_is_pos(u as int, m as int);
        lemma_div_pos_is_pos(BIAS as int, m as int);
        lemma_mod_bound(u as int, m as int);
    }
    let q: u128 = u / m;
    let rem: u128 = u % m;
    let base: u128 = BIAS / m;
    let even: bool = q % 2 == 0;
    let up: bool = match mode {
        FixedPointRoundingMode::RoundToNearestUp => 2 * rem >= m,
        FixedPointRoundingMode::RoundToNearestEven => 2 * rem > m || (2 * rem == m && !even),
        FixedPointRoundingMode::RoundDown => false,
        FixedPointRoundingMode::RoundToOdd => rem != 0 && even,
    };
    let quotient: i128 = if q >= base {
        (q - base) as i128
    } else {
        -((base - q) as i128)
    };
    if up {
        quotient + 1
    } else {
        quotient
    }
}

/// A value of width `w` as a signed number.
fn signed_of(w: Width, a: u64) -> (r: i128)
    requires
        w.holds(a),
    ensures
        r == w.signed(a),
        -0x8000_0000_0000_0000 <= r < 0x8000_0000_0000_0000,
{
    if w.is_negative(a) {
        -(w.magnitude(a) as i128)
    } else {
        a as i128
    }
}

/// How a result is made to fit its width.
#[derive(Clone, Copy, Debug, PartialEq, Eq, Structural)]
pub enum Fit {
    /// The nearest unsigned value.
    Unsigned,
    /// The nearest signed value.
    Signed,
    /// The congruent value.
    Wrap,
}

impl Fit {
    /// The value that stands for `x`, and whether it differs from `x` by saturation.
    pub open spec fn fitted(self, w: Width, x: int) -> (u64, bool) {
        match self {
            Fit::Unsigned => if x < 0 {
                (0, true)
            } else if x >= w.modulus() {
                ((w.modulus() - 1) as u64, true)
            } else {
                (x as u64, false)
            },
            Fit::Signed => if x < -w.half() {
                (w.half() as u64, true)
            } else if x >= w.half() {
                ((w.half() - 1) as u64, true)
            } else {
                (w.wrap(x), false)
            },
            Fit::Wrap => (w.wrap(x), false),
        }
    }

    fn apply(self, w: Width, x: i128) -> (r: (u64, bool))
        requires
            -(BIAS as int) <= x <= BIAS,
        ensures
            r == self.fitted(w, x as int),
    {
        let max: i128 = w.max_value() as i128;
        let half: i128 = (w.max_value() / 2 + 1) as i128;
        match self {
            Fit::Unsigned => if x < 0 {
                (0, true)
            } else if x > max {
                (w.max_value(), true)
            } else {
                (x as u64, false)
            },
            Fit::Signed => if x < -half {
                (half as u64, true)
            } else if x >= half {
                ((half - 1) as u64, true)
            } else {
                (wrap_i128(w, x), false)
            },
            Fit::Wrap => (wrap_i128(w, x), false),
        }
    }
}

fn wrap_i128(w: Width, x: i128) -> (r: u64)
    requires
        -(BIAS as int) <= x <= BIAS,
    ensures
        r == w.wrap(x as int),
{
    let u: u128 = if x >= 0 {
        BIAS + (x as u128)
    } else {
        BIAS - ((-x) as u128)
    };
    assert(u as int % w.modulus() == x as int % w.modulus());
    w.truncate_u128(u)
}

/// A fixed-point operation on elements of one width.
#[derive(Clone, Copy, Debug, PartialEq, Eq, Structural)]
pub enum FixedFn {
    Saddu,
    Sadd,
    Ssubu,
    Ssub,
    Aaddu,
    Aadd,
    Asubu,
    Asub,
    Smul,
    Ssrl,
    Ssra,
}

impl FixedFn {
    /// The rounded result, before it is made to fit.
    pub open spec fn exact(self, w: Width, a: u64, b: u64, mode: FixedPointRoundingMode) -> int {
        match self {
            FixedFn::Saddu => a + b,
            FixedFn::Sadd => w.signed(a) + w.signed(b),
            FixedFn::Ssubu => a - b,
            FixedFn::Ssub => w.signed(a) - w.signed(b),
            FixedFn::Aaddu => rounded(a + b, 1, mode),
            FixedFn::Aadd => rounded(w.signed(a) + w.signed(b), 1, mode),
            FixedFn::Asubu => rounded(a - b, 1, mode),
            FixedFn::Asub => rounded(w.signed(a) - w.signed(b), 1, mode),
            FixedFn::Smul => rounded(
                w.signed(a) * w.signed(b),
                (w.spec_bits() - 1) as nat,
                mode,
            ),
            FixedFn::Ssrl => rounded(a as int, (b as int % w.spec_bits()) as nat, mode),
            FixedFn::Ssra => rounded(w.signed(a), (b as int % w.spec_bits()) as nat, mode),
        }
    }

    /// How the result is made to fit.
    pub open spec fn spec_fit(self) -> Fit {
        match self {
            FixedFn::Saddu | FixedFn::Ssubu => Fit::Unsigned,
            FixedFn::Sadd | FixedFn::Ssub | FixedFn::Smul => Fit::Signed,
            _ => Fit::Wrap,
        }
    }

    fn fit(self) -> (r: Fit)
        ensures
            r == self.spec_fit(),
    {
        match self {
            FixedFn::Saddu => Fit::Unsigned,
            FixedFn::Ssubu => Fit::Unsigned,
            FixedFn::Sadd => Fit::Signed,
            FixedFn::Ssub => Fit::Signed,
            FixedFn::Smul => Fit::Signed,
            _ => Fit::Wrap,
        }
    }

    fn apply(self, w: Width, a: u64, b: u64, mode: FixedPointRoundingMode) -> (r: (u64, bool))
        requires
            w.holds(a),
            w.holds(b),
        ensures
            r == self.spec_fit().fitted(w, self.exact(w, a, b, mode)),
    {
        let ua: i128 = a as i128;
        let ub: i128 = b as i128;
        let sa: i128 = signed_of(w, a);
        let sb: i128 = signed_of(w, b);
        proof {
            assert(-0x4000_0000_0000_0000_0000_0000_0000_0000 <= sa * sb
                <= 0x4000_0000_0000_0000_0000_0000_0000_0000) by (nonlinear_arith)
                requires
                    -0x8000_0000_0000_0000 <= sa < 0x8000_0000_0000_0000,
                    -0x8000_0000_0000_0000 <= sb < 0x8000_0000_0000_0000,
            ;
        }
        let shift: u32 = (b % (w.bits() as u64)) as u32;
        let x: i128 = match self {
            FixedFn::Saddu => ua + ub,
            FixedFn::Sadd => sa + sb,
            FixedFn::Ssubu => ua - ub,
            FixedFn::Ssub => sa - sb,
            FixedFn::Aaddu => round_off(ua + ub, 1, mode),
            FixedFn::Aadd => round_off(sa + sb, 1, mode),
            FixedFn::Asubu => round_off(ua - ub, 1, mode),
            FixedFn::Asub => round_off(sa - sb, 1, mode),
            FixedFn::Smul => round_off(sa * sb, w.bits() - 1, mode),
            FixedFn::Ssrl => round_off(ua, shift, mode),
            FixedFn::Ssra => round_off(sa, shift, mode),
        };
        self.fit().apply(w, x)
    }
}

/// A fixed-point instruction.
#[allow(inconsistent_fields)]
#[derive(Clone, Copy, Debug, PartialEq, Eq, Structural)]
pub enum FixedOp {
    Single { op: FixedFn, vs2: u8, rhs: Rhs },
    /// A rounding right shift of elements of twice the selected width, saturated to the width.
    Clip { signed: bool, vs2: u8, rhs: Rhs },
}

impl FixedOp {
    /// Whether the operands exist under a configuration and name register groups.
    pub open spec fn legal(self, c: VectorConfig, vd: u8) -> bool {
        let w = c.vsew.spec_width();
        c.group_ok(vd, w) && match self {
            FixedOp::Single { vs2, rhs, .. } => c.group_ok(vs2, w) && rhs.ok(c, w),
            FixedOp::Clip { vs2, rhs, .. } => w != Width::W64 && c.group_ok(
                vs2,
                element::double(w),
            ) && rhs.ok(c, w),
        }
    }

    /// The result of element `i`, and whether it was saturated.
    pub open spec fn value(self, s: VectorState, i: int, mode: FixedPointRoundingMode) -> (
        u64,
        bool,
    ) {
        let w = s.sew();
        match self {
            FixedOp::Single { op, vs2, rhs } => op.spec_fit().fitted(
                w,
                op.exact(w, state::element(s.bytes, vs2, i, w), rhs.value(s, i, w), mode),
            ),
            FixedOp::Clip { signed, vs2, rhs } => {
                let w2 = element::double(w);
                let a = state::element(s.bytes, vs2, i, w2);
                let shift = (rhs.value(s, i, w) as int % w2.spec_bits()) as nat;
                if signed {
                    Fit::Signed.fitted(w, rounded(w2.signed(a), shift, mode))
                } else {
                    Fit::Unsigned.fitted(w, rounded(a as int, shift, mode))
                }
            },
        }
    }

    /// The results of all elements. An element that the instruction does not work on has none.
    pub open spec fn results(
        self,
        s: VectorState,
        masked: bool,
        vstart: u64,
        mode: FixedPointRoundingMode,
    ) -> Seq<Option<u64>> {
        Seq::new(
            s.config.vl as nat,
            |i: int|
                if s.active(i, masked, vstart) {
                    Some(self.value(s, i, mode).0)
                } else {
                    None
                },
        )
    }

    /// Whether one of the first `n` elements was saturated.
    pub open spec fn saturates(
        self,
        s: VectorState,
        masked: bool,
        vstart: u64,
        mode: FixedPointRoundingMode,
        n: int,
    ) -> bool {
        exists|i: int|
            0 <= i < n && s.active(i, masked, vstart) && (#[trigger] self.value(s, i, mode)).1
    }

    /// The unit after the instruction, and whether it saturated an element.
    pub open spec fn applied(
        self,
        s: VectorState,
        vd: u8,
        masked: bool,
        vstart: u64,
        mode: FixedPointRoundingMode,
    ) -> (VectorState, Result<bool, Exception>) {
        if self.legal(s.config, vd) {
            (
                s.with_results(vd, s.sew(), self.results(s, masked, vstart, mode)),
                Ok(self.saturates(s, masked, vstart, mode, s.config.vl as int)),
            )
        } else {
            (s, Err(Exception::IllegalInstruction))
        }
    }

    fn check(self, c: VectorConfig, vd: u8) -> (r: bool)
        ensures
            r == self.legal(c, vd),
    {
        let w = c.vsew.width();
        c.check_group(vd, w) && match self {
            FixedOp::Single { op: _, vs2, rhs } => c.check_group(vs2, w) && rhs.is_ok(c, w),
            FixedOp::Clip { signed: _, vs2, rhs } => match w {
                Width::W64 => false,
                _ => c.check_group(vs2, element::double_width(w)) && rhs.is_ok(c, w),
            },
        }
    }

    fn compute(self, v: &Vector, i: usize, vd: u8, mode: FixedPointRoundingMode) -> (r: (u64, bool))
        requires
            v.wf(),
            self.legal(v@.config, vd),
            i < v@.config.vl,
        ensures
            r == self.value(v@, i as int, mode),
    {
        let w = v.config.vsew.width();
        match self {
            FixedOp::Single { op, vs2, rhs } => op.apply(
                w,
                element::fetch(v, vs2, i, w),
                element::operand(v, rhs, i, w),
                mode,
            ),
            FixedOp::Clip { signed, vs2, rhs } => {
                let w2 = element::double_width(w);
                let a: u64 = element::fetch(v, vs2, i, w2);
                let b: u64 = element::operand(v, rhs, i, w);
                let shift: u32 = (b % (w2.bits() as u64)) as u32;
                if signed {
                    Fit::Signed.apply(w, round_off(signed_of(w2, a), shift, mode))
                } else {
                    Fit::Unsigned.apply(w, round_off(a as i128, shift, mode))
                }
            },
        }
    }
}

impl Vector {
    /// Executes a fixed-point instruction. The result says whether an element was saturated.
    pub fn exec_fixed_point(
        &mut self,
        f: FixedOp,
        vd: u8,
        masked: bool,
        vstart: u64,
        mode: FixedPointRoundingMode,
    ) -> (r: Result<bool, Exception>)
        requires
            old(self).wf(),
        ensures
            final(self).wf(),
            final(self)@ == f.applied(old(self)@, vd, masked, vstart, mode).0,
            r == f.applied(old(self)@, vd, masked, vstart, mode).1,
    {
        if !f.check(self.config, vd) {
            return Err(Exception::IllegalInstruction);
        }
        let w = self.config.vsew.width();
        let n: usize = self.config.vl as usize;
        let mut out: Vec<Option<u64>> = Vec::new();
        let mut saturated: bool = false;
        let mut i: usize = 0;
        while i < n
            invariant
                i <= n,
                n == self@.config.vl,
                self.wf(),
                *self == *old(self),
                f.legal(self@.config, vd),
                out@ =~= f.results(self@, masked, vstart, mode).take(i as int),
                saturated == f.saturates(self@, masked, vstart, mode, i as int),
            decreases n - i,
        {
            let ghost before = saturated;
            let r = if self.is_active(i, masked, vstart) {
                let (value, flag) = f.compute(self, i, vd, mode);
                saturated = saturated || flag;
                Some(value)
            } else {
                None
            };
            out.push(r);
            proof {
                let s = self@;
                if before {
                    let j = choose|j: int|
                        0 <= j < i && s.active(j, masked, vstart) && (#[trigger] f.value(
                            s,
                            j,
                            mode,
                        )).1;
                    assert(0 <= j < i + 1 && s.active(j, masked, vstart) && f.value(s, j, mode).1);
                }
                if saturated && !before {
                    assert(f.value(s, i as int, mode).1);
                }
            }
            i = i + 1;
        }
        proof {
            element::lemma_results_fit(self.config, vd, w);
            assert(out@ =~= f.results(self@, masked, vstart, mode));
        }
        self.write_results(vd, w, &out);
        Ok(saturated)
    }
}

} // verus!
