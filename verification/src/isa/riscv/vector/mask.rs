//! Vector instructions on masks.
use vstd::prelude::*;

use crate::isa::riscv::trap::Exception;
use crate::utils::Width;

use super::element;
use super::element::{count_bits, Rhs};
use super::state;
use super::state::{Vector, VectorState};
use super::types::VectorConfig;

verus! {

/// A comparison of two elements.
#[derive(Clone, Copy, Debug, PartialEq, Eq, Structural)]
pub enum MaskRelation {
    Eq,
    Ne,
    Ltu,
    Lt,
    Leu,
    Le,
    Gtu,
    Gt,
}

/// A logical operation on two mask bits.
#[derive(Clone, Copy, Debug, PartialEq, Eq, Structural)]
pub enum MaskLogic {
    And,
    Nand,
    Andn,
    Xor,
    Or,
    Nor,
    Orn,
    Xnor,
}

/// Which bits an instruction sets around the first set bit of a mask.
#[derive(Clone, Copy, Debug, PartialEq, Eq, Structural)]
pub enum FirstBit {
    Before,
    Only,
    Including,
}

/// What an instruction computes for each bit of a mask.
#[allow(inconsistent_fields)]
#[derive(Clone, Copy, Debug, PartialEq, Eq, Structural)]
pub enum MaskFn {
    Compare { op: MaskRelation, vs2: u8, rhs: Rhs },
    /// The carry of an addition or the borrow of a subtraction, with the carry in `v0` if `with`.
    CarryOut { subtract: bool, vs2: u8, rhs: Rhs, with: bool },
    Logic { op: MaskLogic, vs2: u8, vs1: u8 },
    First { kind: FirstBit, vs2: u8, masked: bool },
}

impl MaskRelation {
    pub open spec fn holds(self, w: Width, a: u64, b: u64) -> bool {
        match self {
            MaskRelation::Eq => a == b,
            MaskRelation::Ne => a != b,
            MaskRelation::Ltu => a < b,
            MaskRelation::Lt => w.signed(a) < w.signed(b),
            MaskRelation::Leu => a <= b,
            MaskRelation::Le => w.signed(a) <= w.signed(b),
            MaskRelation::Gtu => a > b,
            MaskRelation::Gt => w.signed(a) > w.signed(b),
        }
    }

    fn check(self, w: Width, a: u64, b: u64) -> (r: bool)
        requires
            w.holds(a),
            w.holds(b),
        ensures
            r == self.holds(w, a, b),
    {
        match self {
            MaskRelation::Eq => a == b,
            MaskRelation::Ne => a != b,
            MaskRelation::Ltu => a < b,
            MaskRelation::Lt => less_signed(w, a, b),
            MaskRelation::Leu => a <= b,
            MaskRelation::Le => !less_signed(w, b, a),
            MaskRelation::Gtu => a > b,
            MaskRelation::Gt => less_signed(w, b, a),
        }
    }
}

fn less_signed(w: Width, a: u64, b: u64) -> (r: bool)
    requires
        w.holds(a),
        w.holds(b),
    ensures
        r == (w.signed(a) < w.signed(b)),
{
    if w.is_negative(a) == w.is_negative(b) {
        a < b
    } else {
        w.is_negative(a)
    }
}

impl MaskLogic {
    /// The result for the bits of `vs2` and `vs1`.
    pub open spec fn value(self, a: bool, b: bool) -> bool {
        match self {
            MaskLogic::And => a && b,
            MaskLogic::Nand => !(a && b),
            MaskLogic::Andn => a && !b,
            MaskLogic::Xor => a != b,
            MaskLogic::Or => a || b,
            MaskLogic::Nor => !(a || b),
            MaskLogic::Orn => a || !b,
            MaskLogic::Xnor => a == b,
        }
    }

    fn apply(self, a: bool, b: bool) -> (r: bool)
        ensures
            r == self.value(a, b),
    {
        match self {
            MaskLogic::And => a && b,
            MaskLogic::Nand => !(a && b),
            MaskLogic::Andn => a && !b,
            MaskLogic::Xor => a != b,
            MaskLogic::Or => a || b,
            MaskLogic::Nor => !(a || b),
            MaskLogic::Orn => a || !b,
            MaskLogic::Xnor => a == b,
        }
    }
}

/// Whether bit `i` of the mask `vs2` is set and counts.
pub open spec fn counts(bytes: Seq<u8>, vs2: u8, masked: bool, i: int) -> bool {
    (!masked || state::mask_bit(bytes, 0, i)) && state::mask_bit(bytes, vs2, i)
}

/// The first index from `i` below `n` whose bit is set and counts, or `n`.
pub open spec fn first_from(bytes: Seq<u8>, vs2: u8, masked: bool, i: int, n: int) -> int
    decreases n - i,
{
    if i >= n {
        n
    } else if counts(bytes, vs2, masked, i) {
        i
    } else {
        first_from(bytes, vs2, masked, i + 1, n)
    }
}

/// Finds the first set bit of a mask among the first `n`.
pub fn find_first(v: &Vector, vs2: u8, masked: bool, n: usize) -> (r: usize)
    requires
        v.wf(),
        vs2 < 32,
        n <= 128,
    ensures
        r == first_from(v@.bytes, vs2, masked, 0, n as int),
        r <= n,
{
    let mut i: usize = 0;
    while i < n
        invariant
            i <= n,
            n <= 128,
            v.wf(),
            vs2 < 32,
            first_from(v@.bytes, vs2, masked, 0, n as int) == first_from(
                v@.bytes,
                vs2,
                masked,
                i as int,
                n as int,
            ),
        decreases n - i,
    {
        if (!masked || v.get_bit(0, i)) && v.get_bit(vs2, i) {
            return i;
        }
        i = i + 1;
    }
    n
}

/// The first set bit is set, and none before it is.
pub proof fn law_first_set_bit(bytes: Seq<u8>, vs2: u8, masked: bool, i: int, n: int)
    requires
        i <= n,
    ensures
        i <= first_from(bytes, vs2, masked, i, n) <= n,
        first_from(bytes, vs2, masked, i, n) < n ==> counts(
            bytes,
            vs2,
            masked,
            first_from(bytes, vs2, masked, i, n),
        ),
        forall|j: int|
            i <= j < first_from(bytes, vs2, masked, i, n) ==> !#[trigger] counts(
                bytes,
                vs2,
                masked,
                j,
            ),
    decreases n - i,
{
    if i < n && !counts(bytes, vs2, masked, i) {
        law_first_set_bit(bytes, vs2, masked, i + 1, n);
    }
}

impl MaskFn {
    /// Whether the operands name register groups and the instruction may start at `vstart`.
    pub open spec fn legal(self, c: VectorConfig, vstart: u64) -> bool {
        let w = c.vsew.spec_width();
        match self {
            MaskFn::Compare { vs2, rhs, .. } => c.group_ok(vs2, w) && rhs.ok(c, w),
            MaskFn::CarryOut { vs2, rhs, .. } => c.group_ok(vs2, w) && rhs.ok(c, w),
            MaskFn::Logic { vs2, vs1, .. } => vs2 < 32 && vs1 < 32,
            MaskFn::First { vs2, .. } => vs2 < 32 && vstart == 0,
        }
    }

    /// The result for bit `i`.
    pub open spec fn value(self, s: VectorState, i: int) -> bool {
        let w = s.sew();
        match self {
            MaskFn::Compare { op, vs2, rhs } => op.holds(
                w,
                state::element(s.bytes, vs2, i, w),
                rhs.value(s, i, w),
            ),
            MaskFn::CarryOut { subtract, vs2, rhs, with } => {
                let carry = if with && state::mask_bit(s.bytes, 0, i) {
                    1int
                } else {
                    0
                };
                let a = state::element(s.bytes, vs2, i, w);
                let b = rhs.value(s, i, w);
                if subtract {
                    a - b - carry < 0
                } else {
                    a + b + carry >= w.modulus()
                }
            },
            MaskFn::Logic { op, vs2, vs1 } => op.value(
                state::mask_bit(s.bytes, vs2, i),
                state::mask_bit(s.bytes, vs1, i),
            ),
            MaskFn::First { kind, vs2, masked } => {
                let f = first_from(s.bytes, vs2, masked, 0, s.config.vl as int);
                match kind {
                    FirstBit::Before => i < f,
                    FirstBit::Only => i == f,
                    FirstBit::Including => i <= f,
                }
            },
        }
    }

    /// The results for all bits. A bit that the instruction does not work on has none.
    pub open spec fn results(self, s: VectorState, masked: bool, vstart: u64) -> Seq<Option<bool>> {
        Seq::new(
            s.config.vl as nat,
            |i: int|
                if s.active(i, masked, vstart) {
                    Some(self.value(s, i))
                } else {
                    None
                },
        )
    }

    /// The unit after the instruction, and whether it is legal.
    pub open spec fn applied(self, s: VectorState, vd: u8, masked: bool, vstart: u64) -> (
        VectorState,
        Result<(), Exception>,
    ) {
        if vd < 32 && self.legal(s.config, vstart) {
            (s.with_mask_results(vd, self.results(s, masked, vstart)), Ok(()))
        } else {
            (s, Err(Exception::IllegalInstruction))
        }
    }

    fn check(self, c: VectorConfig, vstart: u64) -> (r: bool)
        ensures
            r == self.legal(c, vstart),
    {
        let w = c.vsew.width();
        match self {
            MaskFn::Compare { op: _, vs2, rhs } => c.check_group(vs2, w) && rhs.is_ok(c, w),
            MaskFn::CarryOut { subtract: _, vs2, rhs, with: _ } => c.check_group(vs2, w)
                && rhs.is_ok(c, w),
            MaskFn::Logic { op: _, vs2, vs1 } => vs2 < 32 && vs1 < 32,
            MaskFn::First { kind: _, vs2, masked: _ } => vs2 < 32 && vstart == 0,
        }
    }

    /// Computes the result for one bit.
    fn compute(self, v: &Vector, i: usize, vstart: u64) -> (r: bool)
        requires
            v.wf(),
            self.legal(v@.config, vstart),
            i < v@.config.vl,
        ensures
            r == self.value(v@, i as int),
    {
        let w = v.config.vsew.width();
        proof {
            state::lemma_vl_bound(v.config);
        }
        match self {
            MaskFn::Compare { op, vs2, rhs } => op.check(
                w,
                element::fetch(v, vs2, i, w),
                element::operand(v, rhs, i, w),
            ),
            MaskFn::CarryOut { subtract, vs2, rhs, with } => {
                let a: u128 = element::fetch(v, vs2, i, w) as u128;
                let b: u128 = element::operand(v, rhs, i, w) as u128;
                let c: u128 = if with && v.get_bit(0, i) {
                    1
                } else {
                    0
                };
                if subtract {
                    a < b + c
                } else {
                    a + b + c > w.max_value() as u128
                }
            },
            MaskFn::Logic { op, vs2, vs1 } => op.apply(v.get_bit(vs2, i), v.get_bit(vs1, i)),
            MaskFn::First { kind, vs2, masked } => {
                let f: usize = find_first(v, vs2, masked, v.config.vl as usize);
                match kind {
                    FirstBit::Before => i < f,
                    FirstBit::Only => i == f,
                    FirstBit::Including => i <= f,
                }
            },
        }
    }
}

impl Vector {
    /// Executes an instruction whose result is a mask.
    pub fn exec_mask(&mut self, f: MaskFn, vd: u8, masked: bool, vstart: u64) -> (r: Result<
        (),
        Exception,
    >)
        requires
            old(self).wf(),
        ensures
            final(self).wf(),
            final(self)@ == f.applied(old(self)@, vd, masked, vstart).0,
            r == f.applied(old(self)@, vd, masked, vstart).1,
    {
        if !(vd < 32 && f.check(self.config, vstart)) {
            return Err(Exception::IllegalInstruction);
        }
        let n: usize = self.config.vl as usize;
        let mut out: Vec<Option<bool>> = Vec::new();
        let mut i: usize = 0;
        while i < n
            invariant
                i <= n,
                n == self@.config.vl,
                self.wf(),
                *self == *old(self),
                f.legal(self@.config, vstart),
                out@ =~= f.results(self@, masked, vstart).take(i as int),
            decreases n - i,
        {
            let r = if self.is_active(i, masked, vstart) {
                Some(f.compute(self, i, vstart))
            } else {
                None
            };
            out.push(r);
            i = i + 1;
        }
        proof {
            state::lemma_vl_bound(self.config);
            assert(out@ =~= f.results(self@, masked, vstart));
        }
        self.write_mask(vd, &out);
        Ok(())
    }
}

/// What counting the set bits of a mask gives.
pub open spec fn population(s: VectorState, vs2: u8, masked: bool, vstart: u64) -> Result<
    u64,
    Exception,
> {
    if vs2 < 32 && vstart == 0 {
        Ok(element::count_set(s.bytes, vs2, masked, s.config.vl as int) as u64)
    } else {
        Err(Exception::IllegalInstruction)
    }
}

/// What finding the first set bit of a mask gives.
pub open spec fn first_index(s: VectorState, vs2: u8, masked: bool, vstart: u64) -> Result<
    u64,
    Exception,
> {
    if vs2 < 32 && vstart == 0 {
        let f = first_from(s.bytes, vs2, masked, 0, s.config.vl as int);
        Ok(
            if f == s.config.vl {
                u64::MAX
            } else {
                f as u64
            },
        )
    } else {
        Err(Exception::IllegalInstruction)
    }
}

impl Vector {
    /// Counts the set bits of a mask.
    pub fn exec_population(&self, vs2: u8, masked: bool, vstart: u64) -> (r: Result<u64, Exception>)
        requires
            self.wf(),
        ensures
            r == population(self@, vs2, masked, vstart),
    {
        if vs2 < 32 && vstart == 0 {
            proof {
                state::lemma_vl_bound(self.config);
            }
            Ok(count_bits(self, vs2, masked, self.config.vl as usize))
        } else {
            Err(Exception::IllegalInstruction)
        }
    }

    /// Finds the first set bit of a mask.
    pub fn exec_first(&self, vs2: u8, masked: bool, vstart: u64) -> (r: Result<u64, Exception>)
        requires
            self.wf(),
        ensures
            r == first_index(self@, vs2, masked, vstart),
    {
        if vs2 < 32 && vstart == 0 {
            proof {
                state::lemma_vl_bound(self.config);
            }
            let f: usize = find_first(self, vs2, masked, self.config.vl as usize);
            if f == self.config.vl as usize {
                Ok(u64::MAX)
            } else {
                Ok(f as u64)
            }
        } else {
            Err(Exception::IllegalInstruction)
        }
    }
}

/// The elements below `n` of `vs2` whose bit in the mask `vs1` is set, in their order.
pub open spec fn selected(s: VectorState, vs1: u8, vs2: u8, n: int) -> Seq<Option<u64>>
    decreases n,
{
    if n <= 0 {
        Seq::empty()
    } else {
        let before = selected(s, vs1, vs2, n - 1);
        if state::mask_bit(s.bytes, vs1, n - 1) {
            before.push(Some(state::element(s.bytes, vs2, n - 1, s.sew())))
        } else {
            before
        }
    }
}

/// The unit after packing the selected elements of `vs2` at the start of `vd`.
pub open spec fn compressed(s: VectorState, vs1: u8, vs2: u8, vd: u8, vstart: u64) -> (
    VectorState,
    Result<(), Exception>,
) {
    if vs1 < 32 && vstart == 0 && s.config.group_ok(vs2, s.sew()) && s.config.group_ok(
        vd,
        s.sew(),
    ) {
        (s.with_results(vd, s.sew(), selected(s, vs1, vs2, s.config.vl as int)), Ok(()))
    } else {
        (s, Err(Exception::IllegalInstruction))
    }
}

impl Vector {
    /// Packs the elements of `vs2` that the mask `vs1` selects at the start of `vd`.
    pub fn exec_compress(&mut self, vs1: u8, vs2: u8, vd: u8, vstart: u64) -> (r: Result<
        (),
        Exception,
    >)
        requires
            old(self).wf(),
        ensures
            final(self).wf(),
            final(self)@ == compressed(old(self)@, vs1, vs2, vd, vstart).0,
            r == compressed(old(self)@, vs1, vs2, vd, vstart).1,
    {
        let w = self.config.vsew.width();
        if !(vs1 < 32 && vstart == 0 && self.config.check_group(vs2, w) && self.config.check_group(
            vd,
            w,
        )) {
            return Err(Exception::IllegalInstruction);
        }
        let n: usize = self.config.vl as usize;
        let mut out: Vec<Option<u64>> = Vec::new();
        let mut i: usize = 0;
        proof {
            state::lemma_vl_bound(self.config);
        }
        while i < n
            invariant
                i <= n,
                n <= 128,
                n == self@.config.vl,
                w == self@.sew(),
                vs1 < 32,
                self.wf(),
                *self == *old(self),
                self@.config.group_ok(vs2, w),
                out@ == selected(self@, vs1, vs2, i as int),
                out@.len() <= i,
            decreases n - i,
        {
            if self.get_bit(vs1, i) {
                out.push(Some(element::fetch(self, vs2, i, w)));
            }
            i = i + 1;
        }
        proof {
            element::lemma_results_fit(self.config, vd, w);
            let wb = w.spec_bytes();
            let len = out@.len() as int;
            assert(len * wb <= n * wb) by (nonlinear_arith)
                requires
                    0 <= len <= n,
                    wb >= 1,
            ;
        }
        self.write_results(vd, w, &out);
        Ok(())
    }
}

} // verus!
