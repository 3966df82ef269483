//! Building blocks, with what is known at once computed at once.
use vstd::prelude::*;

use super::{ALUKind, GuestReg, IRBlock, IRInst, IRReg, InstId, VReg, Value};

verus! {

/// A block that is being built.
pub struct IRBuilder {
    pub guest_map: Vec<Option<Value>>,
    pub insts: Vec<IRInst>,
    pub next: InstId,
}

/// The registers of a block and their values while it runs.
pub type Env = Map<InstId, u64>;

/// The registers after an instruction, with the registers of the guest at the start of the block.
pub open spec fn run_inst(env: Env, guest: Seq<u64>, inst: IRInst) -> Env {
    match inst {
        IRInst::Const { dst, src } => env.insert(dst.idx, src),
        IRInst::GetReg { dst, src } => env.insert(dst.idx, guest[src.idx as int]),
        IRInst::Compute { kind, dst, src1, src2 } => env.insert(
            dst.idx,
            kind.result(env[src1.idx], env[src2.idx]),
        ),
        IRInst::ComputeImm { kind, dst, src1, src2 } => env.insert(
            dst.idx,
            kind.result(env[src1.idx], src2),
        ),
        _ => env,
    }
}

/// The registers after the first `n` instructions.
pub open spec fn run_insts(insts: Seq<IRInst>, n: int, guest: Seq<u64>) -> Env
    decreases n,
{
    if n <= 0 {
        Map::empty()
    } else {
        run_inst(run_insts(insts, n - 1, guest), guest, insts[n - 1])
    }
}

/// The word that an operand stands for.
pub open spec fn meaning(env: Env, v: Value) -> u64 {
    match v {
        Value::Imm(imm) => imm,
        Value::VReg(r) => env[r.idx],
    }
}

/// Whether an operand names no register that is still to come.
pub open spec fn known(v: Value, next: InstId) -> bool {
    match v {
        Value::Imm(_) => true,
        Value::VReg(r) => r.idx < next,
    }
}

/// The instructions that compute an operation on two operands, and the operand for the result,
/// with `next` as the first register that is free.
pub open spec fn computation(kind: ALUKind, src1: Value, src2: Value, next: InstId) -> (
    Seq<IRInst>,
    Value,
) {
    let dst = VReg { idx: next };
    match (src1, src2) {
        (Value::Imm(lhs), Value::Imm(rhs)) => (Seq::empty(), Value::Imm(kind.result(lhs, rhs))),
        (Value::VReg(v), Value::Imm(imm)) => if imm == kind.neutral() {
            (Seq::empty(), src1)
        } else {
            (seq![IRInst::ComputeImm { kind, dst, src1: v, src2: imm }], Value::VReg(dst))
        },
        (Value::Imm(imm), Value::VReg(v)) => if kind == ALUKind::Sub {
            let second = VReg { idx: (next + 1) as u32 };
            (
                seq![
                    IRInst::Const { dst, src: imm },
                    IRInst::Compute { kind, dst: second, src1: dst, src2: v },
                ],
                Value::VReg(second),
            )
        } else if imm == kind.neutral() {
            (Seq::empty(), src2)
        } else {
            (seq![IRInst::ComputeImm { kind, dst, src1: v, src2: imm }], Value::VReg(dst))
        },
        (Value::VReg(lhs), Value::VReg(rhs)) => (
            seq![IRInst::Compute { kind, dst, src1: lhs, src2: rhs }],
            Value::VReg(dst),
        ),
    }
}

proof fn lemma_run_prefix(a: Seq<IRInst>, b: Seq<IRInst>, n: int, guest: Seq<u64>)
    requires
        0 <= n <= a.len(),
    ensures
        run_insts(a + b, n, guest) == run_insts(a, n, guest),
    decreases n,
{
    if n > 0 {
        lemma_run_prefix(a, b, n - 1, guest);
        assert((a + b)[n - 1] == a[n - 1]);
    }
}

/// The instructions for an operation leave its result in the operand that stands for it, and
/// leave every register that came before as it was.
pub proof fn law_compute_means(
    insts: Seq<IRInst>,
    kind: ALUKind,
    src1: Value,
    src2: Value,
    next: InstId,
    guest: Seq<u64>,
)
    requires
        known(src1, next),
        known(src2, next),
        next < u32::MAX - 1,
    ensures
        ({
            let before = run_insts(insts, insts.len() as int, guest);
            let (code, value) = computation(kind, src1, src2, next);
            let whole = insts + code;
            let after = run_insts(whole, whole.len() as int, guest);
            &&& meaning(after, value) == kind.result(
                meaning(before, src1),
                meaning(before, src2),
            )
            &&& forall|i: InstId| i < next ==> #[trigger] after[i] == before[i]
        }),
{
    let n = insts.len() as int;
    let before = run_insts(insts, n, guest);
    let (code, value) = computation(kind, src1, src2, next);
    let whole = insts + code;
    lemma_run_prefix(insts, code, n, guest);
    super::law_alu_identities(kind, meaning(before, src1), meaning(before, src2));
    super::law_alu_identities(kind, meaning(before, src2), meaning(before, src1));
    if code.len() >= 1 {
        assert(whole[n] == code[0]);
        assert(run_insts(whole, n + 1, guest) == run_inst(before, guest, code[0]));
    }
    if code.len() == 2 {
        assert(whole[n + 1] == code[1]);
        assert(run_insts(whole, n + 2, guest) == run_inst(
            run_insts(whole, n + 1, guest),
            guest,
            code[1],
        ));
    }
}

impl IRBuilder {
    /// Whether the operands of the guest registers and the instructions name only registers that
    /// were handed out, and each is defined once.
    pub open spec fn wf(&self) -> bool {
        &&& super::registers_below(self.insts@, self.next)
        &&& super::defined_once(self.insts@)
        &&& self.guest_map@.len() == 32
        &&& forall|i: int|
            0 <= i < 32 ==> match #[trigger] self.guest_map@[i] {
                Some(v) => known(v, self.next),
                None => true,
            }
    }

    /// A block with no instruction.
    pub fn new() -> (r: IRBuilder)
        ensures
            r.wf(),
            r.insts@ == Seq::<IRInst>::empty(),
            r.next == 0,
            forall|i: int| 0 <= i < 32 ==> #[trigger] r.guest_map@[i] is None,
    {
        let mut guest_map: Vec<Option<Value>> = Vec::new();
        let mut i: usize = 0;
        while i < 32
            invariant
                i <= 32,
                guest_map@.len() == i,
                forall|k: int| 0 <= k < i ==> #[trigger] guest_map@[k] is None,
            decreases 32 - i,
        {
            guest_map.push(None);
            i = i + 1;
        }
        IRBuilder { guest_map, insts: Vec::new(), next: 0 }
    }

    fn alloc_vreg(&mut self) -> (r: VReg)
        requires
            old(self).next < u32::MAX,
        ensures
            r.idx == old(self).next,
            final(self).next == old(self).next + 1,
            final(self).guest_map == old(self).guest_map,
            final(self).insts == old(self).insts,
    {
        let reg = VReg { idx: self.next };
        self.next = self.next + 1;
        reg
    }

    /// The operand for a register of the guest. Register 0 is 0; a register that was set is what it
    /// was set to; another one is fetched.
    pub fn get_reg(&mut self, guest: GuestReg) -> (r: Value)
        requires
            old(self).wf(),
            guest.idx < 32,
            old(self).next < u32::MAX,
        ensures
            final(self).wf(),
            final(self).guest_map == old(self).guest_map,
            guest.idx == 0 ==> r == Value::Imm(0),
            guest.idx != 0 && old(self).guest_map@[guest.idx as int] is Some ==> r
                == old(self).guest_map@[guest.idx as int]->0,
            guest.idx == 0 || old(self).guest_map@[guest.idx as int] is Some
                ==> final(self).insts == old(self).insts && final(self).next == old(self).next,
            guest.idx != 0 && old(self).guest_map@[guest.idx as int] is None ==> {
                let dst = VReg { idx: old(self).next };
                &&& r == Value::VReg(dst)
                &&& final(self).next == old(self).next + 1
                &&& final(self).insts@ == old(self).insts@.push(IRInst::GetReg { dst, src: guest })
                &&& forall|i: int|
                    0 <= i < old(self).insts@.len() ==> (#[trigger] old(self).insts@[i]).defined()
                        != Some(dst)
            },
    {
        if guest.index() == 0 {
            return Value::from(0u64);
        }
        if let Some(value) = self.guest_map[guest.index()] {
            return value;
        }
        let vreg = self.alloc_vreg();
        self.insts.push(IRInst::GetReg { dst: vreg, src: guest });
        Value::from(vreg)
    }

    /// Sets a register of the guest. Register 0 cannot be set.
    pub fn set_reg(&mut self, guest: GuestReg, value: Value)
        requires
            old(self).wf(),
            guest.idx < 32,
            known(value, old(self).next),
        ensures
            final(self).wf(),
            final(self).insts == old(self).insts,
            final(self).next == old(self).next,
            final(self).guest_map@ == if guest.idx == 0 {
                old(self).guest_map@
            } else {
                old(self).guest_map@.update(guest.idx as int, Some(value))
            },
    {
        if guest.index() == 0 {
            return;
        }
        self.guest_map.set(guest.index(), Some(value));
    }

    /// The operand for the result of an operation. Nothing is computed twice that is known now.
    pub fn compute(&mut self, kind: ALUKind, src1: Value, src2: Value) -> (r: Value)
        requires
            old(self).wf(),
            old(self).next < u32::MAX - 1,
            known(src1, old(self).next),
            known(src2, old(self).next),
        ensures
            final(self).wf(),
            final(self).guest_map == old(self).guest_map,
            final(self).insts@ == old(self).insts@ + computation(
                kind,
                src1,
                src2,
                old(self).next,
            ).0,
            final(self).next == old(self).next + computation(
                kind,
                src1,
                src2,
                old(self).next,
            ).0.len(),
            r == computation(kind, src1, src2, old(self).next).1,
            known(r, final(self).next),
    {
        let r = match (src1, src2, kind.commutative()) {
            (Value::Imm(lhs), Value::Imm(rhs), _) => Value::Imm(kind.compute(lhs, rhs)),
            (Value::VReg(vreg), Value::Imm(imm), _) | (Value::Imm(imm), Value::VReg(vreg), true) => {
                if kind.right_identity() == Some(imm) {
                    Value::VReg(vreg)
                } else {
                    let dst = self.alloc_vreg();
                    self.insts.push(IRInst::ComputeImm { kind, dst, src1: vreg, src2: imm });
                    Value::VReg(dst)
                }
            },
            (Value::Imm(imm), Value::VReg(rhs), false) => {
                if kind.left_identity() == Some(imm) {
                    Value::VReg(rhs)
                } else {
                    let lhs = self.alloc_vreg();
                    self.insts.push(IRInst::Const { dst: lhs, src: imm });
                    let dst = self.alloc_vreg();
                    self.insts.push(IRInst::Compute { kind, dst, src1: lhs, src2: rhs });
                    Value::VReg(dst)
                }
            },
            (Value::VReg(lhs), Value::VReg(rhs), _) => {
                let dst = self.alloc_vreg();
                self.insts.push(IRInst::Compute { kind, dst, src1: lhs, src2: rhs });
                Value::VReg(dst)
            },
        };
        assert(self.insts@ =~= old(self).insts@ + computation(kind, src1, src2, old(self).next).0);
        r
    }

    /// The block. It ends where a block can end, and each of its registers is defined once.
    pub fn build(self) -> (r: IRBlock)
        requires
            self.wf(),
            self.insts@.len() > 0,
            self.insts@.last().ends_block(),
        ensures
            r.insts == self.insts,
            r.vreg_count == self.next,
            r.wf(),
            super::registers_below(r.insts@, r.vreg_count),
            super::defined_once(r.insts@),
    {
        IRBlock { insts: self.insts, vreg_count: self.next }
    }
}

} // verus!
