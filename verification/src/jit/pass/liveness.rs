//! Where registers are defined and used.
use vstd::prelude::*;

use crate::jit::ir::{IRBlock, IRInst, IRReg, InstId, VReg};

verus! {

/// Where a register is defined and last used, and whether it is used after a call that comes after
/// its definition.
#[derive(Debug, Clone, Copy, PartialEq, Eq, Structural)]
pub struct Liveness {
    pub def: InstId,
    pub last_use: Option<InstId>,
    pub cross_call: bool,
}

impl Liveness {
    /// What is known of a register before its block is looked at.
    pub open spec fn unseen() -> Liveness {
        Liveness { def: 0, last_use: None, cross_call: false }
    }

    /// What is known after a use.
    pub open spec fn used(self, at: InstId, last_call: Option<InstId>) -> Liveness {
        Liveness {
            def: self.def,
            last_use: Some(at),
            cross_call: self.cross_call || (last_call is Some && last_call->0 > self.def),
        }
    }
}

/// The last call among the first `n` instructions.
pub open spec fn last_call(insts: Seq<IRInst>, n: int) -> Option<InstId>
    decreases n,
{
    if n <= 0 {
        None
    } else if insts[n - 1].is_call() {
        Some((n - 1) as u32)
    } else {
        last_call(insts, n - 1)
    }
}

/// What is known after the first `k` uses of an instruction.
pub open spec fn after_uses(
    table: Seq<Liveness>,
    uses: Seq<VReg>,
    k: int,
    at: InstId,
    call: Option<InstId>,
) -> Seq<Liveness>
    decreases k,
{
    if k <= 0 {
        table
    } else {
        let t = after_uses(table, uses, k - 1, at, call);
        let i = uses[k - 1].idx as int;
        t.update(i, t[i].used(at, call))
    }
}

/// What is known after a definition.
pub open spec fn after_def(table: Seq<Liveness>, def: Option<VReg>, at: InstId) -> Seq<Liveness> {
    match def {
        Some(v) => table.update(v.idx as int, Liveness { def: at, ..table[v.idx as int] }),
        None => table,
    }
}

/// What is known after the first `n` instructions.
pub open spec fn analyzed(insts: Seq<IRInst>, n: int, count: nat) -> Seq<Liveness>
    decreases n,
{
    if n <= 0 {
        Seq::new(count, |i: int| Liveness::unseen())
    } else {
        let at = (n - 1) as u32;
        let inst = insts[n - 1];
        after_def(
            after_uses(
                analyzed(insts, n - 1, count),
                inst.uses(),
                inst.uses().len() as int,
                at,
                last_call(insts, n - 1),
            ),
            inst.defined(),
            at,
        )
    }
}

proof fn lemma_after_uses(
    table: Seq<Liveness>,
    uses: Seq<VReg>,
    k: int,
    at: InstId,
    call: Option<InstId>,
)
    requires
        0 <= k <= uses.len(),
        forall|j: int| 0 <= j < uses.len() ==> (#[trigger] uses[j]).idx < table.len(),
    ensures
        after_uses(table, uses, k, at, call).len() == table.len(),
        forall|v: int|
            0 <= v < table.len() ==> (#[trigger] after_uses(table, uses, k, at, call)[v]).last_use
                == if exists|j: int| 0 <= j < k && (#[trigger] uses[j]).idx == v {
                Some(at)
            } else {
                table[v].last_use
            },
    decreases k,
{
    if k > 0 {
        lemma_after_uses(table, uses, k - 1, at, call);
        let before = after_uses(table, uses, k - 1, at, call);
        let after = after_uses(table, uses, k, at, call);
        assert forall|v: int| 0 <= v < table.len() implies (#[trigger] after[v]).last_use == if exists|
            j: int,
        |
            0 <= j < k && (#[trigger] uses[j]).idx == v {
            Some(at)
        } else {
            table[v].last_use
        } by {
            assert(before[v].last_use == before[v].last_use);
            if uses[k - 1].idx == v {
                assert(after[v].last_use == Some(at));
            }
        }
    }
}

/// Whether one of the instructions from `from` to `n` uses a register.
pub open spec fn used_between(insts: Seq<IRInst>, from: int, n: int, v: int) -> bool {
    exists|i: int, j: int|
        from <= i < n && 0 <= j < insts[i].uses().len() && (#[trigger] insts[i].uses()[j]).idx == v
}

/// The last use of a register is the last instruction that uses it.
pub proof fn law_last_use(insts: Seq<IRInst>, n: int, count: nat)
    requires
        0 <= n <= insts.len() <= u32::MAX,
        forall|i: int, k: int|
            #![trigger insts[i].uses()[k]]
            0 <= i < insts.len() && 0 <= k < insts[i].uses().len() ==> insts[i].uses()[k].idx
                < count,
        forall|i: int|
            0 <= i < insts.len() ==> match (#[trigger] insts[i]).defined() {
                Some(v) => v.idx < count,
                None => true,
            },
    ensures
        analyzed(insts, n, count).len() == count,
        forall|v: int|
            0 <= v < count ==> match (#[trigger] analyzed(insts, n, count)[v]).last_use {
                None => !used_between(insts, 0, n, v),
                Some(i) => i < n && used_between(insts, i as int, i + 1, v) && !used_between(
                    insts,
                    i + 1,
                    n,
                    v,
                ),
            },
    decreases n,
{
    if n > 0 {
        law_last_use(insts, n - 1, count);
        let before = analyzed(insts, n - 1, count);
        let inst = insts[n - 1];
        let uses = inst.uses();
        let at = (n - 1) as u32;
        let call = last_call(insts, n - 1);
        assert forall|j: int| 0 <= j < uses.len() implies (#[trigger] uses[j]).idx
            < before.len() by {
            assert(insts[n - 1].uses()[j].idx < count);
        }
        lemma_after_uses(before, uses, uses.len() as int, at, call);
        let mid = after_uses(before, uses, uses.len() as int, at, call);
        let after = analyzed(insts, n, count);
        assert forall|v: int| 0 <= v < count implies match (#[trigger] after[v]).last_use {
            None => !used_between(insts, 0, n, v),
            Some(i) => i < n && used_between(insts, i as int, i + 1, v) && !used_between(
                insts,
                i + 1,
                n,
                v,
            ),
        } by {
            assert(after[v].last_use == mid[v].last_use);
            assert(before[v].last_use == before[v].last_use);
            if exists|j: int| 0 <= j < uses.len() && (#[trigger] uses[j]).idx == v {
                let j = choose|j: int| 0 <= j < uses.len() && (#[trigger] uses[j]).idx == v;
                assert(insts[n - 1].uses()[j].idx == v);
                assert(used_between(insts, n - 1, n, v));
            } else {
                assert(!used_between(insts, n - 1, n, v));
            }
        }
    } else {
        assert forall|v: int| !used_between(insts, 0, 0, v) by {}
    }
}

/// Finds where the registers of a block are defined and used.
pub struct LivenessPass;

impl LivenessPass {
    /// What is known of each register of a block.
    pub fn analyze(block: &IRBlock) -> (r: Vec<Liveness>)
        requires
            block.wf(),
            block.insts@.len() <= u32::MAX,
        ensures
            r@ == analyzed(
                block.insts@,
                block.insts@.len() as int,
                block.vreg_count as nat,
            ),
            r@.len() == block.vreg_count,
    {
        let count: usize = block.vreg_count() as usize;
        let mut table: Vec<Liveness> = Vec::new();
        let mut i: usize = 0;
        while i < count
            invariant
                i <= count,
                table@ =~= Seq::new(i as nat, |k: int| Liveness::unseen()),
            decreases count - i,
        {
            table.push(Liveness { def: 0, last_use: None, cross_call: false });
            i = i + 1;
        }
        let mut call: Option<InstId> = None;
        let mut idx: usize = 0;
        while idx < block.insts.len()
            invariant
                idx <= block.insts@.len() <= u32::MAX,
                block.wf(),
                count == block.vreg_count,
                table@.len() == count,
                table@ == analyzed(block.insts@, idx as int, count as nat),
                call == last_call(block.insts@, idx as int),
            decreases block.insts@.len() - idx,
        {
            let inst = &block.insts[idx];
            let at: InstId = idx as u32;
            let mut uses: Vec<VReg> = Vec::new();
            inst.for_each_use(&mut uses);
            assert(uses@ =~= inst.uses());
            let ghost before = table@;
            let mut k: usize = 0;
            while k < uses.len()
                invariant
                    k <= uses@.len(),
                    uses@ == inst.uses(),
                    inst == &block.insts@[idx as int],
                    idx < block.insts@.len(),
                    block.wf(),
                    count == block.vreg_count,
                    table@.len() == count,
                    before.len() == count,
                    table@ == after_uses(before, uses@, k as int, at, call),
                decreases uses@.len() - k,
            {
                assert(block.insts@[idx as int].uses()[k as int].idx < block.vreg_count);
                let v: usize = uses[k].index();
                let info = table[v];
                let crosses = match call {
                    Some(last) => last > info.def,
                    None => false,
                };
                table.set(
                    v,
                    Liveness {
                        def: info.def,
                        last_use: Some(at),
                        cross_call: info.cross_call || crosses,
                    },
                );
                k = k + 1;
            }
            if let Some(v) = inst.def() {
                let old_info = table[v.index()];
                table.set(
                    v.index(),
                    Liveness {
                        def: at,
                        last_use: old_info.last_use,
                        cross_call: old_info.cross_call,
                    },
                );
            }
            if let IRInst::Call { .. } = inst {
                call = Some(at);
            }
            idx = idx + 1;
        }
        table
    }
}

} // verus!
