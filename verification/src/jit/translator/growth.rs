//! That translating only ever adds code.
use vstd::prelude::*;

use crate::isa::riscv::instruction::info::RVInstrInfo;
use crate::isa::riscv::instruction::instr_table::RiscvInstr;
use crate::jit::backend::x86::code::HostInstr;
use crate::jit::backend::x86::{CallArg, X86Reg};
use crate::jit::jit_function::JitInfo;

use super::reg_assign::GuestAccess;
use super::{GenState, Surroundings};

verus! {

/// Whether the code of a block begins with the code of another one.
#[verifier::opaque]
pub open spec fn grows(s: GenState, u: GenState) -> bool {
    s.code.is_prefix_of(u.code)
}

/// Growing twice is growing.
proof fn lemma_twice()
    ensures
        forall|a: GenState| #[trigger] grows(a, a),
        forall|a: GenState, b: GenState, c: GenState| #[trigger]
            grows(a, b) && #[trigger] grows(b, c) ==> grows(a, c),
{
    reveal(grows);
    assert forall|a: GenState, b: GenState, c: GenState| #[trigger]
        grows(a, b) && #[trigger] grows(b, c) implies grows(a, c) by {
        assert(a.code =~= c.code.subrange(0, a.code.len() as int));
    }
}

/// Every single thing that is done to a block adds to its code.
proof fn lemma_each()
    ensures
        forall|s: GenState, guest: u8, access: GuestAccess|
            #![trigger s.guest(guest, access)]
            grows(s, s.guest(guest, access)),
        forall|s: GenState| #![trigger s.scratch()] grows(s, s.scratch()),
        forall|s: GenState, r: X86Reg| #![trigger s.host(r)] grows(s, s.host(r)),
        forall|s: GenState, r: X86Reg| #![trigger s.release(r)] grows(s, s.release(r)),
        forall|s: GenState, i: HostInstr| #![trigger s.emit(i)] grows(s, s.emit(i)),
        forall|s: GenState| #![trigger s.flush()] grows(s, s.flush()),
        forall|s: GenState| #![trigger s.flush_for_call()] grows(s, s.flush_for_call()),
        forall|s: GenState, target: u64, args: Seq<CallArg>|
            #![trigger s.call(target, args)]
            grows(s, s.call(target, args)),
{
    reveal(grows);
    reveal(GenState::guest);
    reveal(GenState::scratch);
    reveal(GenState::host);
    reveal(GenState::release);
    reveal(GenState::flush);
    reveal(GenState::flush_for_call);
}

/// A base instruction adds to the code.
proof fn lemma_rvi(
    s: GenState,
    around: Surroundings,
    instr: RiscvInstr,
    info: RVInstrInfo,
    context: JitInfo,
)
    ensures
        grows(s, s.rvi(around, instr, info, context).0),
{
    lemma_twice();
    lemma_each();
}

/// A compressed instruction adds to the code.
proof fn lemma_rvc(
    s: GenState,
    around: Surroundings,
    instr: RiscvInstr,
    info: RVInstrInfo,
    context: JitInfo,
)
    ensures
        grows(s, s.rvc(around, instr, info, context).0),
{
    lemma_twice();
    lemma_each();
}

/// An instruction adds to the code.
pub(crate) proof fn lemma_instruction(
    s: GenState,
    around: Surroundings,
    instr: RiscvInstr,
    info: RVInstrInfo,
    context: JitInfo,
)
    ensures
        s.code.is_prefix_of(s.instruction(around, instr, info, context).0.code),
{
    lemma_rvi(s, around, instr, info, context);
    lemma_rvc(s, around, instr, info, context);
    reveal(GenState::instruction);
    reveal(grows);
}

/// The end of a block adds to the code.
pub(crate) proof fn lemma_finished(s: GenState, next_pc: Option<u64>)
    ensures
        s.code.is_prefix_of(s.finished(next_pc).code),
{
    lemma_twice();
    lemma_each();
    assert(grows(s, s.finished(next_pc)));
    reveal(grows);
}

} // verus!
