//! What a step is for: fetching, executing and trapping, as relations between the hart before and
//! after.
use vstd::prelude::*;

use crate::device::MemError;
use crate::isa::riscv::csr_reg::csr_index;
use crate::isa::riscv::csr_reg::PrivilegeLevel;
use crate::isa::riscv::trap::trap_laws;
use crate::isa::riscv::trap::Exception;
use crate::utils::Width;

use super::CpuState;

verus! {

/// The cause that a failed access leaves: loads 4, 5 and 13, stores 6, 7 and 15, and fetches 0, 1 and
/// 12, for an address that is not aligned, that nothing answers, and that has no page.
pub proof fn law_access_causes(err: MemError)
    ensures
        Exception::of_memory_err(err).spec_code() == match err {
            MemError::LoadMisaligned => 4u64,
            MemError::LoadFault => 5,
            MemError::LoadPageFault => 13,
            MemError::StoreMisaligned => 6,
            MemError::StoreFault => 7,
            MemError::StorePageFault => 15,
        },
        Exception::of_instr_fetch_err(err).spec_code() == match err {
            MemError::LoadMisaligned | MemError::StoreMisaligned => 0u64,
            MemError::LoadFault | MemError::StoreFault => 1,
            MemError::LoadPageFault | MemError::StorePageFault => 12,
        },
{
}

/// A fetch reads two bytes, and two more behind them where the low bits of the first say that the
/// instruction has four; a half that cannot be read gives its own address for the trap value.
pub proof fn law_fetch(s: CpuState, addr: u64)
    ensures
        ({
            let (one, low) = s.instr_read(addr, Width::W16, true);
            let behind = ((addr + 2) % 0x1_0000_0000_0000_0000) as u64;
            let (two, high) = one.instr_read(behind, Width::W16, true);
            let (t, r) = s.instr_fetched(addr);
            match low {
                Err(e) => r is Err && r->Err_0.tval == addr && r->Err_0.cause
                    == Exception::of_instr_fetch_err(e),
                Ok(a) => if a % 4 != 3 {
                    t == one && r is Ok && r->Ok_0.val == a
                } else {
                    match high {
                        Err(e) => r is Err && r->Err_0.tval == behind && r->Err_0.cause
                            == Exception::of_instr_fetch_err(e),
                        Ok(b) => t == two && r is Ok && r->Ok_0.val == a + 0x1_0000 * b,
                    }
                },
            }
        }),
{
    reveal(CpuState::instr_fetched);
    lemma_read_half(s, addr);
    let one = s.instr_read(addr, Width::W16, true).0;
    lemma_read_half(one, Width::W64.wrap(addr + 2));
}

/// A half word that is read fits.
proof fn lemma_read_half(s: CpuState, addr: u64)
    ensures
        s.instr_read(addr, Width::W16, true).1 matches Ok(v) ==> v < 0x1_0000,
{
}

/// Whether a state is the one after an exception with a cause and a value at the program counter of
/// `s`: the registers of the level that handles it say so.
pub open spec fn trapped_with(s: CpuState, t: CpuState, cause: Exception, tval: u64) -> bool {
    let code = cause.spec_code();
    let down = s.csr.cpl != PrivilegeLevel::M && (s.csr.value(csr_index::medeleg) >> code) & 1 == 1;
    if down {
        &&& t.csr.cpl == PrivilegeLevel::S
        &&& t.csr.value(csr_index::scause) == code
        &&& t.csr.value(csr_index::sepc) == s.pc
        &&& t.csr.value(csr_index::stval) == tval
    } else {
        &&& t.csr.cpl == PrivilegeLevel::M
        &&& t.csr.value(csr_index::mcause) == code
        &&& t.csr.value(csr_index::mepc) == s.pc
        &&& t.csr.value(csr_index::mtval) == tval
    }
}

/// A step executes the instruction at the program counter. One that cannot be fetched or decoded, or
/// that raises an exception, traps: an illegal one with its word as the value, any other with the
/// value that it left behind, or zero.
pub proof fn law_step(s: CpuState)
    ensures
        ({
            let (f, found) = s.instr_decoded(s.pc);
            let t = s.stepped();
            match found {
                Err(e) => f.csr.complete() ==> trapped_with(f, t, e.cause, e.tval),
                Ok(d) => {
                    let (after, done) = f.executed(d.instr, d.info);
                    match done {
                        Ok(_) => t == after,
                        Err(cause) => after.csr.complete() && cause
                            != Exception::IllegalInstruction ==> trapped_with(
                            after,
                            t,
                            cause,
                            match after.pending_tval {
                                Some(tval) => tval,
                                None => 0,
                            },
                        ) && t.pending_tval is None,
                    }
                },
            }
        }),
{
    reveal(CpuState::stepped);
    let (f, found) = s.instr_decoded(s.pc);
    match found {
        Err(e) => {
            if f.csr.complete() {
                trap_laws::law_exception_level(f, e.cause, e.tval);
                assert(s.stepped() == f.exception_taken(e.cause, e.tval));
                assert(trapped_with(f, s.stepped(), e.cause, e.tval));
            }
        },
        Ok(d) => {
            let (after, done) = f.executed(d.instr, d.info);
            if done is Err && after.csr.complete() {
                let tval = match after.pending_tval {
                    Some(tval) => tval,
                    None => 0,
                };
                let cleared = CpuState { pending_tval: None, ..after };
                trap_laws::law_exception_level(cleared, done->Err_0, tval);
                if done->Err_0 != Exception::IllegalInstruction {
                    assert(s.stepped() == cleared.exception_taken(done->Err_0, tval));
                    assert(trapped_with(after, s.stepped(), done->Err_0, tval));
                }
            }
        },
    }
}

} // verus!
