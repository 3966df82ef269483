//! What traps and returns are for, as relations between the hart before and after.
use vstd::prelude::*;

use crate::isa::riscv::csr_reg::csr_index;
use crate::isa::riscv::csr_reg::field;
use crate::isa::riscv::csr_reg::file::CsrState;
use crate::isa::riscv::csr_reg::PrivilegeLevel;
use crate::isa::riscv::executor::CpuState;
use crate::isa::riscv::instruction::dispatch;
use crate::isa::riscv::instruction::exec_mapping::ExecFn;
use crate::isa::riscv::instruction::instr_table::RiscvInstr;
use crate::isa::riscv::instruction::RVInstrInfo;

use super::{Exception, Interrupt};

verus! {

/// The bits of `mstatus` from `low` on, `width` of them.
pub open spec fn status(s: CpuState, low: u64, width: u64) -> u64 {
    field::field_of(s.csr.value(csr_index::mstatus), low, width)
}

/// The number that a privilege level is saved as.
pub open spec fn level_number(level: PrivilegeLevel) -> u64 {
    match level {
        PrivilegeLevel::U => 0,
        PrivilegeLevel::S => 1,
        PrivilegeLevel::V => 2,
        PrivilegeLevel::M => 3,
    }
}

/// Fields of one and of two bits, cut to their width.
pub proof fn lemma_small_fields(value: u64, low: u64)
    requires
        low < 64,
    ensures
        field::low_mask(1) == 1,
        field::low_mask(2) == 3,
        field::field_of(value, low, 1) & 1 == field::field_of(value, low, 1),
        field::field_of(value, low, 1) <= 1,
        field::field_of(value, low, 2) <= 3,
        0u64 & 1 == 0,
        1u64 & 1 == 1,
        0u64 & 3 == 0,
        1u64 & 3 == 1,
        2u64 & 3 == 2,
        3u64 & 3 == 3,
{
    assert({
        &&& 1u64 << 1u64 == 2
        &&& 1u64 << 2u64 == 4
        &&& ((value >> low) & 1) & 1 == (value >> low) & 1
        &&& (value >> low) & 1 <= 1
        &&& (value >> low) & 3 <= 3
        &&& 0u64 & 1 == 0
        &&& 1u64 & 1 == 1
        &&& 0u64 & 3 == 0
        &&& 1u64 & 3 == 1
        &&& 2u64 & 3 == 2
        &&& 3u64 & 3 == 3
    }) by (bit_vector);
}

/// The value of `mstatus` after three fields are replaced.
spec fn replaced(v: u64, a: (u64, u64, u64), b: (u64, u64, u64), c: (u64, u64, u64)) -> u64 {
    field::with_field(
        field::with_field(field::with_field(v, a.0, a.1, a.2), b.0, b.1, b.2),
        c.0,
        c.1,
        c.2,
    )
}

/// Whether two fields share no bit.
pub open spec fn apart(low: u64, width: u64, other: u64, other_width: u64) -> bool {
    low + width <= other || other + other_width <= low
}

/// Three fields that share no bit read back as they were written, and any other field stays.
proof fn lemma_replaced(
    v: u64,
    a: (u64, u64, u64),
    b: (u64, u64, u64),
    c: (u64, u64, u64),
    low: u64,
    width: u64,
)
    requires
        1 <= a.1 < 64 && a.0 + a.1 <= 63,
        1 <= b.1 < 64 && b.0 + b.1 <= 63,
        1 <= c.1 < 64 && c.0 + c.1 <= 63,
        apart(a.0, a.1, b.0, b.1),
        apart(a.0, a.1, c.0, c.1),
        apart(b.0, b.1, c.0, c.1),
    ensures
        ({
            let r = replaced(v, a, b, c);
            &&& field::field_of(r, a.0, a.1) == a.2 & field::low_mask(a.1)
            &&& field::field_of(r, b.0, b.1) == b.2 & field::low_mask(b.1)
            &&& field::field_of(r, c.0, c.1) == c.2 & field::low_mask(c.1)
            &&& 1 <= width < 64 && low < 64 && low + width <= 64 && apart(low, width, a.0, a.1)
                && apart(low, width, b.0, b.1) && apart(low, width, c.0, c.1) ==> field::field_of(
                r,
                low,
                width,
            ) == field::field_of(v, low, width)
        }),
{
    let x = field::with_field(v, a.0, a.1, a.2);
    let y = field::with_field(x, b.0, b.1, b.2);
    field::law_field_reads_back(v, a.0, a.1, a.2);
    field::law_field_reads_back(x, b.0, b.1, b.2);
    field::law_field_reads_back(y, c.0, c.1, c.2);
    field::law_field_frame(x, b.0, b.1, b.2, a.0, a.1);
    field::law_field_frame(y, c.0, c.1, c.2, a.0, a.1);
    field::law_field_frame(y, c.0, c.1, c.2, b.0, b.1);
    if 1 <= width < 64 && low < 64 && low + width <= 64 && apart(low, width, a.0, a.1) && apart(
        low,
        width,
        b.0,
        b.1,
    ) && apart(low, width, c.0, c.1) {
        field::law_field_frame(v, a.0, a.1, a.2, low, width);
        field::law_field_frame(x, b.0, b.1, b.2, low, width);
        field::law_field_frame(y, c.0, c.1, c.2, low, width);
    }
}

/// Whether a trap goes where its vector register says: to the base, or, for an interrupt in vectored
/// mode, four bytes further for each number of the cause.
pub open spec fn enters(pc: u64, tvec: u64, cause: u64) -> bool {
    let base = 4 * (tvec / 4);
    if tvec % 4 == 1 && cause >= 0x8000_0000_0000_0000 {
        pc == (base + 4 * (cause - 0x8000_0000_0000_0000)) % 0x1_0000_0000_0000_0000
    } else {
        pc == base
    }
}

/// A trap into machine mode keeps the address, the cause and the value, saves the enable bit (3) in
/// bit 7 and the level in bits 11 and 12, clears the enable bit, and leaves every other bit of
/// `mstatus`, the supervisor's trap registers, the registers and memory alone.
pub proof fn law_trap_to_machine(s: CpuState, cause: u64, tval: u64, low: u64, width: u64)
    requires
        s.csr.complete(),
    ensures
        ({
            let t = s.trapped(false, cause, tval);
            &&& t.csr.value(csr_index::mepc) == s.pc
            &&& t.csr.value(csr_index::mcause) == cause
            &&& t.csr.value(csr_index::mtval) == tval
            &&& t.csr.cpl == PrivilegeLevel::M
            &&& status(t, 7, 1) == status(s, 3, 1)
            &&& status(t, 3, 1) == 0
            &&& status(t, 11, 2) == level_number(s.csr.cpl)
            &&& 1 <= width < 64 && low < 64 && low + width <= 64 && apart(low, width, 3, 1)
                && apart(low, width, 7, 1) && apart(low, width, 11, 2) ==> status(t, low, width)
                == status(s, low, width)
            &&& t.csr.value(csr_index::sepc) == s.csr.value(csr_index::sepc)
            &&& t.csr.value(csr_index::scause) == s.csr.value(csr_index::scause)
            &&& enters(t.pc, s.csr.value(csr_index::mtvec), cause)
            &&& t.regs == s.regs
            &&& t.vm == s.vm
            &&& t.csr.complete()
        }),
{
    let v = s.csr.value(csr_index::mstatus);
    let (a, b, c) = (
        (7u64, 1u64, status(s, 3, 1)),
        (3u64, 1u64, 0u64),
        (11u64, 2u64, s.csr.cpl.spec_rank()),
    );
    lemma_replaced(v, a, b, c, low, width);
    lemma_small_fields(v, 3);
    let t = s.trapped(false, cause, tval);
    assert(t.csr.value(csr_index::mstatus) == replaced(v, a, b, c));
}

/// A trap into supervisor mode does the same with the supervisor's registers: the enable bit is 1,
/// saved in bit 5, and bit 8 says whether the trap came from above user mode.
pub proof fn law_trap_to_supervisor(s: CpuState, cause: u64, tval: u64, low: u64, width: u64)
    requires
        s.csr.complete(),
    ensures
        ({
            let t = s.trapped(true, cause, tval);
            &&& t.csr.value(csr_index::sepc) == s.pc
            &&& t.csr.value(csr_index::scause) == cause
            &&& t.csr.value(csr_index::stval) == tval
            &&& t.csr.cpl == PrivilegeLevel::S
            &&& status(t, 5, 1) == status(s, 1, 1)
            &&& status(t, 1, 1) == 0
            &&& status(t, 8, 1) == if s.csr.cpl == PrivilegeLevel::U {
                0u64
            } else {
                1
            }
            &&& 1 <= width < 64 && low < 64 && low + width <= 64 && apart(low, width, 1, 1)
                && apart(low, width, 5, 1) && apart(low, width, 8, 1) ==> status(t, low, width)
                == status(s, low, width)
            &&& t.csr.value(csr_index::mepc) == s.csr.value(csr_index::mepc)
            &&& t.csr.value(csr_index::mcause) == s.csr.value(csr_index::mcause)
            &&& enters(t.pc, s.csr.value(csr_index::stvec), cause)
            &&& t.regs == s.regs
            &&& t.vm == s.vm
            &&& t.csr.complete()
        }),
{
    let v = s.csr.value(csr_index::mstatus);
    let spp = if s.csr.cpl == PrivilegeLevel::U {
        0u64
    } else {
        1
    };
    let (a, b, c) = ((5u64, 1u64, status(s, 1, 1)), (1u64, 1u64, 0u64), (8u64, 1u64, spp));
    lemma_replaced(v, a, b, c, low, width);
    lemma_small_fields(v, 1);
    let t = s.trapped(true, cause, tval);
    assert(t.csr.value(csr_index::mstatus) == replaced(v, a, b, c));
}

/// An exception goes to supervisor mode where its bit of `medeleg` is set and the hart was not in
/// machine mode, and to machine mode elsewhere. The cause is its number, without the interrupt bit.
pub proof fn law_exception_level(s: CpuState, cause: Exception, tval: u64)
    requires
        s.csr.complete(),
    ensures
        ({
            let t = s.exception_taken(cause, tval);
            let code = cause.spec_code();
            let down = s.csr.cpl != PrivilegeLevel::M && (s.csr.value(csr_index::medeleg) >> code)
                & 1 == 1;
            &&& code < 64
            &&& t.csr.cpl == if down {
                PrivilegeLevel::S
            } else {
                PrivilegeLevel::M
            }
            &&& down ==> t.csr.value(csr_index::scause) == code && t.csr.value(csr_index::sepc)
                == s.pc && t.csr.value(csr_index::stval) == tval
            &&& !down ==> t.csr.value(csr_index::mcause) == code && t.csr.value(csr_index::mepc)
                == s.pc && t.csr.value(csr_index::mtval) == tval
        }),
{
    law_trap_to_machine(s, cause.spec_code(), tval, 0, 1);
    law_trap_to_supervisor(s, cause.spec_code(), tval, 0, 1);
}

/// The place of an interrupt in the order in which interrupts are taken: those for machine mode
/// first, then external before software before timer, the machine's before the supervisor's.
pub open spec fn order(csr: CsrState, i: Interrupt) -> int {
    let (code, place) = match i {
        Interrupt::MachineExternal => (11u64, 0int),
        Interrupt::MachineSoft => (3, 1),
        Interrupt::MachineTimer => (7, 2),
        Interrupt::SupervisorExternal => (9, 3),
        Interrupt::SupervisorSoft => (1, 4),
        Interrupt::SupervisorTimer => (5, 5),
    };
    place + if (csr.value(csr_index::mideleg) >> code) & 1 == 1 {
        6int
    } else {
        0
    }
}

/// Whether an interrupt can be taken: it is pending and enabled, and the level that handles it is
/// above the current one, or is the current one with interrupts enabled.
pub open spec fn takeable(csr: CsrState, i: Interrupt) -> bool {
    let code = match i {
        Interrupt::MachineExternal => 11u64,
        Interrupt::MachineSoft => 3,
        Interrupt::MachineTimer => 7,
        Interrupt::SupervisorExternal => 9,
        Interrupt::SupervisorSoft => 1,
        Interrupt::SupervisorTimer => 5,
    };
    let v = csr.value(csr_index::mstatus);
    &&& (csr.value(csr_index::mip) >> code) & 1 == 1
    &&& (csr.value(csr_index::mie) >> code) & 1 == 1
    &&& if (csr.value(csr_index::mideleg) >> code) & 1 == 1 {
        csr.cpl == PrivilegeLevel::U || (csr.cpl == PrivilegeLevel::S && field::field_of(v, 1, 1)
            == 1)
    } else {
        csr.cpl != PrivilegeLevel::M || field::field_of(v, 3, 1) == 1
    }
}

/// The interrupt that is taken next can be taken, and no other that can comes before it; without one
/// no interrupt can be taken.
pub proof fn law_next_interrupt(csr: CsrState, j: Interrupt)
    ensures
        match csr.next_interrupt() {
            Some(i) => takeable(csr, i) && (takeable(csr, j) ==> order(csr, i) <= order(csr, j)),
            None => !takeable(csr, j),
        },
{
    assert(csr.ready_for(j, true) || csr.ready_for(j, false) <==> takeable(csr, j));
}

/// A return from machine mode goes back to the saved address and level, restores the enable bit from
/// bit 7, which it sets, and saves user mode as the level to come back to. A level below machine
/// mode loses MPRV. Elsewhere than in machine mode it is illegal.
pub proof fn law_machine_return(s: CpuState, info: RVInstrInfo, low: u64, width: u64)
    requires
        s.csr.complete(),
    ensures
        ({
            let (t, r) = dispatch::executed(RiscvInstr::MRET, s, info);
            if s.csr.cpl != PrivilegeLevel::M {
                r == Err::<(), Exception>(Exception::IllegalInstruction) && t == s
            } else {
                &&& r is Ok
                &&& t.pc == s.csr.value(csr_index::mepc)
                &&& level_number(t.csr.cpl) == status(s, 11, 2)
                &&& status(t, 3, 1) == status(s, 7, 1)
                &&& status(t, 7, 1) == 1
                &&& status(t, 11, 2) == 0
                &&& t.csr.cpl != PrivilegeLevel::M ==> status(t, 17, 1) == 0
                &&& 1 <= width < 64 && low < 64 && low + width <= 64 && apart(low, width, 3, 1)
                    && apart(low, width, 7, 1) && apart(low, width, 11, 2) && apart(
                    low,
                    width,
                    17,
                    1,
                ) ==> status(t, low, width) == status(s, low, width)
                &&& t.regs == s.regs
                &&& t.vm == s.vm
            }
        }),
{
    reveal(ExecFn::base_step);
    let v = s.csr.value(csr_index::mstatus);
    let (a, b, c) = ((3u64, 1u64, status(s, 7, 1)), (7u64, 1u64, 1u64), (11u64, 2u64, 0u64));
    lemma_replaced(v, a, b, c, low, width);
    lemma_replaced(v, a, b, c, 17, 1);
    lemma_small_fields(v, 7);
    lemma_small_fields(v, 11);
    let r = replaced(v, a, b, c);
    field::law_field_reads_back(r, 17, 1, 0);
    field::law_field_frame(r, 17, 1, 0, 3, 1);
    field::law_field_frame(r, 17, 1, 0, 7, 1);
    field::law_field_frame(r, 17, 1, 0, 11, 2);
    if 1 <= width < 64 && low < 64 && low + width <= 64 && apart(low, width, 17, 1) {
        field::law_field_frame(r, 17, 1, 0, low, width);
    }
    let (t, done) = dispatch::executed(RiscvInstr::MRET, s, info);
    if s.csr.cpl == PrivilegeLevel::M {
        let level = PrivilegeLevel::of_bits(status(s, 11, 2));
        assert(t.csr.value(csr_index::mstatus) == if level == PrivilegeLevel::M {
            r
        } else {
            field::with_field(r, 17, 1, 0)
        });
    }
}

/// A return from supervisor mode does the same with the supervisor's registers, and always clears
/// MPRV. It is illegal below supervisor mode, and in supervisor mode where TSR (22) is set.
pub proof fn law_supervisor_return(s: CpuState, info: RVInstrInfo, low: u64, width: u64)
    requires
        s.csr.complete(),
    ensures
        ({
            let (t, r) = dispatch::executed(RiscvInstr::SRET, s, info);
            if s.csr.cpl == PrivilegeLevel::U || (s.csr.cpl == PrivilegeLevel::S && status(s, 22, 1)
                == 1) {
                r == Err::<(), Exception>(Exception::IllegalInstruction) && t == s
            } else {
                &&& r is Ok
                &&& t.pc == s.csr.value(csr_index::sepc)
                &&& t.csr.cpl == if status(s, 8, 1) == 0 {
                    PrivilegeLevel::U
                } else {
                    PrivilegeLevel::S
                }
                &&& status(t, 1, 1) == status(s, 5, 1)
                &&& status(t, 5, 1) == 1
                &&& status(t, 8, 1) == 0
                &&& status(t, 17, 1) == 0
                &&& 1 <= width < 64 && low < 64 && low + width <= 64 && apart(low, width, 1, 1)
                    && apart(low, width, 5, 1) && apart(low, width, 8, 1) && apart(
                    low,
                    width,
                    17,
                    1,
                ) ==> status(t, low, width) == status(s, low, width)
                &&& t.regs == s.regs
                &&& t.vm == s.vm
            }
        }),
{
    reveal(ExecFn::base_step);
    let v = s.csr.value(csr_index::mstatus);
    let (a, b, c) = ((1u64, 1u64, status(s, 5, 1)), (5u64, 1u64, 1u64), (8u64, 1u64, 0u64));
    lemma_replaced(v, a, b, c, low, width);
    lemma_small_fields(v, 5);
    let r = replaced(v, a, b, c);
    field::law_field_reads_back(r, 17, 1, 0);
    field::law_field_frame(r, 17, 1, 0, 1, 1);
    field::law_field_frame(r, 17, 1, 0, 5, 1);
    field::law_field_frame(r, 17, 1, 0, 8, 1);
    if 1 <= width < 64 && low < 64 && low + width <= 64 && apart(low, width, 17, 1) {
        field::law_field_frame(r, 17, 1, 0, low, width);
    }
    let (t, done) = dispatch::executed(RiscvInstr::SRET, s, info);
    if done is Ok {
        assert(t.csr.value(csr_index::mstatus) == field::with_field(r, 17, 1, 0));
    }
}

/// A return undoes a trap into machine mode: the hart goes on where the trap came, at the level and
/// with the enable bit that it had.
pub proof fn law_return_undoes_trap(s: CpuState, cause: u64, tval: u64, info: RVInstrInfo)
    requires
        s.csr.complete(),
    ensures
        ({
            let t = dispatch::executed(RiscvInstr::MRET, s.trapped(false, cause, tval), info).0;
            &&& t.pc == s.pc
            &&& t.csr.cpl == s.csr.cpl
            &&& status(t, 3, 1) == status(s, 3, 1)
            &&& t.regs == s.regs
            &&& t.vm == s.vm
        }),
{
    law_trap_to_machine(s, cause, tval, 0, 1);
    law_machine_return(s.trapped(false, cause, tval), info, 0, 1);
}

/// A return undoes a trap into supervisor mode that came from user or supervisor mode, where the
/// supervisor may return: the hart goes on where the trap came, at the level and with the enable bit
/// that it had.
pub proof fn law_supervisor_return_undoes_trap(
    s: CpuState,
    cause: u64,
    tval: u64,
    info: RVInstrInfo,
)
    requires
        s.csr.complete(),
        s.csr.cpl == PrivilegeLevel::U || s.csr.cpl == PrivilegeLevel::S,
        status(s, 22, 1) == 0,
    ensures
        ({
            let t = dispatch::executed(RiscvInstr::SRET, s.trapped(true, cause, tval), info).0;
            &&& t.pc == s.pc
            &&& t.csr.cpl == s.csr.cpl
            &&& status(t, 1, 1) == status(s, 1, 1)
            &&& t.regs == s.regs
            &&& t.vm == s.vm
        }),
{
    law_trap_to_supervisor(s, cause, tval, 22, 1);
    law_supervisor_return(s.trapped(true, cause, tval), info, 0, 1);
}

/// An interrupt that is taken goes to the level that handles it, with its number and the upper bit
/// as the cause; without one the hart stays as it is.
pub proof fn law_interrupt_taken(s: CpuState)
    requires
        s.csr.complete(),
    ensures
        match s.csr.next_interrupt() {
            None => s.interrupt_taken() == s,
            Some(i) => {
                let t = s.interrupt_taken();
                let code = i.spec_code();
                let cause = 0x8000_0000_0000_0000 + code;
                let down = (s.csr.value(csr_index::mideleg) >> code) & 1 == 1;
                &&& down ==> t.csr.cpl == PrivilegeLevel::S && t.csr.value(csr_index::scause)
                    == cause && t.csr.value(csr_index::sepc) == s.pc && t.csr.value(
                    csr_index::stval,
                ) == 0 && enters(t.pc, s.csr.value(csr_index::stvec), cause as u64)
                &&& !down ==> t.csr.cpl == PrivilegeLevel::M && t.csr.value(csr_index::mcause)
                    == cause && t.csr.value(csr_index::mepc) == s.pc && t.csr.value(
                    csr_index::mtval,
                ) == 0 && enters(t.pc, s.csr.value(csr_index::mtvec), cause as u64)
            },
        },
{
    if let Some(i) = s.csr.next_interrupt() {
        let cause = (0x8000_0000_0000_0000 + i.spec_code()) as u64;
        law_trap_to_machine(s, cause, 0, 0, 1);
        law_trap_to_supervisor(s, cause, 0, 0, 1);
    }
}

} // verus!
