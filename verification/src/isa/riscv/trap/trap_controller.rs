//! Taking traps and returning from them.
use vstd::prelude::*;

use crate::isa::riscv::csr_reg::csr_index;
use crate::isa::riscv::csr_reg::field::CsrField;
use crate::isa::riscv::csr_reg::file::CsrState;
use crate::isa::riscv::csr_reg::PrivilegeLevel;
use crate::isa::riscv::executor::{CpuState, RVCPU};
use crate::utils;
use crate::utils::Width;

use super::{Exception, Interrupt};

verus! {

/// The bit of a cause register that tells an interrupt from an exception.
pub const INTERRUPT_BIT: u64 = 0x8000_0000_0000_0000;

/// Whether bit `n` of `value` is set.
pub open spec fn bit_set(value: u64, n: u64) -> bool {
    (value >> n) & 1 == 1
}

/// Where a trap goes: the base of the vector register, and in vectored mode, for an interrupt, an
/// entry of its own.
pub open spec fn trap_target(tvec: u64, cause: u64) -> u64 {
    let base = (tvec - tvec % 4) as u64;
    if tvec % 4 == 1 && cause >= INTERRUPT_BIT {
        Width::W64.wrap(base + 4 * (cause - INTERRUPT_BIT))
    } else {
        base
    }
}

impl CsrState {
    /// The registers after a trap into supervisor mode.
    pub open spec fn trapped_to_s(self, pc: u64, cause: u64, tval: u64) -> CsrState {
        let saved = self.with_value(csr_index::sepc, pc).with_value(
            csr_index::scause,
            cause,
        ).with_value(csr_index::stval, tval);
        CsrState {
            cpl: PrivilegeLevel::S,
            ..saved.with_field_directly(
                CsrField::Mstatus_spie,
                self.field(CsrField::Mstatus_sie),
            ).with_field_directly(CsrField::Mstatus_sie, 0).with_field_directly(
                CsrField::Mstatus_spp,
                if self.cpl == PrivilegeLevel::U {
                    0
                } else {
                    1
                },
            )
        }
    }

    /// The registers after a trap into machine mode.
    pub open spec fn trapped_to_m(self, pc: u64, cause: u64, tval: u64) -> CsrState {
        let saved = self.with_value(csr_index::mepc, pc).with_value(
            csr_index::mcause,
            cause,
        ).with_value(csr_index::mtval, tval);
        CsrState {
            cpl: PrivilegeLevel::M,
            ..saved.with_field_directly(
                CsrField::Mstatus_mpie,
                self.field(CsrField::Mstatus_mie),
            ).with_field_directly(CsrField::Mstatus_mie, 0).with_field_directly(
                CsrField::Mstatus_mpp,
                self.cpl.spec_rank(),
            )
        }
    }

    /// Whether an exception is handed down to supervisor mode.
    pub open spec fn delegates(self, code: u64) -> bool {
        self.cpl != PrivilegeLevel::M && bit_set(self.value(csr_index::medeleg), code)
    }

    /// Whether an interrupt waits and is not masked: it is pending and enabled, and the mode that
    /// it is for is not masked by its own enable bit.
    pub open spec fn interrupt_ready(self, code: u64) -> bool {
        let to_s = bit_set(self.value(csr_index::mideleg), code);
        &&& bit_set(self.value(csr_index::mip), code)
        &&& bit_set(self.value(csr_index::mie), code)
        &&& if to_s {
            self.cpl == PrivilegeLevel::U || (self.cpl == PrivilegeLevel::S && self.field(
                CsrField::Mstatus_sie,
            ) == 1)
        } else {
            self.cpl != PrivilegeLevel::M || self.field(CsrField::Mstatus_mie) == 1
        }
    }

    /// Whether a waiting interrupt is handled in the mode `to_s` says.
    pub open spec fn ready_for(self, i: Interrupt, to_s: bool) -> bool {
        self.interrupt_ready(i.spec_code()) && bit_set(
            self.value(csr_index::mideleg),
            i.spec_code(),
        ) == to_s
    }

    /// The first waiting interrupt of a mode, by priority.
    pub open spec fn first_ready(self, to_s: bool) -> Option<Interrupt> {
        if self.ready_for(Interrupt::MachineExternal, to_s) {
            Some(Interrupt::MachineExternal)
        } else if self.ready_for(Interrupt::MachineSoft, to_s) {
            Some(Interrupt::MachineSoft)
        } else if self.ready_for(Interrupt::MachineTimer, to_s) {
            Some(Interrupt::MachineTimer)
        } else if self.ready_for(Interrupt::SupervisorExternal, to_s) {
            Some(Interrupt::SupervisorExternal)
        } else if self.ready_for(Interrupt::SupervisorSoft, to_s) {
            Some(Interrupt::SupervisorSoft)
        } else if self.ready_for(Interrupt::SupervisorTimer, to_s) {
            Some(Interrupt::SupervisorTimer)
        } else {
            None
        }
    }

    /// The interrupt that is taken next. One for machine mode comes before one for supervisor
    /// mode.
    pub open spec fn next_interrupt(self) -> Option<Interrupt> {
        match self.first_ready(false) {
            Some(i) => Some(i),
            None => self.first_ready(true),
        }
    }
}

impl CpuState {
    /// The state after a trap.
    pub open spec fn trapped(self, to_s: bool, cause: u64, tval: u64) -> CpuState {
        if to_s {
            CpuState {
                csr: self.csr.trapped_to_s(self.pc, cause, tval),
                pc: trap_target(self.csr.value(csr_index::stvec), cause),
                ..self
            }
        } else {
            CpuState {
                csr: self.csr.trapped_to_m(self.pc, cause, tval),
                pc: trap_target(self.csr.value(csr_index::mtvec), cause),
                ..self
            }
        }
    }

    /// The state after an exception is taken.
    pub open spec fn exception_taken(self, cause: Exception, tval: u64) -> CpuState {
        self.trapped(self.csr.delegates(cause.spec_code()), cause.spec_code(), tval)
    }

    /// The state after the next interrupt is taken, if there is one.
    pub open spec fn interrupt_taken(self) -> CpuState {
        match self.csr.next_interrupt() {
            Some(i) => self.trapped(
                bit_set(self.csr.value(csr_index::mideleg), i.spec_code()),
                (INTERRUPT_BIT + i.spec_code()) as u64,
                0,
            ),
            None => self,
        }
    }

    /// The state after a return from machine mode.
    pub open spec fn returned_from_m(self) -> CpuState {
        let csr = self.csr;
        let level = PrivilegeLevel::of_bits(csr.field(CsrField::Mstatus_mpp));
        let enabled = csr.with_field_directly(
            CsrField::Mstatus_mie,
            csr.field(CsrField::Mstatus_mpie),
        ).with_field_directly(CsrField::Mstatus_mpie, 1).with_field_directly(
            CsrField::Mstatus_mpp,
            0,
        );
        let unprivileged = if level == PrivilegeLevel::M {
            enabled
        } else {
            enabled.with_field_directly(CsrField::Mstatus_mprv, 0)
        };
        CpuState {
            csr: CsrState { cpl: level, ..unprivileged },
            pc: csr.value(csr_index::mepc),
            ..self
        }
    }

    /// The state after a return from supervisor mode.
    pub open spec fn returned_from_s(self) -> CpuState {
        let csr = self.csr;
        let enabled = csr.with_field_directly(
            CsrField::Mstatus_sie,
            csr.field(CsrField::Mstatus_spie),
        ).with_field_directly(CsrField::Mstatus_spie, 1).with_field_directly(
            CsrField::Mstatus_spp,
            0,
        ).with_field_directly(CsrField::Mstatus_mprv, 0);
        CpuState {
            csr: CsrState {
                cpl: if csr.field(CsrField::Mstatus_spp) == 0 {
                    PrivilegeLevel::U
                } else {
                    PrivilegeLevel::S
                },
                ..enabled
            },
            pc: csr.value(csr_index::sepc),
            ..self
        }
    }
}

/// Takes traps and returns from them.
pub struct TrapController;

fn target_of(tvec: u64, cause: u64) -> (r: u64)
    requires
        cause >= INTERRUPT_BIT ==> cause < INTERRUPT_BIT + 64,
    ensures
        r == trap_target(tvec, cause),
{
    let base: u64 = tvec - tvec % 4;
    if tvec % 4 == 1 && cause >= INTERRUPT_BIT {
        utils::add64(base, 4 * (cause - INTERRUPT_BIT))
    } else {
        base
    }
}

fn test_bit(value: u64, n: u64) -> (r: bool)
    requires
        n < 64,
    ensures
        r == bit_set(value, n),
{
    (value >> n) & 1 == 1
}

impl TrapController {
    fn trap_to_s(cpu: &mut RVCPU, cause: u64, tval: u64)
        requires
            old(cpu).wf(),
            cause >= INTERRUPT_BIT ==> cause < INTERRUPT_BIT + 64,
        ensures
            final(cpu).wf(),
            final(cpu)@ == old(cpu)@.trapped(true, cause, tval),
    {
        let pc: u64 = cpu.context.pc;
        let tvec: u64 = cpu.csr.value_of(csr_index::stvec);
        let sie: u64 = cpu.csr.get_field(CsrField::Mstatus_sie);
        let spp: u64 = match cpu.csr.privelege_level() {
            PrivilegeLevel::U => 0,
            _ => 1,
        };
        let _ = cpu.csr.write_directly(csr_index::sepc, pc);
        let _ = cpu.csr.write_directly(csr_index::scause, cause);
        let _ = cpu.csr.write_directly(csr_index::stval, tval);
        cpu.csr.set_field_directly(CsrField::Mstatus_spie, sie);
        cpu.csr.set_field_directly(CsrField::Mstatus_sie, 0);
        cpu.csr.set_field_directly(CsrField::Mstatus_spp, spp);
        cpu.csr.set_current_privileged(PrivilegeLevel::S);
        cpu.context.pc = target_of(tvec, cause);
    }

    fn trap_to_m(cpu: &mut RVCPU, cause: u64, tval: u64)
        requires
            old(cpu).wf(),
            cause >= INTERRUPT_BIT ==> cause < INTERRUPT_BIT + 64,
        ensures
            final(cpu).wf(),
            final(cpu)@ == old(cpu)@.trapped(false, cause, tval),
    {
        let pc: u64 = cpu.context.pc;
        let tvec: u64 = cpu.csr.value_of(csr_index::mtvec);
        let mie: u64 = cpu.csr.get_field(CsrField::Mstatus_mie);
        let mpp: u64 = cpu.csr.privelege_level().rank();
        let _ = cpu.csr.write_directly(csr_index::mepc, pc);
        let _ = cpu.csr.write_directly(csr_index::mcause, cause);
        let _ = cpu.csr.write_directly(csr_index::mtval, tval);
        cpu.csr.set_field_directly(CsrField::Mstatus_mpie, mie);
        cpu.csr.set_field_directly(CsrField::Mstatus_mie, 0);
        cpu.csr.set_field_directly(CsrField::Mstatus_mpp, mpp);
        cpu.csr.set_current_privileged(PrivilegeLevel::M);
        cpu.context.pc = target_of(tvec, cause);
    }

    /// Takes an exception.
    pub fn take_exception(cpu: &mut RVCPU, cause: Exception, tval: u64)
        requires
            old(cpu).wf(),
        ensures
            final(cpu).wf(),
            final(cpu)@ == old(cpu)@.exception_taken(cause, tval),
    {
        let code: u64 = cause.code();
        let machine = match cpu.csr.privelege_level() {
            PrivilegeLevel::M => true,
            _ => false,
        };
        if !machine && test_bit(cpu.csr.value_of(csr_index::medeleg), code) {
            TrapController::trap_to_s(cpu, code, tval);
        } else {
            TrapController::trap_to_m(cpu, code, tval);
        }
    }

    fn is_ready(cpu: &RVCPU, i: Interrupt, to_s: bool) -> (r: bool)
        requires
            cpu.wf(),
        ensures
            r == cpu@.csr.ready_for(i, to_s),
    {
        let code: u64 = i.code();
        if test_bit(cpu.csr.value_of(csr_index::mideleg), code) != to_s || !test_bit(
            cpu.csr.value_of(csr_index::mip),
            code,
        ) || !test_bit(cpu.csr.value_of(csr_index::mie), code) {
            return false;
        }
        match (to_s, cpu.csr.privelege_level()) {
            (true, PrivilegeLevel::U) => true,
            (true, PrivilegeLevel::S) => cpu.csr.get_field(CsrField::Mstatus_sie) == 1,
            (true, _) => false,
            (false, PrivilegeLevel::M) => cpu.csr.get_field(CsrField::Mstatus_mie) == 1,
            (false, _) => true,
        }
    }

    fn find_ready(cpu: &RVCPU, to_s: bool) -> (r: Option<Interrupt>)
        requires
            cpu.wf(),
        ensures
            r == cpu@.csr.first_ready(to_s),
            r is Some ==> cpu@.csr.ready_for(r->0, to_s),
    {
        if TrapController::is_ready(cpu, Interrupt::MachineExternal, to_s) {
            Some(Interrupt::MachineExternal)
        } else if TrapController::is_ready(cpu, Interrupt::MachineSoft, to_s) {
            Some(Interrupt::MachineSoft)
        } else if TrapController::is_ready(cpu, Interrupt::MachineTimer, to_s) {
            Some(Interrupt::MachineTimer)
        } else if TrapController::is_ready(cpu, Interrupt::SupervisorExternal, to_s) {
            Some(Interrupt::SupervisorExternal)
        } else if TrapController::is_ready(cpu, Interrupt::SupervisorSoft, to_s) {
            Some(Interrupt::SupervisorSoft)
        } else if TrapController::is_ready(cpu, Interrupt::SupervisorTimer, to_s) {
            Some(Interrupt::SupervisorTimer)
        } else {
            None
        }
    }

    /// Takes the interrupt that is next, if one waits; says which.
    pub fn try_take_interrupt(cpu: &mut RVCPU) -> (r: Option<Interrupt>)
        requires
            old(cpu).wf(),
        ensures
            final(cpu).wf(),
            r == old(cpu)@.csr.next_interrupt(),
            final(cpu)@ == old(cpu)@.interrupt_taken(),
    {
        match TrapController::find_ready(cpu, false) {
            Some(i) => {
                TrapController::trap_to_m(cpu, INTERRUPT_BIT + i.code(), 0);
                Some(i)
            },
            None => match TrapController::find_ready(cpu, true) {
                Some(i) => {
                    TrapController::trap_to_s(cpu, INTERRUPT_BIT + i.code(), 0);
                    Some(i)
                },
                None => None,
            },
        }
    }

    /// Returns from machine mode.
    pub fn mret(cpu: &mut RVCPU)
        requires
            old(cpu).wf(),
        ensures
            final(cpu).wf(),
            final(cpu)@ == old(cpu)@.returned_from_m(),
    {
        let level = PrivilegeLevel::from_bits(cpu.csr.get_field(CsrField::Mstatus_mpp));
        let mpie: u64 = cpu.csr.get_field(CsrField::Mstatus_mpie);
        let pc: u64 = cpu.csr.value_of(csr_index::mepc);
        cpu.csr.set_field_directly(CsrField::Mstatus_mie, mpie);
        cpu.csr.set_field_directly(CsrField::Mstatus_mpie, 1);
        cpu.csr.set_field_directly(CsrField::Mstatus_mpp, 0);
        match level {
            PrivilegeLevel::M => {},
            _ => {
                cpu.csr.set_field_directly(CsrField::Mstatus_mprv, 0);
            },
        }
        cpu.csr.set_current_privileged(level);
        cpu.context.pc = pc;
    }

    /// Returns from supervisor mode.
    pub fn sret(cpu: &mut RVCPU)
        requires
            old(cpu).wf(),
        ensures
            final(cpu).wf(),
            final(cpu)@ == old(cpu)@.returned_from_s(),
    {
        let level = if cpu.csr.get_field(CsrField::Mstatus_spp) == 0 {
            PrivilegeLevel::U
        } else {
            PrivilegeLevel::S
        };
        let spie: u64 = cpu.csr.get_field(CsrField::Mstatus_spie);
        let pc: u64 = cpu.csr.value_of(csr_index::sepc);
        cpu.csr.set_field_directly(CsrField::Mstatus_sie, spie);
        cpu.csr.set_field_directly(CsrField::Mstatus_spie, 1);
        cpu.csr.set_field_directly(CsrField::Mstatus_spp, 0);
        cpu.csr.set_field_directly(CsrField::Mstatus_mprv, 0);
        cpu.csr.set_current_privileged(level);
        cpu.context.pc = pc;
    }
}

} // verus!
