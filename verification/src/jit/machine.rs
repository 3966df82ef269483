//! What generated code does when it runs.
use vstd::prelude::*;

use crate::isa::riscv::executor::CpuState;
use crate::isa::riscv::instruction::alu;
use crate::isa::riscv::instruction::alu::{AluFn, CompareFn};
use crate::isa::riscv::trap::Exception;
use crate::utils;
use crate::utils::Width;

use super::backend::x86::code::HostInstr;
use super::backend::x86::{AluOp, ConditionCode, OperandSize, RegMem, ShiftOp, X86Reg};
use super::translator::reg_assign;
use super::translator::Surroundings;

verus! {

/// How an exception leaves generated code: the instruction, how many instructions of the block
/// came before it, the exception and its trap value.
pub struct Exit {
    pub guest_pc: u64,
    pub icount: u64,
    pub exception: Exception,
    pub tval: u64,
}

/// The host while it runs generated code for a hart. The registers of the hart are in the memory
/// of the host.
pub struct Machine {
    /// The registers of the host, in the order of the table.
    pub regs: Seq<u64>,
    /// The operands of the last comparison, if the flags are still those of a comparison.
    pub compared: Option<(u64, u64)>,
    pub cpu: CpuState,
    /// How the code was left, if it was.
    pub left: Option<Exit>,
}

/// What generated code relies on: the functions that it calls, the address of the registers of
/// the hart, and what a called function leaves in the registers that it may change.
pub struct Host {
    pub around: Surroundings,
    pub guest_regs: u64,
    pub lost: spec_fn(Machine) -> Seq<u64>,
}

/// The width of an operation.
pub open spec fn width_of(size: OperandSize) -> Width {
    match size {
        OperandSize::Dword => Width::W32,
        OperandSize::Qword => Width::W64,
    }
}

/// What an operation of the host computes. Those with carry are not used.
pub open spec fn alu_fn(op: AluOp) -> AluFn {
    match op {
        AluOp::Add => AluFn::Add,
        AluOp::Or => AluFn::Or,
        AluOp::And => AluFn::And,
        AluOp::Sub => AluFn::Sub,
        AluOp::Xor => AluFn::Xor,
        AluOp::Cmp | AluOp::Adc | AluOp::Sbb => vstd::pervasive::arbitrary(),
    }
}

/// What a shift of the host computes.
pub open spec fn shift_fn(shift: ShiftOp) -> AluFn {
    match shift {
        ShiftOp::SHL => AluFn::Sll,
        ShiftOp::SHR => AluFn::Srl,
        ShiftOp::SAR => AluFn::Sra,
    }
}

/// What a condition says of the operands of a comparison.
pub open spec fn compare_fn(condition: ConditionCode) -> CompareFn {
    match condition {
        ConditionCode::Below => CompareFn::UnsignedLess,
        ConditionCode::AboveOrEqual => CompareFn::UnsignedGreatEqual,
        ConditionCode::Equal => CompareFn::Equal,
        ConditionCode::NotEqual => CompareFn::NotEqual,
        ConditionCode::Less => CompareFn::SignedLess,
        ConditionCode::GreaterOrEqual => CompareFn::SignedGreatEqual,
    }
}

impl Machine {
    /// The value of a register.
    pub open spec fn reg(self, r: X86Reg) -> u64 {
        self.regs[reg_assign::row_of(r)]
    }

    /// The machine with a value in a register.
    pub open spec fn with(self, r: X86Reg, value: u64) -> Machine {
        Machine { regs: self.regs.update(reg_assign::row_of(r), value), ..self }
    }

    /// The machine whose flags are those of no comparison.
    pub open spec fn flags_lost(self) -> Machine {
        Machine { compared: None, ..self }
    }

    /// The guest register at an address: a register and a displacement.
    pub open spec fn slot(self, host: Host, base: X86Reg, disp: int) -> Option<int> {
        let offset = Width::W64.wrap(self.reg(base) + disp - host.guest_regs) as int;
        if offset % 8 == 0 && offset / 8 < 32 {
            Some(offset / 8)
        } else {
            None
        }
    }

    /// The guest register that an operand in memory names.
    pub open spec fn place(self, host: Host, rm: RegMem) -> Option<int> {
        match rm {
            RegMem::Reg(_) => None,
            RegMem::Mem(base) => self.slot(host, base, 0),
            RegMem::MemDisp8(base, disp) => self.slot(host, base, disp as int),
            RegMem::MemDisp32(base, disp) => self.slot(host, base, disp as int),
        }
    }

    /// The value of an operand. Only the guest registers are in memory.
    pub open spec fn operand(self, host: Host, rm: RegMem) -> u64 {
        match rm {
            RegMem::Reg(r) => self.reg(r),
            _ => match self.place(host, rm) {
                Some(k) => self.cpu.regs[k],
                None => vstd::pervasive::arbitrary(),
            },
        }
    }

    /// The machine after a value is written to an operand.
    pub open spec fn written(self, host: Host, rm: RegMem, value: u64) -> Machine {
        match rm {
            RegMem::Reg(r) => self.with(r, value),
            _ => match self.place(host, rm) {
                Some(k) => Machine {
                    cpu: CpuState { regs: self.cpu.regs.update(k, value), ..self.cpu },
                    ..self
                },
                None => vstd::pervasive::arbitrary(),
            },
        }
    }

    /// Whether a condition holds.
    pub open spec fn condition(self, condition: ConditionCode) -> bool {
        match self.compared {
            Some((a, b)) => alu::compared(compare_fn(condition), Width::W64, a, b),
            None => vstd::pervasive::arbitrary(),
        }
    }

    /// The machine after an operation on an operand and a value.
    #[verifier::opaque]
    pub open spec fn alu(
        self,
        host: Host,
        size: OperandSize,
        op: AluOp,
        dst: RegMem,
        b: u64,
    ) -> Machine {
        let w = width_of(size);
        let a = self.operand(host, dst);
        if op == AluOp::Cmp {
            match size {
                OperandSize::Qword => Machine { compared: Some((a, b)), ..self },
                OperandSize::Dword => self.flags_lost(),
            }
        } else {
            self.written(
                host,
                dst,
                alu::alu(alu_fn(op), w, w.wrap(a as int), w.wrap(b as int)),
            ).flags_lost()
        }
    }

    /// The machine after a shift by a number of bits.
    #[verifier::opaque]
    pub open spec fn shifted(
        self,
        host: Host,
        size: OperandSize,
        shift: ShiftOp,
        dst: RegMem,
        count: u64,
    ) -> Machine {
        let w = width_of(size);
        let a = self.operand(host, dst);
        self.written(
            host,
            dst,
            alu::alu(shift_fn(shift), w, w.wrap(a as int), count),
        ).flags_lost()
    }

    /// The machine after a called function returned a value.
    pub open spec fn returned(self, host: Host, cpu: CpuState, value: u64) -> Machine {
        Machine {
            regs: Seq::new(
                16,
                |i: int|
                    if i == 5 {
                        value
                    } else if reg_assign::host_at(i).spec_caller_save() {
                        (host.lost)(self)[i]
                    } else {
                        self.regs[i]
                    },
            ),
            compared: None,
            cpu,
            left: None,
        }
    }

    /// The machine after a called function left the code.
    pub open spec fn exited(self, cpu: CpuState, exit: Exit) -> Machine {
        Machine { cpu, left: Some(exit), ..self }
    }

    /// The machine after a load is called.
    pub open spec fn load_called(self, host: Host, w: Width) -> Machine {
        let addr = self.reg(X86Reg::RSI);
        let (cpu, r) = self.cpu.data_read(addr, w);
        match r {
            Ok(value) => self.returned(host, cpu, value),
            Err(exception) => self.exited(
                cpu,
                Exit {
                    guest_pc: self.reg(X86Reg::RCX),
                    icount: self.reg(X86Reg::R8),
                    exception,
                    tval: addr,
                },
            ),
        }
    }

    /// The machine after a store is called. Nothing is returned.
    pub open spec fn store_called(self, host: Host, w: Width) -> Machine {
        let addr = self.reg(X86Reg::RSI);
        let (cpu, r) = self.cpu.data_written(
            addr,
            w,
            w.wrap(self.reg(X86Reg::RDX) as int),
        );
        match r {
            Ok(_) => self.returned(host, cpu, (host.lost)(self)[5]),
            Err(exception) => self.exited(
                cpu,
                Exit {
                    guest_pc: self.reg(X86Reg::R8),
                    icount: self.reg(X86Reg::R9),
                    exception,
                    tval: addr,
                },
            ),
        }
    }

    /// The machine after the check of the target of a jump is called.
    pub open spec fn check_called(self, host: Host) -> Machine {
        let target = self.reg(X86Reg::RDI);
        if target % 4 == 0 {
            self.returned(host, self.cpu, target)
        } else {
            self.exited(
                self.cpu,
                Exit {
                    guest_pc: self.reg(X86Reg::RDX),
                    icount: self.reg(X86Reg::RCX),
                    exception: Exception::InstructionMisaligned,
                    tval: target,
                },
            )
        }
    }

    /// The machine after the function at an address is called. The functions are handed the
    /// registers of the hart and the place where exceptions are recorded.
    #[verifier::opaque]
    pub open spec fn called(self, host: Host, target: u64) -> Machine {
        let h = host.around.helpers;
        let context = host.around.jit_context;
        let on_hart = self.reg(X86Reg::RDI) == host.guest_regs;
        if target == h.check_alignment {
            if self.reg(X86Reg::RSI) == context {
                self.check_called(host)
            } else {
                vstd::pervasive::arbitrary()
            }
        } else if on_hart && self.reg(X86Reg::RDX) == context && target == h.load_u8 {
            self.load_called(host, Width::W8)
        } else if on_hart && self.reg(X86Reg::RDX) == context && target == h.load_u16 {
            self.load_called(host, Width::W16)
        } else if on_hart && self.reg(X86Reg::RDX) == context && target == h.load_u32 {
            self.load_called(host, Width::W32)
        } else if on_hart && self.reg(X86Reg::RDX) == context && target == h.load_u64 {
            self.load_called(host, Width::W64)
        } else if on_hart && self.reg(X86Reg::RCX) == context && target == h.store_u8 {
            self.store_called(host, Width::W8)
        } else if on_hart && self.reg(X86Reg::RCX) == context && target == h.store_u16 {
            self.store_called(host, Width::W16)
        } else if on_hart && self.reg(X86Reg::RCX) == context && target == h.store_u32 {
            self.store_called(host, Width::W32)
        } else if on_hart && self.reg(X86Reg::RCX) == context && target == h.store_u64 {
            self.store_called(host, Width::W64)
        } else {
            vstd::pervasive::arbitrary()
        }
    }

    /// The machine after an instruction. The stack, which only holds what is passed to functions,
    /// is left out, and after the code is left nothing runs any more.
    #[verifier::opaque]
    pub open spec fn stepped(self, host: Host, i: HostInstr) -> Machine {
        if self.left is Some {
            self
        } else {
            match i {
                HostInstr::MovSxd { dst, src } => self.with(
                    dst,
                    utils::widened(Width::W32, Width::W32.wrap(self.operand(host, src) as int)),
                ),
                HostInstr::MovImm { dst, imm } => self.with(dst, imm),
                HostInstr::MovLoad { size, dst, src } => self.with(
                    dst,
                    width_of(size).wrap(self.operand(host, src) as int),
                ),
                HostInstr::MovStore { size, dst, src } => match (size, dst) {
                    (OperandSize::Qword, _) => self.written(host, dst, self.reg(src)),
                    (OperandSize::Dword, RegMem::Reg(r)) => self.with(
                        r,
                        Width::W32.wrap(self.reg(src) as int),
                    ),
                    _ => vstd::pervasive::arbitrary(),
                },
                HostInstr::Ret => self,
                HostInstr::Call { target } => self.called(host, self.reg(target)),
                HostInstr::MovToStack { .. } => self,
                HostInstr::SetCc { condition, dst } => self.with(
                    dst,
                    (self.reg(dst) - self.reg(dst) % 0x100 + if self.condition(condition) {
                        1int
                    } else {
                        0
                    }) as u64,
                ),
                HostInstr::CMov { condition, dst, src } => if self.condition(condition) {
                    self.with(dst, self.operand(host, src))
                } else {
                    self
                },
                HostInstr::MovZxByte { dst, src } => self.with(
                    dst,
                    Width::W8.wrap(self.reg(src) as int),
                ),
                HostInstr::MovSxByte { dst, src } => self.with(
                    dst,
                    utils::widened(Width::W8, Width::W8.wrap(self.operand(host, src) as int)),
                ),
                HostInstr::MovSxHalf { dst, src } => self.with(
                    dst,
                    utils::widened(Width::W16, Width::W16.wrap(self.operand(host, src) as int)),
                ),
                HostInstr::MovZxHalf { dst, src } => self.with(
                    dst,
                    Width::W16.wrap(self.operand(host, src) as int),
                ),
                HostInstr::ShiftCl { size, shift, dst } => self.shifted(
                    host,
                    size,
                    shift,
                    dst,
                    Width::W8.wrap(self.reg(X86Reg::RCX) as int),
                ),
                HostInstr::ShiftImm { size, shift, dst, imm } => self.shifted(
                    host,
                    size,
                    shift,
                    dst,
                    imm as u64,
                ),
                HostInstr::Alu { size, op, dst, src } => self.alu(
                    host,
                    size,
                    op,
                    dst,
                    self.reg(src),
                ),
                HostInstr::AluImm { size, op, dst, imm } => self.alu(
                    host,
                    size,
                    op,
                    dst,
                    utils::widened(Width::W32, imm as u64),
                ),
            }
        }
    }

    /// The machine after instructions.
    pub open spec fn ran(self, host: Host, code: Seq<HostInstr>) -> Machine
        decreases code.len(),
    {
        if code.len() == 0 {
            self
        } else {
            self.ran(host, code.drop_last()).stepped(host, code.last())
        }
    }
}

/// Running one more instruction.
pub proof fn lemma_ran_push(m: Machine, host: Host, code: Seq<HostInstr>, i: HostInstr)
    ensures
        m.ran(host, code.push(i)) == m.ran(host, code).stepped(host, i),
{
    assert(code.push(i).drop_last() =~= code);
}

/// Running some more instructions.
pub proof fn lemma_ran_add(m: Machine, host: Host, first: Seq<HostInstr>, second: Seq<HostInstr>)
    ensures
        m.ran(host, first + second) == m.ran(host, first).ran(host, second),
    decreases second.len(),
{
    if second.len() == 0 {
        assert(first + second =~= first);
    } else {
        lemma_ran_add(m, host, first, second.drop_last());
        assert((first + second).drop_last() =~= first + second.drop_last());
    }
}

} // verus!
