//! Translation of guest instructions.
use vstd::prelude::*;

use crate::isa::riscv::decoder::DecodeInstr;
use crate::isa::riscv::instruction::info::RVInstrInfo;
use crate::isa::riscv::instruction::instr_table::RiscvInstr;
use crate::utils;
use crate::utils::Width;

use super::backend::x86::assembler;
use super::backend::x86::code;
use super::backend::x86::code::HostInstr;
use super::backend::x86::{
    AluOp, CallArg, ConditionCode, OperandSize, RegMem, ShiftOp, X86Assembler, X86Reg,
};
use super::helpers::{Helpers, LoadKind, StoreKind};
use super::jit_function::JitInfo;

pub mod accesses;
pub mod agreement;
pub mod calls;
pub mod conditions;
pub mod control;
pub mod effects;
pub mod growth;
pub mod mirror;
pub mod mirror_compressed;
pub mod reg_assign;
pub mod rvc;
pub mod rvi;
pub mod simulation;
pub mod state_vec;

use reg_assign::{GuestAccess, RegAssign, RegGuard, RegKind, Table};
use state_vec::CPU_REG;

verus! {

/// How much of a register an operation works on.
#[derive(Debug, Clone, Copy, PartialEq, Eq, Structural)]
pub enum OperandWidth {
    Xlen,
    Word,
}

impl OperandWidth {
    pub open spec fn spec_size(self) -> OperandSize {
        match self {
            OperandWidth::Xlen => OperandSize::Qword,
            OperandWidth::Word => OperandSize::Dword,
        }
    }

    pub fn operand_size(self) -> (r: OperandSize)
        ensures
            r == self.spec_size(),
    {
        match self {
            OperandWidth::Xlen => OperandSize::Qword,
            OperandWidth::Word => OperandSize::Dword,
        }
    }
}

/// How a block goes on after an instruction.
#[derive(Debug, Clone, Copy, PartialEq, Eq, Structural)]
pub enum TranslateResult {
    Continue,
    ControlFlow,
    Unsupported,
}

/// How many host instructions an instruction takes at most.
pub const CODE_PER_INSTR: usize = 64;

/// The low 32 bits of an immediate.
pub open spec fn low32(imm: u64) -> u32 {
    (imm % 0x1_0000_0000) as u32
}

/// What does not change while a block is translated: where the block leaves what it leaves behind,
/// and what it calls.
#[derive(Debug, Clone, Copy, PartialEq, Eq, Structural)]
pub struct Surroundings {
    pub jit_context: u64,
    pub helpers: Helpers,
}

/// A block that is being translated: the table of host registers, and the code so far.
pub struct GenState {
    pub table: Table,
    pub code: Seq<HostInstr>,
}

impl GenState {
    /// Whether no host register is in use.
    pub open spec fn idle(self) -> bool {
        forall|i: int| 0 <= i < 16 ==> (#[trigger] self.table[i]).refcount == 0
    }

    /// Whether a host register can be taken.
    pub open spec fn roomy(self) -> bool {
        &&& self.table[5].refcount == 0 || self.table[6].refcount == 0 || self.table[7].refcount
            == 0 || self.table[0].refcount == 0
        &&& forall|i: int| 0 <= i < 16 ==> (#[trigger] self.table[i]).refcount < 255
    }

    /// The host register for a guest register.
    #[verifier::opaque]
    pub open spec fn host_of(self, guest: u8) -> X86Reg {
        reg_assign::guest_host(self.table, guest, RegKind::CallerOrCallee)
    }

    /// A host register is taken for a guest register.
    #[verifier::opaque]
    pub open spec fn guest(self, guest: u8, access: GuestAccess) -> GenState {
        GenState {
            table: reg_assign::guest_taken(
                self.table,
                guest,
                RegKind::CallerOrCallee,
                access,
            ),
            code: self.code + reg_assign::guest_code(
                self.table,
                guest,
                RegKind::CallerOrCallee,
                access,
            ),
        }
    }

    /// A host register is taken for a value of no guest register.
    #[verifier::opaque]
    pub open spec fn scratch(self) -> GenState {
        GenState {
            table: reg_assign::scratch_taken(self.table),
            code: self.code + reg_assign::scratch_code(self.table),
        }
    }

    /// A given host register is taken.
    #[verifier::opaque]
    pub open spec fn host(self, host: X86Reg) -> GenState {
        GenState {
            table: reg_assign::host_taken(self.table, host),
            code: self.code + self.table[reg_assign::row_of(host)].write_back(),
        }
    }

    /// A host register is released.
    #[verifier::opaque]
    pub open spec fn release(self, host: X86Reg) -> GenState {
        GenState { table: reg_assign::released(self.table, host), code: self.code }
    }

    /// An instruction is emitted.
    pub open spec fn emit(self, i: HostInstr) -> GenState {
        GenState { table: self.table, code: self.code.push(i) }
    }

    /// A register is moved to another one.
    pub open spec fn mov(self, dst: X86Reg, src: X86Reg) -> GenState {
        self.emit(
            HostInstr::MovStore { size: OperandSize::Qword, dst: RegMem::Reg(dst), src },
        )
    }

    /// A register is moved to another one, unless it is the same.
    pub open spec fn mov_if_needed(self, dst: X86Reg, src: X86Reg) -> GenState {
        if dst != src {
            self.mov(dst, src)
        } else {
            self
        }
    }

    /// A register is moved to another one.
    pub open spec fn mov_from(self, dst: X86Reg, src: X86Reg) -> GenState {
        self.emit(
            HostInstr::MovLoad { size: OperandSize::Qword, dst, src: RegMem::Reg(src) },
        )
    }

    /// The low word of a register is sign-extended, if the operation is on words.
    pub open spec fn extended(self, dst: X86Reg, width: OperandWidth) -> GenState {
        match width {
            OperandWidth::Xlen => self,
            OperandWidth::Word => self.emit(HostInstr::MovSxd { dst, src: RegMem::Reg(dst) }),
        }
    }

    /// An operation on two registers.
    pub open spec fn alu(
        self,
        op: AluOp,
        dst: X86Reg,
        src: X86Reg,
        width: OperandWidth,
    ) -> GenState {
        self.emit(
            HostInstr::Alu { size: width.spec_size(), op, dst: RegMem::Reg(dst), src },
        ).extended(dst, width)
    }

    /// An operation on a register and an immediate.
    pub open spec fn alu_imm(
        self,
        op: AluOp,
        dst: X86Reg,
        imm: u32,
        width: OperandWidth,
    ) -> GenState {
        self.emit(
            HostInstr::AluImm { size: width.spec_size(), op, dst: RegMem::Reg(dst), imm },
        ).extended(dst, width)
    }

    /// Memory is brought up to date.
    #[verifier::opaque]
    pub open spec fn flush(self) -> GenState {
        GenState {
            table: reg_assign::flushed(self.table),
            code: self.code + reg_assign::write_backs(self.table, 16),
        }
    }

    /// The host registers that a called function may change are given up.
    #[verifier::opaque]
    pub open spec fn flush_for_call(self) -> GenState {
        GenState {
            table: reg_assign::flushed_for_call(self.table),
            code: self.code + reg_assign::call_write_backs(self.table),
        }
    }

    /// A function is called.
    pub open spec fn call(self, target: u64, args: Seq<CallArg>) -> GenState {
        GenState { table: self.table, code: self.code + assembler::call_code(target, args) }
    }

    /// `rd = rs1 op rs2`
    pub open spec fn alu_r(
        self,
        rd: u8,
        rs1: u8,
        rs2: u8,
        op: AluOp,
        commutative: bool,
        width: OperandWidth,
    ) -> GenState {
        if rd == 0 {
            self
        } else if rd == rs1 {
            self.alu_in_place(rd, rs2, op, width)
        } else if commutative && rd == rs2 {
            self.alu_in_place(rd, rs1, op, width)
        } else if rd == rs2 {
            self.alu_through_scratch(rd, rs1, op, width)
        } else {
            self.alu_apart(rd, rs1, rs2, op, width)
        }
    }

    /// `rd = rd op rs`
    pub open spec fn alu_in_place(
        self,
        rd: u8,
        rs: u8,
        op: AluOp,
        width: OperandWidth,
    ) -> GenState {
        let a = self.guest(rs, GuestAccess::ReadOnly);
        let b = a.guest(rd, GuestAccess::ReadWrite);
        let src = self.host_of(rs);
        let dst = a.host_of(rd);
        b.alu(op, dst, src, width).release(dst).release(src)
    }

    /// `rd = rs op rd`
    pub open spec fn alu_through_scratch(
        self,
        rd: u8,
        rs: u8,
        op: AluOp,
        width: OperandWidth,
    ) -> GenState {
        let a = self.guest(rs, GuestAccess::ReadOnly);
        let b = a.guest(rd, GuestAccess::ReadWrite);
        let c = b.scratch();
        let src = self.host_of(rs);
        let dst = a.host_of(rd);
        let tmp = reg_assign::scratch_host(b.table);
        c.mov(tmp, src).alu(op, tmp, dst, width).mov(dst, tmp).release(tmp).release(dst).release(
            src,
        )
    }

    /// `rd = rs1 op rs2`, where `rd` is another register.
    pub open spec fn alu_apart(
        self,
        rd: u8,
        rs1: u8,
        rs2: u8,
        op: AluOp,
        width: OperandWidth,
    ) -> GenState {
        let a = self.guest(rs1, GuestAccess::ReadOnly);
        let b = a.guest(rs2, GuestAccess::ReadOnly);
        let c = b.guest(rd, GuestAccess::WriteOnly);
        let first = self.host_of(rs1);
        let second = a.host_of(rs2);
        let dst = b.host_of(rd);
        c.mov(dst, first).alu(op, dst, second, width).release(dst).release(second).release(first)
    }

    /// `rd = rs1 op imm`
    pub open spec fn alu_i(
        self,
        rd: u8,
        rs1: u8,
        imm: u64,
        op: AluOp,
        width: OperandWidth,
    ) -> GenState {
        if rd == 0 {
            self
        } else {
            let a = self.guest(rs1, GuestAccess::ReadOnly);
            let b = a.guest(rd, GuestAccess::WriteOnly);
            let src = self.host_of(rs1);
            let dst = a.host_of(rd);
            b.mov_if_needed(dst, src).alu_imm(op, dst, low32(imm), width).release(dst).release(src)
        }
    }

    /// `rd = rs1 shifted by rs2`
    pub open spec fn shift_r(
        self,
        rd: u8,
        rs1: u8,
        rs2: u8,
        shift: ShiftOp,
        width: OperandWidth,
    ) -> GenState {
        if rd == 0 {
            self
        } else {
            let a = self.guest(rs1, GuestAccess::ReadOnly);
            let b = a.guest(rs2, GuestAccess::ReadOnly);
            let src = self.host_of(rs1);
            let count = a.host_of(rs2);
            let c = b.host(X86Reg::RCX).mov_from(X86Reg::RCX, count);
            let d = c.guest(rd, GuestAccess::WriteOnly);
            let dst = c.host_of(rd);
            d.mov_if_needed(dst, src).emit(
                HostInstr::ShiftCl { size: width.spec_size(), shift, dst: RegMem::Reg(dst) },
            ).extended(dst, width).release(dst).release(X86Reg::RCX).release(count).release(src)
        }
    }

    /// `rd = rs1 shifted by imm`
    pub open spec fn shift_i(
        self,
        rd: u8,
        rs1: u8,
        imm: u64,
        shift: ShiftOp,
        width: OperandWidth,
    ) -> GenState {
        if rd == 0 {
            self
        } else {
            let a = self.guest(rs1, GuestAccess::ReadOnly);
            let b = a.guest(rd, GuestAccess::WriteOnly);
            let src = self.host_of(rs1);
            let dst = a.host_of(rd);
            b.mov_if_needed(dst, src).emit(
                HostInstr::ShiftImm {
                    size: width.spec_size(),
                    shift,
                    dst: RegMem::Reg(dst),
                    imm: (imm % 0x100) as u8,
                },
            ).extended(dst, width).release(dst).release(src)
        }
    }

    /// A register is 1 if a condition holds, and 0 if not.
    pub open spec fn set_if(self, condition: ConditionCode, dst: X86Reg) -> GenState {
        self.emit(HostInstr::SetCc { condition, dst }).emit(HostInstr::MovZxByte { dst, src: dst })
    }

    /// `rd = rs1 compared with rs2`
    pub open spec fn compare_r(
        self,
        rd: u8,
        rs1: u8,
        rs2: u8,
        condition: ConditionCode,
    ) -> GenState {
        if rd == 0 {
            self
        } else {
            let a = self.guest(rs1, GuestAccess::ReadOnly);
            let b = a.guest(rs2, GuestAccess::ReadOnly);
            let c = b.guest(rd, GuestAccess::WriteOnly);
            let first = self.host_of(rs1);
            let second = a.host_of(rs2);
            let dst = b.host_of(rd);
            c.alu(AluOp::Cmp, first, second, OperandWidth::Xlen).set_if(condition, dst).release(
                dst,
            ).release(second).release(first)
        }
    }

    /// `rd = rs1 compared with imm`
    pub open spec fn compare_i(
        self,
        rd: u8,
        rs1: u8,
        imm: u64,
        condition: ConditionCode,
    ) -> GenState {
        if rd == 0 {
            self
        } else {
            let a = self.guest(rs1, GuestAccess::ReadOnly);
            let b = a.guest(rd, GuestAccess::WriteOnly);
            let first = self.host_of(rs1);
            let dst = a.host_of(rd);
            b.alu_imm(AluOp::Cmp, first, low32(imm), OperandWidth::Xlen).set_if(
                condition,
                dst,
            ).release(dst).release(first)
        }
    }

    /// `rd = rs`
    pub open spec fn move_reg(self, rd: u8, rs: u8) -> GenState {
        if rd == 0 {
            self
        } else {
            let a = self.guest(rs, GuestAccess::ReadOnly);
            let b = a.guest(rd, GuestAccess::WriteOnly);
            let src = self.host_of(rs);
            let dst = a.host_of(rd);
            b.mov_if_needed(dst, src).release(dst).release(src)
        }
    }

    /// `rd = value`
    pub open spec fn load_imm(self, rd: u8, value: u64) -> GenState {
        if rd == 0 {
            self
        } else {
            let dst = self.host_of(rd);
            self.guest(rd, GuestAccess::WriteOnly).emit(
                HostInstr::MovImm { dst, imm: value },
            ).release(dst)
        }
    }

    /// The sum of a guest register and an immediate is computed in a host register of its own.
    /// Both registers stay in use.
    pub open spec fn address(self, rs1: u8, imm: u64) -> GenState {
        let addr = reg_assign::scratch_host(self.table);
        let a = self.scratch();
        a.guest(rs1, GuestAccess::ReadOnly).mov_from(addr, a.host_of(rs1)).alu_imm(
            AluOp::Add,
            addr,
            low32(imm),
            OperandWidth::Xlen,
        )
    }

    /// What a load returned is extended.
    pub open spec fn load_extended(self, kind: LoadKind) -> GenState {
        let value = X86Reg::RAX;
        let src = RegMem::Reg(value);
        match kind {
            LoadKind::SignedByte => self.emit(HostInstr::MovSxByte { dst: value, src }),
            LoadKind::UnsignedByte => self.emit(HostInstr::MovZxByte { dst: value, src: value }),
            LoadKind::SignedHalf => self.emit(HostInstr::MovSxHalf { dst: value, src }),
            LoadKind::UnsignedHalf => self.emit(HostInstr::MovZxHalf { dst: value, src }),
            LoadKind::SignedWord => self.emit(HostInstr::MovSxd { dst: value, src }),
            LoadKind::UnsignedWord => self.emit(
                HostInstr::MovLoad { size: OperandSize::Dword, dst: value, src },
            ),
            LoadKind::DoubleWord => self,
        }
    }

    /// The call of a load.
    pub open spec fn load_call(
        self,
        around: Surroundings,
        rs1: u8,
        imm: u64,
        kind: LoadKind,
        context: JitInfo,
    ) -> GenState {
        let addr = reg_assign::scratch_host(self.table);
        let base = self.scratch().host_of(rs1);
        self.address(rs1, imm).release(base).release(addr).flush().flush_for_call().call(
            kind.helper_in(around.helpers),
            seq![
                CallArg::Reg(CPU_REG),
                CallArg::Reg(addr),
                CallArg::Imm(around.jit_context),
                CallArg::Imm(context.instr_pc),
                CallArg::Imm(context.instr_cnt),
            ],
        )
    }

    /// `rd = memory at rs1 + imm`
    pub open spec fn load(
        self,
        around: Surroundings,
        rd: u8,
        rs1: u8,
        imm: u64,
        kind: LoadKind,
        context: JitInfo,
    ) -> GenState {
        let called = self.load_call(around, rs1, imm, kind, context);
        if rd == 0 {
            called
        } else {
            let loaded = called.host(X86Reg::RAX).load_extended(kind).release(X86Reg::RAX);
            let dst = loaded.host_of(rd);
            loaded.guest(rd, GuestAccess::WriteOnly).mov_if_needed(dst, X86Reg::RAX).release(dst)
        }
    }

    /// `memory at rs1 + imm = rs2`
    pub open spec fn store(
        self,
        around: Surroundings,
        rs1: u8,
        rs2: u8,
        imm: u64,
        kind: StoreKind,
        context: JitInfo,
    ) -> GenState {
        let addr = reg_assign::scratch_host(self.table);
        let base = self.scratch().host_of(rs1);
        let a = self.address(rs1, imm);
        let value = a.host_of(rs2);
        a.guest(rs2, GuestAccess::ReadOnly).release(value).release(base).release(
            addr,
        ).flush().flush_for_call().call(
            kind.helper_in(around.helpers),
            seq![
                CallArg::Reg(CPU_REG),
                CallArg::Reg(addr),
                CallArg::Reg(value),
                CallArg::Imm(around.jit_context),
                CallArg::Imm(context.instr_pc),
                CallArg::Imm(context.instr_cnt),
            ],
        )
    }

    /// The target of a jump, which is given or in `RAX`, is checked.
    pub open spec fn check_alignment(
        self,
        around: Surroundings,
        target: Option<u64>,
        context: JitInfo,
    ) -> GenState {
        let a = self.flush().host(X86Reg::RAX);
        let b = match target {
            Some(imm) => a.emit(HostInstr::MovImm { dst: X86Reg::RAX, imm }),
            None => a,
        };
        b.release(X86Reg::RAX).flush_for_call().call(
            around.helpers.check_alignment,
            seq![
                CallArg::Reg(X86Reg::RAX),
                CallArg::Imm(around.jit_context),
                CallArg::Imm(context.instr_pc),
                CallArg::Imm(context.instr_cnt),
            ],
        )
    }

    /// The next address is in `RAX`: the target if a condition holds, and the one behind the
    /// instruction if not.
    pub open spec fn branch(
        self,
        around: Surroundings,
        rs1: u8,
        rs2: Option<u8>,
        imm: u64,
        condition: ConditionCode,
        context: JitInfo,
    ) -> GenState {
        let a = self.guest(rs1, GuestAccess::ReadOnly);
        let first = self.host_of(rs1);
        let compared = match rs2 {
            Some(rs2) => {
                let second = a.host_of(rs2);
                a.guest(rs2, GuestAccess::ReadOnly).alu(
                    AluOp::Cmp,
                    first,
                    second,
                    OperandWidth::Xlen,
                ).release(second)
            },
            None => a.alu_imm(AluOp::Cmp, first, 0, OperandWidth::Xlen),
        }.release(first);
        let target = Width::W64.wrap(context.instr_pc + imm);
        let fallthrough = Width::W64.wrap(context.instr_pc + context.instr_len);
        let picked = compared.host(X86Reg::RAX).host(X86Reg::RDX).emit(
            HostInstr::MovImm { dst: X86Reg::RAX, imm: fallthrough },
        ).emit(HostInstr::MovImm { dst: X86Reg::RDX, imm: target }).emit(
            HostInstr::CMov { condition, dst: X86Reg::RAX, src: RegMem::Reg(X86Reg::RDX) },
        ).release(X86Reg::RDX).release(X86Reg::RAX);
        if context.ialign == 4 && target % 4 != 0 {
            picked.check_alignment(around, None, context)
        } else {
            picked
        }
    }

    /// The address behind the instruction goes to a guest register. The next address stays in
    /// `RAX`, which is in use.
    pub open spec fn link(self, rd: Option<u8>, context: JitInfo) -> GenState {
        match rd {
            Some(rd) if rd != 0 => {
                let dst = self.host_of(rd);
                self.guest(rd, GuestAccess::WriteOnly).emit(
                    HostInstr::MovImm {
                        dst,
                        imm: Width::W64.wrap(context.instr_pc + context.instr_len),
                    },
                ).release(dst)
            },
            _ => self,
        }
    }

    /// The next address, which is known, is in `RAX`.
    pub open spec fn jump_imm(
        self,
        around: Surroundings,
        rd: Option<u8>,
        imm: u64,
        context: JitInfo,
    ) -> GenState {
        let target = Width::W64.wrap(context.instr_pc + imm);
        let misaligned = context.ialign == 4 && target % 4 != 0;
        if misaligned {
            self.check_alignment(around, Some(target), context).host(X86Reg::RAX)
        } else {
            self.host(X86Reg::RAX).emit(HostInstr::MovImm { dst: X86Reg::RAX, imm: target })
        }.link(rd, context).release(X86Reg::RAX)
    }

    /// The next address, which is the sum of a guest register and an immediate without its low
    /// bit, is in `RAX`.
    pub open spec fn jump_reg(
        self,
        around: Surroundings,
        rd: Option<u8>,
        rs1: u8,
        imm: u64,
        context: JitInfo,
    ) -> GenState {
        let a = self.host(X86Reg::RAX);
        let source = a.host_of(rs1);
        let b = a.guest(rs1, GuestAccess::ReadOnly).mov_from(X86Reg::RAX, source).release(
            source,
        ).alu_imm(AluOp::Add, X86Reg::RAX, low32(imm), OperandWidth::Xlen).alu_imm(
            AluOp::And,
            X86Reg::RAX,
            0xffff_fffe,
            OperandWidth::Xlen,
        ).release(X86Reg::RAX);
        let c = if context.ialign == 4 {
            b.check_alignment(around, None, context)
        } else {
            b
        };
        match rd {
            Some(r) if r != 0 => c.host(X86Reg::RAX).link(rd, context).release(X86Reg::RAX),
            _ => c,
        }
    }

    /// The code of an instruction, and how the block goes on.
    #[verifier::opaque]
    pub open spec fn instruction(
        self,
        around: Surroundings,
        instr: RiscvInstr,
        info: RVInstrInfo,
        context: JitInfo,
    ) -> (GenState, TranslateResult) {
        let (s, result) = self.rvi(around, instr, info, context);
        if result == TranslateResult::Unsupported {
            self.rvc(around, instr, info, context)
        } else {
            (s, result)
        }
    }

    /// The end of a block: memory is up to date, and the next address is in `RAX`.
    pub open spec fn finished(self, next_pc: Option<u64>) -> GenState {
        let a = self.flush();
        match next_pc {
            Some(imm) => a.host(X86Reg::RAX).emit(HostInstr::MovImm { dst: X86Reg::RAX, imm }),
            None => a,
        }.emit(HostInstr::Ret)
    }
}

/// Translates the instructions of a block. [`CPU_REG`] points to the guest registers, the host
/// registers of the table hold guest registers or values in between, and the others hold what is
/// passed to a function and what it returns.
pub struct X86CodeGen {
    pub out: X86Assembler,
    pub regs: RegAssign,
    pub around: Surroundings,
}

impl View for X86CodeGen {
    type V = GenState;

    open spec fn view(&self) -> GenState {
        GenState { table: self.regs@, code: self.out@ }
    }
}

/// A host register can be taken for any guest register as long as one is left.
proof fn lemma_take_guest(s: GenState, guest: u8, access: GuestAccess)
    requires
        reg_assign::table_ok(s.table),
        s.roomy(),
        guest < 32,
    ensures
        reg_assign::can_take_guest(s.table, guest, RegKind::CallerOrCallee),
        0 <= reg_assign::row_of(s.host_of(guest)) < 8,
        !assembler::is_arg_reg(s.host_of(guest)),
        forall|i: int|
            0 <= i < 16 ==> (#[trigger] s.guest(guest, access).table[i]).refcount
                == s.table[i].refcount + if i == reg_assign::row_of(s.host_of(guest)) {
                1int
            } else {
                0
            },
        reg_assign::table_ok(s.guest(guest, access).table),
{
    reveal(GenState::guest);
    reveal(GenState::host_of);
    let t = s.table;
    let kind = RegKind::CallerOrCallee;
    lemma_free_row(t);
    reg_assign::lemma_first_row(t, kind, Some(guest), 0);
    reg_assign::lemma_first_row(t, kind, None, 0);
    assert(reg_assign::made_room(t, guest, kind).0 == t);
    reg_assign::law_guest_taken_ok(t, guest, kind, access);
}

proof fn lemma_free_row(t: Table)
    requires
        t.len() == 16,
        t[5].refcount == 0 || t[6].refcount == 0 || t[7].refcount == 0 || t[0].refcount == 0,
    ensures
        reg_assign::first_row(t, RegKind::CallerOrCallee, None, 0) is Some,
{
    reveal_with_fuel(reg_assign::first_row, 5);
    let kind = RegKind::CallerOrCallee;
    assert(reg_assign::turn(kind, 0) == 5 && reg_assign::turn(kind, 1) == 6 && reg_assign::turn(
        kind,
        2,
    ) == 7 && reg_assign::turn(kind, 3) == 0);
}

/// Whether the table of host registers is right.
#[verifier::opaque]
pub open spec fn regs_ok(regs: RegAssign) -> bool {
    regs.wf()
}

impl X86CodeGen {
    /// Whether the parts are right.
    pub open spec fn wf(&self) -> bool {
        self.out.wf() && regs_ok(self.regs)
    }

    /// A block with no instruction.
    pub fn new(jit_context: u64, helpers: Helpers) -> (r: X86CodeGen)
        ensures
            r.wf(),
            r@.idle(),
            r@.code == Seq::<HostInstr>::empty(),
            r@.table == Seq::new(
                16,
                |i: int| state_vec::HostRegState::unused(reg_assign::host_at(i)),
            ),
            r.around == (Surroundings { jit_context, helpers }),
    {
        proof {
            reveal(regs_ok);
        }
        X86CodeGen {
            out: X86Assembler::new(),
            regs: RegAssign::new(),
            around: Surroundings { jit_context, helpers },
        }
    }

    fn guest(&mut self, guest: u8, access: GuestAccess) -> (r: X86Reg)
        requires
            old(self).wf(),
            old(self)@.roomy(),
            guest < 32,
        ensures
            final(self)@.code.len() <= old(self)@.code.len() + 2,
            final(self).wf(),
            final(self).around == old(self).around,
            final(self)@ == old(self)@.guest(guest, access),
            r == old(self)@.host_of(guest),
            0 <= reg_assign::row_of(r) < 8,
            !assembler::is_arg_reg(r),
            forall|i: int|
                0 <= i < 16 ==> (#[trigger] final(self)@.table[i]).refcount
                    == old(self)@.table[i].refcount + if i == reg_assign::row_of(r) {
                    1int
                } else {
                    0
                },
    {
        proof {
            reveal(regs_ok);
            reveal(GenState::guest);
            reveal(GenState::host_of);
            lemma_take_guest(self@, guest, access);
        }
        let guard = match access {
            GuestAccess::ReadOnly => self.regs.guest_read(guest, &mut self.out),
            GuestAccess::WriteOnly => self.regs.guest_write(guest, &mut self.out),
            GuestAccess::ReadWrite => self.regs.guest_read_write(guest, &mut self.out),
        };
        guard.reg()
    }

    fn scratch(&mut self) -> (r: X86Reg)
        requires
            old(self).wf(),
            old(self)@.roomy(),
        ensures
            final(self)@.code.len() <= old(self)@.code.len() + 1,
            final(self).wf(),
            final(self).around == old(self).around,
            final(self)@ == old(self)@.scratch(),
            r == reg_assign::scratch_host(old(self)@.table),
            0 <= reg_assign::row_of(r) < 8,
            !assembler::is_arg_reg(r),
            forall|i: int|
                0 <= i < 16 ==> (#[trigger] final(self)@.table[i]).refcount
                    == old(self)@.table[i].refcount + if i == reg_assign::row_of(r) {
                    1int
                } else {
                    0
                },
    {
        proof {
            reveal(regs_ok);
            reveal(GenState::scratch);
            lemma_free_row(self@.table);
            reg_assign::lemma_first_row(self@.table, RegKind::CallerOrCallee, None, 0);
        }
        self.regs.scratch(&mut self.out).reg()
    }

    fn host(&mut self, host: X86Reg)
        requires
            old(self).wf(),
            old(self)@.table[reg_assign::row_of(host)].refcount == 0,
        ensures
            final(self)@.code.len() <= old(self)@.code.len() + 1,
            final(self).wf(),
            final(self).around == old(self).around,
            final(self)@ == old(self)@.host(host),
            forall|i: int|
                0 <= i < 16 ==> (#[trigger] final(self)@.table[i]).refcount
                    == old(self)@.table[i].refcount + if i == reg_assign::row_of(host) {
                    1int
                } else {
                    0
                },
    {
        proof {
            reveal(regs_ok);
            reveal(GenState::host);
        }
        let _ = self.regs.host(host, &mut self.out);
    }

    fn release(&mut self, host: X86Reg)
        requires
            old(self).wf(),
            old(self)@.table[reg_assign::row_of(host)].refcount > 0,
        ensures
            final(self)@.code.len() <= old(self)@.code.len() + 0,
            final(self).wf(),
            final(self).around == old(self).around,
            final(self)@ == old(self)@.release(host),
            forall|i: int|
                0 <= i < 16 ==> (#[trigger] final(self)@.table[i]).refcount
                    == old(self)@.table[i].refcount - if i == reg_assign::row_of(host) {
                    1int
                } else {
                    0
                },
    {
        proof {
            reveal(regs_ok);
            reveal(GenState::release);
        }
        self.regs.release(RegGuard { host });
    }

    fn flush(&mut self)
        requires
            old(self).wf(),
        ensures
            final(self)@.code.len() <= old(self)@.code.len() + 16,
            final(self).wf(),
            final(self).around == old(self).around,
            final(self)@ == old(self)@.flush(),
            forall|i: int|
                0 <= i < 16 ==> (#[trigger] final(self)@.table[i]).refcount
                    == old(self)@.table[i].refcount,
    {
        proof {
            reveal(regs_ok);
            reveal(GenState::flush);
            reg_assign::lemma_write_backs_len(self@.table, 16);
        }
        self.regs.flush(&mut self.out);
    }

    fn flush_for_call(&mut self)
        requires
            old(self).wf(),
            old(self)@.idle(),
        ensures
            final(self)@.code.len() <= old(self)@.code.len() + 3,
            final(self).wf(),
            final(self).around == old(self).around,
            final(self)@ == old(self)@.flush_for_call(),
            final(self)@.idle(),
    {
        proof {
            reveal(regs_ok);
            reveal(GenState::flush_for_call);
        }
        self.regs.flush_for_call(&mut self.out);
    }

    fn mov(&mut self, dst: X86Reg, src: X86Reg)
        requires
            old(self).wf(),
        ensures
            final(self).wf(),
            final(self).around == old(self).around,
            final(self)@ == old(self)@.mov(dst, src),
    {
        self.out.mov_rm64_r64(RegMem::Reg(dst), src);
    }

    fn mov_if_needed(&mut self, dst: X86Reg, src: X86Reg)
        requires
            old(self).wf(),
        ensures
            final(self).wf(),
            final(self).around == old(self).around,
            final(self)@ == old(self)@.mov_if_needed(dst, src),
    {
        if dst != src {
            self.mov(dst, src);
        }
    }

    fn emit_alu_r(&mut self, op: AluOp, dst: X86Reg, src: X86Reg, width: OperandWidth)
        requires
            old(self).wf(),
        ensures
            final(self).wf(),
            final(self).around == old(self).around,
            final(self)@ == old(self)@.alu(op, dst, src, width),
    {
        match width {
            OperandWidth::Xlen => self.out.alu_rm64_r64(op, RegMem::Reg(dst), src),
            OperandWidth::Word => self.out.alu_rm32_r32(op, RegMem::Reg(dst), src),
        }
        self.sext_word_on_need(dst, width);
    }

    fn emit_alu_i(&mut self, op: AluOp, dst: X86Reg, imm: u32, width: OperandWidth)
        requires
            old(self).wf(),
        ensures
            final(self).wf(),
            final(self).around == old(self).around,
            final(self)@ == old(self)@.alu_imm(op, dst, imm, width),
    {
        match width {
            OperandWidth::Xlen => self.out.alu_rm64_imm32(op, RegMem::Reg(dst), imm),
            OperandWidth::Word => self.out.alu_rm32_imm32(op, RegMem::Reg(dst), imm),
        }
        self.sext_word_on_need(dst, width);
    }

    fn sext_word_on_need(&mut self, dst: X86Reg, width: OperandWidth)
        requires
            old(self).wf(),
        ensures
            final(self).wf(),
            final(self).around == old(self).around,
            final(self)@ == old(self)@.extended(dst, width),
    {
        match width {
            OperandWidth::Xlen => {},
            OperandWidth::Word => self.out.sext(dst),
        }
    }

    /// `rd = rs1 op rs2`
    pub fn translate_alu_r(
        &mut self,
        rd: u8,
        rs1: u8,
        rs2: u8,
        op: AluOp,
        commutative: bool,
        width: OperandWidth,
    )
        requires
            old(self).wf(),
            old(self)@.idle(),
            rd < 32,
            rs1 < 32,
            rs2 < 32,
        ensures
            final(self)@.code.len() <= old(self)@.code.len() + CODE_PER_INSTR,
            final(self).wf(),
            final(self)@.idle(),
            final(self).around == old(self).around,
            final(self)@ == old(self)@.alu_r(rd, rs1, rs2, op, commutative, width),
    {
        if rd == 0 {
            return;
        }
        if rd == rs1 {
            self.emit_alu_in_place(rd, rs2, op, width);
        } else if commutative && rd == rs2 {
            self.emit_alu_in_place(rd, rs1, op, width);
        } else if rd == rs2 {
            self.emit_alu_through_scratch(rd, rs1, op, width);
        } else {
            self.emit_alu_apart(rd, rs1, rs2, op, width);
        }
    }

    fn emit_alu_in_place(&mut self, rd: u8, rs: u8, op: AluOp, width: OperandWidth)
        requires
            old(self).wf(),
            old(self)@.idle(),
            rd < 32,
            rs < 32,
        ensures
            final(self)@.code.len() <= old(self)@.code.len() + CODE_PER_INSTR,
            final(self).wf(),
            final(self)@.idle(),
            final(self).around == old(self).around,
            final(self)@ == old(self)@.alu_in_place(rd, rs, op, width),
    {
        let src = self.guest(rs, GuestAccess::ReadOnly);
        let dst = self.guest(rd, GuestAccess::ReadWrite);
        self.emit_alu_r(op, dst, src, width);
        self.release(dst);
        self.release(src);
    }

    fn emit_alu_through_scratch(&mut self, rd: u8, rs: u8, op: AluOp, width: OperandWidth)
        requires
            old(self).wf(),
            old(self)@.idle(),
            rd < 32,
            rs < 32,
        ensures
            final(self)@.code.len() <= old(self)@.code.len() + CODE_PER_INSTR,
            final(self).wf(),
            final(self)@.idle(),
            final(self).around == old(self).around,
            final(self)@ == old(self)@.alu_through_scratch(rd, rs, op, width),
    {
        let src = self.guest(rs, GuestAccess::ReadOnly);
        let dst = self.guest(rd, GuestAccess::ReadWrite);
        let tmp = self.scratch();
        self.mov(tmp, src);
        self.emit_alu_r(op, tmp, dst, width);
        self.mov(dst, tmp);
        self.release(tmp);
        self.release(dst);
        self.release(src);
    }

    fn emit_alu_apart(&mut self, rd: u8, rs1: u8, rs2: u8, op: AluOp, width: OperandWidth)
        requires
            old(self).wf(),
            old(self)@.idle(),
            rd < 32,
            rs1 < 32,
            rs2 < 32,
        ensures
            final(self)@.code.len() <= old(self)@.code.len() + CODE_PER_INSTR,
            final(self).wf(),
            final(self)@.idle(),
            final(self).around == old(self).around,
            final(self)@ == old(self)@.alu_apart(rd, rs1, rs2, op, width),
    {
        let first = self.guest(rs1, GuestAccess::ReadOnly);
        let second = self.guest(rs2, GuestAccess::ReadOnly);
        let dst = self.guest(rd, GuestAccess::WriteOnly);
        self.mov(dst, first);
        self.emit_alu_r(op, dst, second, width);
        self.release(dst);
        self.release(second);
        self.release(first);
    }

    /// `rd = rs1 op imm`
    pub fn translate_alu_i(&mut self, rd: u8, rs1: u8, imm: u64, op: AluOp, width: OperandWidth)
        requires
            old(self).wf(),
            old(self)@.idle(),
            rd < 32,
            rs1 < 32,
        ensures
            final(self)@.code.len() <= old(self)@.code.len() + CODE_PER_INSTR,
            final(self).wf(),
            final(self)@.idle(),
            final(self).around == old(self).around,
            final(self)@ == old(self)@.alu_i(rd, rs1, imm, op, width),
    {
        if rd == 0 {
            return;
        }
        let src = self.guest(rs1, GuestAccess::ReadOnly);
        let dst = self.guest(rd, GuestAccess::WriteOnly);
        self.mov_if_needed(dst, src);
        self.emit_alu_i(op, dst, (imm % 0x1_0000_0000) as u32, width);
        self.release(dst);
        self.release(src);
    }

    /// `rd = rs1 shifted by rs2`
    pub fn translate_shift_r(
        &mut self,
        rd: u8,
        rs1: u8,
        rs2: u8,
        shift: ShiftOp,
        width: OperandWidth,
    )
        requires
            old(self).wf(),
            old(self)@.idle(),
            rd < 32,
            rs1 < 32,
            rs2 < 32,
        ensures
            final(self)@.code.len() <= old(self)@.code.len() + CODE_PER_INSTR,
            final(self).wf(),
            final(self)@.idle(),
            final(self).around == old(self).around,
            final(self)@ == old(self)@.shift_r(rd, rs1, rs2, shift, width),
    {
        if rd == 0 {
            return;
        }
        let src = self.guest(rs1, GuestAccess::ReadOnly);
        let count = self.guest(rs2, GuestAccess::ReadOnly);
        self.host(X86Reg::RCX);
        self.out.mov_r64_rm64(X86Reg::RCX, RegMem::Reg(count));
        let dst = self.guest(rd, GuestAccess::WriteOnly);
        self.mov_if_needed(dst, src);
        self.out.shift_rm_cl(width.operand_size(), shift, RegMem::Reg(dst));
        self.sext_word_on_need(dst, width);
        self.release(dst);
        self.release(X86Reg::RCX);
        self.release(count);
        self.release(src);
    }

    /// `rd = rs1 shifted by imm`
    pub fn translate_shift_i(
        &mut self,
        rd: u8,
        rs1: u8,
        imm: u64,
        shift: ShiftOp,
        width: OperandWidth,
    )
        requires
            old(self).wf(),
            old(self)@.idle(),
            rd < 32,
            rs1 < 32,
        ensures
            final(self)@.code.len() <= old(self)@.code.len() + CODE_PER_INSTR,
            final(self).wf(),
            final(self)@.idle(),
            final(self).around == old(self).around,
            final(self)@ == old(self)@.shift_i(rd, rs1, imm, shift, width),
    {
        if rd == 0 {
            return;
        }
        let src = self.guest(rs1, GuestAccess::ReadOnly);
        let dst = self.guest(rd, GuestAccess::WriteOnly);
        self.mov_if_needed(dst, src);
        self.out.shift_rm_imm8(
            width.operand_size(),
            shift,
            RegMem::Reg(dst),
            (imm % 0x100) as u8,
        );
        self.sext_word_on_need(dst, width);
        self.release(dst);
        self.release(src);
    }

    /// `rd = rs1 compared with rs2`
    pub fn translate_compare_r(&mut self, rd: u8, rs1: u8, rs2: u8, condition: ConditionCode)
        requires
            old(self).wf(),
            old(self)@.idle(),
            rd < 32,
            rs1 < 32,
            rs2 < 32,
        ensures
            final(self)@.code.len() <= old(self)@.code.len() + CODE_PER_INSTR,
            final(self).wf(),
            final(self)@.idle(),
            final(self).around == old(self).around,
            final(self)@ == old(self)@.compare_r(rd, rs1, rs2, condition),
    {
        if rd == 0 {
            return;
        }
        let first = self.guest(rs1, GuestAccess::ReadOnly);
        let second = self.guest(rs2, GuestAccess::ReadOnly);
        let dst = self.guest(rd, GuestAccess::WriteOnly);
        self.emit_alu_r(AluOp::Cmp, first, second, OperandWidth::Xlen);
        self.out.setcc_r8(condition, dst);
        self.out.movzx_r32_r8(dst, dst);
        self.release(dst);
        self.release(second);
        self.release(first);
    }

    /// `rd = rs1 compared with imm`
    pub fn translate_compare_i(&mut self, rd: u8, rs1: u8, imm: u64, condition: ConditionCode)
        requires
            old(self).wf(),
            old(self)@.idle(),
            rd < 32,
            rs1 < 32,
        ensures
            final(self)@.code.len() <= old(self)@.code.len() + CODE_PER_INSTR,
            final(self).wf(),
            final(self)@.idle(),
            final(self).around == old(self).around,
            final(self)@ == old(self)@.compare_i(rd, rs1, imm, condition),
    {
        if rd == 0 {
            return;
        }
        let first = self.guest(rs1, GuestAccess::ReadOnly);
        let dst = self.guest(rd, GuestAccess::WriteOnly);
        self.emit_alu_i(AluOp::Cmp, first, (imm % 0x1_0000_0000) as u32, OperandWidth::Xlen);
        self.out.setcc_r8(condition, dst);
        self.out.movzx_r32_r8(dst, dst);
        self.release(dst);
        self.release(first);
    }

    /// `rd = rs`
    pub fn translate_move(&mut self, rd: u8, rs: u8)
        requires
            old(self).wf(),
            old(self)@.idle(),
            rd < 32,
            rs < 32,
        ensures
            final(self)@.code.len() <= old(self)@.code.len() + CODE_PER_INSTR,
            final(self).wf(),
            final(self)@.idle(),
            final(self).around == old(self).around,
            final(self)@ == old(self)@.move_reg(rd, rs),
    {
        if rd == 0 {
            return;
        }
        let src = self.guest(rs, GuestAccess::ReadOnly);
        let dst = self.guest(rd, GuestAccess::WriteOnly);
        self.mov_if_needed(dst, src);
        self.release(dst);
        self.release(src);
    }

    /// `rd = value`
    pub fn translate_load_imm(&mut self, rd: u8, value: u64)
        requires
            old(self).wf(),
            old(self)@.idle(),
            rd < 32,
        ensures
            final(self)@.code.len() <= old(self)@.code.len() + CODE_PER_INSTR,
            final(self).wf(),
            final(self)@.idle(),
            final(self).around == old(self).around,
            final(self)@ == old(self)@.load_imm(rd, value),
    {
        if rd == 0 {
            return;
        }
        let dst = self.guest(rd, GuestAccess::WriteOnly);
        self.out.mov_r64_imm64(dst, value);
        self.release(dst);
    }

    /// `rd = memory at rs1 + imm`
    pub fn translate_load(&mut self, rd: u8, rs1: u8, imm: u64, kind: LoadKind, context: JitInfo)
        requires
            old(self).wf(),
            old(self)@.idle(),
            rd < 32,
            rs1 < 32,
        ensures
            final(self)@.code.len() <= old(self)@.code.len() + CODE_PER_INSTR,
            final(self).wf(),
            final(self)@.idle(),
            final(self).around == old(self).around,
            final(self)@ == old(self)@.load(old(self).around, rd, rs1, imm, kind, context),
    {
        let addr = self.scratch();
        let base = self.guest(rs1, GuestAccess::ReadOnly);
        self.out.mov_r64_rm64(addr, RegMem::Reg(base));
        self.emit_alu_i(AluOp::Add, addr, (imm % 0x1_0000_0000) as u32, OperandWidth::Xlen);
        self.release(base);
        self.release(addr);
        self.flush();
        self.flush_for_call();
        let args: [CallArg; 5] = [
            CallArg::Reg(CPU_REG),
            CallArg::Reg(addr),
            CallArg::Imm(self.around.jit_context),
            CallArg::Imm(context.instr_pc),
            CallArg::Imm(context.instr_cnt),
        ];
        self.out.call_helper(kind.helper(&self.around.helpers), &args);
        assert(args@ =~= seq![
            CallArg::Reg(CPU_REG),
            CallArg::Reg(addr),
            CallArg::Imm(self.around.jit_context),
            CallArg::Imm(context.instr_pc),
            CallArg::Imm(context.instr_cnt),
        ]);
        if rd == 0 {
            return;
        }
        let value = X86Reg::RAX;
        let src = RegMem::Reg(value);
        self.host(value);
        match kind {
            LoadKind::SignedByte => self.out.movsx_r64_rm8(value, src),
            LoadKind::UnsignedByte => self.out.movzx_r32_r8(value, value),
            LoadKind::SignedHalf => self.out.movsx_r64_rm16(value, src),
            LoadKind::UnsignedHalf => self.out.movzx_r32_rm16(value, src),
            LoadKind::SignedWord => self.out.movsxd_r64_rm32(value, src),
            LoadKind::UnsignedWord => self.out.mov_r32_rm32(value, src),
            LoadKind::DoubleWord => {},
        }
        self.release(value);
        let dst = self.guest(rd, GuestAccess::WriteOnly);
        self.mov_if_needed(dst, value);
        self.release(dst);
    }

    /// `memory at rs1 + imm = rs2`
    pub fn translate_store(&mut self, rs1: u8, rs2: u8, imm: u64, kind: StoreKind, context: JitInfo)
        requires
            old(self).wf(),
            old(self)@.idle(),
            rs1 < 32,
            rs2 < 32,
        ensures
            final(self)@.code.len() <= old(self)@.code.len() + CODE_PER_INSTR,
            final(self).wf(),
            final(self)@.idle(),
            final(self).around == old(self).around,
            final(self)@ == old(self)@.store(old(self).around, rs1, rs2, imm, kind, context),
    {
        let addr = self.scratch();
        let base = self.guest(rs1, GuestAccess::ReadOnly);
        self.out.mov_r64_rm64(addr, RegMem::Reg(base));
        self.emit_alu_i(AluOp::Add, addr, (imm % 0x1_0000_0000) as u32, OperandWidth::Xlen);
        let value = self.guest(rs2, GuestAccess::ReadOnly);
        self.release(value);
        self.release(base);
        self.release(addr);
        self.flush();
        self.flush_for_call();
        let args: [CallArg; 6] = [
            CallArg::Reg(CPU_REG),
            CallArg::Reg(addr),
            CallArg::Reg(value),
            CallArg::Imm(self.around.jit_context),
            CallArg::Imm(context.instr_pc),
            CallArg::Imm(context.instr_cnt),
        ];
        assert(args@ =~= seq![
            CallArg::Reg(CPU_REG),
            CallArg::Reg(addr),
            CallArg::Reg(value),
            CallArg::Imm(self.around.jit_context),
            CallArg::Imm(context.instr_pc),
            CallArg::Imm(context.instr_cnt),
        ]);
        self.out.call_helper(kind.helper(&self.around.helpers), &args);
    }

    fn emit_check_instruction_alignment(&mut self, target: Option<u64>, context: JitInfo)
        requires
            old(self).wf(),
            old(self)@.idle(),
        ensures
            final(self)@.code.len() <= old(self)@.code.len() + 27,
            final(self).wf(),
            final(self)@.idle(),
            final(self).around == old(self).around,
            final(self)@ == old(self)@.check_alignment(old(self).around, target, context),
    {
        self.flush();
        self.host(X86Reg::RAX);
        if let Some(target) = target {
            self.out.mov_r64_imm64(X86Reg::RAX, target);
        }
        self.release(X86Reg::RAX);
        self.flush_for_call();
        let args: [CallArg; 4] = [
            CallArg::Reg(X86Reg::RAX),
            CallArg::Imm(self.around.jit_context),
            CallArg::Imm(context.instr_pc),
            CallArg::Imm(context.instr_cnt),
        ];
        assert(args@ =~= seq![
            CallArg::Reg(X86Reg::RAX),
            CallArg::Imm(self.around.jit_context),
            CallArg::Imm(context.instr_pc),
            CallArg::Imm(context.instr_cnt),
        ]);
        self.out.call_helper(self.around.helpers.check_alignment, &args);
    }

    /// Goes to `imm` behind the instruction if a condition holds of two registers, or of one and 0.
    pub fn translate_branch(
        &mut self,
        rs1: u8,
        rs2: Option<u8>,
        imm: u64,
        condition: ConditionCode,
        context: JitInfo,
    )
        requires
            old(self).wf(),
            old(self)@.idle(),
            rs1 < 32,
            rs2 is Some ==> rs2->0 < 32,
        ensures
            final(self)@.code.len() <= old(self)@.code.len() + CODE_PER_INSTR,
            final(self).wf(),
            final(self)@.idle(),
            final(self).around == old(self).around,
            final(self)@ == old(self)@.branch(
                old(self).around,
                rs1,
                rs2,
                imm,
                condition,
                context,
            ),
    {
        let first = self.guest(rs1, GuestAccess::ReadOnly);
        match rs2 {
            Some(rs2) => {
                let second = self.guest(rs2, GuestAccess::ReadOnly);
                self.emit_alu_r(AluOp::Cmp, first, second, OperandWidth::Xlen);
                self.release(second);
            },
            None => {
                self.emit_alu_i(AluOp::Cmp, first, 0, OperandWidth::Xlen);
            },
        }
        self.release(first);
        let target: u64 = utils::add64(context.instr_pc, imm);
        let fallthrough: u64 = utils::add64(context.instr_pc, context.instr_len);
        self.host(X86Reg::RAX);
        self.host(X86Reg::RDX);
        self.out.mov_r64_imm64(X86Reg::RAX, fallthrough);
        self.out.mov_r64_imm64(X86Reg::RDX, target);
        self.out.cmovcc_r64_rm64(condition, X86Reg::RAX, RegMem::Reg(X86Reg::RDX));
        self.release(X86Reg::RDX);
        self.release(X86Reg::RAX);
        if context.ialign == 4 && target % 4 != 0 {
            self.emit_check_instruction_alignment(None, context);
        }
    }

    fn link(&mut self, rd: Option<u8>, context: JitInfo)
        requires
            old(self).wf(),
            old(self)@.roomy(),
            rd is Some ==> rd->0 < 32,
        ensures
            final(self)@.code.len() <= old(self)@.code.len() + 3,
            final(self).wf(),
            final(self).around == old(self).around,
            final(self)@ == old(self)@.link(rd, context),
            forall|i: int|
                0 <= i < 16 ==> (#[trigger] final(self)@.table[i]).refcount
                    == old(self)@.table[i].refcount,
    {
        if let Some(rd) = rd {
            if rd != 0 {
                let dst = self.guest(rd, GuestAccess::WriteOnly);
                self.out.mov_r64_imm64(dst, utils::add64(context.instr_pc, context.instr_len));
                self.release(dst);
            }
        }
    }

    /// Goes to `imm` behind the instruction.
    pub fn translate_jump_imm(&mut self, rd: Option<u8>, imm: u64, context: JitInfo)
        requires
            old(self).wf(),
            old(self)@.idle(),
            rd is Some ==> rd->0 < 32,
        ensures
            final(self)@.code.len() <= old(self)@.code.len() + CODE_PER_INSTR,
            final(self).wf(),
            final(self)@.idle(),
            final(self).around == old(self).around,
            final(self)@ == old(self)@.jump_imm(old(self).around, rd, imm, context),
    {
        let target: u64 = utils::add64(context.instr_pc, imm);
        let misaligned = context.ialign == 4 && target % 4 != 0;
        if misaligned {
            self.emit_check_instruction_alignment(Some(target), context);
        }
        self.host(X86Reg::RAX);
        if !misaligned {
            self.out.mov_r64_imm64(X86Reg::RAX, target);
        }
        self.link(rd, context);
        self.release(X86Reg::RAX);
    }

    /// Goes to the sum of a register and an immediate.
    pub fn translate_jump_reg(&mut self, rd: Option<u8>, rs1: u8, imm: u64, context: JitInfo)
        requires
            old(self).wf(),
            old(self)@.idle(),
            rd is Some ==> rd->0 < 32,
            rs1 < 32,
        ensures
            final(self)@.code.len() <= old(self)@.code.len() + CODE_PER_INSTR,
            final(self).wf(),
            final(self)@.idle(),
            final(self).around == old(self).around,
            final(self)@ == old(self)@.jump_reg(old(self).around, rd, rs1, imm, context),
    {
        self.host(X86Reg::RAX);
        let source = self.guest(rs1, GuestAccess::ReadOnly);
        self.out.mov_r64_rm64(X86Reg::RAX, RegMem::Reg(source));
        self.release(source);
        self.emit_alu_i(
            AluOp::Add,
            X86Reg::RAX,
            (imm % 0x1_0000_0000) as u32,
            OperandWidth::Xlen,
        );
        self.emit_alu_i(AluOp::And, X86Reg::RAX, 0xffff_fffe, OperandWidth::Xlen);
        self.release(X86Reg::RAX);
        if context.ialign == 4 {
            self.emit_check_instruction_alignment(None, context);
        }
        if let Some(r) = rd {
            if r != 0 {
                self.host(X86Reg::RAX);
                self.link(rd, context);
                self.release(X86Reg::RAX);
            }
        }
    }

    /// Translates an instruction.
    pub fn translate_instruction(
        &mut self,
        instr: RiscvInstr,
        info: RVInstrInfo,
        context: JitInfo,
    ) -> (r: TranslateResult)
        requires
            old(self).wf(),
            old(self)@.idle(),
            info.regs_ok(),
        ensures
            final(self)@.code.len() <= old(self)@.code.len() + CODE_PER_INSTR,
            final(self).wf(),
            final(self)@.idle(),
            final(self).around == old(self).around,
            final(self)@ == old(self)@.instruction(old(self).around, instr, info, context).0,
            r == old(self)@.instruction(old(self).around, instr, info, context).1,
            r == TranslateResult::Unsupported ==> final(self)@ == old(self)@,
    {
        proof {
            reveal(GenState::instruction);
        }
        match self.translate_rvi(instr, info, context) {
            TranslateResult::Unsupported => self.translate_rvc(instr, info, context),
            result => result,
        }
    }

    /// Translates a decoded instruction.
    pub fn translate(&mut self, decoded: DecodeInstr, context: JitInfo) -> (r: TranslateResult)
        requires
            old(self).wf(),
            old(self)@.idle(),
            decoded.info.regs_ok(),
        ensures
            final(self)@.code.len() <= old(self)@.code.len() + CODE_PER_INSTR,
            final(self).wf(),
            final(self)@.idle(),
            final(self).around == old(self).around,
            final(self)@ == old(self)@.instruction(
                old(self).around,
                decoded.instr,
                decoded.info,
                context,
            ).0,
            r == old(self)@.instruction(
                old(self).around,
                decoded.instr,
                decoded.info,
                context,
            ).1,
            r == TranslateResult::Unsupported ==> final(self)@ == old(self)@,
    {
        self.translate_instruction(decoded.instr, decoded.info, context)
    }

    /// The bytes of the block. If the block goes on behind its last instruction, that is where.
    pub fn build(self, seq_next_pc: Option<u64>) -> (r: Vec<u8>)
        requires
            self.wf(),
            self@.idle(),
        ensures
            r@ == code::encode(self@.finished(seq_next_pc).code),
            0 < r@.len() <= 15 * (self@.code.len() + 19),
    {
        let mut gen = self;
        gen.flush();
        if let Some(next_pc) = seq_next_pc {
            gen.host(X86Reg::RAX);
            gen.out.mov_r64_imm64(X86Reg::RAX, next_pc);
        }
        gen.out.ret();
        proof {
            code::lemma_encode_len(gen.out@);
            reveal_with_fuel(code::encode, 2);
        }
        gen.out.build()
    }
}

} // verus!
