//! The encoding of host instructions.
use vstd::prelude::*;

use super::code;
use super::code::HostInstr;
use super::{AluOp, CallArg, ConditionCode, OperandSize, RegMem, ShiftOp, X86Reg};

verus! {

/// The prefix byte: the width, and the high bits of the registers.
pub open spec fn rex(w: u8, r: u8, x: u8, b: u8) -> u8 {
    (0x40 + w * 8 + r * 4 + x * 2 + b) as u8
}

/// The byte that names the operands: the addressing mode, a register or an extension of the
/// opcode, and the register of the other operand.
pub open spec fn modrm(mode: u8, reg_or_op: u8, rm: u8) -> u8 {
    (mode * 0x40 + reg_or_op * 8 + rm) as u8
}

/// The bytes tell their fields apart.
pub proof fn law_fields_are_kept(w: u8, r: u8, x: u8, b: u8, mode: u8, reg_or_op: u8, rm: u8)
    requires
        w <= 1,
        r <= 1,
        x <= 1,
        b <= 1,
        mode < 4,
        reg_or_op < 8,
        rm < 8,
    ensures
        rex(w, r, x, b) / 16 == 4,
        rex(w, r, x, b) / 8 % 2 == w,
        rex(w, r, x, b) / 4 % 2 == r,
        rex(w, r, x, b) / 2 % 2 == x,
        rex(w, r, x, b) % 2 == b,
        modrm(mode, reg_or_op, rm) / 0x40 == mode,
        modrm(mode, reg_or_op, rm) / 8 % 8 == reg_or_op,
        modrm(mode, reg_or_op, rm) % 8 == rm,
{
}

/// An instruction on a register and a register or memory.
pub open spec fn reg_rm(size: OperandSize, opcode: Seq<u8>, reg: X86Reg, rm: RegMem) -> Seq<u8> {
    seq![
        rex(
            size.spec_rex_w(),
            (reg.spec_code() / 8) as u8,
            0,
            (rm.base_reg().spec_code() / 8) as u8,
        ),
    ] + opcode + seq![
        modrm(rm.spec_mode(), reg.spec_code() % 8, rm.base_reg().spec_code() % 8),
    ] + rm.displacement()
}

/// An instruction on a register or memory, with an extension of the opcode.
pub open spec fn group_rm(size: OperandSize, opcode: u8, extension: u8, rm: RegMem) -> Seq<u8> {
    seq![
        rex(size.spec_rex_w(), 0, 0, (rm.base_reg().spec_code() / 8) as u8),
        opcode,
        modrm(rm.spec_mode(), extension, rm.base_reg().spec_code() % 8),
    ] + rm.displacement()
}

/// A move of an immediate to a register.
pub open spec fn mov_imm(dst: X86Reg, imm: u64) -> Seq<u8> {
    seq![rex(1, 0, 0, (dst.spec_code() / 8) as u8), (0xb8 + dst.spec_code() % 8) as u8]
        + super::le64(imm as int)
}

/// A call of the address in a register.
pub open spec fn call_reg(target: X86Reg) -> Seq<u8> {
    seq![rex(0, 0, 0, (target.spec_code() / 8) as u8), 0xff, modrm(3, 2, target.spec_code() % 8)]
}

/// A move of a register to the stack.
pub open spec fn to_stack(disp: i8, src: X86Reg) -> Seq<u8> {
    seq![
        rex(1, (src.spec_code() / 8) as u8, 0, 0),
        0x89,
        modrm(1, src.spec_code() % 8, 4),
        0x24,
        (disp as int % 0x100) as u8,
    ]
}

/// The setting of a byte by a condition.
pub open spec fn setcc_bytes(condition: ConditionCode, dst: X86Reg) -> Seq<u8> {
    seq![
        rex(0, 0, 0, (dst.spec_code() / 8) as u8),
        0x0f,
        (0x90 + condition.spec_code()) as u8,
        modrm(3, 0, dst.spec_code() % 8),
    ]
}

/// The register of an argument of a call.
pub open spec fn arg_reg(i: int) -> X86Reg {
    if i == 0 {
        X86Reg::RDI
    } else if i == 1 {
        X86Reg::RSI
    } else if i == 2 {
        X86Reg::RDX
    } else if i == 3 {
        X86Reg::RCX
    } else if i == 4 {
        X86Reg::R8
    } else {
        X86Reg::R9
    }
}

/// Whether a register holds arguments of calls.
pub open spec fn is_arg_reg(r: X86Reg) -> bool {
    match r {
        X86Reg::RDI | X86Reg::RSI | X86Reg::RDX | X86Reg::RCX | X86Reg::R8 | X86Reg::R9 => true,
        _ => false,
    }
}

/// Whether arguments can be passed: there are registers for them, and no move overwrites a source.
pub open spec fn args_ok(args: Seq<CallArg>) -> bool {
    &&& args.len() <= 6
    &&& forall|i: int|
        0 <= i < args.len() ==> match #[trigger] args[i] {
            CallArg::Reg(r) => !is_arg_reg(r),
            CallArg::Imm(_) => true,
        }
}

/// The move of an argument to its register.
pub open spec fn arg_move(args: Seq<CallArg>, i: int) -> HostInstr {
    match args[i] {
        CallArg::Reg(src) => HostInstr::MovLoad {
            size: OperandSize::Qword,
            dst: arg_reg(i),
            src: RegMem::Reg(src),
        },
        CallArg::Imm(imm) => HostInstr::MovImm { dst: arg_reg(i), imm },
    }
}

/// A call with arguments.
pub open spec fn call_code(target: u64, args: Seq<CallArg>) -> Seq<HostInstr> {
    Seq::new(args.len(), |i: int| arg_move(args, i)).push(
        HostInstr::MovImm { dst: X86Reg::R11, imm: target },
    ).push(HostInstr::Call { target: X86Reg::R11 })
}

/// A buffer of host code.
pub struct X86Assembler {
    pub buf: Vec<u8>,
    /// The instructions in the buffer.
    pub code: Ghost<Seq<HostInstr>>,
}

impl View for X86Assembler {
    type V = Seq<HostInstr>;

    open spec fn view(&self) -> Seq<HostInstr> {
        self.code@
    }
}

fn argument_register(i: usize) -> (r: X86Reg)
    ensures
        r == arg_reg(i as int),
{
    match i {
        0 => X86Reg::RDI,
        1 => X86Reg::RSI,
        2 => X86Reg::RDX,
        3 => X86Reg::RCX,
        4 => X86Reg::R8,
        _ => X86Reg::R9,
    }
}

impl X86Assembler {
    /// Whether the buffer holds the bytes of the instructions.
    pub open spec fn wf(&self) -> bool {
        self.buf@ == code::encode(self@)
    }

    pub fn new() -> (r: X86Assembler)
        ensures
            r.wf(),
            r@ == Seq::<HostInstr>::empty(),
    {
        X86Assembler { buf: Vec::with_capacity(64), code: Ghost(Seq::empty()) }
    }

    /// The bytes of the code.
    pub fn build(self) -> (r: Vec<u8>)
        requires
            self.wf(),
        ensures
            r@ == code::encode(self@),
    {
        self.buf
    }

    fn emit(&mut self, byte: u8)
        ensures
            final(self)@ == old(self)@,
            final(self).buf@ == old(self).buf@.push(byte),
    {
        self.buf.push(byte);
    }

    fn emit_u32(&mut self, v: u32)
        ensures
            final(self)@ == old(self)@,
            final(self).buf@ == old(self).buf@ + super::le32(v as int),
    {
        self.buf.push((v % 0x100) as u8);
        self.buf.push((v / 0x100 % 0x100) as u8);
        self.buf.push((v / 0x1_0000 % 0x100) as u8);
        self.buf.push((v / 0x100_0000 % 0x100) as u8);
        assert(self.buf@ =~= old(self).buf@ + super::le32(v as int));
    }

    fn emit_u64(&mut self, v: u64)
        ensures
            final(self)@ == old(self)@,
            final(self).buf@ == old(self).buf@ + super::le64(v as int),
    {
        self.emit_u32((v % 0x1_0000_0000) as u32);
        self.emit_u32((v / 0x1_0000_0000) as u32);
        assert(self.buf@ =~= old(self).buf@ + super::le64(v as int));
    }

    fn emit_rex(&mut self, w: u8, r: u8, x: u8, b: u8)
        requires
            w <= 1,
            r <= 1,
            x <= 1,
            b <= 1,
        ensures
            final(self)@ == old(self)@,
            final(self).buf@ == old(self).buf@.push(rex(w, r, x, b)),
    {
        self.emit(0x40 + w * 8 + r * 4 + x * 2 + b);
    }

    fn emit_modrm(&mut self, mode: u8, reg_or_op: u8, rm: u8)
        requires
            mode < 4,
            reg_or_op < 8,
            rm < 8,
        ensures
            final(self)@ == old(self)@,
            final(self).buf@ == old(self).buf@.push(modrm(mode, reg_or_op, rm)),
    {
        self.emit(mode * 0x40 + reg_or_op * 8 + rm);
    }

    fn emit_signed_byte(&mut self, d: i8)
        ensures
            final(self)@ == old(self)@,
            final(self).buf@ == old(self).buf@.push((d as int % 0x100) as u8),
    {
        let byte: u8 = if d >= 0 {
            d as u8
        } else {
            (d as i16 + 0x100) as u8
        };
        self.emit(byte);
    }

    fn emit_displacement(&mut self, rm: RegMem)
        ensures
            final(self)@ == old(self)@,
            final(self).buf@ == old(self).buf@ + rm.displacement(),
    {
        match rm {
            RegMem::Reg(_) | RegMem::Mem(_) => {},
            RegMem::MemDisp8(_, d) => self.emit_signed_byte(d),
            RegMem::MemDisp32(_, d) => {
                let word: u32 = if d >= 0 {
                    d as u32
                } else {
                    (d as i64 + 0x1_0000_0000) as u32
                };
                self.emit_u32(word);
            },
        }
        assert(self.buf@ =~= old(self).buf@ + rm.displacement());
    }

    /// Emits an instruction with an opcode of one byte.
    fn emit_reg_rm(&mut self, size: OperandSize, opcode: u8, reg: X86Reg, rm: RegMem)
        requires
            rm.encodable(),
        ensures
            final(self)@ == old(self)@,
            final(self).buf@ == old(self).buf@ + reg_rm(size, seq![opcode], reg, rm),
    {
        self.emit_rex(size.rex_w(), reg.rex_bit(), 0, rm.reg().rex_bit());
        self.emit(opcode);
        self.emit_modrm(rm.mode(), reg.base(), rm.reg().base());
        self.emit_displacement(rm);
        assert(self.buf@ =~= old(self).buf@ + reg_rm(size, seq![opcode], reg, rm));
    }

    /// Emits an instruction with an opcode of two bytes.
    fn emit_long_reg_rm(&mut self, size: OperandSize, opcode: u8, reg: X86Reg, rm: RegMem)
        requires
            rm.encodable(),
        ensures
            final(self)@ == old(self)@,
            final(self).buf@ == old(self).buf@ + reg_rm(size, seq![0x0f, opcode], reg, rm),
    {
        self.emit_rex(size.rex_w(), reg.rex_bit(), 0, rm.reg().rex_bit());
        self.emit(0x0f);
        self.emit(opcode);
        self.emit_modrm(rm.mode(), reg.base(), rm.reg().base());
        self.emit_displacement(rm);
        assert(self.buf@ =~= old(self).buf@ + reg_rm(size, seq![0x0f, opcode], reg, rm));
    }

    fn emit_group_rm(&mut self, size: OperandSize, opcode: u8, extension: u8, rm: RegMem)
        requires
            extension < 8,
            rm.encodable(),
        ensures
            final(self)@ == old(self)@,
            final(self).buf@ == old(self).buf@ + group_rm(size, opcode, extension, rm),
    {
        self.emit_rex(size.rex_w(), 0, 0, rm.reg().rex_bit());
        self.emit(opcode);
        self.emit_modrm(rm.mode(), extension, rm.reg().base());
        self.emit_displacement(rm);
        assert(self.buf@ =~= old(self).buf@ + group_rm(size, opcode, extension, rm));
    }

    /// Computes with a register.
    fn alu_rm_r(&mut self, size: OperandSize, op: AluOp, dst: RegMem, src: X86Reg)
        requires
            old(self).wf(),
            dst.encodable(),
        ensures
            final(self).wf(),
            final(self)@ == old(self)@.push(HostInstr::Alu { size, op, dst, src }),
    {
        self.emit_reg_rm(size, op.code() * 8 + 1, src, dst);
        proof {
            code::lemma_encode_push(self@, HostInstr::Alu { size, op, dst, src });
        }
        assert(
            self.buf@ =~= code::encode(old(self)@) + HostInstr::Alu { size, op, dst, src }.bytes()
        );
        self.code = Ghost(self@.push(HostInstr::Alu { size, op, dst, src }));
    }

    /// Computes with an immediate.
    fn alu_rm_imm32(&mut self, size: OperandSize, op: AluOp, dst: RegMem, imm: u32)
        requires
            old(self).wf(),
            dst.encodable(),
        ensures
            final(self).wf(),
            final(self)@ == old(self)@.push(HostInstr::AluImm { size, op, dst, imm }),
    {
        self.emit_group_rm(size, 0x81, op.code(), dst);
        self.emit_u32(imm);
        proof {
            code::lemma_encode_push(self@, HostInstr::AluImm { size, op, dst, imm });
        }
        assert(
            self.buf@ =~= code::encode(old(self)@) + HostInstr::AluImm { size, op, dst, imm }.bytes()
        );
        self.code = Ghost(self@.push(HostInstr::AluImm { size, op, dst, imm }));
    }

    /// Moves a word to a register, sign-extended.
    pub fn movsxd_r64_rm32(&mut self, dst: X86Reg, src: RegMem)
        requires
            old(self).wf(),
            src.encodable(),
        ensures
            final(self).wf(),
            final(self)@ == old(self)@.push(HostInstr::MovSxd { dst, src }),
    {
        self.emit_reg_rm(OperandSize::Qword, 0x63, dst, src);
        proof {
            code::lemma_encode_push(self@, HostInstr::MovSxd { dst, src });
        }
        assert(self.buf@ =~= code::encode(old(self)@) + HostInstr::MovSxd { dst, src }.bytes());
        self.code = Ghost(self@.push(HostInstr::MovSxd { dst, src }));
    }

    /// Moves an immediate to a register.
    pub fn mov_r64_imm64(&mut self, dst: X86Reg, imm: u64)
        requires
            old(self).wf(),
        ensures
            final(self).wf(),
            final(self)@ == old(self)@.push(HostInstr::MovImm { dst, imm }),
    {
        self.emit_rex(1, 0, 0, dst.rex_bit());
        self.emit(0xb8 + dst.base());
        self.emit_u64(imm);
        proof {
            code::lemma_encode_push(self@, HostInstr::MovImm { dst, imm });
        }
        assert(self.buf@ =~= code::encode(old(self)@) + HostInstr::MovImm { dst, imm }.bytes());
        self.code = Ghost(self@.push(HostInstr::MovImm { dst, imm }));
    }

    /// Moves to a register.
    pub fn mov_r_rm(&mut self, size: OperandSize, dst: X86Reg, src: RegMem)
        requires
            old(self).wf(),
            src.encodable(),
        ensures
            final(self).wf(),
            final(self)@ == old(self)@.push(HostInstr::MovLoad { size, dst, src }),
    {
        self.emit_reg_rm(size, 0x8b, dst, src);
        proof {
            code::lemma_encode_push(self@, HostInstr::MovLoad { size, dst, src });
        }
        assert(
            self.buf@ =~= code::encode(old(self)@) + HostInstr::MovLoad { size, dst, src }.bytes()
        );
        self.code = Ghost(self@.push(HostInstr::MovLoad { size, dst, src }));
    }

    /// Moves from a register.
    pub fn mov_rm_r(&mut self, size: OperandSize, dst: RegMem, src: X86Reg)
        requires
            old(self).wf(),
            dst.encodable(),
        ensures
            final(self).wf(),
            final(self)@ == old(self)@.push(HostInstr::MovStore { size, dst, src }),
    {
        self.emit_reg_rm(size, 0x89, src, dst);
        proof {
            code::lemma_encode_push(self@, HostInstr::MovStore { size, dst, src });
        }
        assert(
            self.buf@ =~= code::encode(old(self)@) + HostInstr::MovStore { size, dst, src }.bytes()
        );
        self.code = Ghost(self@.push(HostInstr::MovStore { size, dst, src }));
    }

    /// Returns.
    pub fn ret(&mut self)
        requires
            old(self).wf(),
        ensures
            final(self).wf(),
            final(self)@ == old(self)@.push(HostInstr::Ret),
    {
        self.emit(0xc3);
        proof {
            code::lemma_encode_push(self@, HostInstr::Ret);
        }
        assert(self.buf@ =~= code::encode(old(self)@) + HostInstr::Ret.bytes());
        self.code = Ghost(self@.push(HostInstr::Ret));
    }

    /// Calls the address in a register.
    pub fn call_rm64(&mut self, target: X86Reg)
        requires
            old(self).wf(),
        ensures
            final(self).wf(),
            final(self)@ == old(self)@.push(HostInstr::Call { target }),
    {
        self.emit_rex(0, 0, 0, target.rex_bit());
        self.emit(0xff);
        self.emit_modrm(3, 2, target.base());
        proof {
            code::lemma_encode_push(self@, HostInstr::Call { target });
        }
        assert(self.buf@ =~= code::encode(old(self)@) + HostInstr::Call { target }.bytes());
        self.code = Ghost(self@.push(HostInstr::Call { target }));
    }

    /// Calls a function with arguments in registers. No register is kept, and the moves are made
    /// one after the other.
    pub fn call_helper(&mut self, target: u64, args: &[CallArg])
        requires
            old(self).wf(),
            args_ok(args@),
        ensures
            final(self).wf(),
            final(self)@ == old(self)@ + call_code(target, args@),
    {
        let mut i: usize = 0;
        while i < args.len()
            invariant
                i <= args.len(),
                args_ok(args@),
                self.wf(),
                self@ =~= old(self)@ + Seq::new(i as nat, |k: int| arg_move(args@, k)),
            decreases args.len() - i,
        {
            let dst = argument_register(i);
            match args[i] {
                CallArg::Reg(src) => self.mov_r64_rm64(dst, RegMem::Reg(src)),
                CallArg::Imm(value) => self.mov_r64_imm64(dst, value),
            }
            i = i + 1;
        }
        self.mov_r64_imm64(X86Reg::R11, target);
        self.call_rm64(X86Reg::R11);
        assert(self@ =~= old(self)@ + call_code(target, args@));
    }

    /// Moves a register to the stack.
    pub fn mov_rsp_disp64_r64(&mut self, disp: i8, src: X86Reg)
        requires
            old(self).wf(),
        ensures
            final(self).wf(),
            final(self)@ == old(self)@.push(HostInstr::MovToStack { disp, src }),
    {
        self.emit_rex(1, src.rex_bit(), 0, 0);
        self.emit(0x89);
        self.emit_modrm(1, src.base(), X86Reg::RSP.base());
        self.emit(0x24);
        self.emit_signed_byte(disp);
        proof {
            code::lemma_encode_push(self@, HostInstr::MovToStack { disp, src });
        }
        assert(
            self.buf@ =~= code::encode(old(self)@) + HostInstr::MovToStack { disp, src }.bytes()
        );
        self.code = Ghost(self@.push(HostInstr::MovToStack { disp, src }));
    }

    /// Sets the low byte of a register to 1 if a condition holds, and to 0 if not.
    pub fn setcc_r8(&mut self, condition: ConditionCode, dst: X86Reg)
        requires
            old(self).wf(),
        ensures
            final(self).wf(),
            final(self)@ == old(self)@.push(HostInstr::SetCc { condition, dst }),
    {
        self.emit_rex(0, 0, 0, dst.rex_bit());
        self.emit(0x0f);
        self.emit(0x90 + condition.code());
        self.emit_modrm(3, 0, dst.base());
        proof {
            code::lemma_encode_push(self@, HostInstr::SetCc { condition, dst });
        }
        assert(
            self.buf@ =~= code::encode(old(self)@) + HostInstr::SetCc { condition, dst }.bytes()
        );
        self.code = Ghost(self@.push(HostInstr::SetCc { condition, dst }));
    }

    /// Moves to a register if a condition holds.
    pub fn cmovcc_r64_rm64(&mut self, condition: ConditionCode, dst: X86Reg, src: RegMem)
        requires
            old(self).wf(),
            src.encodable(),
        ensures
            final(self).wf(),
            final(self)@ == old(self)@.push(HostInstr::CMov { condition, dst, src }),
    {
        self.emit_long_reg_rm(OperandSize::Qword, 0x40 + condition.code(), dst, src);
        proof {
            code::lemma_encode_push(self@, HostInstr::CMov { condition, dst, src });
        }
        assert(
            self.buf@ =~= code::encode(old(self)@) + HostInstr::CMov { condition, dst, src }.bytes()
        );
        self.code = Ghost(self@.push(HostInstr::CMov { condition, dst, src }));
    }

    /// Moves a byte to a register, zero-extended.
    pub fn movzx_r32_r8(&mut self, dst: X86Reg, src: X86Reg)
        requires
            old(self).wf(),
        ensures
            final(self).wf(),
            final(self)@ == old(self)@.push(HostInstr::MovZxByte { dst, src }),
    {
        self.emit_long_reg_rm(OperandSize::Dword, 0xb6, dst, RegMem::Reg(src));
        proof {
            code::lemma_encode_push(self@, HostInstr::MovZxByte { dst, src });
        }
        assert(self.buf@ =~= code::encode(old(self)@) + HostInstr::MovZxByte { dst, src }.bytes());
        self.code = Ghost(self@.push(HostInstr::MovZxByte { dst, src }));
    }

    /// Moves a byte to a register, sign-extended.
    pub fn movsx_r64_rm8(&mut self, dst: X86Reg, src: RegMem)
        requires
            old(self).wf(),
            src.encodable(),
        ensures
            final(self).wf(),
            final(self)@ == old(self)@.push(HostInstr::MovSxByte { dst, src }),
    {
        self.emit_long_reg_rm(OperandSize::Qword, 0xbe, dst, src);
        proof {
            code::lemma_encode_push(self@, HostInstr::MovSxByte { dst, src });
        }
        assert(self.buf@ =~= code::encode(old(self)@) + HostInstr::MovSxByte { dst, src }.bytes());
        self.code = Ghost(self@.push(HostInstr::MovSxByte { dst, src }));
    }

    /// Moves a half to a register, sign-extended.
    pub fn movsx_r64_rm16(&mut self, dst: X86Reg, src: RegMem)
        requires
            old(self).wf(),
            src.encodable(),
        ensures
            final(self).wf(),
            final(self)@ == old(self)@.push(HostInstr::MovSxHalf { dst, src }),
    {
        self.emit_long_reg_rm(OperandSize::Qword, 0xbf, dst, src);
        proof {
            code::lemma_encode_push(self@, HostInstr::MovSxHalf { dst, src });
        }
        assert(self.buf@ =~= code::encode(old(self)@) + HostInstr::MovSxHalf { dst, src }.bytes());
        self.code = Ghost(self@.push(HostInstr::MovSxHalf { dst, src }));
    }

    /// Moves a half to a register, zero-extended.
    pub fn movzx_r32_rm16(&mut self, dst: X86Reg, src: RegMem)
        requires
            old(self).wf(),
            src.encodable(),
        ensures
            final(self).wf(),
            final(self)@ == old(self)@.push(HostInstr::MovZxHalf { dst, src }),
    {
        self.emit_long_reg_rm(OperandSize::Dword, 0xb7, dst, src);
        proof {
            code::lemma_encode_push(self@, HostInstr::MovZxHalf { dst, src });
        }
        assert(self.buf@ =~= code::encode(old(self)@) + HostInstr::MovZxHalf { dst, src }.bytes());
        self.code = Ghost(self@.push(HostInstr::MovZxHalf { dst, src }));
    }

    /// Shifts by the low byte of `RCX`.
    pub fn shift_rm_cl(&mut self, size: OperandSize, shift: ShiftOp, dst: RegMem)
        requires
            old(self).wf(),
            dst.encodable(),
        ensures
            final(self).wf(),
            final(self)@ == old(self)@.push(HostInstr::ShiftCl { size, shift, dst }),
    {
        self.emit_group_rm(size, 0xd3, shift.op3(), dst);
        proof {
            code::lemma_encode_push(self@, HostInstr::ShiftCl { size, shift, dst });
        }
        assert(
            self.buf@ =~= code::encode(old(self)@) + HostInstr::ShiftCl { size, shift, dst }.bytes()
        );
        self.code = Ghost(self@.push(HostInstr::ShiftCl { size, shift, dst }));
    }

    /// Shifts by an immediate.
    pub fn shift_rm_imm8(&mut self, size: OperandSize, shift: ShiftOp, dst: RegMem, imm: u8)
        requires
            old(self).wf(),
            dst.encodable(),
        ensures
            final(self).wf(),
            final(self)@ == old(self)@.push(HostInstr::ShiftImm { size, shift, dst, imm }),
    {
        self.emit_group_rm(size, 0xc1, shift.op3(), dst);
        self.emit(imm);
        proof {
            code::lemma_encode_push(self@, HostInstr::ShiftImm { size, shift, dst, imm });
        }
        assert(
            self.buf@ =~= code::encode(old(self)@) + HostInstr::ShiftImm { size, shift, dst, imm }.bytes()
        );
        self.code = Ghost(self@.push(HostInstr::ShiftImm { size, shift, dst, imm }));
    }

    /// Computes on 64 bits.
    pub fn alu_rm64_r64(&mut self, op: AluOp, dst: RegMem, src: X86Reg)
        requires
            old(self).wf(),
            dst.encodable(),
        ensures
            final(self).wf(),
            final(self)@ == old(self)@.push(
                HostInstr::Alu { size: OperandSize::Qword, op, dst, src },
            ),
    {
        self.alu_rm_r(OperandSize::Qword, op, dst, src);
    }

    /// Computes on 64 bits with an immediate.
    pub fn alu_rm64_imm32(&mut self, op: AluOp, dst: RegMem, imm: u32)
        requires
            old(self).wf(),
            dst.encodable(),
        ensures
            final(self).wf(),
            final(self)@ == old(self)@.push(
                HostInstr::AluImm { size: OperandSize::Qword, op, dst, imm },
            ),
    {
        self.alu_rm_imm32(OperandSize::Qword, op, dst, imm);
    }

    /// Computes on 32 bits.
    pub fn alu_rm32_r32(&mut self, op: AluOp, dst: RegMem, src: X86Reg)
        requires
            old(self).wf(),
            dst.encodable(),
        ensures
            final(self).wf(),
            final(self)@ == old(self)@.push(
                HostInstr::Alu { size: OperandSize::Dword, op, dst, src },
            ),
    {
        self.alu_rm_r(OperandSize::Dword, op, dst, src);
    }

    /// Computes on 32 bits with an immediate.
    pub fn alu_rm32_imm32(&mut self, op: AluOp, dst: RegMem, imm: u32)
        requires
            old(self).wf(),
            dst.encodable(),
        ensures
            final(self).wf(),
            final(self)@ == old(self)@.push(
                HostInstr::AluImm { size: OperandSize::Dword, op, dst, imm },
            ),
    {
        self.alu_rm_imm32(OperandSize::Dword, op, dst, imm);
    }

    /// Sign-extends the low word of a register.
    pub fn sext(&mut self, dst: X86Reg)
        requires
            old(self).wf(),
        ensures
            final(self).wf(),
            final(self)@ == old(self)@.push(HostInstr::MovSxd { dst, src: RegMem::Reg(dst) }),
    {
        self.movsxd_r64_rm32(dst, RegMem::Reg(dst));
    }

    /// Moves 64 bits to a register.
    pub fn mov_r64_rm64(&mut self, dst: X86Reg, src: RegMem)
        requires
            old(self).wf(),
            src.encodable(),
        ensures
            final(self).wf(),
            final(self)@ == old(self)@.push(
                HostInstr::MovLoad { size: OperandSize::Qword, dst, src },
            ),
    {
        self.mov_r_rm(OperandSize::Qword, dst, src);
    }

    /// Moves 64 bits from a register.
    pub fn mov_rm64_r64(&mut self, dst: RegMem, src: X86Reg)
        requires
            old(self).wf(),
            dst.encodable(),
        ensures
            final(self).wf(),
            final(self)@ == old(self)@.push(
                HostInstr::MovStore { size: OperandSize::Qword, dst, src },
            ),
    {
        self.mov_rm_r(OperandSize::Qword, dst, src);
    }

    /// Moves 32 bits to a register.
    pub fn mov_r32_rm32(&mut self, dst: X86Reg, src: RegMem)
        requires
            old(self).wf(),
            src.encodable(),
        ensures
            final(self).wf(),
            final(self)@ == old(self)@.push(
                HostInstr::MovLoad { size: OperandSize::Dword, dst, src },
            ),
    {
        self.mov_r_rm(OperandSize::Dword, dst, src);
    }

    /// Moves 32 bits from a register.
    pub fn mov_rm32_r32(&mut self, dst: RegMem, src: X86Reg)
        requires
            old(self).wf(),
            dst.encodable(),
        ensures
            final(self).wf(),
            final(self)@ == old(self)@.push(
                HostInstr::MovStore { size: OperandSize::Dword, dst, src },
            ),
    {
        self.mov_rm_r(OperandSize::Dword, dst, src);
    }
}

} // verus!
