//! Host instructions as values: their bytes, and what they do.
use vstd::prelude::*;

use super::assembler;
use super::{AluOp, ConditionCode, OperandSize, RegMem, ShiftOp, X86Reg};

verus! {

/// A host instruction.
#[allow(inconsistent_fields)]
pub enum HostInstr {
    MovSxd { dst: X86Reg, src: RegMem },
    MovImm { dst: X86Reg, imm: u64 },
    MovLoad { size: OperandSize, dst: X86Reg, src: RegMem },
    MovStore { size: OperandSize, dst: RegMem, src: X86Reg },
    Ret,
    Call { target: X86Reg },
    MovToStack { disp: i8, src: X86Reg },
    SetCc { condition: ConditionCode, dst: X86Reg },
    CMov { condition: ConditionCode, dst: X86Reg, src: RegMem },
    MovZxByte { dst: X86Reg, src: X86Reg },
    MovSxByte { dst: X86Reg, src: RegMem },
    MovSxHalf { dst: X86Reg, src: RegMem },
    MovZxHalf { dst: X86Reg, src: RegMem },
    ShiftCl { size: OperandSize, shift: ShiftOp, dst: RegMem },
    ShiftImm { size: OperandSize, shift: ShiftOp, dst: RegMem, imm: u8 },
    Alu { size: OperandSize, op: AluOp, dst: RegMem, src: X86Reg },
    AluImm { size: OperandSize, op: AluOp, dst: RegMem, imm: u32 },
}

impl HostInstr {
    /// The bytes of the instruction.
    pub open spec fn bytes(self) -> Seq<u8> {
        match self {
            HostInstr::MovSxd { dst, src } => assembler::reg_rm(
                OperandSize::Qword,
                seq![0x63u8],
                dst,
                src,
            ),
            HostInstr::MovImm { dst, imm } => assembler::mov_imm(dst, imm),
            HostInstr::MovLoad { size, dst, src } => assembler::reg_rm(
                size,
                seq![0x8bu8],
                dst,
                src,
            ),
            HostInstr::MovStore { size, dst, src } => assembler::reg_rm(
                size,
                seq![0x89u8],
                src,
                dst,
            ),
            HostInstr::Ret => seq![0xc3u8],
            HostInstr::Call { target } => assembler::call_reg(target),
            HostInstr::MovToStack { disp, src } => assembler::to_stack(disp, src),
            HostInstr::SetCc { condition, dst } => assembler::setcc_bytes(condition, dst),
            HostInstr::CMov { condition, dst, src } => assembler::reg_rm(
                OperandSize::Qword,
                seq![0x0f, (0x40 + condition.spec_code()) as u8],
                dst,
                src,
            ),
            HostInstr::MovZxByte { dst, src } => assembler::reg_rm(
                OperandSize::Dword,
                seq![0x0f, 0xb6],
                dst,
                RegMem::Reg(src),
            ),
            HostInstr::MovSxByte { dst, src } => assembler::reg_rm(
                OperandSize::Qword,
                seq![0x0f, 0xbe],
                dst,
                src,
            ),
            HostInstr::MovSxHalf { dst, src } => assembler::reg_rm(
                OperandSize::Qword,
                seq![0x0f, 0xbf],
                dst,
                src,
            ),
            HostInstr::MovZxHalf { dst, src } => assembler::reg_rm(
                OperandSize::Dword,
                seq![0x0f, 0xb7],
                dst,
                src,
            ),
            HostInstr::ShiftCl { size, shift, dst } => assembler::group_rm(
                size,
                0xd3,
                shift.spec_code(),
                dst,
            ),
            HostInstr::ShiftImm { size, shift, dst, imm } => assembler::group_rm(
                size,
                0xc1,
                shift.spec_code(),
                dst,
            ).push(imm),
            HostInstr::Alu { size, op, dst, src } => assembler::reg_rm(
                size,
                seq![(op.spec_code() * 8 + 1) as u8],
                src,
                dst,
            ),
            HostInstr::AluImm { size, op, dst, imm } => assembler::group_rm(
                size,
                0x81,
                op.spec_code(),
                dst,
            ) + super::le32(imm as int),
        }
    }
}

/// The bytes of instructions.
pub open spec fn encode(code: Seq<HostInstr>) -> Seq<u8>
    decreases code.len(),
{
    if code.len() == 0 {
        Seq::empty()
    } else {
        encode(code.drop_last()) + code.last().bytes()
    }
}

/// The bytes of instructions with one more behind them.
pub proof fn lemma_encode_push(code: Seq<HostInstr>, i: HostInstr)
    ensures
        encode(code.push(i)) == encode(code) + i.bytes(),
{
    assert(code.push(i).drop_last() =~= code);
}

proof fn lemma_displacement_len(rm: RegMem)
    ensures
        rm.displacement().len() <= 4,
{
    match rm {
        RegMem::Reg(_) => {},
        RegMem::Mem(_) => {},
        RegMem::MemDisp8(_, _) => {},
        RegMem::MemDisp32(_, _) => {},
    }
}

proof fn lemma_reg_rm_len(size: OperandSize, opcode: Seq<u8>, reg: X86Reg, rm: RegMem)
    ensures
        assembler::reg_rm(size, opcode, reg, rm).len() <= opcode.len() + 6,
{
    lemma_displacement_len(rm);
}

proof fn lemma_group_rm_len(size: OperandSize, opcode: u8, extension: u8, rm: RegMem)
    ensures
        assembler::group_rm(size, opcode, extension, rm).len() <= 7,
{
    lemma_displacement_len(rm);
}

proof fn lemma_bytes_len(i: HostInstr)
    ensures
        i.bytes().len() <= 15,
{
    match i {
        HostInstr::MovSxd { dst, src } => lemma_reg_rm_len(
            OperandSize::Qword,
            seq![0x63u8],
            dst,
            src,
        ),
        HostInstr::MovLoad { size, dst, src } => lemma_reg_rm_len(size, seq![0x8bu8], dst, src),
        HostInstr::MovStore { size, dst, src } => lemma_reg_rm_len(size, seq![0x89u8], src, dst),
        HostInstr::CMov { condition, dst, src } => lemma_reg_rm_len(
            OperandSize::Qword,
            seq![0x0f, (0x40 + condition.spec_code()) as u8],
            dst,
            src,
        ),
        HostInstr::MovZxByte { dst, src } => lemma_reg_rm_len(
            OperandSize::Dword,
            seq![0x0f, 0xb6],
            dst,
            RegMem::Reg(src),
        ),
        HostInstr::MovSxByte { dst, src } => lemma_reg_rm_len(
            OperandSize::Qword,
            seq![0x0f, 0xbe],
            dst,
            src,
        ),
        HostInstr::MovSxHalf { dst, src } => lemma_reg_rm_len(
            OperandSize::Qword,
            seq![0x0f, 0xbf],
            dst,
            src,
        ),
        HostInstr::MovZxHalf { dst, src } => lemma_reg_rm_len(
            OperandSize::Dword,
            seq![0x0f, 0xb7],
            dst,
            src,
        ),
        HostInstr::ShiftCl { size, shift, dst } => lemma_group_rm_len(
            size,
            0xd3,
            shift.spec_code(),
            dst,
        ),
        HostInstr::ShiftImm { size, shift, dst, .. } => lemma_group_rm_len(
            size,
            0xc1,
            shift.spec_code(),
            dst,
        ),
        HostInstr::Alu { size, op, dst, src } => lemma_reg_rm_len(
            size,
            seq![(op.spec_code() * 8 + 1) as u8],
            src,
            dst,
        ),
        HostInstr::AluImm { size, op, dst, .. } => lemma_group_rm_len(
            size,
            0x81,
            op.spec_code(),
            dst,
        ),
        _ => {},
    }
}

/// An instruction takes at most fifteen bytes.
pub proof fn lemma_encode_len(code: Seq<HostInstr>)
    ensures
        encode(code).len() <= 15 * code.len(),
    decreases code.len(),
{
    if code.len() > 0 {
        lemma_encode_len(code.drop_last());
        lemma_bytes_len(code.last());
    }
}

} // verus!
