//! That the code of comparisons and jumps does what they do.
use vstd::prelude::*;

use crate::isa::riscv::instruction::alu;
use crate::jit::backend::x86::code::HostInstr;
use crate::jit::backend::x86::{AluOp, ConditionCode, OperandSize, RegMem, X86Reg};
use crate::jit::machine;
use crate::jit::machine::{Host, Machine};
use crate::utils;
use crate::utils::Width;

use super::agreement;
use super::effects;
use super::reg_assign;
use super::reg_assign::GuestAccess;
use super::{GenState, OperandWidth};

verus! {

pub(super) proof fn lemma_step_compare(
    host: Host,
    m: Machine,
    first: X86Reg,
    second: X86Reg,
    imm: u32,
)
    requires
        m.left is None,
    ensures
        m.stepped(
            host,
            HostInstr::Alu {
                size: OperandSize::Qword,
                op: AluOp::Cmp,
                dst: RegMem::Reg(first),
                src: second,
            },
        ) == (Machine { compared: Some((m.reg(first), m.reg(second))), ..m }),
        m.stepped(
            host,
            HostInstr::AluImm {
                size: OperandSize::Qword,
                op: AluOp::Cmp,
                dst: RegMem::Reg(first),
                imm,
            },
        ) == (Machine {
            compared: Some((m.reg(first), utils::widened(Width::W32, imm as u64))),
            ..m
        }),
{
    reveal(Machine::stepped);
    reveal(Machine::alu);
}

/// Comparing changes nothing but the flags.
pub(super) proof fn lemma_compared(
    s: GenState,
    u: GenState,
    host: Host,
    start: Machine,
    g: Seq<u64>,
    open: Option<u8>,
)
    requires
        s.agrees(host, start, g, open),
        u.table == s.table,
        u.machine(host, start) == (Machine {
            compared: u.machine(host, start).compared,
            ..s.machine(host, start)
        }),
    ensures
        u.agrees(host, start, g, open),
{
    reveal(GenState::agrees);
    assert(u.machine(host, start).cpu.regs == s.machine(host, start).cpu.regs);
    assert(u.machine(host, start).regs == s.machine(host, start).regs);
}

proof fn lemma_step_setcc(host: Host, m: Machine, condition: ConditionCode, dst: X86Reg)
    requires
        m.left is None,
    ensures
        m.stepped(host, HostInstr::SetCc { condition, dst }) == m.with(
            dst,
            (m.reg(dst) - m.reg(dst) % 0x100 + if m.condition(condition) {
                1int
            } else {
                0
            }) as u64,
        ),
{
    reveal(Machine::stepped);
}

proof fn lemma_step_zero_extend(host: Host, m: Machine, dst: X86Reg)
    requires
        m.left is None,
    ensures
        m.stepped(host, HostInstr::MovZxByte { dst, src: dst }) == m.with(
            dst,
            Width::W8.wrap(m.reg(dst) as int),
        ),
{
    reveal(Machine::stepped);
}

proof fn lemma_low_byte(v: u64, bit: int)
    requires
        0 <= bit <= 1,
    ensures
        Width::W8.wrap((v - v % 0x100 + bit) as u64 as int) == bit,
{
    let mixed = v as int - v as int % 0x100 + bit;
    assert(0 <= mixed <= 0xffff_ffff_ffff_ffff);
    assert(mixed % 0x100 == bit);
}

proof fn lemma_step_set(host: Host, m: Machine, condition: ConditionCode, dst: X86Reg)
    requires
        m.left is None,
        m.regs.len() == 16,
    ensures
        ({
            let value = if m.condition(condition) {
                1u64
            } else {
                0u64
            };
            agreement::same_but(
                m,
                m.stepped(host, HostInstr::SetCc { condition, dst }).stepped(
                    host,
                    HostInstr::MovZxByte { dst, src: dst },
                ),
                reg_assign::row_of(dst),
                value,
            )
        }),
{
    let bit = if m.condition(condition) {
        1int
    } else {
        0
    };
    let mixed = (m.reg(dst) - m.reg(dst) % 0x100 + bit) as u64;
    lemma_step_setcc(host, m, condition, dst);
    lemma_step_zero_extend(host, m.with(dst, mixed), dst);
    lemma_low_byte(m.reg(dst), bit);
    agreement::lemma_rows(dst, 0);
    let i = reg_assign::row_of(dst);
    assert(m.regs.update(i, mixed).update(i, bit as u64) =~= m.regs.update(i, bit as u64));
}

/// The result of a comparison goes to a host register.
proof fn lemma_set_if(
    s: GenState,
    host: Host,
    start: Machine,
    condition: ConditionCode,
    dst: X86Reg,
)
    requires
        s.machine(host, start).left is None,
        s.machine(host, start).regs.len() == 16,
    ensures
        s.set_if(condition, dst).table == s.table,
        agreement::same_but(
            s.machine(host, start),
            s.set_if(condition, dst).machine(host, start),
            reg_assign::row_of(dst),
            if s.machine(host, start).condition(condition) {
                1u64
            } else {
                0u64
            },
        ),
{
    let set = HostInstr::SetCc { condition, dst };
    agreement::lemma_emit(s, host, start, set);
    agreement::lemma_emit(s.emit(set), host, start, HostInstr::MovZxByte { dst, src: dst });
    lemma_step_set(host, s.machine(host, start), condition, dst);
}

/// What a comparison gives.
pub open spec fn truth(condition: ConditionCode, a: u64, b: u64) -> u64 {
    if alu::compared(machine::compare_fn(condition), Width::W64, a, b) {
        1
    } else {
        0
    }
}

/// `rd = rs1 compared with rs2`
pub(super) proof fn lemma_compare_r(
    s: GenState,
    host: Host,
    start: Machine,
    g: Seq<u64>,
    rd: u8,
    rs1: u8,
    rs2: u8,
    condition: ConditionCode,
)
    requires
        s.agrees(host, start, g, None),
        s.idle(),
        0 < rd < 32,
        rs1 < 32,
        rs2 < 32,
    ensures
        ({
            let u = s.compare_r(rd, rs1, rs2, condition);
            &&& u.idle()
            &&& agreement::carries(
                s,
                u,
                host,
                start,
                g,
                g.update(rd as int, truth(condition, g[rs1 as int], g[rs2 as int])),
            )
        }),
{
    let a = s.guest(rs1, GuestAccess::ReadOnly);
    let b = a.guest(rs2, GuestAccess::ReadOnly);
    let c = b.guest(rd, GuestAccess::WriteOnly);
    let first = s.host_of(rs1);
    let second = a.host_of(rs2);
    let dst = b.host_of(rd);
    agreement::lemma_guest(s, host, start, g, rs1, GuestAccess::ReadOnly);
    agreement::lemma_guest(a, host, start, g, rs2, GuestAccess::ReadOnly);
    let i1 = reg_assign::row_of(first);
    let i2 = reg_assign::row_of(second);
    let i3 = reg_assign::row_of(dst);
    agreement::lemma_held(b, host, start, g, None, i1, rs1);
    agreement::lemma_held(b, host, start, g, None, i2, rs2);
    agreement::lemma_guest(b, host, start, g, rd, GuestAccess::WriteOnly);
    agreement::lemma_running(c, host, start, g, Some(rd));
    let n = c.machine(host, start);
    assert(n.regs[i1] == g[rs1 as int]);
    assert(n.regs[i2] == g[rs2 as int]);
    let d = c.alu(AluOp::Cmp, first, second, OperandWidth::Xlen);
    agreement::lemma_emit(
        c,
        host,
        start,
        HostInstr::Alu {
            size: OperandSize::Qword,
            op: AluOp::Cmp,
            dst: RegMem::Reg(first),
            src: second,
        },
    );
    lemma_step_compare(host, n, first, second, 0);
    lemma_compared(c, d, host, start, g, Some(rd));
    lemma_set_if(d, host, start, condition, dst);
    let e = d.set_if(condition, dst);
    let value = truth(condition, g[rs1 as int], g[rs2 as int]);
    agreement::lemma_write(d, e, host, start, g, Some(rd), i3, rd, value);
    let h = g.update(rd as int, value);
    agreement::lemma_release(e, host, start, h, dst);
    agreement::lemma_release(e.release(dst), host, start, h, second);
    agreement::lemma_release(e.release(dst).release(second), host, start, h, first);
}

/// `rd = rs1 compared with imm`
pub(super) proof fn lemma_compare_i(
    s: GenState,
    host: Host,
    start: Machine,
    g: Seq<u64>,
    rd: u8,
    rs1: u8,
    imm: u64,
    condition: ConditionCode,
)
    requires
        s.agrees(host, start, g, None),
        s.idle(),
        utils::is_word(imm),
        0 < rd < 32,
        rs1 < 32,
    ensures
        ({
            let u = s.compare_i(rd, rs1, imm, condition);
            &&& u.idle()
            &&& agreement::carries(
                s,
                u,
                host,
                start,
                g,
                g.update(rd as int, truth(condition, g[rs1 as int], imm)),
            )
        }),
{
    let a = s.guest(rs1, GuestAccess::ReadOnly);
    let b = a.guest(rd, GuestAccess::WriteOnly);
    let first = s.host_of(rs1);
    let dst = a.host_of(rd);
    agreement::lemma_guest(s, host, start, g, rs1, GuestAccess::ReadOnly);
    let i1 = reg_assign::row_of(first);
    let i2 = reg_assign::row_of(dst);
    agreement::lemma_held(a, host, start, g, None, i1, rs1);
    agreement::lemma_guest(a, host, start, g, rd, GuestAccess::WriteOnly);
    agreement::lemma_running(b, host, start, g, Some(rd));
    let n = b.machine(host, start);
    assert(n.regs[i1] == g[rs1 as int]);
    let d = b.alu_imm(AluOp::Cmp, first, super::low32(imm), OperandWidth::Xlen);
    agreement::lemma_emit(
        b,
        host,
        start,
        HostInstr::AluImm {
            size: OperandSize::Qword,
            op: AluOp::Cmp,
            dst: RegMem::Reg(first),
            imm: super::low32(imm),
        },
    );
    effects::lemma_word(imm);
    lemma_step_compare(host, n, first, first, super::low32(imm));
    lemma_compared(b, d, host, start, g, Some(rd));
    lemma_set_if(d, host, start, condition, dst);
    let e = d.set_if(condition, dst);
    let value = truth(condition, g[rs1 as int], imm);
    agreement::lemma_write(d, e, host, start, g, Some(rd), i2, rd, value);
    let h = g.update(rd as int, value);
    agreement::lemma_release(e, host, start, h, dst);
    agreement::lemma_release(e.release(dst), host, start, h, first);
}

} // verus!
