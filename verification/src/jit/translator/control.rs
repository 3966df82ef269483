//! That the code of branches and jumps goes where they go.
use vstd::prelude::*;

use crate::isa::riscv::instruction::alu;
use crate::isa::riscv::trap::Exception;
use crate::jit::backend::x86::code::HostInstr;
use crate::jit::backend::x86::{
    AluOp, CallArg, ConditionCode, OperandSize, RegMem, X86Reg,
};
use crate::jit::jit_function::JitInfo;
use crate::jit::machine;
use crate::jit::machine::{Exit, Host, Machine};
use crate::utils;
use crate::utils::Width;

use super::accesses;
use super::agreement;
use super::calls;
use super::conditions;
use super::effects;
use super::reg_assign;
use super::reg_assign::GuestAccess;
use super::{GenState, OperandWidth};

verus! {

/// Whether the code is left because of the target of a jump.
pub open spec fn misaligned(
    s: GenState,
    u: GenState,
    host: Host,
    start: Machine,
    g: Seq<u64>,
    context: JitInfo,
    target: u64,
) -> bool {
    &&& u.machine(host, start).left == Some(
        Exit {
            guest_pc: context.instr_pc,
            icount: context.instr_cnt,
            exception: Exception::InstructionMisaligned,
            tval: target,
        },
    )
    &&& u.machine(host, start).cpu == accesses::hart(s, host, start, g)
}

/// Whether the code goes on with the guest registers `g` and the next address in `RAX`.
pub open spec fn goes_to(
    s: GenState,
    u: GenState,
    host: Host,
    start: Machine,
    g: Seq<u64>,
    target: u64,
) -> bool {
    &&& u.agrees(host, start, g, None)
    &&& u.idle()
    &&& u.machine(host, start).regs[5] == target
    &&& agreement::only_regs(s.machine(host, start).cpu, u.machine(host, start).cpu)
}

proof fn lemma_check_called(host: Host, m: Machine)
    requires
        m.reg(X86Reg::RSI) == host.around.jit_context,
    ensures
        m.called(host, host.around.helpers.check_alignment) == m.check_called(host),
{
    reveal(Machine::called);
}

/// A value is put into `RAX`.
proof fn lemma_set_rax(s: GenState, host: Host, start: Machine, g: Seq<u64>, r: X86Reg, imm: u64)
    requires
        s.agrees(host, start, g, None),
        r == X86Reg::RAX || r == X86Reg::RDX,
        s.table[reg_assign::row_of(r)].guest is None,
    ensures
        ({
            let u = s.emit(HostInstr::MovImm { dst: r, imm });
            &&& u.agrees(host, start, g, None)
            &&& u.table == s.table
            &&& u.machine(host, start) == s.machine(host, start).with(r, imm)
        }),
{
    let i = HostInstr::MovImm { dst: r, imm };
    agreement::lemma_running(s, host, start, g, None);
    agreement::lemma_emit(s, host, start, i);
    effects::lemma_step_imm(host, s.machine(host, start), r, imm);
    agreement::lemma_write_free(
        s,
        s.emit(i),
        host,
        start,
        g,
        None,
        reg_assign::row_of(r),
        imm,
    );
}

/// The target of a jump is checked.
proof fn lemma_check(
    s: GenState,
    host: Host,
    start: Machine,
    g: Seq<u64>,
    given: Option<u64>,
    context: JitInfo,
    target: u64,
)
    requires
        s.agrees(host, start, g, None),
        s.idle(),
        target == match given {
            Some(imm) => imm,
            None => s.machine(host, start).regs[5],
        },
    ensures
        ({
            let u = s.check_alignment(host.around, given, context);
            &&& target % 4 == 0 ==> goes_to(s, u, host, start, g, target)
            &&& target % 4 != 0 ==> misaligned(s, u, host, start, g, context, target)
        }),
{
    let r = X86Reg::RAX;
    agreement::lemma_flush(s, host, start, g);
    let f = s.flush();
    agreement::lemma_host(f, host, start, g, r);
    let a = f.host(r);
    agreement::lemma_running(a, host, start, g, None);
    let b = match given {
        Some(imm) => {
            lemma_set_rax(a, host, start, g, r, imm);
            a.emit(HostInstr::MovImm { dst: r, imm })
        },
        None => a,
    };
    assert(b.machine(host, start).regs[5] == target);
    agreement::lemma_release(b, host, start, g, r);
    let b2 = b.release(r);
    agreement::lemma_flush_for_call(b2, host, start, g);
    let c = b2.flush_for_call();
    agreement::lemma_running(c, host, start, g, None);
    let args = seq![
        CallArg::Reg(r),
        CallArg::Imm(host.around.jit_context),
        CallArg::Imm(context.instr_pc),
        CallArg::Imm(context.instr_cnt),
    ];
    let called = host.around.helpers.check_alignment;
    calls::lemma_call(c, host, start, called, args);
    let m = c.machine(host, start);
    let at = calls::at_call(m, args, called);
    lemma_check_called(host, at);
    assert(at.reg(X86Reg::RDI) == target);
    let u = c.call(called, args);
    lemma_regs_in_memory(s, c, host, start, g, given);
    if target % 4 == 0 {
        calls::lemma_returned(c, u, host, start, g, args, called, m.cpu, target);
    }
}

/// Before the target of a jump is checked, the registers of the hart are up to date.
proof fn lemma_regs_in_memory(
    s: GenState,
    c: GenState,
    host: Host,
    start: Machine,
    g: Seq<u64>,
    given: Option<u64>,
)
    requires
        s.agrees(host, start, g, None),
        s.idle(),
        ({
            let r = X86Reg::RAX;
            let a = s.flush().host(r);
            let b = match given {
                Some(imm) => a.emit(HostInstr::MovImm { dst: r, imm }),
                None => a,
            };
            c == b.release(r).flush_for_call()
        }),
    ensures
        c.machine(host, start).cpu == accesses::hart(s, host, start, g),
        calls::ready(c),
{
    let r = X86Reg::RAX;
    agreement::lemma_flush(s, host, start, g);
    let f = s.flush();
    agreement::lemma_host(f, host, start, g, r);
    let a = f.host(r);
    agreement::lemma_running(a, host, start, g, None);
    let b = match given {
        Some(imm) => {
            lemma_set_rax(a, host, start, g, r, imm);
            a.emit(HostInstr::MovImm { dst: r, imm })
        },
        None => a,
    };
    agreement::lemma_release(b, host, start, g, r);
    let b2 = b.release(r);
    agreement::lemma_flush_for_call(b2, host, start, g);
    agreement::lemma_running(c, host, start, g, None);
    assert forall|x: int| 0 <= x < 32 implies c.machine(host, start).cpu.regs[x] == g[x] by {
        agreement::lemma_clean(c, host, start, g, x);
    }
    assert(c.machine(host, start).cpu.regs =~= g);
}

proof fn lemma_step_cmov(host: Host, m: Machine, condition: ConditionCode, dst: X86Reg, src: X86Reg)
    requires
        m.left is None,
    ensures
        m.stepped(host, HostInstr::CMov { condition, dst, src: RegMem::Reg(src) })
            == if m.condition(condition) {
            m.with(dst, m.reg(src))
        } else {
            m
        },
{
    reveal(Machine::stepped);
}

/// The code that picks the next address after a comparison.
pub open spec fn picking(
    s: GenState,
    target: u64,
    fallthrough: u64,
    condition: ConditionCode,
) -> GenState {
    s.host(X86Reg::RAX).host(X86Reg::RDX).emit(
        HostInstr::MovImm { dst: X86Reg::RAX, imm: fallthrough },
    ).emit(HostInstr::MovImm { dst: X86Reg::RDX, imm: target }).emit(
        HostInstr::CMov { condition, dst: X86Reg::RAX, src: RegMem::Reg(X86Reg::RDX) },
    ).release(X86Reg::RDX).release(X86Reg::RAX)
}

/// The next address after a comparison is picked.
proof fn lemma_picking(
    s: GenState,
    host: Host,
    start: Machine,
    g: Seq<u64>,
    target: u64,
    fallthrough: u64,
    condition: ConditionCode,
)
    requires
        s.agrees(host, start, g, None),
        s.idle(),
        s.machine(host, start).compared is Some,
    ensures
        goes_to(
            s,
            picking(s, target, fallthrough, condition),
            host,
            start,
            g,
            if s.machine(host, start).condition(condition) {
                target
            } else {
                fallthrough
            },
        ),
{
    let rax = X86Reg::RAX;
    let rdx = X86Reg::RDX;
    agreement::lemma_host(s, host, start, g, rax);
    let a = s.host(rax);
    agreement::lemma_host(a, host, start, g, rdx);
    let b = a.host(rdx);
    agreement::lemma_running(b, host, start, g, None);
    lemma_set_rax(b, host, start, g, rax, fallthrough);
    let c = b.emit(HostInstr::MovImm { dst: rax, imm: fallthrough });
    lemma_set_rax(c, host, start, g, rdx, target);
    let d = c.emit(HostInstr::MovImm { dst: rdx, imm: target });
    let i = HostInstr::CMov { condition, dst: rax, src: RegMem::Reg(rdx) };
    agreement::lemma_emit(d, host, start, i);
    let m = d.machine(host, start);
    lemma_step_cmov(host, m, condition, rax, rdx);
    let e = d.emit(i);
    let next = if m.condition(condition) {
        target
    } else {
        fallthrough
    };
    assert(m.regs[5] == fallthrough && m.regs[10] == target);
    assert(e.machine(host, start).regs =~= m.regs.update(5, next));
    agreement::lemma_write_free(d, e, host, start, g, None, 5, next);
    agreement::lemma_release(e, host, start, g, rdx);
    agreement::lemma_release(e.release(rdx), host, start, g, rax);
}

/// The comparison of a branch.
pub open spec fn comparing(s: GenState, rs1: u8, rs2: Option<u8>) -> GenState {
    let a = s.guest(rs1, GuestAccess::ReadOnly);
    let first = s.host_of(rs1);
    match rs2 {
        Some(rs2) => {
            let second = a.host_of(rs2);
            a.guest(rs2, GuestAccess::ReadOnly).alu(
                AluOp::Cmp,
                first,
                second,
                OperandWidth::Xlen,
            ).release(second)
        },
        None => a.alu_imm(AluOp::Cmp, first, 0, OperandWidth::Xlen),
    }.release(first)
}

/// What a branch compares.
pub open spec fn branch_operand(g: Seq<u64>, rs2: Option<u8>) -> u64 {
    match rs2 {
        Some(rs2) => g[rs2 as int],
        None => 0,
    }
}

/// The operands of a branch are compared.
proof fn lemma_comparing(
    s: GenState,
    host: Host,
    start: Machine,
    g: Seq<u64>,
    rs1: u8,
    rs2: Option<u8>,
)
    requires
        s.agrees(host, start, g, None),
        s.idle(),
        rs1 < 32,
        rs2 is Some ==> rs2->0 < 32,
    ensures
        ({
            let u = comparing(s, rs1, rs2);
            &&& u.agrees(host, start, g, None)
            &&& u.idle()
            &&& u.machine(host, start).compared == Some(
                (g[rs1 as int], branch_operand(g, rs2)),
            )
            &&& agreement::only_regs(s.machine(host, start).cpu, u.machine(host, start).cpu)
        }),
{
    let a = s.guest(rs1, GuestAccess::ReadOnly);
    let first = s.host_of(rs1);
    let i1 = reg_assign::row_of(first);
    agreement::lemma_guest(s, host, start, g, rs1, GuestAccess::ReadOnly);
    match rs2 {
        Some(rs2) => {
            let b = a.guest(rs2, GuestAccess::ReadOnly);
            let second = a.host_of(rs2);
            let i2 = reg_assign::row_of(second);
            agreement::lemma_guest(a, host, start, g, rs2, GuestAccess::ReadOnly);
            agreement::lemma_held(b, host, start, g, None, i1, rs1);
            agreement::lemma_held(b, host, start, g, None, i2, rs2);
            let c = b.alu(AluOp::Cmp, first, second, OperandWidth::Xlen);
            agreement::lemma_emit(
                b,
                host,
                start,
                HostInstr::Alu {
                    size: OperandSize::Qword,
                    op: AluOp::Cmp,
                    dst: RegMem::Reg(first),
                    src: second,
                },
            );
            conditions::lemma_step_compare(host, b.machine(host, start), first, second, 0);
            conditions::lemma_compared(b, c, host, start, g, None);
            agreement::lemma_release(c, host, start, g, second);
            agreement::lemma_release(c.release(second), host, start, g, first);
        },
        None => {
            agreement::lemma_held(a, host, start, g, None, i1, rs1);
            let c = a.alu_imm(AluOp::Cmp, first, 0, OperandWidth::Xlen);
            agreement::lemma_emit(
                a,
                host,
                start,
                HostInstr::AluImm {
                    size: OperandSize::Qword,
                    op: AluOp::Cmp,
                    dst: RegMem::Reg(first),
                    imm: 0,
                },
            );
            conditions::lemma_step_compare(host, a.machine(host, start), first, first, 0);
            conditions::lemma_compared(a, c, host, start, g, None);
            assert(utils::widened(Width::W32, 0) == 0);
            agreement::lemma_release(c, host, start, g, first);
        },
    }
}

/// A branch goes to its target or behind itself.
pub(super) proof fn lemma_branch(
    s: GenState,
    host: Host,
    start: Machine,
    g: Seq<u64>,
    rs1: u8,
    rs2: Option<u8>,
    imm: u64,
    condition: ConditionCode,
    context: JitInfo,
)
    requires
        s.agrees(host, start, g, None),
        s.idle(),
        rs1 < 32,
        rs2 is Some ==> rs2->0 < 32,
        context.ialign == 4 ==> Width::W64.wrap(context.instr_pc + context.instr_len) % 4 == 0,
    ensures
        ({
            let u = s.branch(host.around, rs1, rs2, imm, condition, context);
            let target = Width::W64.wrap(context.instr_pc + imm);
            let fallthrough = Width::W64.wrap(context.instr_pc + context.instr_len);
            if alu::compared(
                machine::compare_fn(condition),
                Width::W64,
                g[rs1 as int],
                branch_operand(g, rs2),
            ) {
                if context.ialign == 4 && target % 4 != 0 {
                    misaligned(s, u, host, start, g, context, target)
                } else {
                    goes_to(s, u, host, start, g, target)
                }
            } else {
                goes_to(s, u, host, start, g, fallthrough)
            }
        }),
{
    let target = Width::W64.wrap(context.instr_pc + imm);
    let fallthrough = Width::W64.wrap(context.instr_pc + context.instr_len);
    let a = comparing(s, rs1, rs2);
    lemma_comparing(s, host, start, g, rs1, rs2);
    lemma_picking(a, host, start, g, target, fallthrough, condition);
    let picked = picking(a, target, fallthrough, condition);
    if context.ialign == 4 && target % 4 != 0 {
        lemma_check(
            picked,
            host,
            start,
            g,
            None,
            context,
            picked.machine(host, start).regs[5],
        );
    }
}

/// The guest registers after a jump that keeps the address behind it.
pub open spec fn linked(g: Seq<u64>, rd: Option<u8>, context: JitInfo) -> Seq<u64> {
    match rd {
        Some(rd) if rd != 0 => g.update(
            rd as int,
            Width::W64.wrap(context.instr_pc + context.instr_len),
        ),
        _ => g,
    }
}

/// The address behind a jump goes to a guest register, while the next address is in `RAX`.
proof fn lemma_link(
    s: GenState,
    host: Host,
    start: Machine,
    g: Seq<u64>,
    rd: Option<u8>,
    context: JitInfo,
)
    requires
        s.agrees(host, start, g, None),
        rd is Some ==> rd->0 < 32,
        s.table[5].guest is None,
        forall|j: int|
            0 <= j < 16 ==> (#[trigger] s.table[j]).refcount == effects::counted(j, 5),
    ensures
        goes_to(
            s,
            s.link(rd, context).release(X86Reg::RAX),
            host,
            start,
            linked(g, rd, context),
            s.machine(host, start).regs[5],
        ),
{
    let h = linked(g, rd, context);
    let u = s.link(rd, context);
    assert(s.table[0].refcount == 0 && s.table[5].refcount == 1);
    match rd {
        Some(rd) if rd != 0 => {
            let value = Width::W64.wrap(context.instr_pc + context.instr_len);
            assert(u == s.load_imm(rd, value));
            effects::lemma_load_imm(s, host, start, g, rd, value);
        },
        _ => {},
    }
    agreement::lemma_release(u, host, start, h, X86Reg::RAX);
}

/// The next address, which is known, is put into `RAX`.
proof fn lemma_taken_rax(s: GenState, host: Host, start: Machine, g: Seq<u64>)
    requires
        s.agrees(host, start, g, None),
        s.idle(),
    ensures
        ({
            let u = s.host(X86Reg::RAX);
            &&& u.agrees(host, start, g, None)
            &&& u.table[5].guest is None
            &&& u.machine(host, start).regs == s.machine(host, start).regs
            &&& agreement::only_regs(s.machine(host, start).cpu, u.machine(host, start).cpu)
            &&& forall|j: int|
                0 <= j < 16 ==> (#[trigger] u.table[j]).refcount == effects::counted(j, 5)
        }),
{
    agreement::lemma_host(s, host, start, g, X86Reg::RAX);
}

/// A jump to a known address goes there.
pub(super) proof fn lemma_jump_imm(
    s: GenState,
    host: Host,
    start: Machine,
    g: Seq<u64>,
    rd: Option<u8>,
    imm: u64,
    context: JitInfo,
)
    requires
        s.agrees(host, start, g, None),
        s.idle(),
        rd is Some ==> rd->0 < 32,
    ensures
        ({
            let u = s.jump_imm(host.around, rd, imm, context);
            let target = Width::W64.wrap(context.instr_pc + imm);
            if context.ialign == 4 && target % 4 != 0 {
                misaligned(s, u, host, start, g, context, target)
            } else {
                goes_to(s, u, host, start, linked(g, rd, context), target)
            }
        }),
{
    let rax = X86Reg::RAX;
    let target = Width::W64.wrap(context.instr_pc + imm);
    if context.ialign == 4 && target % 4 != 0 {
        lemma_check(s, host, start, g, Some(target), context, target);
        let a = s.check_alignment(host.around, Some(target), context);
        let b = a.host(rax);
        let c = b.link(rd, context);
        calls::lemma_adds(a, 0, GuestAccess::WriteOnly, rax);
        calls::lemma_adds(c, 0, GuestAccess::WriteOnly, rax);
        lemma_link_adds(b, rd, context);
        calls::lemma_left_by(a, c.release(rax), host, start);
    } else {
        lemma_taken_rax(s, host, start, g);
        let a = s.host(rax);
        agreement::lemma_running(a, host, start, g, None);
        lemma_set_rax(a, host, start, g, rax, target);
        let b = a.emit(HostInstr::MovImm { dst: rax, imm: target });
        lemma_link(b, host, start, g, rd, context);
    }
}

proof fn lemma_link_adds(s: GenState, rd: Option<u8>, context: JitInfo)
    ensures
        s.code.is_prefix_of(s.link(rd, context).code),
{
    match rd {
        Some(rd) if rd != 0 => {
            let dst = s.host_of(rd);
            let a = s.guest(rd, GuestAccess::WriteOnly);
            let b = a.emit(
                HostInstr::MovImm {
                    dst,
                    imm: Width::W64.wrap(context.instr_pc + context.instr_len),
                },
            );
            calls::lemma_adds(s, rd, GuestAccess::WriteOnly, dst);
            calls::lemma_adds(b, rd, GuestAccess::WriteOnly, dst);
            assert(a.code.is_prefix_of(b.code));
        },
        _ => {},
    }
}

/// The target of a jump to an address in a register.
pub open spec fn jump_target(g: Seq<u64>, rs1: u8, imm: u64) -> u64 {
    let sum = Width::W64.wrap(g[rs1 as int] + imm);
    (sum - sum % 2) as u64
}

/// The code that computes the target of a jump to an address in a register.
pub open spec fn targeting(s: GenState, rs1: u8, imm: u64) -> GenState {
    let a = s.host(X86Reg::RAX);
    let source = a.host_of(rs1);
    a.guest(rs1, GuestAccess::ReadOnly).mov_from(X86Reg::RAX, source).release(source).alu_imm(
        AluOp::Add,
        X86Reg::RAX,
        super::low32(imm),
        OperandWidth::Xlen,
    ).alu_imm(AluOp::And, X86Reg::RAX, 0xffff_fffe, OperandWidth::Xlen).release(X86Reg::RAX)
}

/// The target of a jump to an address in a register is computed.
proof fn lemma_targeting(s: GenState, host: Host, start: Machine, g: Seq<u64>, rs1: u8, imm: u64)
    requires
        s.agrees(host, start, g, None),
        s.idle(),
        rs1 < 32,
        utils::is_word(imm),
    ensures
        goes_to(s, targeting(s, rs1, imm), host, start, g, jump_target(g, rs1, imm)),
{
    let rax = X86Reg::RAX;
    lemma_taken_rax(s, host, start, g);
    let a = s.host(rax);
    assert(a.table[6].refcount == 0);
    let source = a.host_of(rs1);
    let b = a.guest(rs1, GuestAccess::ReadOnly);
    agreement::lemma_guest(a, host, start, g, rs1, GuestAccess::ReadOnly);
    let i = reg_assign::row_of(source);
    agreement::lemma_held(b, host, start, g, None, i, rs1);
    let c = b.mov_from(rax, source);
    agreement::lemma_emit(
        b,
        host,
        start,
        HostInstr::MovLoad { size: OperandSize::Qword, dst: rax, src: RegMem::Reg(source) },
    );
    agreement::lemma_step_mov(host, b.machine(host, start), rax, source);
    agreement::lemma_write_free(b, c, host, start, g, None, 5, g[rs1 as int]);
    agreement::lemma_release(c, host, start, g, source);
    let d = c.release(source);
    agreement::lemma_running(d, host, start, g, None);
    effects::lemma_alu_imm(d, host, start, AluOp::Add, rax, imm, OperandWidth::Xlen);
    let e = d.alu_imm(AluOp::Add, rax, super::low32(imm), OperandWidth::Xlen);
    let sum = Width::W64.wrap(g[rs1 as int] + imm);
    agreement::lemma_write_free(d, e, host, start, g, None, 5, sum);
    let mask = 0xffff_ffff_ffff_fffeu64;
    assert(super::low32(mask) == 0xffff_fffe);
    assert(utils::widened(Width::W32, 0xffff_fffe) == mask);
    effects::lemma_alu_imm(e, host, start, AluOp::And, rax, mask, OperandWidth::Xlen);
    let f = e.alu_imm(AluOp::And, rax, 0xffff_fffe, OperandWidth::Xlen);
    assert(sum & 0xffff_ffff_ffff_fffe == sum - sum % 2) by (bit_vector);
    agreement::lemma_write_free(e, f, host, start, g, None, 5, jump_target(g, rs1, imm));
    agreement::lemma_release(f, host, start, g, rax);
}

/// A jump to an address in a register goes there.
pub(super) proof fn lemma_jump_reg(
    s: GenState,
    host: Host,
    start: Machine,
    g: Seq<u64>,
    rd: Option<u8>,
    rs1: u8,
    imm: u64,
    context: JitInfo,
)
    requires
        s.agrees(host, start, g, None),
        s.idle(),
        rs1 < 32,
        rd is Some ==> rd->0 < 32,
        utils::is_word(imm),
    ensures
        ({
            let u = s.jump_reg(host.around, rd, rs1, imm, context);
            let target = jump_target(g, rs1, imm);
            if context.ialign == 4 && target % 4 != 0 {
                misaligned(s, u, host, start, g, context, target)
            } else {
                goes_to(s, u, host, start, linked(g, rd, context), target)
            }
        }),
{
    let rax = X86Reg::RAX;
    let target = jump_target(g, rs1, imm);
    lemma_targeting(s, host, start, g, rs1, imm);
    let b = targeting(s, rs1, imm);
    let c = if context.ialign == 4 {
        lemma_check(b, host, start, g, None, context, target);
        b.check_alignment(host.around, None, context)
    } else {
        b
    };
    let d = c.host(rax);
    let e = d.link(rd, context);
    if context.ialign == 4 && target % 4 != 0 {
        calls::lemma_adds(c, 0, GuestAccess::WriteOnly, rax);
        lemma_link_adds(d, rd, context);
        calls::lemma_adds(e, 0, GuestAccess::WriteOnly, rax);
        calls::lemma_left_by(c, e.release(rax), host, start);
    } else {
        lemma_taken_rax(c, host, start, g);
        lemma_link(d, host, start, g, rd, context);
    }
}

proof fn lemma_step_ret(host: Host, m: Machine)
    ensures
        m.stepped(host, HostInstr::Ret) == m,
{
    reveal(Machine::stepped);
}

/// At the end of a block the registers of the hart are up to date, and the next address is in
/// `RAX`.
pub(crate) proof fn lemma_finished(
    s: GenState,
    host: Host,
    start: Machine,
    g: Seq<u64>,
    next_pc: Option<u64>,
)
    requires
        s.agrees(host, start, g, None),
        s.idle(),
    ensures
        ({
            let n = s.finished(next_pc).machine(host, start);
            &&& n.left is None
            &&& n.cpu == accesses::hart(s, host, start, g)
            &&& n.regs[5] == match next_pc {
                Some(imm) => imm,
                None => s.machine(host, start).regs[5],
            }
        }),
{
    let rax = X86Reg::RAX;
    agreement::lemma_flush(s, host, start, g);
    let a = s.flush();
    agreement::lemma_running(a, host, start, g, None);
    match next_pc {
        Some(imm) => {
            agreement::lemma_host(a, host, start, g, rax);
            let b = a.host(rax);
            agreement::lemma_running(b, host, start, g, None);
            lemma_set_rax(b, host, start, g, rax, imm);
            let c = b.emit(HostInstr::MovImm { dst: rax, imm });
            agreement::lemma_emit(c, host, start, HostInstr::Ret);
            lemma_step_ret(host, c.machine(host, start));
            assert forall|x: int| 0 <= x < 32 implies c.machine(host, start).cpu.regs[x]
                == g[x] by {
                agreement::lemma_clean(c, host, start, g, x);
            }
            assert(c.machine(host, start).cpu.regs =~= g);
        },
        None => {
            agreement::lemma_emit(a, host, start, HostInstr::Ret);
            lemma_step_ret(host, a.machine(host, start));
        },
    }
}

} // verus!
