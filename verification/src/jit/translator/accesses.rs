//! That the code of loads and stores does what they do.
use vstd::prelude::*;

use crate::config::BASE_ADDR;
use crate::device;
use crate::isa::riscv::executor::CpuState;
use crate::isa::riscv::mmu::manager::AccessType;
use crate::isa::riscv::mmu::policy;
use crate::jit::backend::x86::code::HostInstr;
use crate::jit::backend::x86::{AluOp, CallArg, OperandSize, RegMem, X86Reg};
use crate::jit::helpers::{LoadKind, StoreKind};
use crate::jit::jit_function::JitInfo;
use crate::jit::machine::{Exit, Host, Machine};
use crate::ram;
use crate::utils;
use crate::utils::Width;

use super::agreement;
use super::calls;
use super::effects;
use super::reg_assign;
use super::reg_assign::GuestAccess;
use super::state_vec::CPU_REG;
use super::{GenState, OperandWidth};

verus! {

/// The address of an access.
pub open spec fn address_of(g: Seq<u64>, rs1: u8, imm: u64) -> u64 {
    Width::W64.wrap(g[rs1 as int] + imm)
}

/// The address of an access is in a host register.
proof fn lemma_address(s: GenState, host: Host, start: Machine, g: Seq<u64>, rs1: u8, imm: u64)
    requires
        s.agrees(host, start, g, None),
        s.idle(),
        rs1 < 32,
        utils::is_word(imm),
    ensures
        ({
            let u = s.address(rs1, imm);
            let i1 = reg_assign::row_of(reg_assign::scratch_host(s.table));
            let i2 = reg_assign::row_of(s.scratch().host_of(rs1));
            &&& u.agrees(host, start, g, None)
            &&& 0 <= i1 < 8
            &&& 0 <= i2 < 8
            &&& i1 != i2
            &&& u.machine(host, start).regs[i1] == address_of(g, rs1, imm)
            &&& u.table[i1].guest is None
            &&& forall|j: int|
                0 <= j < 16 ==> (#[trigger] u.table[j]).refcount == effects::counted(j, i1)
                    + effects::counted(j, i2)
            &&& agreement::only_regs(s.machine(host, start).cpu, u.machine(host, start).cpu)
        }),
{
    let addr = reg_assign::scratch_host(s.table);
    let a = s.scratch();
    let b = a.guest(rs1, GuestAccess::ReadOnly);
    let base = a.host_of(rs1);
    let i1 = reg_assign::row_of(addr);
    let i2 = reg_assign::row_of(base);
    agreement::lemma_scratch(s, host, start, g);
    agreement::lemma_guest(a, host, start, g, rs1, GuestAccess::ReadOnly);
    agreement::lemma_held(b, host, start, g, None, i2, rs1);
    let c = b.mov_from(addr, base);
    agreement::lemma_emit(
        b,
        host,
        start,
        HostInstr::MovLoad { size: OperandSize::Qword, dst: addr, src: RegMem::Reg(base) },
    );
    agreement::lemma_step_mov(host, b.machine(host, start), addr, base);
    agreement::lemma_write_free(b, c, host, start, g, None, i1, g[rs1 as int]);
    effects::lemma_alu_imm(c, host, start, AluOp::Add, addr, imm, OperandWidth::Xlen);
    let d = c.alu_imm(AluOp::Add, addr, super::low32(imm), OperandWidth::Xlen);
    agreement::lemma_write_free(c, d, host, start, g, None, i1, address_of(g, rs1, imm));
}

/// The load that is called.
proof fn lemma_load_called(host: Host, m: Machine, kind: LoadKind)
    requires
        calls::helpers_differ(host.around.helpers),
        m.reg(X86Reg::RDI) == host.guest_regs,
        m.reg(X86Reg::RDX) == host.around.jit_context,
    ensures
        m.called(host, kind.helper_in(host.around.helpers)) == m.load_called(
            host,
            kind.spec_width(),
        ),
{
    reveal(Machine::called);
}

/// The store that is called.
proof fn lemma_store_called(host: Host, m: Machine, kind: StoreKind)
    requires
        calls::helpers_differ(host.around.helpers),
        m.reg(X86Reg::RDI) == host.guest_regs,
        m.reg(X86Reg::RCX) == host.around.jit_context,
    ensures
        m.called(host, kind.helper_in(host.around.helpers)) == m.store_called(
            host,
            kind.spec_width(),
        ),
{
    reveal(Machine::called);
}

/// The hart while a block runs, with its registers up to date.
pub open spec fn hart(s: GenState, host: Host, start: Machine, g: Seq<u64>) -> CpuState {
    CpuState { regs: g, ..s.machine(host, start).cpu }
}

/// The call of a load.
proof fn lemma_load_call(
    s: GenState,
    host: Host,
    start: Machine,
    g: Seq<u64>,
    rs1: u8,
    imm: u64,
    kind: LoadKind,
    context: JitInfo,
)
    requires
        s.agrees(host, start, g, None),
        s.idle(),
        rs1 < 32,
        utils::is_word(imm),
        calls::helpers_differ(host.around.helpers),
    ensures
        ({
            let u = s.load_call(host.around, rs1, imm, kind, context);
            let n = u.machine(host, start);
            let addr = address_of(g, rs1, imm);
            let (cpu, r) = hart(s, host, start, g).data_read(addr, kind.spec_width());
            match r {
                Ok(value) => {
                    &&& u.agrees(host, start, g, None)
                    &&& u.idle()
                    &&& n.regs[5] == value
                    &&& n.cpu == cpu
                },
                Err(exception) => {
                    &&& n.left == Some(
                        Exit {
                            guest_pc: context.instr_pc,
                            icount: context.instr_cnt,
                            exception,
                            tval: addr,
                        },
                    )
                    &&& n.cpu == cpu
                },
            }
        }),
{
    let addr = reg_assign::scratch_host(s.table);
    let base = s.scratch().host_of(rs1);
    lemma_address(s, host, start, g, rs1, imm);
    let a = s.address(rs1, imm);
    agreement::lemma_release(a, host, start, g, base);
    agreement::lemma_release(a.release(base), host, start, g, addr);
    let b = a.release(base).release(addr);
    calls::lemma_ready(b, host, start, g);
    let c = b.flush().flush_for_call();
    agreement::lemma_running(c, host, start, g, None);
    let args = seq![
        CallArg::Reg(CPU_REG),
        CallArg::Reg(addr),
        CallArg::Imm(host.around.jit_context),
        CallArg::Imm(context.instr_pc),
        CallArg::Imm(context.instr_cnt),
    ];
    let target = kind.helper_in(host.around.helpers);
    calls::lemma_call(c, host, start, target, args);
    let m = c.machine(host, start);
    let at = calls::at_call(m, args, target);
    lemma_load_called(host, at, kind);
    assert(at.reg(X86Reg::RSI) == address_of(g, rs1, imm));
    assert(m.cpu == hart(s, host, start, g));
    let u = c.call(target, args);
    let (cpu, r) = m.cpu.data_read(address_of(g, rs1, imm), kind.spec_width());
    if let Ok(value) = r {
        calls::lemma_returned(c, u, host, start, g, args, target, cpu, value);
    }
}

proof fn lemma_load_width(bytes: Seq<u8>, at: int, w: Width)
    ensures
        w.holds(ram::load_le(bytes, at, w)),
{
    assert(ram::le16(bytes, at) < 0x1_0000);
    assert(ram::le32(bytes, at) < 0x1_0000_0000);
    assert(ram::le32(bytes, at + 4) < 0x1_0000_0000);
}

/// What is read has the width that was asked for.
pub(super) proof fn lemma_read_width(s: CpuState, addr: u64, w: Width)
    ensures
        s.data_read(addr, w).1 is Ok ==> w.holds(s.data_read(addr, w).1->Ok_0),
        s.data_read(addr, w).0.regs == s.regs,
{
    let (vm, r) = s.vm.translated_with(
        addr,
        policy::data_policy(s.csr, AccessType::Read, true),
    );
    if let Ok(paddr) = r {
        lemma_load_width(vm.phys.ram.bytes, paddr - BASE_ADDR, w);
        if let Some(i) = device::window_from(vm.phys.windows, paddr, w.spec_bytes(), 0) {
            lemma_load_width(vm.phys.windows[i].bytes, paddr - vm.phys.windows[i].start, w);
        }
    }
}

/// What a load gives.
pub open spec fn extended_value(kind: LoadKind, value: u64) -> u64 {
    match kind {
        LoadKind::SignedByte | LoadKind::SignedHalf | LoadKind::SignedWord => utils::widened(
            kind.spec_width(),
            value,
        ),
        _ => value,
    }
}

proof fn lemma_step_extend(host: Host, m: Machine, kind: LoadKind)
    requires
        m.left is None,
        m.regs.len() == 16,
        kind.spec_width().holds(m.regs[5]),
    ensures
        ({
            let r = X86Reg::RAX;
            let src = RegMem::Reg(r);
            let after = m.with(r, extended_value(kind, m.regs[5]));
            match kind {
                LoadKind::SignedByte => m.stepped(host, HostInstr::MovSxByte { dst: r, src })
                    == after,
                LoadKind::UnsignedByte => m.stepped(host, HostInstr::MovZxByte { dst: r, src: r })
                    == after,
                LoadKind::SignedHalf => m.stepped(host, HostInstr::MovSxHalf { dst: r, src })
                    == after,
                LoadKind::UnsignedHalf => m.stepped(host, HostInstr::MovZxHalf { dst: r, src })
                    == after,
                LoadKind::SignedWord => m.stepped(host, HostInstr::MovSxd { dst: r, src })
                    == after,
                LoadKind::UnsignedWord => m.stepped(
                    host,
                    HostInstr::MovLoad { size: OperandSize::Dword, dst: r, src },
                ) == after,
                LoadKind::DoubleWord => m == after,
            }
        }),
{
    reveal(Machine::stepped);
    let v = m.regs[5];
    agreement::lemma_wrapped_twice(kind.spec_width(), v);
    match kind {
        LoadKind::DoubleWord => {
            assert(m.regs =~= m.regs.update(5, v));
        },
        _ => {},
    }
}

/// What a load returned is extended.
proof fn lemma_load_extended(s: GenState, host: Host, start: Machine, kind: LoadKind)
    requires
        s.machine(host, start).left is None,
        s.machine(host, start).regs.len() == 16,
        kind.spec_width().holds(s.machine(host, start).regs[5]),
    ensures
        s.load_extended(kind).table == s.table,
        agreement::same_but(
            s.machine(host, start),
            s.load_extended(kind).machine(host, start),
            5,
            extended_value(kind, s.machine(host, start).regs[5]),
        ),
{
    let r = X86Reg::RAX;
    let src = RegMem::Reg(r);
    lemma_step_extend(host, s.machine(host, start), kind);
    match kind {
        LoadKind::SignedByte => agreement::lemma_emit(
            s,
            host,
            start,
            HostInstr::MovSxByte { dst: r, src },
        ),
        LoadKind::UnsignedByte => agreement::lemma_emit(
            s,
            host,
            start,
            HostInstr::MovZxByte { dst: r, src: r },
        ),
        LoadKind::SignedHalf => agreement::lemma_emit(
            s,
            host,
            start,
            HostInstr::MovSxHalf { dst: r, src },
        ),
        LoadKind::UnsignedHalf => agreement::lemma_emit(
            s,
            host,
            start,
            HostInstr::MovZxHalf { dst: r, src },
        ),
        LoadKind::SignedWord => agreement::lemma_emit(
            s,
            host,
            start,
            HostInstr::MovSxd { dst: r, src },
        ),
        LoadKind::UnsignedWord => agreement::lemma_emit(
            s,
            host,
            start,
            HostInstr::MovLoad { size: OperandSize::Dword, dst: r, src },
        ),
        LoadKind::DoubleWord => {},
    }
}

/// What a load returned goes to a guest register.
proof fn lemma_loaded(
    s: GenState,
    host: Host,
    start: Machine,
    g: Seq<u64>,
    rd: u8,
    kind: LoadKind,
    value: u64,
)
    requires
        s.agrees(host, start, g, None),
        s.idle(),
        0 < rd < 32,
        s.machine(host, start).regs[5] == value,
        kind.spec_width().holds(value),
    ensures
        ({
            let loaded = s.host(X86Reg::RAX).load_extended(kind).release(X86Reg::RAX);
            let dst = loaded.host_of(rd);
            let u = loaded.guest(rd, GuestAccess::WriteOnly).mov_if_needed(
                dst,
                X86Reg::RAX,
            ).release(dst);
            &&& u.agrees(host, start, g.update(rd as int, extended_value(kind, value)), None)
            &&& u.idle()
            &&& agreement::only_regs(s.machine(host, start).cpu, u.machine(host, start).cpu)
        }),
{
    let r = X86Reg::RAX;
    let a = s.host(r);
    agreement::lemma_host(s, host, start, g, r);
    agreement::lemma_running(a, host, start, g, None);
    lemma_load_extended(a, host, start, kind);
    let b = a.load_extended(kind);
    let v = extended_value(kind, value);
    agreement::lemma_write_free(a, b, host, start, g, None, 5, v);
    agreement::lemma_release(b, host, start, g, r);
    let c = b.release(r);
    let dst = c.host_of(rd);
    let d = c.guest(rd, GuestAccess::WriteOnly);
    agreement::lemma_guest(c, host, start, g, rd, GuestAccess::WriteOnly);
    agreement::lemma_running(d, host, start, g, Some(rd));
    effects::lemma_mov_if_needed(d, host, start, dst, r);
    let e = d.mov_if_needed(dst, r);
    agreement::lemma_write(d, e, host, start, g, Some(rd), reg_assign::row_of(dst), rd, v);
    agreement::lemma_release(e, host, start, g.update(rd as int, v), dst);
}

/// `rd = memory at rs1 + imm`
pub(super) proof fn lemma_load(
    s: GenState,
    host: Host,
    start: Machine,
    g: Seq<u64>,
    rd: u8,
    rs1: u8,
    imm: u64,
    kind: LoadKind,
    context: JitInfo,
)
    requires
        s.agrees(host, start, g, None),
        s.idle(),
        rd < 32,
        rs1 < 32,
        utils::is_word(imm),
        calls::helpers_differ(host.around.helpers),
    ensures
        ({
            let u = s.load(host.around, rd, rs1, imm, kind, context);
            let n = u.machine(host, start);
            let addr = address_of(g, rs1, imm);
            let (cpu, r) = hart(s, host, start, g).data_read(addr, kind.spec_width());
            match r {
                Ok(value) => {
                    &&& u.agrees(
                        host,
                        start,
                        if rd == 0 {
                            g
                        } else {
                            g.update(rd as int, extended_value(kind, value))
                        },
                        None,
                    )
                    &&& u.idle()
                    &&& agreement::only_regs(cpu, n.cpu)
                },
                Err(exception) => {
                    &&& n.left == Some(
                        Exit {
                            guest_pc: context.instr_pc,
                            icount: context.instr_cnt,
                            exception,
                            tval: addr,
                        },
                    )
                    &&& n.cpu == cpu
                },
            }
        }),
{
    lemma_load_call(s, host, start, g, rs1, imm, kind, context);
    let called = s.load_call(host.around, rs1, imm, kind, context);
    let addr = address_of(g, rs1, imm);
    let before = hart(s, host, start, g);
    lemma_read_width(before, addr, kind.spec_width());
    if rd != 0 {
        match before.data_read(addr, kind.spec_width()).1 {
            Ok(value) => {
                lemma_loaded(called, host, start, g, rd, kind, value);
            },
            Err(_) => {
                let r = X86Reg::RAX;
                let a = called.host(r);
                let b = a.load_extended(kind);
                let c = b.release(r);
                let dst = c.host_of(rd);
                let d = c.guest(rd, GuestAccess::WriteOnly);
                let e = d.mov_if_needed(dst, r);
                calls::lemma_adds(called, rd, GuestAccess::WriteOnly, r);
                calls::lemma_adds(b, rd, GuestAccess::WriteOnly, r);
                calls::lemma_adds(c, rd, GuestAccess::WriteOnly, r);
                calls::lemma_adds(e, rd, GuestAccess::WriteOnly, dst);
                assert(a.code.is_prefix_of(b.code));
                assert(d.code.is_prefix_of(e.code));
                calls::lemma_left_by(called, e.release(dst), host, start);
            },
        }
    }
}

/// `memory at rs1 + imm = rs2`
pub(super) proof fn lemma_store(
    s: GenState,
    host: Host,
    start: Machine,
    g: Seq<u64>,
    rs1: u8,
    rs2: u8,
    imm: u64,
    kind: StoreKind,
    context: JitInfo,
)
    requires
        s.agrees(host, start, g, None),
        s.idle(),
        rs1 < 32,
        rs2 < 32,
        utils::is_word(imm),
        calls::helpers_differ(host.around.helpers),
    ensures
        ({
            let u = s.store(host.around, rs1, rs2, imm, kind, context);
            let n = u.machine(host, start);
            let addr = address_of(g, rs1, imm);
            let w = kind.spec_width();
            let (cpu, r) = hart(s, host, start, g).data_written(
                addr,
                w,
                w.wrap(g[rs2 as int] as int),
            );
            match r {
                Ok(_) => {
                    &&& u.agrees(host, start, g, None)
                    &&& u.idle()
                    &&& n.cpu == cpu
                },
                Err(exception) => {
                    &&& n.left == Some(
                        Exit {
                            guest_pc: context.instr_pc,
                            icount: context.instr_cnt,
                            exception,
                            tval: addr,
                        },
                    )
                    &&& n.cpu == cpu
                },
            }
        }),
{
    let addr = reg_assign::scratch_host(s.table);
    let base = s.scratch().host_of(rs1);
    lemma_address(s, host, start, g, rs1, imm);
    let a = s.address(rs1, imm);
    let value = a.host_of(rs2);
    let b = a.guest(rs2, GuestAccess::ReadOnly);
    agreement::lemma_guest(a, host, start, g, rs2, GuestAccess::ReadOnly);
    agreement::lemma_held(b, host, start, g, None, reg_assign::row_of(value), rs2);
    agreement::lemma_release(b, host, start, g, value);
    agreement::lemma_release(b.release(value), host, start, g, base);
    agreement::lemma_release(b.release(value).release(base), host, start, g, addr);
    let b3 = b.release(value).release(base).release(addr);
    calls::lemma_ready(b3, host, start, g);
    let c = b3.flush().flush_for_call();
    agreement::lemma_running(c, host, start, g, None);
    let args = seq![
        CallArg::Reg(CPU_REG),
        CallArg::Reg(addr),
        CallArg::Reg(value),
        CallArg::Imm(host.around.jit_context),
        CallArg::Imm(context.instr_pc),
        CallArg::Imm(context.instr_cnt),
    ];
    let target = kind.helper_in(host.around.helpers);
    calls::lemma_call(c, host, start, target, args);
    let m = c.machine(host, start);
    let at = calls::at_call(m, args, target);
    lemma_store_called(host, at, kind);
    assert(at.reg(X86Reg::RSI) == address_of(g, rs1, imm));
    assert(at.reg(X86Reg::RDX) == g[rs2 as int]);
    assert(m.cpu == hart(s, host, start, g));
    let u = c.call(target, args);
    let w = kind.spec_width();
    let (cpu, r) = m.cpu.data_written(
        address_of(g, rs1, imm),
        w,
        w.wrap(g[rs2 as int] as int),
    );
    if r is Ok {
        calls::lemma_returned(
            c,
            u,
            host,
            start,
            g,
            args,
            target,
            cpu,
            (host.lost)(at)[5],
        );
    }
}

} // verus!
