//! That the code of an operation computes what the operation computes.
use vstd::prelude::*;

use crate::isa::riscv::instruction::alu;
use crate::jit::backend::x86::code::HostInstr;
use crate::jit::backend::x86::{AluOp, OperandSize, RegMem, ShiftOp, X86Reg};
use crate::jit::machine;
use crate::jit::machine::{Host, Machine};
use crate::utils;
use crate::utils::Width;

use super::agreement;
use super::reg_assign;
use super::reg_assign::GuestAccess;
use super::{GenState, OperandWidth};

verus! {

/// `rd = rs1 op rs2`, where `rd` is another register.
pub(super) proof fn lemma_alu_apart(
    s: GenState,
    host: Host,
    start: Machine,
    g: Seq<u64>,
    rd: u8,
    rs1: u8,
    rs2: u8,
    op: AluOp,
    width: OperandWidth,
)
    requires
        s.agrees(host, start, g, None),
        s.idle(),
        agreement::op_ok(op, width),
        rd < 32,
        rs1 < 32,
        rs2 < 32,
        rd != rs1,
        rd != rs2,
    ensures
        ({
            let u = s.alu_apart(rd, rs1, rs2, op, width);
            &&& u.idle()
            &&& agreement::carries(
                s,
                u,
                host,
                start,
                g,
                g.update(
                    rd as int,
                    agreement::computed(machine::alu_fn(op), width, g[rs1 as int], g[rs2 as int]),
                ),
            )
        }),
{
    let a = s.guest(rs1, GuestAccess::ReadOnly);
    let b = a.guest(rs2, GuestAccess::ReadOnly);
    let c = b.guest(rd, GuestAccess::WriteOnly);
    let first = s.host_of(rs1);
    let second = a.host_of(rs2);
    let dst = b.host_of(rd);
    agreement::lemma_guest(s, host, start, g, rs1, GuestAccess::ReadOnly);
    agreement::lemma_guest(a, host, start, g, rs2, GuestAccess::ReadOnly);
    agreement::lemma_guest(b, host, start, g, rd, GuestAccess::WriteOnly);
    let i1 = reg_assign::row_of(first);
    let i2 = reg_assign::row_of(second);
    let i3 = reg_assign::row_of(dst);
    agreement::lemma_held(c, host, start, g, Some(rd), i1, rs1);
    agreement::lemma_held(c, host, start, g, Some(rd), i2, rs2);
    let d = c.mov(dst, first);
    let n = c.machine(host, start);
    agreement::lemma_emit(
        c,
        host,
        start,
        HostInstr::MovStore { size: OperandSize::Qword, dst: RegMem::Reg(dst), src: first },
    );
    agreement::lemma_step_mov(host, n, dst, first);
    agreement::lemma_write_free(c, d, host, start, g, Some(rd), i3, g[rs1 as int]);
    agreement::lemma_alu(d, host, start, op, dst, second, width);
    let e = d.alu(op, dst, second, width);
    let value = agreement::computed(machine::alu_fn(op), width, g[rs1 as int], g[rs2 as int]);
    agreement::lemma_write(d, e, host, start, g, Some(rd), i3, rd, value);
    let h = g.update(rd as int, value);
    agreement::lemma_release(e, host, start, h, dst);
    agreement::lemma_release(e.release(dst), host, start, h, second);
    agreement::lemma_release(e.release(dst).release(second), host, start, h, first);
}

/// `rd = rd op rs`
pub(super) proof fn lemma_alu_in_place(
    s: GenState,
    host: Host,
    start: Machine,
    g: Seq<u64>,
    rd: u8,
    rs: u8,
    op: AluOp,
    width: OperandWidth,
)
    requires
        s.agrees(host, start, g, None),
        s.idle(),
        agreement::op_ok(op, width),
        rd < 32,
        rs < 32,
    ensures
        ({
            let u = s.alu_in_place(rd, rs, op, width);
            &&& u.idle()
            &&& agreement::carries(
                s,
                u,
                host,
                start,
                g,
                g.update(
                    rd as int,
                    agreement::computed(machine::alu_fn(op), width, g[rd as int], g[rs as int]),
                ),
            )
        }),
{
    let a = s.guest(rs, GuestAccess::ReadOnly);
    let b = a.guest(rd, GuestAccess::ReadWrite);
    let src = s.host_of(rs);
    let dst = a.host_of(rd);
    agreement::lemma_guest(s, host, start, g, rs, GuestAccess::ReadOnly);
    agreement::lemma_guest(a, host, start, g, rd, GuestAccess::ReadWrite);
    let i1 = reg_assign::row_of(src);
    let i2 = reg_assign::row_of(dst);
    agreement::lemma_held(b, host, start, g, None, i1, rs);
    agreement::lemma_held(b, host, start, g, None, i2, rd);
    agreement::lemma_alu(b, host, start, op, dst, src, width);
    let e = b.alu(op, dst, src, width);
    let value = agreement::computed(machine::alu_fn(op), width, g[rd as int], g[rs as int]);
    agreement::lemma_write(b, e, host, start, g, None, i2, rd, value);
    let h = g.update(rd as int, value);
    agreement::lemma_release(e, host, start, h, dst);
    agreement::lemma_release(e.release(dst), host, start, h, src);
}

/// `rd = rs op rd`
pub(super) proof fn lemma_alu_through_scratch(
    s: GenState,
    host: Host,
    start: Machine,
    g: Seq<u64>,
    rd: u8,
    rs: u8,
    op: AluOp,
    width: OperandWidth,
)
    requires
        s.agrees(host, start, g, None),
        s.idle(),
        agreement::op_ok(op, width),
        rd < 32,
        rs < 32,
        rd != rs,
    ensures
        ({
            let u = s.alu_through_scratch(rd, rs, op, width);
            &&& u.idle()
            &&& agreement::carries(
                s,
                u,
                host,
                start,
                g,
                g.update(
                    rd as int,
                    agreement::computed(machine::alu_fn(op), width, g[rs as int], g[rd as int]),
                ),
            )
        }),
{
    let a = s.guest(rs, GuestAccess::ReadOnly);
    let b = a.guest(rd, GuestAccess::ReadWrite);
    let c = b.scratch();
    let src = s.host_of(rs);
    let dst = a.host_of(rd);
    let tmp = reg_assign::scratch_host(b.table);
    agreement::lemma_guest(s, host, start, g, rs, GuestAccess::ReadOnly);
    agreement::lemma_guest(a, host, start, g, rd, GuestAccess::ReadWrite);
    agreement::lemma_scratch(b, host, start, g);
    let i1 = reg_assign::row_of(src);
    let i2 = reg_assign::row_of(dst);
    let i3 = reg_assign::row_of(tmp);
    agreement::lemma_held(c, host, start, g, None, i1, rs);
    agreement::lemma_held(c, host, start, g, None, i2, rd);
    let d = c.mov(tmp, src);
    agreement::lemma_emit(
        c,
        host,
        start,
        HostInstr::MovStore { size: OperandSize::Qword, dst: RegMem::Reg(tmp), src },
    );
    agreement::lemma_step_mov(host, c.machine(host, start), tmp, src);
    agreement::lemma_write_free(c, d, host, start, g, None, i3, g[rs as int]);
    agreement::lemma_alu(d, host, start, op, tmp, dst, width);
    let e = d.alu(op, tmp, dst, width);
    let value = agreement::computed(machine::alu_fn(op), width, g[rs as int], g[rd as int]);
    agreement::lemma_write_free(d, e, host, start, g, None, i3, value);
    agreement::lemma_held(e, host, start, g, None, i2, rd);
    let f = e.mov(dst, tmp);
    agreement::lemma_emit(
        e,
        host,
        start,
        HostInstr::MovStore { size: OperandSize::Qword, dst: RegMem::Reg(dst), src: tmp },
    );
    agreement::lemma_step_mov(host, e.machine(host, start), dst, tmp);
    agreement::lemma_write(e, f, host, start, g, None, i2, rd, value);
    let h = g.update(rd as int, value);
    agreement::lemma_release(f, host, start, h, tmp);
    agreement::lemma_release(f.release(tmp), host, start, h, dst);
    agreement::lemma_release(f.release(tmp).release(dst), host, start, h, src);
}

/// Whether the operands of an operation can change places.
pub(super) proof fn lemma_commutes(op: AluOp, width: OperandWidth, a: u64, b: u64)
    requires
        agreement::op_ok(op, width),
        op != AluOp::Sub,
    ensures
        agreement::computed(machine::alu_fn(op), width, a, b) == agreement::computed(
            machine::alu_fn(op),
            width,
            b,
            a,
        ),
{
    assert(a & b == b & a && a | b == b | a && a ^ b == b ^ a) by (bit_vector);
    assert(a + b == b + a);
}

/// `rd = rs1 op rs2`
pub(super) proof fn lemma_alu_r(
    s: GenState,
    host: Host,
    start: Machine,
    g: Seq<u64>,
    rd: u8,
    rs1: u8,
    rs2: u8,
    op: AluOp,
    commutative: bool,
    width: OperandWidth,
)
    requires
        s.agrees(host, start, g, None),
        s.idle(),
        agreement::op_ok(op, width),
        commutative ==> op != AluOp::Sub,
        0 < rd < 32,
        rs1 < 32,
        rs2 < 32,
    ensures
        ({
            let u = s.alu_r(rd, rs1, rs2, op, commutative, width);
            &&& u.idle()
            &&& agreement::carries(
                s,
                u,
                host,
                start,
                g,
                g.update(
                    rd as int,
                    agreement::computed(machine::alu_fn(op), width, g[rs1 as int], g[rs2 as int]),
                ),
            )
        }),
{
    if rd == rs1 {
        lemma_alu_in_place(s, host, start, g, rd, rs2, op, width);
    } else if commutative && rd == rs2 {
        lemma_commutes(op, width, g[rs1 as int], g[rs2 as int]);
        lemma_alu_in_place(s, host, start, g, rd, rs1, op, width);
    } else if rd == rs2 {
        lemma_alu_through_scratch(s, host, start, g, rd, rs1, op, width);
    } else {
        lemma_alu_apart(s, host, start, g, rd, rs1, rs2, op, width);
    }
}

/// The low 32 bits of an immediate are sign-extended again.
pub(super) proof fn lemma_word(imm: u64)
    requires
        utils::is_word(imm),
    ensures
        imm == utils::widened(Width::W32, super::low32(imm) as u64),
{
    let low = super::low32(imm) as int;
    assert(low == imm as int % 0x1_0000_0000);
}

proof fn lemma_low32(imm: u64)
    ensures
        Width::W32.wrap(utils::widened(Width::W32, super::low32(imm) as u64) as int)
            == Width::W32.wrap(imm as int),
{
    let low = super::low32(imm) as int;
    assert(low == imm as int % 0x1_0000_0000);
    let w = utils::widened(Width::W32, low as u64);
    if low >= 0x8000_0000 {
        assert(w == low - 0x1_0000_0000 + 0x1_0000_0000_0000_0000);
        assert((low - 0x1_0000_0000 + 0x1_0000_0000_0000_0000) % 0x1_0000_0000 == low);
    } else {
        assert(w == low);
    }
}

proof fn lemma_step_alu_imm(
    host: Host,
    m: Machine,
    op: AluOp,
    dst: X86Reg,
    imm: u32,
    width: OperandWidth,
)
    requires
        m.left is None,
        agreement::op_ok(op, width),
    ensures
        ({
            let w = machine::width_of(width.spec_size());
            m.stepped(
                host,
                HostInstr::AluImm { size: width.spec_size(), op, dst: RegMem::Reg(dst), imm },
            ) == m.with(
                dst,
                alu::alu(
                    machine::alu_fn(op),
                    w,
                    w.wrap(m.reg(dst) as int),
                    w.wrap(utils::widened(Width::W32, imm as u64) as int),
                ),
            ).flags_lost()
        }),
{
    reveal(Machine::stepped);
    reveal(Machine::alu);
}

/// The low word of a host register is sign-extended after an operation on words.
proof fn lemma_extended(
    s: GenState,
    u: GenState,
    host: Host,
    start: Machine,
    dst: X86Reg,
    width: OperandWidth,
    v: u64,
)
    requires
        s.machine(host, start).left is None,
        s.machine(host, start).regs.len() == 16,
        u.machine(host, start) == s.machine(host, start).with(dst, v).flags_lost(),
        u.table == s.table,
        width == OperandWidth::Word ==> v < 0x1_0000_0000,
    ensures
        u.extended(dst, width).table == s.table,
        agreement::same_but(
            s.machine(host, start),
            u.extended(dst, width).machine(host, start),
            reg_assign::row_of(dst),
            if width == OperandWidth::Word {
                utils::widened(Width::W32, v)
            } else {
                v
            },
        ),
{
    let m = s.machine(host, start);
    match width {
        OperandWidth::Xlen => {
            agreement::lemma_with_with(m, dst, 0, v);
        },
        OperandWidth::Word => {
            agreement::lemma_wrapped_twice(Width::W32, v);
            agreement::lemma_emit(
                u,
                host,
                start,
                HostInstr::MovSxd { dst, src: RegMem::Reg(dst) },
            );
            agreement::lemma_step_sext(host, u.machine(host, start), dst);
            agreement::lemma_with_with(m, dst, v, utils::widened(Width::W32, v));
        },
    }
}

/// An operation on a host register and an immediate.
pub(super) proof fn lemma_alu_imm(
    s: GenState,
    host: Host,
    start: Machine,
    op: AluOp,
    dst: X86Reg,
    imm: u64,
    width: OperandWidth,
)
    requires
        s.machine(host, start).left is None,
        s.machine(host, start).regs.len() == 16,
        agreement::op_ok(op, width),
        utils::is_word(imm),
    ensures
        ({
            let m = s.machine(host, start);
            let u = s.alu_imm(op, dst, super::low32(imm), width);
            &&& agreement::same_but(
                m,
                u.machine(host, start),
                reg_assign::row_of(dst),
                agreement::computed(machine::alu_fn(op), width, m.reg(dst), imm),
            )
            &&& u.table == s.table
        }),
{
    let m = s.machine(host, start);
    let low = super::low32(imm);
    let i = HostInstr::AluImm { size: width.spec_size(), op, dst: RegMem::Reg(dst), imm: low };
    agreement::lemma_emit(s, host, start, i);
    lemma_step_alu_imm(host, m, op, dst, low, width);
    agreement::lemma_wrap_same(m.reg(dst));
    agreement::lemma_wrap_same(imm);
    lemma_word(imm);
    lemma_low32(imm);
    let w = machine::width_of(width.spec_size());
    let v = alu::alu(
        machine::alu_fn(op),
        w,
        w.wrap(m.reg(dst) as int),
        w.wrap(utils::widened(Width::W32, low as u64) as int),
    );
    agreement::lemma_wrapped_twice(w, v);
    lemma_extended(s, s.emit(i), host, start, dst, width, v);
}

proof fn lemma_step_shift(
    host: Host,
    m: Machine,
    shift: ShiftOp,
    dst: X86Reg,
    imm: u8,
    width: OperandWidth,
)
    requires
        m.left is None,
    ensures
        ({
            let w = machine::width_of(width.spec_size());
            let a = w.wrap(m.reg(dst) as int);
            let count = Width::W8.wrap(m.reg(X86Reg::RCX) as int);
            &&& m.stepped(
                host,
                HostInstr::ShiftCl { size: width.spec_size(), shift, dst: RegMem::Reg(dst) },
            ) == m.with(dst, alu::alu(machine::shift_fn(shift), w, a, count)).flags_lost()
            &&& m.stepped(
                host,
                HostInstr::ShiftImm { size: width.spec_size(), shift, dst: RegMem::Reg(dst), imm },
            ) == m.with(dst, alu::alu(machine::shift_fn(shift), w, a, imm as u64)).flags_lost()
        }),
{
    reveal(Machine::stepped);
    reveal(Machine::shifted);
}

proof fn lemma_distances(b: u64)
    ensures
        alu::shift_distance(Width::W64, (b % 0x100) as u64) == alu::shift_distance(Width::W64, b),
        alu::shift_distance(Width::W32, (b % 0x100) as u64) == alu::shift_distance(
            Width::W32,
            Width::W32.wrap(b as int),
        ),
{
    vstd::arithmetic::div_mod::lemma_mod_mod(b as int, 64, 4);
    vstd::arithmetic::div_mod::lemma_mod_mod(b as int, 32, 8);
    vstd::arithmetic::div_mod::lemma_mod_mod(b as int, 32, 0x800_0000);
}

proof fn lemma_shift_narrow(shift: ShiftOp, a: u64, b: u64)
    requires
        a < 0x1_0000_0000,
    ensures
        alu::alu(machine::shift_fn(shift), Width::W32, a, b) < 0x1_0000_0000,
{
    let d = alu::shift_distance(Width::W32, b);
    vstd::arithmetic::power2::lemma_pow2_pos(d);
    let p = vstd::arithmetic::power2::pow2(d) as int;
    match shift {
        ShiftOp::SHR => {
            assert(0 <= a as int / p <= a) by (nonlinear_arith)
                requires
                    p > 0,
                    a >= 0,
            ;
        },
        ShiftOp::SHL => {
            agreement::lemma_wrapped_twice(Width::W32, 0);
        },
        ShiftOp::SAR => {
            agreement::lemma_wrapped_twice(Width::W32, 0);
        },
    }
}

/// A shift depends only on its distance.
proof fn lemma_same_shift(shift: ShiftOp, w: Width, a: u64, b: u64, c: u64)
    requires
        alu::shift_distance(w, b) == alu::shift_distance(w, c),
    ensures
        alu::alu(machine::shift_fn(shift), w, a, b) == alu::alu(machine::shift_fn(shift), w, a, c),
{
    match shift {
        ShiftOp::SHR => {},
        ShiftOp::SHL => {},
        ShiftOp::SAR => {},
    }
}

/// A shift by the low bits of a distance.
proof fn lemma_distance(shift: ShiftOp, width: OperandWidth, a: u64, b: u64)
    ensures
        ({
            let w = machine::width_of(width.spec_size());
            let v = alu::alu(
                machine::shift_fn(shift),
                w,
                w.wrap(a as int),
                (b % 0x100) as u64,
            );
            &&& width == OperandWidth::Word ==> v < 0x1_0000_0000
            &&& agreement::computed(machine::shift_fn(shift), width, a, b) == if width
                == OperandWidth::Word {
                utils::widened(Width::W32, v)
            } else {
                v
            }
        }),
{
    lemma_distances(b);
    let low = (b % 0x100) as u64;
    match width {
        OperandWidth::Xlen => {
            agreement::lemma_wrap_same(a);
            lemma_same_shift(shift, Width::W64, a, low, b);
        },
        OperandWidth::Word => {
            let x = Width::W32.wrap(a as int);
            assert(x < 0x1_0000_0000);
            lemma_shift_narrow(shift, x, low);
            lemma_same_shift(shift, Width::W32, x, low, Width::W32.wrap(b as int));
        },
    }
}

/// A move that is left out if it does nothing.
pub(super) proof fn lemma_mov_if_needed(
    s: GenState,
    host: Host,
    start: Machine,
    dst: X86Reg,
    src: X86Reg,
)
    requires
        s.machine(host, start).left is None,
        s.machine(host, start).regs.len() == 16,
    ensures
        ({
            let u = s.mov_if_needed(dst, src);
            &&& agreement::same_but(
                s.machine(host, start),
                u.machine(host, start),
                reg_assign::row_of(dst),
                s.machine(host, start).reg(src),
            )
            &&& u.machine(host, start).compared == s.machine(host, start).compared
            &&& u.table == s.table
        }),
{
    let m = s.machine(host, start);
    if dst != src {
        agreement::lemma_emit(
            s,
            host,
            start,
            HostInstr::MovStore { size: OperandSize::Qword, dst: RegMem::Reg(dst), src },
        );
        agreement::lemma_step_mov(host, m, dst, src);
    } else {
        agreement::lemma_rows(dst, 0);
        assert(m.regs =~= m.regs.update(reg_assign::row_of(dst), m.reg(src)));
    }
}

/// The state in which an operation on one register is done: the host register of `rd` has the
/// value of `rs`.
pub open spec fn copied(s: GenState, rd: u8, rs: u8) -> GenState {
    let a = s.guest(rs, GuestAccess::ReadOnly);
    let b = a.guest(rd, GuestAccess::WriteOnly);
    b.mov_if_needed(a.host_of(rd), s.host_of(rs))
}

/// What is known when an operation on one register is done.
proof fn lemma_copied(s: GenState, host: Host, start: Machine, g: Seq<u64>, rd: u8, rs: u8)
    requires
        s.agrees(host, start, g, None),
        s.idle(),
        rd < 32,
        rs < 32,
    ensures
        ({
            let f = copied(s, rd, rs);
            let i1 = reg_assign::row_of(s.host_of(rs));
            let i2 = reg_assign::row_of(s.guest(rs, GuestAccess::ReadOnly).host_of(rd));
            &&& f.agrees(host, start, g, Some(rd))
            &&& 0 <= i1 < 8
            &&& 0 <= i2 < 8
            &&& f.machine(host, start).left is None
            &&& f.machine(host, start).regs.len() == 16
            &&& f.machine(host, start).regs[i2] == g[rs as int]
            &&& f.table[i2].guest == Some(rd)
            &&& f.table[i2].dirty
            &&& forall|j: int|
                0 <= j < 16 ==> (#[trigger] f.table[j]).refcount == (if j == i1 {
                    1int
                } else {
                    0
                }) + (if j == i2 {
                    1int
                } else {
                    0
                })
            &&& agreement::only_regs(s.machine(host, start).cpu, f.machine(host, start).cpu)
        }),
{
    let a = s.guest(rs, GuestAccess::ReadOnly);
    let b = a.guest(rd, GuestAccess::WriteOnly);
    let src = s.host_of(rs);
    let dst = a.host_of(rd);
    agreement::lemma_guest(s, host, start, g, rs, GuestAccess::ReadOnly);
    agreement::lemma_guest(a, host, start, g, rd, GuestAccess::WriteOnly);
    let i1 = reg_assign::row_of(src);
    let i2 = reg_assign::row_of(dst);
    agreement::lemma_held(a, host, start, g, None, i1, rs);
    agreement::lemma_running(b, host, start, g, Some(rd));
    lemma_mov_if_needed(b, host, start, dst, src);
    let f = b.mov_if_needed(dst, src);
    agreement::lemma_write_free(b, f, host, start, g, Some(rd), i2, g[rs as int]);
}

/// The end of an operation on one register.
proof fn lemma_written(
    s: GenState,
    f: GenState,
    u: GenState,
    host: Host,
    start: Machine,
    g: Seq<u64>,
    rd: u8,
    rs: u8,
    value: u64,
)
    requires
        s.agrees(host, start, g, None),
        s.idle(),
        rd < 32,
        rs < 32,
        f == copied(s, rd, rs),
        u.table == f.table,
        agreement::same_but(
            f.machine(host, start),
            u.machine(host, start),
            reg_assign::row_of(s.guest(rs, GuestAccess::ReadOnly).host_of(rd)),
            value,
        ),
    ensures
        ({
            let end = u.release(s.guest(rs, GuestAccess::ReadOnly).host_of(rd)).release(
                s.host_of(rs),
            );
            &&& end.idle()
            &&& agreement::carries(s, end, host, start, g, g.update(rd as int, value))
        }),
{
    let dst = s.guest(rs, GuestAccess::ReadOnly).host_of(rd);
    let src = s.host_of(rs);
    lemma_copied(s, host, start, g, rd, rs);
    let h = g.update(rd as int, value);
    agreement::lemma_write(
        f,
        u,
        host,
        start,
        g,
        Some(rd),
        reg_assign::row_of(dst),
        rd,
        value,
    );
    agreement::lemma_release(u, host, start, h, dst);
    agreement::lemma_release(u.release(dst), host, start, h, src);
}

/// `rd = rs1 op imm`
pub(super) proof fn lemma_alu_i(
    s: GenState,
    host: Host,
    start: Machine,
    g: Seq<u64>,
    rd: u8,
    rs1: u8,
    imm: u64,
    op: AluOp,
    width: OperandWidth,
)
    requires
        s.agrees(host, start, g, None),
        s.idle(),
        agreement::op_ok(op, width),
        utils::is_word(imm),
        0 < rd < 32,
        rs1 < 32,
    ensures
        ({
            let u = s.alu_i(rd, rs1, imm, op, width);
            &&& u.idle()
            &&& agreement::carries(
                s,
                u,
                host,
                start,
                g,
                g.update(
                    rd as int,
                    agreement::computed(machine::alu_fn(op), width, g[rs1 as int], imm),
                ),
            )
        }),
{
    let f = copied(s, rd, rs1);
    let dst = s.guest(rs1, GuestAccess::ReadOnly).host_of(rd);
    lemma_copied(s, host, start, g, rd, rs1);
    lemma_alu_imm(f, host, start, op, dst, imm, width);
    lemma_written(
        s,
        f,
        f.alu_imm(op, dst, super::low32(imm), width),
        host,
        start,
        g,
        rd,
        rs1,
        agreement::computed(machine::alu_fn(op), width, g[rs1 as int], imm),
    );
}

/// `rd = rs1 shifted by imm`
pub(super) proof fn lemma_shift_i(
    s: GenState,
    host: Host,
    start: Machine,
    g: Seq<u64>,
    rd: u8,
    rs1: u8,
    imm: u64,
    shift: ShiftOp,
    width: OperandWidth,
)
    requires
        s.agrees(host, start, g, None),
        s.idle(),
        0 < rd < 32,
        rs1 < 32,
    ensures
        ({
            let u = s.shift_i(rd, rs1, imm, shift, width);
            &&& u.idle()
            &&& agreement::carries(
                s,
                u,
                host,
                start,
                g,
                g.update(
                    rd as int,
                    agreement::computed(machine::shift_fn(shift), width, g[rs1 as int], imm),
                ),
            )
        }),
{
    let f = copied(s, rd, rs1);
    let dst = s.guest(rs1, GuestAccess::ReadOnly).host_of(rd);
    lemma_copied(s, host, start, g, rd, rs1);
    let count = (imm % 0x100) as u8;
    let i = HostInstr::ShiftImm {
        size: width.spec_size(),
        shift,
        dst: RegMem::Reg(dst),
        imm: count,
    };
    agreement::lemma_emit(f, host, start, i);
    lemma_step_shift(host, f.machine(host, start), shift, dst, count, width);
    lemma_distance(shift, width, g[rs1 as int], imm);
    let w = machine::width_of(width.spec_size());
    let v = alu::alu(machine::shift_fn(shift), w, w.wrap(g[rs1 as int] as int), count as u64);
    lemma_extended(f, f.emit(i), host, start, dst, width, v);
    lemma_written(
        s,
        f,
        f.emit(i).extended(dst, width),
        host,
        start,
        g,
        rd,
        rs1,
        agreement::computed(machine::shift_fn(shift), width, g[rs1 as int], imm),
    );
}

/// `rd = rs`
pub(super) proof fn lemma_move_reg(
    s: GenState,
    host: Host,
    start: Machine,
    g: Seq<u64>,
    rd: u8,
    rs: u8,
)
    requires
        s.agrees(host, start, g, None),
        s.idle(),
        0 < rd < 32,
        rs < 32,
    ensures
        s.move_reg(rd, rs).idle(),
        agreement::carries(
            s,
            s.move_reg(rd, rs),
            host,
            start,
            g,
            g.update(rd as int, g[rs as int]),
        ),
{
    let f = copied(s, rd, rs);
    lemma_copied(s, host, start, g, rd, rs);
    let i = reg_assign::row_of(s.guest(rs, GuestAccess::ReadOnly).host_of(rd));
    assert(f.machine(host, start).regs =~= f.machine(host, start).regs.update(i, g[rs as int]));
    lemma_written(s, f, f, host, start, g, rd, rs, g[rs as int]);
}

/// `rd = value`
pub(super) proof fn lemma_load_imm(
    s: GenState,
    host: Host,
    start: Machine,
    g: Seq<u64>,
    rd: u8,
    value: u64,
)
    requires
        s.agrees(host, start, g, None),
        s.roomy(),
        0 < rd < 32,
    ensures
        ({
            let u = s.load_imm(rd, value);
            &&& agreement::carries(s, u, host, start, g, g.update(rd as int, value))
            &&& forall|j: int|
                0 <= j < 16 ==> (#[trigger] u.table[j]).refcount == s.table[j].refcount
            &&& forall|j: int|
                0 <= j < 16 && s.table[j].refcount > 0 && s.table[j].guest is None
                    ==> #[trigger] u.machine(host, start).regs[j] == s.machine(host, start).regs[j]
                    && u.table[j].guest is None
        }),
{
    let dst = s.host_of(rd);
    let a = s.guest(rd, GuestAccess::WriteOnly);
    agreement::lemma_guest(s, host, start, g, rd, GuestAccess::WriteOnly);
    agreement::lemma_running(a, host, start, g, Some(rd));
    let i = HostInstr::MovImm { dst, imm: value };
    let b = a.emit(i);
    agreement::lemma_emit(a, host, start, i);
    lemma_step_imm(host, a.machine(host, start), dst, value);
    agreement::lemma_write(a, b, host, start, g, Some(rd), reg_assign::row_of(dst), rd, value);
    agreement::lemma_release(b, host, start, g.update(rd as int, value), dst);
}

pub(super) proof fn lemma_step_imm(host: Host, m: Machine, dst: X86Reg, imm: u64)
    requires
        m.left is None,
    ensures
        m.stepped(host, HostInstr::MovImm { dst, imm }) == m.with(dst, imm),
{
    reveal(Machine::stepped);
}

/// The state in which a shift by a register is done: the distance is in `RCX`, and the host
/// register of `rd` has the value of `rs1`.
pub open spec fn shift_ready(s: GenState, rd: u8, rs1: u8, rs2: u8) -> GenState {
    let a = s.guest(rs1, GuestAccess::ReadOnly);
    let b = a.guest(rs2, GuestAccess::ReadOnly);
    let c = b.host(X86Reg::RCX).mov_from(X86Reg::RCX, a.host_of(rs2));
    c.guest(rd, GuestAccess::WriteOnly).mov_if_needed(c.host_of(rd), s.host_of(rs1))
}

/// What is known before the operands of a shift are copied.
proof fn lemma_shift_distance(
    s: GenState,
    host: Host,
    start: Machine,
    g: Seq<u64>,
    rs1: u8,
    rs2: u8,
)
    requires
        s.agrees(host, start, g, None),
        s.idle(),
        rs1 < 32,
        rs2 < 32,
    ensures
        ({
            let a = s.guest(rs1, GuestAccess::ReadOnly);
            let b = a.guest(rs2, GuestAccess::ReadOnly);
            let c = b.host(X86Reg::RCX).mov_from(X86Reg::RCX, a.host_of(rs2));
            let i1 = reg_assign::row_of(s.host_of(rs1));
            let i2 = reg_assign::row_of(a.host_of(rs2));
            &&& c.agrees(host, start, g, None)
            &&& 0 <= i1 < 8
            &&& 0 <= i2 < 8
            &&& c.machine(host, start).regs[11] == g[rs2 as int]
            &&& c.machine(host, start).regs[i1] == g[rs1 as int]
            &&& c.table[i1].guest == Some(rs1)
            &&& c.table[i2].guest == Some(rs2)
            &&& c.table[11].guest is None
            &&& forall|j: int|
                0 <= j < 16 ==> (#[trigger] c.table[j]).refcount == counted(j, i1) + counted(j, i2)
                    + counted(j, 11)
            &&& agreement::only_regs(s.machine(host, start).cpu, c.machine(host, start).cpu)
        }),
{
    let a = s.guest(rs1, GuestAccess::ReadOnly);
    let b = a.guest(rs2, GuestAccess::ReadOnly);
    let src = s.host_of(rs1);
    let count = a.host_of(rs2);
    agreement::lemma_guest(s, host, start, g, rs1, GuestAccess::ReadOnly);
    agreement::lemma_guest(a, host, start, g, rs2, GuestAccess::ReadOnly);
    let i1 = reg_assign::row_of(src);
    let i2 = reg_assign::row_of(count);
    let b2 = b.host(X86Reg::RCX);
    agreement::lemma_host(b, host, start, g, X86Reg::RCX);
    agreement::lemma_held(b2, host, start, g, None, i1, rs1);
    agreement::lemma_held(b2, host, start, g, None, i2, rs2);
    let c = b2.mov_from(X86Reg::RCX, count);
    agreement::lemma_emit(
        b2,
        host,
        start,
        HostInstr::MovLoad {
            size: OperandSize::Qword,
            dst: X86Reg::RCX,
            src: RegMem::Reg(count),
        },
    );
    agreement::lemma_step_mov(host, b2.machine(host, start), X86Reg::RCX, count);
    agreement::lemma_write_free(b2, c, host, start, g, None, 11, g[rs2 as int]);
}

/// One for a row that is taken, and zero for another one.
pub open spec fn counted(j: int, i: int) -> int {
    if j == i {
        1
    } else {
        0
    }
}

/// What is known when a shift by a register is done.
proof fn lemma_shift_ready(
    s: GenState,
    host: Host,
    start: Machine,
    g: Seq<u64>,
    rd: u8,
    rs1: u8,
    rs2: u8,
)
    requires
        s.agrees(host, start, g, None),
        s.idle(),
        rd < 32,
        rs1 < 32,
        rs2 < 32,
    ensures
        ({
            let a = s.guest(rs1, GuestAccess::ReadOnly);
            let b = a.guest(rs2, GuestAccess::ReadOnly);
            let c = b.host(X86Reg::RCX).mov_from(X86Reg::RCX, a.host_of(rs2));
            let e = shift_ready(s, rd, rs1, rs2);
            let i1 = reg_assign::row_of(s.host_of(rs1));
            let i2 = reg_assign::row_of(a.host_of(rs2));
            let i3 = reg_assign::row_of(c.host_of(rd));
            &&& e.agrees(host, start, g, Some(rd))
            &&& 0 <= i1 < 8
            &&& 0 <= i2 < 8
            &&& 0 <= i3 < 8
            &&& e.machine(host, start).regs[11] == g[rs2 as int]
            &&& e.machine(host, start).regs[i3] == g[rs1 as int]
            &&& e.machine(host, start).left is None
            &&& e.machine(host, start).regs.len() == 16
            &&& e.table[i3].guest == Some(rd)
            &&& e.table[i3].dirty
            &&& forall|j: int|
                0 <= j < 16 ==> (#[trigger] e.table[j]).refcount == counted(j, i1) + counted(j, i2)
                    + counted(j, i3) + counted(j, 11)
            &&& agreement::only_regs(s.machine(host, start).cpu, e.machine(host, start).cpu)
        }),
{
    let a = s.guest(rs1, GuestAccess::ReadOnly);
    let b = a.guest(rs2, GuestAccess::ReadOnly);
    let src = s.host_of(rs1);
    let count = a.host_of(rs2);
    let c = b.host(X86Reg::RCX).mov_from(X86Reg::RCX, count);
    lemma_shift_distance(s, host, start, g, rs1, rs2);
    let d = c.guest(rd, GuestAccess::WriteOnly);
    let dst = c.host_of(rd);
    agreement::lemma_guest(c, host, start, g, rd, GuestAccess::WriteOnly);
    let i1 = reg_assign::row_of(src);
    let i3 = reg_assign::row_of(dst);
    agreement::lemma_running(d, host, start, g, Some(rd));
    assert(d.machine(host, start).regs[11] == g[rs2 as int]);
    assert(d.machine(host, start).regs[i1] == g[rs1 as int]);
    lemma_mov_if_needed(d, host, start, dst, src);
    let e = d.mov_if_needed(dst, src);
    agreement::lemma_write_free(d, e, host, start, g, Some(rd), i3, g[rs1 as int]);
}

/// `rd = rs1 shifted by rs2`
pub(super) proof fn lemma_shift_r(
    s: GenState,
    host: Host,
    start: Machine,
    g: Seq<u64>,
    rd: u8,
    rs1: u8,
    rs2: u8,
    shift: ShiftOp,
    width: OperandWidth,
)
    requires
        s.agrees(host, start, g, None),
        s.idle(),
        0 < rd < 32,
        rs1 < 32,
        rs2 < 32,
    ensures
        ({
            let u = s.shift_r(rd, rs1, rs2, shift, width);
            &&& u.idle()
            &&& agreement::carries(
                s,
                u,
                host,
                start,
                g,
                g.update(
                    rd as int,
                    agreement::computed(
                        machine::shift_fn(shift),
                        width,
                        g[rs1 as int],
                        g[rs2 as int],
                    ),
                ),
            )
        }),
{
    let a = s.guest(rs1, GuestAccess::ReadOnly);
    let b = a.guest(rs2, GuestAccess::ReadOnly);
    let src = s.host_of(rs1);
    let count = a.host_of(rs2);
    let c = b.host(X86Reg::RCX).mov_from(X86Reg::RCX, count);
    let dst = c.host_of(rd);
    let e = shift_ready(s, rd, rs1, rs2);
    lemma_shift_ready(s, host, start, g, rd, rs1, rs2);
    let i = HostInstr::ShiftCl { size: width.spec_size(), shift, dst: RegMem::Reg(dst) };
    agreement::lemma_emit(e, host, start, i);
    lemma_step_shift(host, e.machine(host, start), shift, dst, 0, width);
    lemma_distance(shift, width, g[rs1 as int], g[rs2 as int]);
    let w = machine::width_of(width.spec_size());
    let v = alu::alu(
        machine::shift_fn(shift),
        w,
        w.wrap(g[rs1 as int] as int),
        (g[rs2 as int] % 0x100) as u64,
    );
    lemma_extended(e, e.emit(i), host, start, dst, width, v);
    let f = e.emit(i).extended(dst, width);
    let value = agreement::computed(
        machine::shift_fn(shift),
        width,
        g[rs1 as int],
        g[rs2 as int],
    );
    agreement::lemma_write(e, f, host, start, g, Some(rd), reg_assign::row_of(dst), rd, value);
    let h = g.update(rd as int, value);
    agreement::lemma_release(f, host, start, h, dst);
    let f1 = f.release(dst);
    agreement::lemma_release(f1, host, start, h, X86Reg::RCX);
    let f2 = f1.release(X86Reg::RCX);
    agreement::lemma_release(f2, host, start, h, count);
    agreement::lemma_release(f2.release(count), host, start, h, src);
}

} // verus!
