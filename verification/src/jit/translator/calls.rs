//! That calls pass what they are given, and that the guest registers survive them.
use vstd::prelude::*;

use crate::isa::riscv::executor::CpuState;
use crate::jit::backend::x86::assembler;
use crate::jit::backend::x86::code::HostInstr;
use crate::jit::backend::x86::{CallArg, X86Reg};
use crate::jit::helpers::Helpers;
use crate::jit::machine;
use crate::jit::machine::{Host, Machine};

use super::agreement;
use super::effects;
use super::reg_assign;
use super::reg_assign::GuestAccess;
use super::GenState;

verus! {

/// Whether the functions that generated code calls are at different addresses.
pub open spec fn helpers_differ(h: Helpers) -> bool {
    &&& h.check_alignment != h.load_u8 && h.check_alignment != h.load_u16 && h.check_alignment
        != h.load_u32 && h.check_alignment != h.load_u64
    &&& h.check_alignment != h.store_u8 && h.check_alignment != h.store_u16 && h.check_alignment
        != h.store_u32 && h.check_alignment != h.store_u64
    &&& h.load_u8 != h.load_u16 && h.load_u8 != h.load_u32 && h.load_u8 != h.load_u64
    &&& h.load_u16 != h.load_u32 && h.load_u16 != h.load_u64 && h.load_u32 != h.load_u64
    &&& h.load_u8 != h.store_u8 && h.load_u8 != h.store_u16 && h.load_u8 != h.store_u32 && h.load_u8
        != h.store_u64
    &&& h.load_u16 != h.store_u8 && h.load_u16 != h.store_u16 && h.load_u16 != h.store_u32
        && h.load_u16 != h.store_u64
    &&& h.load_u32 != h.store_u8 && h.load_u32 != h.store_u16 && h.load_u32 != h.store_u32
        && h.load_u32 != h.store_u64
    &&& h.load_u64 != h.store_u8 && h.load_u64 != h.store_u16 && h.load_u64 != h.store_u32
        && h.load_u64 != h.store_u64
    &&& h.store_u8 != h.store_u16 && h.store_u8 != h.store_u32 && h.store_u8 != h.store_u64
    &&& h.store_u16 != h.store_u32 && h.store_u16 != h.store_u64 && h.store_u32 != h.store_u64
}

/// The value of an argument.
pub open spec fn arg_value(m: Machine, arg: CallArg) -> u64 {
    match arg {
        CallArg::Reg(r) => m.reg(r),
        CallArg::Imm(imm) => imm,
    }
}

/// The machine with the first `n` arguments in their registers.
pub open spec fn with_args(m: Machine, args: Seq<CallArg>, n: int) -> Machine {
    Machine {
        regs: Seq::new(
            16,
            |i: int|
                if 8 <= i < 8 + n {
                    arg_value(m, args[i - 8])
                } else {
                    m.regs[i]
                },
        ),
        ..m
    }
}

proof fn lemma_arg_step(host: Host, m: Machine, args: Seq<CallArg>, n: int)
    requires
        m.left is None,
        m.regs.len() == 16,
        assembler::args_ok(args),
        0 <= n < args.len(),
    ensures
        with_args(m, args, n).stepped(host, assembler::arg_move(args, n)) == with_args(
            m,
            args,
            n + 1,
        ),
{
    let before = with_args(m, args, n);
    let dst = assembler::arg_reg(n);
    assert(reg_assign::row_of(dst) == 8 + n);
    assert(args[n] == args[n]);
    match args[n] {
        CallArg::Reg(src) => {
            agreement::lemma_step_mov(host, before, dst, src);
            assert(!assembler::is_arg_reg(src));
            assert(before.reg(src) == m.reg(src));
        },
        CallArg::Imm(imm) => {
            effects::lemma_step_imm(host, before, dst, imm);
        },
    }
    assert(before.with(dst, arg_value(m, args[n])).regs =~= with_args(m, args, n + 1).regs);
}

proof fn lemma_arg_moves(host: Host, m: Machine, args: Seq<CallArg>, n: int)
    requires
        m.left is None,
        m.regs.len() == 16,
        assembler::args_ok(args),
        0 <= n <= args.len(),
    ensures
        m.ran(host, Seq::new(n as nat, |i: int| assembler::arg_move(args, i))) == with_args(
            m,
            args,
            n,
        ),
    decreases n,
{
    let moves = Seq::new(n as nat, |i: int| assembler::arg_move(args, i));
    if n == 0 {
        assert(moves =~= Seq::<HostInstr>::empty());
        assert(with_args(m, args, 0).regs =~= m.regs);
    } else {
        lemma_arg_moves(host, m, args, n - 1);
        lemma_arg_step(host, m, args, n - 1);
        let before = Seq::new((n - 1) as nat, |i: int| assembler::arg_move(args, i));
        assert(moves =~= before.push(assembler::arg_move(args, n - 1)));
        machine::lemma_ran_push(m, host, before, assembler::arg_move(args, n - 1));
    }
}

/// The machine at a call.
pub open spec fn at_call(m: Machine, args: Seq<CallArg>, target: u64) -> Machine {
    with_args(m, args, args.len() as int).with(X86Reg::R11, target)
}

proof fn lemma_step_call(host: Host, m: Machine, target: X86Reg)
    requires
        m.left is None,
    ensures
        m.stepped(host, HostInstr::Call { target }) == m.called(host, m.reg(target)),
{
    reveal(Machine::stepped);
}

/// A call calls its target with its arguments.
pub(super) proof fn lemma_call(
    s: GenState,
    host: Host,
    start: Machine,
    target: u64,
    args: Seq<CallArg>,
)
    requires
        s.machine(host, start).left is None,
        s.machine(host, start).regs.len() == 16,
        assembler::args_ok(args),
    ensures
        s.call(target, args).table == s.table,
        s.call(target, args).machine(host, start) == at_call(
            s.machine(host, start),
            args,
            target,
        ).called(host, target),
{
    let m = s.machine(host, start);
    let moves = Seq::new(args.len(), |i: int| assembler::arg_move(args, i));
    let set = HostInstr::MovImm { dst: X86Reg::R11, imm: target };
    let call = HostInstr::Call { target: X86Reg::R11 };
    machine::lemma_ran_add(start, host, s.code, assembler::call_code(target, args));
    lemma_arg_moves(host, m, args, args.len() as int);
    machine::lemma_ran_push(m, host, moves, set);
    machine::lemma_ran_push(m, host, moves.push(set), call);
    effects::lemma_step_imm(
        host,
        with_args(m, args, args.len() as int),
        X86Reg::R11,
        target,
    );
    lemma_step_call(host, at_call(m, args, target), X86Reg::R11);
}

/// Whether everything is ready for a call: no host register is in use, memory is up to date, and
/// guest registers are held only where a called function keeps them.
pub open spec fn ready(s: GenState) -> bool {
    &&& s.idle()
    &&& forall|i: int| 0 <= i < 16 ==> !(#[trigger] s.table[i]).dirty
    &&& forall|i: int| 0 <= i < 16 && (#[trigger] s.table[i]).guest is Some ==> i < 5
}

/// After a called function returned, the guest registers are where they were.
pub(super) proof fn lemma_returned(
    s: GenState,
    u: GenState,
    host: Host,
    start: Machine,
    g: Seq<u64>,
    args: Seq<CallArg>,
    target: u64,
    cpu: CpuState,
    value: u64,
)
    requires
        s.agrees(host, start, g, None),
        ready(s),
        u.table == s.table,
        args.len() <= 6,
        cpu.regs == s.machine(host, start).cpu.regs,
        u.machine(host, start) == at_call(s.machine(host, start), args, target).returned(
            host,
            cpu,
            value,
        ),
    ensures
        u.agrees(host, start, g, None),
        u.machine(host, start).regs[5] == value,
        u.machine(host, start).cpu == cpu,
{
    reveal(GenState::agrees);
    let m = s.machine(host, start);
    let n = u.machine(host, start);
    assert forall|i: int| 0 <= i < 16 && (i < 5 || i == 14) implies #[trigger] n.regs[i]
        == m.regs[i] by {
        assert(!reg_assign::host_at(i).spec_caller_save());
    }
}

/// Memory is brought up to date, and what a called function may change is given up.
pub(super) proof fn lemma_ready(s: GenState, host: Host, start: Machine, g: Seq<u64>)
    requires
        s.agrees(host, start, g, None),
        s.idle(),
    ensures
        ({
            let u = s.flush().flush_for_call();
            let m = u.machine(host, start);
            &&& u.agrees(host, start, g, None)
            &&& ready(u)
            &&& m.regs == s.machine(host, start).regs
            &&& m.cpu.regs == g
            &&& agreement::only_regs(s.machine(host, start).cpu, m.cpu)
        }),
{
    agreement::lemma_flush(s, host, start, g);
    agreement::lemma_flush_for_call(s.flush(), host, start, g);
}

/// After the code is left nothing runs any more.
pub(super) proof fn lemma_left(m: Machine, host: Host, code: Seq<HostInstr>)
    requires
        m.left is Some,
    ensures
        m.ran(host, code) == m,
    decreases code.len(),
{
    if code.len() > 0 {
        lemma_left(m, host, code.drop_last());
        reveal(Machine::stepped);
    }
}

/// Code that follows does not matter after the code is left.
pub(crate) proof fn lemma_left_by(s: GenState, u: GenState, host: Host, start: Machine)
    requires
        s.machine(host, start).left is Some,
        s.code.is_prefix_of(u.code),
    ensures
        u.machine(host, start) == s.machine(host, start),
{
    let rest = u.code.skip(s.code.len() as int);
    assert(u.code =~= s.code + rest);
    machine::lemma_ran_add(start, host, s.code, rest);
    lemma_left(s.machine(host, start), host, rest);
}

/// Everything that is done to a block adds to its code.
pub(super) proof fn lemma_adds(s: GenState, guest: u8, access: GuestAccess, r: X86Reg)
    ensures
        s.code.is_prefix_of(s.guest(guest, access).code),
        s.code.is_prefix_of(s.host(r).code),
        s.code.is_prefix_of(s.release(r).code),
        s.code.is_prefix_of(s.flush().code),
        s.code.is_prefix_of(s.flush_for_call().code),
{
    reveal(GenState::guest);
    reveal(GenState::host);
    reveal(GenState::release);
    reveal(GenState::flush);
    reveal(GenState::flush_for_call);
}

} // verus!
