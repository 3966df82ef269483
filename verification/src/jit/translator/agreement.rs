//! That generated code keeps the guest registers where the table says they are.
use vstd::prelude::*;

use crate::isa::riscv::executor::CpuState;
use crate::isa::riscv::instruction::alu;
use crate::isa::riscv::instruction::alu::AluFn;
use crate::jit::backend::x86::code::HostInstr;
use crate::jit::backend::x86::{AluOp, OperandSize, RegMem, X86Reg};
use crate::jit::machine;
use crate::jit::machine::{Host, Machine};
use crate::utils;
use crate::utils::Width;

use super::reg_assign;
use super::reg_assign::{GuestAccess, RegAssignment, RegKind, Table};
use super::state_vec;
use super::state_vec::{HostRegState, CPU_REG};
use super::{GenState, OperandWidth};

verus! {

/// Whether no row holds a value of a guest register that is newer than memory.
pub open spec fn clean(t: Table, x: int) -> bool {
    forall|i: int| 0 <= i < 16 && (#[trigger] t[i]).dirty ==> t[i].guest != Some(x as u8)
}

/// Whether the host has the guest registers `g`: those that a row holds are in its host register,
/// and the others are in memory. Nothing is said of the register `open`, which is about to be
/// written.
pub open spec fn tracks(t: Table, host: Host, m: Machine, g: Seq<u64>, open: Option<u8>) -> bool {
    &&& m.left is None
    &&& m.regs.len() == 16
    &&& m.cpu.regs.len() == 32
    &&& g.len() == 32
    &&& m.regs[14] == host.guest_regs
    &&& forall|i: int|
        0 <= i < 16 && (#[trigger] t[i]).guest is Some && t[i].guest != open ==> m.regs[i]
            == g[t[i].guest->0 as int]
    &&& forall|x: int|
        0 <= x < 32 && Some(x as u8) != open && clean(t, x) ==> #[trigger] m.cpu.regs[x] == g[x]
}

/// Whether nothing of a hart but its registers changed.
pub open spec fn only_regs(before: CpuState, after: CpuState) -> bool {
    after == (CpuState { regs: after.regs, ..before })
}

pub(super) proof fn lemma_rows(r: X86Reg, i: int)
    requires
        0 <= i < 16,
    ensures
        0 <= reg_assign::row_of(r) < 16,
        reg_assign::host_at(reg_assign::row_of(r)) == r,
        reg_assign::row_of(reg_assign::host_at(i)) == i,
{
}

/// The memory of a guest register is found through the register that points there.
proof fn lemma_place(host: Host, m: Machine, guest: u8)
    requires
        m.regs[14] == host.guest_regs,
        guest < 32,
    ensures
        m.place(host, state_vec::guest_memory(guest)) == Some(guest as int),
        !(state_vec::guest_memory(guest) is Reg),
{
    let disp = (guest * 8) as i32;
    assert(m.slot(host, CPU_REG, disp as int) == Some(guest as int));
}

/// The machine with a value in the memory of a guest register.
pub open spec fn spilled(m: Machine, guest: u8, value: u64) -> Machine {
    Machine {
        cpu: CpuState { regs: m.cpu.regs.update(guest as int, value), ..m.cpu },
        ..m
    }
}

proof fn lemma_ran_one(m: Machine, host: Host, i: HostInstr)
    ensures
        m.ran(host, seq![i]) == m.stepped(host, i),
        m.ran(host, Seq::empty()) == m,
{
    machine::lemma_ran_push(m, host, Seq::empty(), i);
    assert(seq![i] =~= Seq::<HostInstr>::empty().push(i));
}

proof fn lemma_step_spill(host: Host, m: Machine, guest: u8, src: X86Reg)
    requires
        m.left is None,
        m.regs[14] == host.guest_regs,
        guest < 32,
    ensures
        m.stepped(
            host,
            HostInstr::MovStore {
                size: OperandSize::Qword,
                dst: state_vec::guest_memory(guest),
                src,
            },
        ) == spilled(m, guest, m.reg(src)),
{
    reveal(Machine::stepped);
    lemma_place(host, m, guest);
}

pub(super) proof fn lemma_wrap_same(v: u64)
    ensures
        Width::W64.wrap(v as int) == v,
{
    assert(Width::W64.modulus() == 0x1_0000_0000_0000_0000);
    vstd::arithmetic::div_mod::lemma_small_mod(v as nat, 0x1_0000_0000_0000_0000);
}

proof fn lemma_step_fill(host: Host, m: Machine, guest: u8, dst: X86Reg)
    requires
        m.left is None,
        m.regs[14] == host.guest_regs,
        guest < 32,
    ensures
        m.stepped(
            host,
            HostInstr::MovLoad {
                size: OperandSize::Qword,
                dst,
                src: state_vec::guest_memory(guest),
            },
        ) == m.with(dst, m.cpu.regs[guest as int]),
{
    lemma_place(host, m, guest);
    let src = state_vec::guest_memory(guest);
    let value = m.cpu.regs[guest as int];
    assert(m.operand(host, src) == value);
    lemma_wrap_same(value);
    lemma_step_load(host, m, dst, src);
}

proof fn lemma_step_load(host: Host, m: Machine, dst: X86Reg, src: RegMem)
    requires
        m.left is None,
    ensures
        m.stepped(host, HostInstr::MovLoad { size: OperandSize::Qword, dst, src }) == m.with(
            dst,
            Width::W64.wrap(m.operand(host, src) as int),
        ),
{
    reveal(Machine::stepped);
}

/// The table after memory is brought up to date for a row.
pub open spec fn cleaned(t: Table, i: int) -> Table {
    t.update(i, HostRegState { dirty: false, ..t[i] })
}

/// The machine after a row is written back.
pub open spec fn written_back(t: Table, m: Machine, i: int) -> Machine {
    if t[i].dirty {
        spilled(m, t[i].guest->0, m.regs[i])
    } else {
        m
    }
}

proof fn lemma_write_back_code(t: Table, host: Host, m: Machine, i: int)
    requires
        reg_assign::table_ok(t),
        m.left is None,
        m.regs[14] == host.guest_regs,
        0 <= i < 16,
    ensures
        m.ran(host, t[i].write_back()) == written_back(t, m, i),
{
    let code = t[i].write_back();
    if t[i].dirty {
        lemma_ran_one(m, host, code[0]);
        assert(code =~= seq![code[0]]);
        lemma_step_spill(host, m, t[i].guest->0, t[i].host);
        lemma_rows(t[i].host, i);
    } else {
        assert(code =~= Seq::<HostInstr>::empty());
    }
}

/// Bringing memory up to date for a row keeps the guest registers.
proof fn lemma_written_back(t: Table, host: Host, m: Machine, g: Seq<u64>, i: int)
    requires
        reg_assign::table_ok(t),
        tracks(t, host, m, g, None),
        0 <= i < 16,
    ensures
        reg_assign::table_ok(cleaned(t, i)),
        tracks(cleaned(t, i), host, written_back(t, m, i), g, None),
{
    let after = written_back(t, m, i);
    let c = cleaned(t, i);
    assert forall|j: int| 0 <= j < 16 implies (#[trigger] c[j]).guest == t[j].guest && c[j].host
        == t[j].host && (c[j].dirty ==> t[j].dirty) by {}
    assert forall|x: int| 0 <= x < 32 && clean(c, x) implies #[trigger] after.cpu.regs[x]
        == g[x] by {
        if t[i].dirty && t[i].guest == Some(x as u8) {
        } else {
            assert forall|j: int| 0 <= j < 16 && (#[trigger] t[j]).dirty implies t[j].guest != Some(
                x as u8,
            ) by {
                if j != i {
                    assert(c[j] == t[j]);
                }
            }
            assert(clean(t, x));
            assert(m.cpu.regs[x] == g[x]);
        }
    }
}

/// Whether a table says no more than another one: every row holds what it held, or no longer holds
/// anything that memory does not have.
pub open spec fn weaker(t: Table, u: Table) -> bool {
    &&& u.len() == 16
    &&& forall|i: int|
        0 <= i < 16 ==> {
            &&& (#[trigger] u[i]).host == t[i].host
            &&& u[i].guest == t[i].guest && u[i].dirty == t[i].dirty || u[i].guest is None
                && !t[i].dirty && !u[i].dirty
        }
}

proof fn lemma_weaker(t: Table, u: Table, host: Host, m: Machine, g: Seq<u64>)
    requires
        reg_assign::table_ok(t),
        tracks(t, host, m, g, None),
        weaker(t, u),
    ensures
        reg_assign::table_ok(u),
        tracks(u, host, m, g, None),
{
    assert forall|i: int, j: int|
        0 <= i < 16 && 0 <= j < 16 && i != j && (#[trigger] u[i]).guest is Some implies u[i].guest
        != (#[trigger] u[j]).guest by {
        assert(t[i].guest == u[i].guest);
        assert(t[j].guest != t[i].guest);
    }
    assert forall|x: int| 0 <= x < 32 && clean(u, x) implies #[trigger] m.cpu.regs[x] == g[x] by {
        assert forall|i: int| 0 <= i < 16 && (#[trigger] t[i]).dirty implies t[i].guest != Some(
            x as u8,
        ) by {
            assert(u[i].guest == t[i].guest && u[i].dirty);
        }
        assert(clean(t, x));
    }
}

/// The table after a row is taken for a guest register that no row holds.
proof fn lemma_hold(t: Table, u: Table, host: Host, m: Machine, g: Seq<u64>, i: int, x: u8)
    requires
        reg_assign::table_ok(t),
        tracks(t, host, m, g, None),
        0 <= i < 8,
        x < 32,
        t[i].guest is None,
        forall|j: int| 0 <= j < 16 ==> (#[trigger] t[j]).guest != Some(x),
        u == t.update(i, u[i]),
        u[i].guest == Some(x),
    ensures
        m.cpu.regs[x as int] == g[x as int],
        tracks(u, host, m.with(reg_assign::host_at(i), g[x as int]), g, None),
        u[i].dirty ==> tracks(u, host, m, g, Some(x)),
{
    assert(clean(t, x as int));
    lemma_rows(X86Reg::RAX, i);
    let filled = m.with(reg_assign::host_at(i), g[x as int]);
    assert forall|j: int| 0 <= j < 16 && (#[trigger] u[j]).guest is Some implies filled.regs[j]
        == g[u[j].guest->0 as int] by {
        if j != i {
            assert(u[j] == t[j]);
        }
    }
    assert forall|j: int|
        0 <= j < 16 && (#[trigger] u[j]).guest is Some && u[j].guest != Some(x) implies m.regs[j]
        == g[u[j].guest->0 as int] by {
        if j != i {
            assert(u[j] == t[j]);
        }
    }
    assert forall|y: int| 0 <= y < 32 && clean(u, y) implies #[trigger] m.cpu.regs[y] == g[y] by {
        assert forall|j: int| 0 <= j < 16 && (#[trigger] t[j]).dirty implies t[j].guest != Some(
            y as u8,
        ) by {
            if j != i {
                assert(u[j] == t[j]);
            }
        }
        assert(clean(t, y));
    }
}

/// The table after a row is taken again for the guest register that it holds.
proof fn lemma_hold_again(t: Table, u: Table, host: Host, m: Machine, g: Seq<u64>, i: int)
    requires
        reg_assign::table_ok(t),
        tracks(t, host, m, g, None),
        0 <= i < 8,
        t[i].guest is Some,
        u == t.update(i, u[i]),
        u[i].guest == t[i].guest,
        t[i].dirty ==> u[i].dirty,
    ensures
        tracks(u, host, m, g, None),
        tracks(u, host, m, g, u[i].guest),
{
    assert forall|j: int| 0 <= j < 16 implies (#[trigger] u[j]).guest == t[j].guest && (t[j].dirty
        ==> u[j].dirty) by {}
    assert forall|y: int| 0 <= y < 32 && clean(u, y) implies #[trigger] m.cpu.regs[y] == g[y] by {
        assert forall|j: int| 0 <= j < 16 && (#[trigger] t[j]).dirty implies t[j].guest != Some(
            y as u8,
        ) by {
            assert(u[j].dirty);
        }
        assert(clean(t, y));
    }
}

impl GenState {
    /// The machine after the code so far.
    pub open spec fn machine(self, host: Host, start: Machine) -> Machine {
        start.ran(host, self.code)
    }

    /// Whether the code so far leaves the host with the guest registers `g`.
    #[verifier::opaque]
    pub open spec fn agrees(
        self,
        host: Host,
        start: Machine,
        g: Seq<u64>,
        open: Option<u8>,
    ) -> bool {
        reg_assign::table_ok(self.table) && tracks(
            self.table,
            host,
            self.machine(host, start),
            g,
            open,
        )
    }
}

/// Whether two machines have the same flags and the same hart but for its registers.
pub open spec fn alike(m: Machine, n: Machine) -> bool {
    m.compared == n.compared && only_regs(m.cpu, n.cpu)
}

/// What taking a host register leaves of the others.
pub open spec fn taken(s: GenState, u: GenState, host: Host, start: Machine, i: int) -> bool {
    &&& alike(s.machine(host, start), u.machine(host, start))
    &&& u.table[i].refcount == s.table[i].refcount + 1
    &&& forall|j: int|
        0 <= j < 16 && j != i ==> #[trigger] u.table[j] == s.table[j]
    &&& forall|j: int|
        0 <= j < 16 && j != i ==> #[trigger] u.machine(host, start).regs[j] == s.machine(
            host,
            start,
        ).regs[j]
}

/// Taking a host register for a guest register.
pub(super) proof fn lemma_guest(
    s: GenState,
    host: Host,
    start: Machine,
    g: Seq<u64>,
    guest: u8,
    access: GuestAccess,
)
    requires
        s.agrees(host, start, g, None),
        s.roomy(),
        guest < 32,
    ensures
        ({
            let u = s.guest(guest, access);
            let i = reg_assign::row_of(s.host_of(guest));
            &&& 0 <= i < 8
            &&& reg_assign::host_at(i) == s.host_of(guest)
            &&& u.agrees(
                host,
                start,
                g,
                if access == GuestAccess::WriteOnly {
                    Some(guest)
                } else {
                    None
                },
            )
            &&& u.table[i].guest == Some(guest)
            &&& access.spec_writes() ==> u.table[i].dirty
            &&& s.table[i].guest == Some(guest) || s.table[i].refcount == 0
            &&& taken(s, u, host, start, i)
            &&& forall|j: int|
                0 <= j < 16 && s.table[j].refcount > 0 ==> #[trigger] u.machine(host, start).regs[j]
                    == s.machine(host, start).regs[j]
            &&& access == GuestAccess::WriteOnly ==> u.machine(host, start).regs == s.machine(
                host,
                start,
            ).regs
        }),
{
    reveal(GenState::agrees);
    super::lemma_take_guest(s, guest, access);
    reveal(GenState::guest);
    reveal(GenState::host_of);
    let kind = RegKind::CallerOrCallee;
    let t = s.table;
    let m = s.machine(host, start);
    assert(reg_assign::made_room(t, guest, kind) == (t, Seq::<HostInstr>::empty()));
    reg_assign::law_guest_taken_ok(t, guest, kind, access);
    let i = reg_assign::guest_row(t, guest, kind)->0;
    let a = RegAssignment::Guest { index: guest, access };
    let u = s.guest(guest, access);
    let code = reg_assign::row_code(t[i], a);
    assert(Seq::<HostInstr>::empty() + code =~= code);
    machine::lemma_ran_add(start, host, s.code, code);
    lemma_rows(s.host_of(guest), i);
    if t[i].guest == Some(guest) {
        lemma_ran_one(m, host, HostInstr::Ret);
        lemma_hold_again(t, u.table, host, m, g, i);
    } else {
        lemma_unheld(t, guest);
        lemma_write_back_code(t, host, m, i);
        lemma_written_back(t, host, m, g, i);
        let back = written_back(t, m, i);
        let c = cleaned(t, i);
        let v = c.update(i, reg_assign::row_vacated(c[i]));
        lemma_weaker(c, v, host, back, g);
        assert(u.table =~= v.update(i, u.table[i]));
        lemma_hold(v, u.table, host, back, g, i, guest);
        if access.spec_reads() {
            let fill = HostInstr::MovLoad {
                size: OperandSize::Qword,
                dst: t[i].host,
                src: state_vec::guest_memory(guest),
            };
            assert(code =~= t[i].write_back() + seq![fill]);
            machine::lemma_ran_add(m, host, t[i].write_back(), seq![fill]);
            lemma_ran_one(back, host, fill);
            lemma_step_fill(host, back, guest, t[i].host);
        } else {
            assert(code =~= t[i].write_back());
        }
    }
}

/// A guest register that is not found is held by no row.
proof fn lemma_unheld(t: Table, guest: u8)
    requires
        reg_assign::table_ok(t),
        reg_assign::guest_row(t, guest, RegKind::CallerOrCallee) is Some,
        t[reg_assign::guest_row(t, guest, RegKind::CallerOrCallee)->0].guest != Some(guest),
    ensures
        forall|j: int| 0 <= j < 16 ==> (#[trigger] t[j]).guest != Some(guest),
{
    let kind = RegKind::CallerOrCallee;
    reg_assign::lemma_first_row(t, kind, Some(guest), 0);
    assert forall|j: int| 0 <= j < 16 implies (#[trigger] t[j]).guest != Some(guest) by {
        if j < 8 {
            if j < 5 {
                assert(reg_assign::turn(kind, j + 3) == j);
            } else {
                assert(reg_assign::turn(kind, j - 5) == j);
            }
        }
    }
}

/// Giving up what a row holds.
proof fn lemma_vacate(s: GenState, u: GenState, host: Host, start: Machine, g: Seq<u64>, i: int)
    requires
        s.agrees(host, start, g, None),
        0 <= i < 16,
        u.table == s.table.update(i, u.table[i]),
        u.table[i].host == s.table[i].host,
        u.table[i].guest is None,
        !u.table[i].dirty,
        u.table[i].refcount == s.table[i].refcount + 1,
        u.code == s.code + s.table[i].write_back(),
    ensures
        u.agrees(host, start, g, None),
        taken(s, u, host, start, i),
        u.machine(host, start).regs == s.machine(host, start).regs,
{
    reveal(GenState::agrees);
    let m = s.machine(host, start);
    machine::lemma_ran_add(start, host, s.code, s.table[i].write_back());
    lemma_write_back_code(s.table, host, m, i);
    lemma_written_back(s.table, host, m, g, i);
    lemma_weaker(cleaned(s.table, i), u.table, host, written_back(s.table, m, i), g);
}

/// Taking a host register for a value of no guest register.
pub(super) proof fn lemma_scratch(s: GenState, host: Host, start: Machine, g: Seq<u64>)
    requires
        s.agrees(host, start, g, None),
        s.roomy(),
    ensures
        ({
            let u = s.scratch();
            let r = reg_assign::scratch_host(s.table);
            let i = reg_assign::row_of(r);
            &&& 0 <= i < 8
            &&& reg_assign::host_at(i) == r
            &&& s.table[i].refcount == 0
            &&& u.agrees(host, start, g, None)
            &&& u.table[i].guest is None
            &&& taken(s, u, host, start, i)
        }),
{
    reveal(GenState::agrees);
    reveal(GenState::scratch);
    super::lemma_free_row(s.table);
    reg_assign::lemma_first_row(s.table, RegKind::CallerOrCallee, None, 0);
    let i = reg_assign::first_row(s.table, RegKind::CallerOrCallee, None, 0)->0;
    lemma_rows(X86Reg::RAX, i);
    let u = s.scratch();
    assert(reg_assign::scratch_code(s.table) =~= s.table[i].write_back());
    lemma_vacate(s, u, host, start, g, i);
}

/// Taking a given host register.
pub(super) proof fn lemma_host(s: GenState, host: Host, start: Machine, g: Seq<u64>, r: X86Reg)
    requires
        s.agrees(host, start, g, None),
        s.table[reg_assign::row_of(r)].refcount == 0,
    ensures
        ({
            let u = s.host(r);
            let i = reg_assign::row_of(r);
            &&& 0 <= i < 16
            &&& reg_assign::host_at(i) == r
            &&& u.agrees(host, start, g, None)
            &&& u.table[i].guest is None
            &&& taken(s, u, host, start, i)
            &&& u.machine(host, start).regs == s.machine(host, start).regs
        }),
{
    reveal(GenState::agrees);
    reveal(GenState::host);
    let i = reg_assign::row_of(r);
    lemma_rows(r, 0);
    lemma_vacate(s, s.host(r), host, start, g, i);
}

/// Releasing a host register.
pub(super) proof fn lemma_release(s: GenState, host: Host, start: Machine, g: Seq<u64>, r: X86Reg)
    requires
        s.agrees(host, start, g, None),
        s.table[reg_assign::row_of(r)].refcount > 0,
    ensures
        ({
            let u = s.release(r);
            let i = reg_assign::row_of(r);
            &&& u.agrees(host, start, g, None)
            &&& u.machine(host, start) == s.machine(host, start)
            &&& forall|j: int|
                0 <= j < 16 ==> #[trigger] u.table[j] == if j == i {
                    HostRegState { refcount: (s.table[j].refcount - 1) as u8, ..s.table[j] }
                } else {
                    s.table[j]
                }
        }),
{
    reveal(GenState::agrees);
    reveal(GenState::release);
    lemma_rows(r, 0);
    lemma_weaker(s.table, s.release(r).table, host, s.machine(host, start), g);
}

proof fn lemma_write_backs(t: Table, host: Host, m: Machine, g: Seq<u64>, n: int)
    requires
        reg_assign::table_ok(t),
        tracks(t, host, m, g, None),
        0 <= n <= 16,
    ensures
        ({
            let after = m.ran(host, reg_assign::write_backs(t, n));
            &&& tracks(t, host, after, g, None)
            &&& alike(m, after)
            &&& after.regs == m.regs
            &&& forall|i: int|
                0 <= i < n && (#[trigger] t[i]).guest is Some ==> after.cpu.regs[t[i].guest->0
                    as int] == g[t[i].guest->0 as int]
        }),
    decreases n,
{
    if n == 0 {
        lemma_ran_one(m, host, HostInstr::Ret);
    } else {
        lemma_write_backs(t, host, m, g, n - 1);
        let before = m.ran(host, reg_assign::write_backs(t, n - 1));
        machine::lemma_ran_add(
            m,
            host,
            reg_assign::write_backs(t, n - 1),
            t[n - 1].write_back(),
        );
        lemma_write_back_code(t, host, before, n - 1);
        let after = written_back(t, before, n - 1);
        if !t[n - 1].dirty && t[n - 1].guest is Some {
            let x = t[n - 1].guest->0;
            assert forall|i: int| 0 <= i < 16 && (#[trigger] t[i]).dirty implies t[i].guest != Some(
                x,
            ) by {
                assert(t[n - 1].guest == Some(x));
            }
            assert(clean(t, x as int));
            assert(before.cpu.regs[x as int] == g[x as int]);
        }
        assert forall|x: int| 0 <= x < 32 && clean(t, x) implies #[trigger] after.cpu.regs[x]
            == g[x] by {
            assert(before.cpu.regs[x] == g[x]);
        }
    }
}

/// Bringing memory up to date.
pub(super) proof fn lemma_flush(s: GenState, host: Host, start: Machine, g: Seq<u64>)
    requires
        s.agrees(host, start, g, None),
        s.idle(),
    ensures
        ({
            let u = s.flush();
            let m = u.machine(host, start);
            &&& u.agrees(host, start, g, None)
            &&& u.idle()
            &&& alike(s.machine(host, start), m)
            &&& m.regs == s.machine(host, start).regs
            &&& m.cpu.regs == g
            &&& forall|i: int| 0 <= i < 16 ==> !(#[trigger] u.table[i]).dirty
        }),
{
    reveal(GenState::agrees);
    reveal(GenState::flush);
    let t = s.table;
    let u = s.flush();
    let m = s.machine(host, start);
    machine::lemma_ran_add(start, host, s.code, reg_assign::write_backs(t, 16));
    lemma_write_backs(t, host, m, g, 16);
    let after = u.machine(host, start);
    assert forall|x: int| 0 <= x < 32 implies #[trigger] after.cpu.regs[x] == g[x] by {
        if !clean(t, x) {
            let i = choose|i: int|
                0 <= i < 16 && (#[trigger] t[i]).dirty && t[i].guest == Some(x as u8);
            assert(t[i].guest is Some);
        }
    }
    assert(after.cpu.regs =~= g);
    assert forall|i: int| 0 <= i < 16 implies !(#[trigger] u.table[i]).dirty && u.table[i].guest
        == t[i].guest && u.table[i].host == t[i].host && u.table[i].refcount == 0 by {
        assert(t[i].refcount == 0);
    }
}

/// Giving up the host registers that a called function may change.
pub(super) proof fn lemma_flush_for_call(s: GenState, host: Host, start: Machine, g: Seq<u64>)
    requires
        s.agrees(host, start, g, None),
        s.idle(),
        forall|i: int| 0 <= i < 16 ==> !(#[trigger] s.table[i]).dirty,
    ensures
        ({
            let u = s.flush_for_call();
            &&& u.agrees(host, start, g, None)
            &&& u.idle()
            &&& u.machine(host, start) == s.machine(host, start)
            &&& forall|i: int| 0 <= i < 16 ==> !(#[trigger] u.table[i]).dirty
            &&& forall|i: int|
                0 <= i < 16 && (#[trigger] u.table[i]).guest is Some ==> i < 5
        }),
{
    reveal(GenState::agrees);
    reveal(GenState::flush_for_call);
    let t = s.table;
    let u = s.flush_for_call();
    assert(!t[5].dirty && !t[6].dirty && !t[7].dirty);
    assert(reg_assign::call_write_backs(t) =~= Seq::<HostInstr>::empty());
    assert(u.code =~= s.code);
    assert forall|i: int| 0 <= i < 16 implies !(#[trigger] u.table[i]).dirty && u.table[i].host
        == t[i].host && u.table[i].refcount == 0 && (u.table[i].guest == t[i].guest
        || u.table[i].guest is None) by {
        assert(!t[i].dirty && t[i].refcount == 0);
    }
    lemma_weaker(t, u.table, host, s.machine(host, start), g);
}

/// Whether the machine `n` is the machine `m` with a value in a register and other flags.
pub open spec fn same_but(m: Machine, n: Machine, i: int, value: u64) -> bool {
    n.regs == m.regs.update(i, value) && n.cpu == m.cpu && n.left == m.left
}

/// Writing the host register of a guest register.
pub(super) proof fn lemma_write(
    s: GenState,
    u: GenState,
    host: Host,
    start: Machine,
    g: Seq<u64>,
    open: Option<u8>,
    i: int,
    x: u8,
    value: u64,
)
    requires
        s.agrees(host, start, g, open),
        u.table == s.table,
        same_but(s.machine(host, start), u.machine(host, start), i, value),
        open is None || open == Some(x),
        0 <= i < 8,
        x < 32,
        s.table[i].guest == Some(x),
        s.table[i].dirty,
    ensures
        u.agrees(host, start, g.update(x as int, value), None),
{
    reveal(GenState::agrees);
    let t = s.table;
    let m = s.machine(host, start);
    let n = u.machine(host, start);
    let h = g.update(x as int, value);
    assert forall|j: int| 0 <= j < 16 && (#[trigger] t[j]).guest is Some implies n.regs[j]
        == h[t[j].guest->0 as int] by {
        if j != i {
            assert(t[j].guest != t[i].guest);
        }
    }
    assert forall|y: int| 0 <= y < 32 && clean(t, y) implies #[trigger] n.cpu.regs[y] == h[y] by {
        assert(y != x) by {
            assert(t[i].dirty);
        }
        assert(m.cpu.regs[y] == g[y]);
    }
}

/// Writing a host register that holds no guest register.
pub(super) proof fn lemma_write_free(
    s: GenState,
    u: GenState,
    host: Host,
    start: Machine,
    g: Seq<u64>,
    open: Option<u8>,
    i: int,
    value: u64,
)
    requires
        s.agrees(host, start, g, open),
        u.table == s.table,
        same_but(s.machine(host, start), u.machine(host, start), i, value),
        0 <= i < 14,
        s.table[i].guest is None || s.table[i].guest == open,
    ensures
        u.agrees(host, start, g, open),
{
    reveal(GenState::agrees);
    let t = s.table;
    let m = s.machine(host, start);
    let n = u.machine(host, start);
    assert forall|y: int|
        0 <= y < 32 && Some(y as u8) != open && clean(t, y) implies #[trigger] n.cpu.regs[y]
        == g[y] by {
        assert(m.cpu.regs[y] == g[y]);
    }
}

/// What an instruction gives on the values of two registers.
pub open spec fn computed(op: AluFn, width: OperandWidth, a: u64, b: u64) -> u64 {
    match width {
        OperandWidth::Xlen => alu::alu(op, Width::W64, a, b),
        OperandWidth::Word => alu::alu_word(op, a, b),
    }
}

/// Whether the host can do an operation as the guest does it.
pub open spec fn op_ok(op: AluOp, width: OperandWidth) -> bool {
    op == AluOp::Add || op == AluOp::Sub || width == OperandWidth::Xlen && (op == AluOp::And || op
        == AluOp::Or || op == AluOp::Xor)
}

pub(super) proof fn lemma_emit(s: GenState, host: Host, start: Machine, i: HostInstr)
    ensures
        s.emit(i).machine(host, start) == s.machine(host, start).stepped(host, i),
        s.emit(i).table == s.table,
{
    machine::lemma_ran_push(start, host, s.code, i);
}

proof fn lemma_step_alu(
    host: Host,
    m: Machine,
    op: AluOp,
    dst: X86Reg,
    src: X86Reg,
    width: OperandWidth,
)
    requires
        m.left is None,
        op_ok(op, width),
    ensures
        ({
            let w = machine::width_of(width.spec_size());
            m.stepped(
                host,
                HostInstr::Alu { size: width.spec_size(), op, dst: RegMem::Reg(dst), src },
            ) == m.with(
                dst,
                alu::alu(
                    machine::alu_fn(op),
                    w,
                    w.wrap(m.reg(dst) as int),
                    w.wrap(m.reg(src) as int),
                ),
            ).flags_lost()
        }),
{
    reveal(Machine::stepped);
    reveal(Machine::alu);
}

pub(super) proof fn lemma_step_sext(host: Host, m: Machine, dst: X86Reg)
    requires
        m.left is None,
    ensures
        m.stepped(host, HostInstr::MovSxd { dst, src: RegMem::Reg(dst) }) == m.with(
            dst,
            utils::widened(Width::W32, Width::W32.wrap(m.reg(dst) as int)),
        ),
{
    reveal(Machine::stepped);
}

/// Two writes to a register are the second one.
pub(super) proof fn lemma_with_with(m: Machine, r: X86Reg, a: u64, b: u64)
    requires
        m.regs.len() == 16,
    ensures
        same_but(m, m.with(r, a).flags_lost().with(r, b), reg_assign::row_of(r), b),
        same_but(m, m.with(r, b).flags_lost(), reg_assign::row_of(r), b),
        m.with(r, a).reg(r) == a,
        m.with(r, a).flags_lost().reg(r) == a,
{
    lemma_rows(r, 0);
    let i = reg_assign::row_of(r);
    assert(m.with(r, a).flags_lost().with(r, b).regs =~= m.regs.update(i, b));
}

/// An operation on two host registers.
pub(super) proof fn lemma_alu(
    s: GenState,
    host: Host,
    start: Machine,
    op: AluOp,
    dst: X86Reg,
    src: X86Reg,
    width: OperandWidth,
)
    requires
        s.machine(host, start).left is None,
        s.machine(host, start).regs.len() == 16,
        op_ok(op, width),
    ensures
        ({
            let m = s.machine(host, start);
            let u = s.alu(op, dst, src, width);
            &&& same_but(
                m,
                u.machine(host, start),
                reg_assign::row_of(dst),
                computed(machine::alu_fn(op), width, m.reg(dst), m.reg(src)),
            )
            &&& u.table == s.table
        }),
{
    let m = s.machine(host, start);
    let i = HostInstr::Alu { size: width.spec_size(), op, dst: RegMem::Reg(dst), src };
    lemma_emit(s, host, start, i);
    lemma_step_alu(host, m, op, dst, src, width);
    lemma_wrap_same(m.reg(dst));
    lemma_wrap_same(m.reg(src));
    match width {
        OperandWidth::Xlen => {
            lemma_with_with(
                m,
                dst,
                0,
                computed(machine::alu_fn(op), width, m.reg(dst), m.reg(src)),
            );
        },
        OperandWidth::Word => {
            let w = Width::W32;
            let v = alu::alu(
                machine::alu_fn(op),
                w,
                w.wrap(m.reg(dst) as int),
                w.wrap(m.reg(src) as int),
            );
            lemma_wrapped_twice(w, v);
            let n = s.emit(i);
            lemma_emit(n, host, start, HostInstr::MovSxd { dst, src: RegMem::Reg(dst) });
            lemma_step_sext(host, n.machine(host, start), dst);
            lemma_with_with(m, dst, v, utils::widened(w, v));
        },
    }
}

pub(super) proof fn lemma_wrapped_twice(w: Width, v: u64)
    ensures
        v < w.modulus() ==> w.wrap(v as int) == v,
        forall|x: int| w.wrap(#[trigger] w.wrap(x) as int) == w.wrap(x),
        forall|x: int| #[trigger] w.wrap(x) < w.modulus(),
{
}

/// What is known of a row that holds a guest register.
pub(super) proof fn lemma_held(
    s: GenState,
    host: Host,
    start: Machine,
    g: Seq<u64>,
    open: Option<u8>,
    i: int,
    x: u8,
)
    requires
        s.agrees(host, start, g, open),
        0 <= i < 16,
        s.table[i].guest == Some(x),
        open != Some(x),
    ensures
        s.machine(host, start).regs[i] == g[x as int],
        s.machine(host, start).left is None,
        s.machine(host, start).regs.len() == 16,
{
    reveal(GenState::agrees);
}

/// What is known of a machine that has not left the code.
pub(super) proof fn lemma_running(
    s: GenState,
    host: Host,
    start: Machine,
    g: Seq<u64>,
    open: Option<u8>,
)
    requires
        s.agrees(host, start, g, open),
    ensures
        s.machine(host, start).left is None,
        s.machine(host, start).regs.len() == 16,
        s.machine(host, start).cpu.regs.len() == 32,
        s.machine(host, start).regs[14] == host.guest_regs,
        g.len() == 32,
        reg_assign::table_ok(s.table),
{
    reveal(GenState::agrees);
}

/// A guest register that no row holds a newer value of is in memory.
pub(super) proof fn lemma_clean(s: GenState, host: Host, start: Machine, g: Seq<u64>, x: int)
    requires
        s.agrees(host, start, g, None),
        0 <= x < 32,
        clean(s.table, x),
    ensures
        s.machine(host, start).cpu.regs[x] == g[x],
{
    reveal(GenState::agrees);
}

/// Whether code takes the host from the guest registers `g` to the guest registers `h`, and changes
/// nothing else of the hart.
pub open spec fn carries(
    s: GenState,
    u: GenState,
    host: Host,
    start: Machine,
    g: Seq<u64>,
    h: Seq<u64>,
) -> bool {
    s.agrees(host, start, g, None) ==> {
        &&& u.agrees(host, start, h, None)
        &&& only_regs(s.machine(host, start).cpu, u.machine(host, start).cpu)
    }
}

pub(super) proof fn lemma_step_mov(host: Host, m: Machine, dst: X86Reg, src: X86Reg)
    requires
        m.left is None,
    ensures
        m.stepped(
            host,
            HostInstr::MovStore { size: OperandSize::Qword, dst: RegMem::Reg(dst), src },
        ) == m.with(dst, m.reg(src)),
        m.stepped(
            host,
            HostInstr::MovLoad { size: OperandSize::Qword, dst, src: RegMem::Reg(src) },
        ) == m.with(dst, m.reg(src)),
{
    reveal(Machine::stepped);
    lemma_wrap_same(m.reg(src));
}

} // verus!
