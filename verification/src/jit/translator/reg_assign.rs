//! Which guest registers the host registers hold while a block is translated.
use vstd::prelude::*;

use crate::jit::backend::x86::code::HostInstr;
use crate::jit::backend::x86::{OperandSize, X86Assembler, X86Reg};

use super::state_vec;
use super::state_vec::{reg_on_mem, HostRegState, StateVec};

verus! {

/// What is done with a guest register.
#[derive(Debug, Clone, Copy, PartialEq, Eq, Structural)]
pub enum GuestAccess {
    /// Its value is needed and stays.
    ReadOnly,
    /// Its value is not needed and changes.
    WriteOnly,
    /// Its value is needed and changes.
    ReadWrite,
}

impl GuestAccess {
    pub open spec fn spec_reads(self) -> bool {
        self == GuestAccess::ReadOnly || self == GuestAccess::ReadWrite
    }

    pub open spec fn spec_writes(self) -> bool {
        self == GuestAccess::WriteOnly || self == GuestAccess::ReadWrite
    }

    pub fn reads(self) -> (r: bool)
        ensures
            r == self.spec_reads(),
    {
        match self {
            GuestAccess::ReadOnly | GuestAccess::ReadWrite => true,
            GuestAccess::WriteOnly => false,
        }
    }

    pub fn writes(self) -> (r: bool)
        ensures
            r == self.spec_writes(),
    {
        match self {
            GuestAccess::WriteOnly | GuestAccess::ReadWrite => true,
            GuestAccess::ReadOnly => false,
        }
    }
}

/// What a host register is wanted for.
#[derive(Debug, Clone, Copy, PartialEq, Eq, Structural)]
pub enum RegAssignment {
    Scratch,
    Guest { index: u8, access: GuestAccess },
}

impl RegAssignment {
    /// The guest register.
    pub open spec fn guest(self) -> Option<u8> {
        match self {
            RegAssignment::Scratch => None,
            RegAssignment::Guest { index, .. } => Some(index),
        }
    }

    /// Whether the value of the guest register is needed.
    pub open spec fn reads(self) -> bool {
        match self {
            RegAssignment::Scratch => false,
            RegAssignment::Guest { access, .. } => access.spec_reads(),
        }
    }

    /// Whether the value of the guest register changes.
    pub open spec fn writes(self) -> bool {
        match self {
            RegAssignment::Scratch => false,
            RegAssignment::Guest { access, .. } => access.spec_writes(),
        }
    }
}

/// Which host registers are good enough.
#[derive(Debug, Clone, Copy, PartialEq, Eq, Structural)]
pub enum RegKind {
    /// Those that a called function keeps.
    Callee,
    /// All that are assigned freely.
    CallerOrCallee,
}

/// A host register that is in use until it is released.
pub struct RegGuard {
    pub host: X86Reg,
}

impl RegGuard {
    /// The host register.
    pub fn reg(&self) -> (r: X86Reg)
        ensures
            r == self.host,
    {
        self.host
    }
}

/// The host register of a row of the table: five that a called function keeps, three that it may
/// change, and eight that are used only when they are asked for.
pub open spec fn host_at(i: int) -> X86Reg {
    if i == 0 {
        X86Reg::RBX
    } else if i == 1 {
        X86Reg::R12
    } else if i == 2 {
        X86Reg::R13
    } else if i == 3 {
        X86Reg::R14
    } else if i == 4 {
        X86Reg::R15
    } else if i == 5 {
        X86Reg::RAX
    } else if i == 6 {
        X86Reg::R10
    } else if i == 7 {
        X86Reg::R11
    } else if i == 8 {
        X86Reg::RDI
    } else if i == 9 {
        X86Reg::RSI
    } else if i == 10 {
        X86Reg::RDX
    } else if i == 11 {
        X86Reg::RCX
    } else if i == 12 {
        X86Reg::R8
    } else if i == 13 {
        X86Reg::R9
    } else if i == 14 {
        X86Reg::RBP
    } else {
        X86Reg::RSP
    }
}

/// The row of a host register.
pub open spec fn row_of(host: X86Reg) -> int {
    match host {
        X86Reg::RBX => 0,
        X86Reg::R12 => 1,
        X86Reg::R13 => 2,
        X86Reg::R14 => 3,
        X86Reg::R15 => 4,
        X86Reg::RAX => 5,
        X86Reg::R10 => 6,
        X86Reg::R11 => 7,
        X86Reg::RDI => 8,
        X86Reg::RSI => 9,
        X86Reg::RDX => 10,
        X86Reg::RCX => 11,
        X86Reg::R8 => 12,
        X86Reg::R9 => 13,
        X86Reg::RBP => 14,
        X86Reg::RSP => 15,
    }
}

/// A table of host registers.
pub type Table = Seq<HostRegState>;

/// Whether every row is for its host register, no guest register is held twice, only registers
/// that are assigned freely hold one, and only a held value is newer than memory.
pub open spec fn table_ok(t: Table) -> bool {
    &&& t.len() == 16
    &&& forall|i: int| 0 <= i < 16 ==> (#[trigger] t[i]).host == host_at(i)
    &&& forall|i: int| 0 <= i < 16 && (#[trigger] t[i]).dirty ==> t[i].guest is Some
    &&& forall|i: int|
        0 <= i < 16 && (#[trigger] t[i]).guest is Some ==> i < 8 && t[i].guest->0 < 32
    &&& forall|i: int, j: int|
        0 <= i < 16 && 0 <= j < 16 && i != j && (#[trigger] t[i]).guest is Some ==> t[i].guest != (
        #[trigger] t[j]).guest
}

/// How many host registers are tried.
pub open spec fn tries(kind: RegKind) -> int {
    match kind {
        RegKind::Callee => 5,
        RegKind::CallerOrCallee => 8,
    }
}

/// The row that is tried at a turn. Registers that a called function may change come first.
pub open spec fn turn(kind: RegKind, k: int) -> int {
    match kind {
        RegKind::Callee => k,
        RegKind::CallerOrCallee => if k < 3 {
            5 + k
        } else {
            k - 3
        },
    }
}

/// Whether a row is wanted: the one that holds a guest register, or one that is not in use.
pub open spec fn wanted(row: HostRegState, guest: Option<u8>) -> bool {
    match guest {
        Some(g) => row.guest == Some(g),
        None => row.refcount == 0,
    }
}

/// The first row from a turn on that is wanted.
pub open spec fn first_row(t: Table, kind: RegKind, guest: Option<u8>, k: int) -> Option<int>
    decreases tries(kind) - k,
{
    if k >= tries(kind) {
        None
    } else if wanted(t[turn(kind, k)], guest) {
        Some(turn(kind, k))
    } else {
        first_row(t, kind, guest, k + 1)
    }
}

/// A row after it is taken for an assignment.
pub open spec fn row_taken(row: HostRegState, a: RegAssignment) -> HostRegState {
    let count = (row.refcount + 1) as u8;
    if row.guest != a.guest() {
        HostRegState { guest: a.guest(), dirty: a.writes(), refcount: count, ..row }
    } else {
        HostRegState { dirty: row.dirty || a.writes(), refcount: count, ..row }
    }
}

/// The code that takes a row for an assignment.
pub open spec fn row_code(row: HostRegState, a: RegAssignment) -> Seq<HostInstr> {
    if row.guest != a.guest() {
        row.write_back() + if a.reads() {
            seq![
                HostInstr::MovLoad {
                    size: OperandSize::Qword,
                    dst: row.host,
                    src: state_vec::guest_memory(a.guest()->0),
                },
            ]
        } else {
            Seq::empty()
        }
    } else {
        Seq::empty()
    }
}

/// A row after what it holds is given up.
pub open spec fn row_vacated(row: HostRegState) -> HostRegState {
    HostRegState { guest: None, dirty: false, ..row }
}

/// The row that holds a guest register.
pub open spec fn holder(t: Table, guest: u8, n: int) -> Option<int>
    decreases n,
{
    if n <= 0 {
        None
    } else if t[n - 1].guest == Some(guest) {
        Some(n - 1)
    } else {
        holder(t, guest, n - 1)
    }
}

/// Whether a guest register must leave the row that holds it: a called function may change that
/// one, and one that it keeps is asked for.
pub open spec fn must_move(t: Table, guest: u8, kind: RegKind) -> bool {
    kind == RegKind::Callee && holder(t, guest, 16) is Some && holder(t, guest, 16)->0 >= 5
}

/// The table before a row for a guest register is picked, and the code for it.
pub open spec fn made_room(t: Table, guest: u8, kind: RegKind) -> (Table, Seq<HostInstr>) {
    if must_move(t, guest, kind) {
        let i = holder(t, guest, 16)->0;
        (t.update(i, row_vacated(t[i])), t[i].write_back())
    } else {
        (t, Seq::empty())
    }
}

/// The row for a guest register: the one that holds it, or else one that is not in use.
pub open spec fn guest_row(t: Table, guest: u8, kind: RegKind) -> Option<int> {
    match first_row(t, kind, Some(guest), 0) {
        Some(i) => Some(i),
        None => first_row(t, kind, None, 0),
    }
}

/// Whether there is a row for a guest register.
pub open spec fn can_take_guest(t: Table, guest: u8, kind: RegKind) -> bool {
    let (room, _) = made_room(t, guest, kind);
    &&& guest < 32
    &&& must_move(t, guest, kind) ==> t[holder(t, guest, 16)->0].refcount == 0
    &&& guest_row(room, guest, kind) is Some
    &&& room[guest_row(room, guest, kind)->0].refcount < 255
}

/// The table after a row is taken for a guest register.
pub open spec fn guest_taken(t: Table, guest: u8, kind: RegKind, access: GuestAccess) -> Table {
    let (room, _) = made_room(t, guest, kind);
    let i = guest_row(room, guest, kind)->0;
    room.update(i, row_taken(room[i], RegAssignment::Guest { index: guest, access }))
}

/// The code that takes a row for a guest register.
pub open spec fn guest_code(t: Table, guest: u8, kind: RegKind, access: GuestAccess) -> Seq<
    HostInstr,
> {
    let (room, code) = made_room(t, guest, kind);
    let i = guest_row(room, guest, kind)->0;
    code + row_code(room[i], RegAssignment::Guest { index: guest, access })
}

/// The host register that is taken for a guest register.
pub open spec fn guest_host(t: Table, guest: u8, kind: RegKind) -> X86Reg {
    host_at(guest_row(made_room(t, guest, kind).0, guest, kind)->0)
}

/// The table after a row is taken for a value of no guest register.
pub open spec fn scratch_taken(t: Table) -> Table {
    let i = first_row(t, RegKind::CallerOrCallee, None, 0)->0;
    t.update(i, row_taken(t[i], RegAssignment::Scratch))
}

/// The code that takes a row for a value of no guest register.
pub open spec fn scratch_code(t: Table) -> Seq<HostInstr> {
    row_code(t[first_row(t, RegKind::CallerOrCallee, None, 0)->0], RegAssignment::Scratch)
}

/// The host register that is taken for a value of no guest register.
pub open spec fn scratch_host(t: Table) -> X86Reg {
    host_at(first_row(t, RegKind::CallerOrCallee, None, 0)->0)
}

/// The table after a given host register is taken.
pub open spec fn host_taken(t: Table, host: X86Reg) -> Table {
    let i = row_of(host);
    t.update(i, HostRegState { refcount: 1, ..row_vacated(t[i]) })
}

/// The table after a host register is released.
pub open spec fn released(t: Table, host: X86Reg) -> Table {
    let i = row_of(host);
    t.update(i, HostRegState { refcount: (t[i].refcount - 1) as u8, ..t[i] })
}

/// The code that brings memory up to date for the first `n` rows.
pub open spec fn write_backs(t: Table, n: int) -> Seq<HostInstr>
    decreases n,
{
    if n <= 0 {
        Seq::empty()
    } else {
        write_backs(t, n - 1) + t[n - 1].write_back()
    }
}

/// The table after memory is brought up to date. What is not in use counts as up to date.
pub open spec fn flushed(t: Table) -> Table {
    Seq::new(
        t.len(),
        |i: int|
            if t[i].refcount == 0 {
                HostRegState { dirty: false, ..t[i] }
            } else {
                t[i]
            },
    )
}

/// The table after the registers that a called function may change are given up.
pub open spec fn flushed_for_call(t: Table) -> Table {
    t.update(5, row_vacated(t[5])).update(6, row_vacated(t[6])).update(7, row_vacated(t[7]))
}

/// The code that brings memory up to date for the registers that a called function may change.
pub open spec fn call_write_backs(t: Table) -> Seq<HostInstr> {
    t[5].write_back() + t[6].write_back() + t[7].write_back()
}

/// Whether no row that is assigned freely and that a called function may change is in use.
pub open spec fn can_flush_for_call(t: Table) -> bool {
    t[5].refcount == 0 && t[6].refcount == 0 && t[7].refcount == 0
}

pub proof fn lemma_first_row(t: Table, kind: RegKind, guest: Option<u8>, k: int)
    requires
        0 <= k <= tries(kind),
    ensures
        match first_row(t, kind, guest, k) {
            Some(i) => 0 <= i < tries(kind) && wanted(t[i], guest),
            None => forall|j: int|
                k <= j < tries(kind) ==> !wanted(#[trigger] t[turn(kind, j)], guest),
        },
    decreases tries(kind) - k,
{
    if k < tries(kind) {
        lemma_first_row(t, kind, guest, k + 1);
    }
}

proof fn lemma_holder(t: Table, guest: u8, n: int)
    requires
        table_ok(t),
        0 <= n <= 16,
    ensures
        match holder(t, guest, n) {
            Some(i) => 0 <= i < n && t[i].guest == Some(guest),
            None => forall|j: int| 0 <= j < n ==> (#[trigger] t[j]).guest != Some(guest),
        },
    decreases n,
{
    if n > 0 {
        lemma_holder(t, guest, n - 1);
    }
}

/// Bringing memory up to date takes at most one instruction for each row.
pub proof fn lemma_write_backs_len(t: Table, n: int)
    requires
        0 <= n,
    ensures
        write_backs(t, n).len() <= n,
    decreases n,
{
    if n > 0 {
        lemma_write_backs_len(t, n - 1);
    }
}

/// Taking a row for a guest register keeps the table right: no guest register is ever held twice.
pub proof fn law_guest_taken_ok(t: Table, guest: u8, kind: RegKind, access: GuestAccess)
    requires
        table_ok(t),
        can_take_guest(t, guest, kind),
    ensures
        table_ok(made_room(t, guest, kind).0),
        table_ok(guest_taken(t, guest, kind, access)),
        ({
            let i = guest_row(made_room(t, guest, kind).0, guest, kind)->0;
            &&& 0 <= i < 8
            &&& made_room(t, guest, kind).0[i].guest == Some(guest)
                || made_room(t, guest, kind).0[i].refcount == 0
            &&& guest_taken(t, guest, kind, access)[i].guest == Some(guest)
            &&& row_of(guest_host(t, guest, kind)) == i
        }),
{
    lemma_holder(t, guest, 16);
    let (room, _) = made_room(t, guest, kind);
    if must_move(t, guest, kind) {
        let h = holder(t, guest, 16)->0;
        assert forall|i: int, j: int|
            0 <= i < 16 && 0 <= j < 16 && i != j && (#[trigger] room[i]).guest
                is Some implies room[i].guest != (#[trigger] room[j]).guest by {
            assert(i != h ==> room[i] == t[i]);
            assert(j != h ==> room[j] == t[j]);
        }
    }
    assert(table_ok(room));
    lemma_first_row(room, kind, Some(guest), 0);
    lemma_first_row(room, kind, None, 0);
    let i = guest_row(room, guest, kind)->0;
    let after = guest_taken(t, guest, kind, access);
    if first_row(room, kind, Some(guest), 0) is None {
        assert forall|j: int| 0 <= j < 16 implies (#[trigger] room[j]).guest != Some(guest) by {
            if j < 8 {
                if kind == RegKind::CallerOrCallee {
                    if j < 5 {
                        assert(turn(kind, j + 3) == j);
                    } else {
                        assert(turn(kind, j - 5) == j);
                    }
                } else {
                    if j < 5 {
                        assert(turn(kind, j) == j);
                    } else if must_move(t, guest, kind) {
                        let h = holder(t, guest, 16)->0;
                        assert(t[h].guest == Some(guest));
                        assert(j != h ==> room[j] == t[j]);
                        assert(j != h ==> t[j].guest != t[h].guest);
                    }
                }
            }
        }
    }
    assert forall|a: int, b: int|
        0 <= a < 16 && 0 <= b < 16 && a != b && (#[trigger] after[a]).guest
            is Some implies after[a].guest != (#[trigger] after[b]).guest by {
        assert(a != i ==> after[a] == room[a]);
        assert(b != i ==> after[b] == room[b]);
    }
    assert forall|a: int| 0 <= a < 16 implies (#[trigger] after[a]).host == host_at(a) by {
        assert(a != i ==> after[a] == room[a]);
    }
    assert forall|a: int| 0 <= a < 16 && (#[trigger] after[a]).dirty implies after[a].guest
        is Some by {
        assert(a != i ==> after[a] == room[a]);
    }
    assert forall|a: int| 0 <= a < 16 && (#[trigger] after[a]).guest is Some implies a < 8
        && after[a].guest->0 < 32 by {
        assert(a != i ==> after[a] == room[a]);
    }
}

/// Which guest registers the host registers hold.
pub struct RegAssign {
    /// Registers that a called function keeps.
    pub callee_saves: StateVec,
    /// Registers that a called function may change.
    pub caller_saves: StateVec,
    /// Registers that are used only when they are asked for.
    pub traces: StateVec,
}

impl View for RegAssign {
    type V = Table;

    closed spec fn view(&self) -> Table {
        state_vec::entries(self.callee_saves) + state_vec::entries(self.caller_saves)
            + state_vec::entries(self.traces)
    }
}

fn row_index(host: X86Reg) -> (r: usize)
    ensures
        r == row_of(host),
        r < 16,
        host_at(r as int) == host,
{
    match host {
        X86Reg::RBX => 0,
        X86Reg::R12 => 1,
        X86Reg::R13 => 2,
        X86Reg::R14 => 3,
        X86Reg::R15 => 4,
        X86Reg::RAX => 5,
        X86Reg::R10 => 6,
        X86Reg::R11 => 7,
        X86Reg::RDI => 8,
        X86Reg::RSI => 9,
        X86Reg::RDX => 10,
        X86Reg::RCX => 11,
        X86Reg::R8 => 12,
        X86Reg::R9 => 13,
        X86Reg::RBP => 14,
        X86Reg::RSP => 15,
    }
}

impl RegAssign {
    /// Whether the three parts have their lengths and the table is right.
    pub open spec fn wf(&self) -> bool {
        &&& state_vec::entries(self.callee_saves).len() == 5
        &&& state_vec::entries(self.caller_saves).len() == 3
        &&& state_vec::entries(self.traces).len() == 8
        &&& table_ok(self@)
    }

    /// Nothing is held.
    pub fn new() -> (r: RegAssign)
        ensures
            r.wf(),
            r@ == Seq::new(16, |i: int| HostRegState::unused(host_at(i))),
    {
        let mut callee_saves = StateVec::new();
        callee_saves.push(HostRegState::new(X86Reg::RBX));
        callee_saves.push(HostRegState::new(X86Reg::R12));
        callee_saves.push(HostRegState::new(X86Reg::R13));
        callee_saves.push(HostRegState::new(X86Reg::R14));
        callee_saves.push(HostRegState::new(X86Reg::R15));
        let mut caller_saves = StateVec::new();
        caller_saves.push(HostRegState::new(X86Reg::RAX));
        caller_saves.push(HostRegState::new(X86Reg::R10));
        caller_saves.push(HostRegState::new(X86Reg::R11));
        let mut traces = StateVec::new();
        traces.push(HostRegState::new(X86Reg::RDI));
        traces.push(HostRegState::new(X86Reg::RSI));
        traces.push(HostRegState::new(X86Reg::RDX));
        traces.push(HostRegState::new(X86Reg::RCX));
        traces.push(HostRegState::new(X86Reg::R8));
        traces.push(HostRegState::new(X86Reg::R9));
        traces.push(HostRegState::new(X86Reg::RBP));
        traces.push(HostRegState::new(X86Reg::RSP));
        let r = RegAssign { callee_saves, caller_saves, traces };
        assert(r@ =~= Seq::new(16, |i: int| HostRegState::unused(host_at(i))));
        r
    }

    fn row(&self, i: usize) -> (r: HostRegState)
        requires
            self.wf(),
            i < 16,
        ensures
            r == self@[i as int],
    {
        if i < 5 {
            self.callee_saves.at(i)
        } else if i < 8 {
            self.caller_saves.at(i - 5)
        } else {
            self.traces.at(i - 8)
        }
    }

    fn set_row(&mut self, i: usize, row: HostRegState)
        requires
            old(self).wf(),
            i < 16,
            table_ok(old(self)@.update(i as int, row)),
        ensures
            final(self).wf(),
            final(self)@ == old(self)@.update(i as int, row),
    {
        if i < 5 {
            self.callee_saves.put(i, row);
        } else if i < 8 {
            self.caller_saves.put(i - 5, row);
        } else {
            self.traces.put(i - 8, row);
        }
        assert(self@ =~= old(self)@.update(i as int, row));
    }

    /// The row that holds a guest register.
    pub fn guest_state(&self, guest: u8) -> (r: Option<HostRegState>)
        requires
            self.wf(),
        ensures
            r == match holder(self@, guest, 16) {
                Some(i) => Some(self@[i]),
                None => None,
            },
    {
        match self.find_guest(guest) {
            Some(i) => Some(self.row(i)),
            None => None,
        }
    }

    fn find_guest(&self, guest: u8) -> (r: Option<usize>)
        requires
            self.wf(),
        ensures
            match r {
                Some(i) => i < 16 && holder(self@, guest, 16) == Some(i as int),
                None => holder(self@, guest, 16) is None,
            },
    {
        let mut n: usize = 16;
        while n > 0
            invariant
                n <= 16,
                self.wf(),
                holder(self@, guest, 16) == holder(self@, guest, n as int),
            decreases n,
        {
            if self.row(n - 1).guest == Some(guest) {
                return Some(n - 1);
            }
            n = n - 1;
        }
        None
    }

    fn find_row(&self, kind: RegKind, guest: Option<u8>) -> (r: Option<usize>)
        requires
            self.wf(),
        ensures
            match r {
                Some(i) => i < 16 && first_row(self@, kind, guest, 0) == Some(i as int),
                None => first_row(self@, kind, guest, 0) is None,
            },
    {
        let count: usize = match kind {
            RegKind::Callee => 5,
            RegKind::CallerOrCallee => 8,
        };
        let mut k: usize = 0;
        while k < count
            invariant
                k <= count,
                count == tries(kind),
                self.wf(),
                first_row(self@, kind, guest, 0) == first_row(self@, kind, guest, k as int),
            decreases count - k,
        {
            let i: usize = match kind {
                RegKind::Callee => k,
                RegKind::CallerOrCallee => if k < 3 {
                    5 + k
                } else {
                    k - 3
                },
            };
            let row = self.row(i);
            let is_wanted = match guest {
                Some(g) => row.guest == Some(g),
                None => row.refcount == 0,
            };
            if is_wanted {
                return Some(i);
            }
            k = k + 1;
        }
        None
    }

    /// Takes a row for an assignment.
    fn take_row(&mut self, i: usize, assignment: RegAssignment, out: &mut X86Assembler)
        requires
            old(self).wf(),
            old(out).wf(),
            i < 16,
            old(self)@[i as int].refcount < 255,
            table_ok(old(self)@.update(i as int, row_taken(old(self)@[i as int], assignment))),
        ensures
            final(self).wf(),
            final(out).wf(),
            final(self)@ == old(self)@.update(
                i as int,
                row_taken(old(self)@[i as int], assignment),
            ),
            final(out)@ == old(out)@ + row_code(old(self)@[i as int], assignment),
    {
        let mut state = self.row(i);
        let ghost before = state;
        let (new_guest, reads, writes) = match assignment {
            RegAssignment::Scratch => (None, false, false),
            RegAssignment::Guest { index, access } => (
                Some(index),
                access.reads(),
                access.writes(),
            ),
        };
        if state.guest != new_guest {
            state.spill(out);
            state.guest = new_guest;
            state.dirty = writes;
            if reads {
                if let Some(guest) = new_guest {
                    out.mov_r64_rm64(state.host, reg_on_mem(guest));
                }
            }
        } else if writes {
            state.dirty = true;
        }
        assert(out@ =~= old(out)@ + row_code(before, assignment));
        state.refcount = state.refcount + 1;
        self.set_row(i, state);
    }

    /// Takes a host register for a value of no guest register.
    pub fn scratch(&mut self, out: &mut X86Assembler) -> (r: RegGuard)
        requires
            old(self).wf(),
            old(out).wf(),
            first_row(old(self)@, RegKind::CallerOrCallee, None, 0) is Some,
        ensures
            final(self).wf(),
            final(out).wf(),
            final(self)@ == scratch_taken(old(self)@),
            final(out)@ == old(out)@ + scratch_code(old(self)@),
            r.host == scratch_host(old(self)@),
    {
        proof {
            lemma_first_row(self@, RegKind::CallerOrCallee, None, 0);
        }
        match self.find_row(RegKind::CallerOrCallee, None) {
            Some(i) => {
                let host = self.row(i).host;
                proof {
                    lemma_scratch_taken_ok(self@);
                }
                self.take_row(i, RegAssignment::Scratch, out);
                RegGuard { host }
            },
            None => RegGuard { host: X86Reg::RAX },
        }
    }

    /// Takes a host register for a guest register.
    fn guest_with(
        &mut self,
        guest: u8,
        kind: RegKind,
        access: GuestAccess,
        out: &mut X86Assembler,
    ) -> (r:
        RegGuard)
        requires
            old(self).wf(),
            old(out).wf(),
            can_take_guest(old(self)@, guest, kind),
        ensures
            final(self).wf(),
            final(out).wf(),
            final(self)@ == guest_taken(old(self)@, guest, kind, access),
            final(out)@ == old(out)@ + guest_code(old(self)@, guest, kind, access),
            r.host == guest_host(old(self)@, guest, kind),
    {
        proof {
            law_guest_taken_ok(self@, guest, kind, access);
            lemma_holder(self@, guest, 16);
        }
        let ghost t = self@;
        let callee = match kind {
            RegKind::Callee => true,
            RegKind::CallerOrCallee => false,
        };
        if let Some(i) = self.find_guest(guest) {
            if callee && self.row(i).host.caller_save() {
                assert(i >= 5);
                let mut state = self.row(i);
                state.spill(out);
                state.guest = None;
                state.dirty = false;
                self.set_row(i, state);
            } else {
                assert(callee ==> i < 5);
            }
        }
        assert(self@ == made_room(t, guest, kind).0);
        assert(out@ =~= old(out)@ + made_room(t, guest, kind).1);
        let assignment = RegAssignment::Guest { index: guest, access };
        let row = match self.find_row(kind, Some(guest)) {
            Some(i) => Some(i),
            None => self.find_row(kind, None),
        };
        match row {
            Some(i) => {
                let host = self.row(i).host;
                self.take_row(i, assignment, out);
                assert(out@ =~= old(out)@ + guest_code(t, guest, kind, access));
                RegGuard { host }
            },
            None => RegGuard { host: X86Reg::RAX },
        }
    }

    /// Takes the host register of a row that is asked for by name. What it held is given up.
    pub fn host(&mut self, host: X86Reg, out: &mut X86Assembler) -> (r: RegGuard)
        requires
            old(self).wf(),
            old(out).wf(),
            old(self)@[row_of(host)].refcount == 0,
        ensures
            final(self).wf(),
            final(out).wf(),
            final(self)@ == host_taken(old(self)@, host),
            final(out)@ == old(out)@ + old(self)@[row_of(host)].write_back(),
            r.host == host,
    {
        let i: usize = row_index(host);
        let mut state = self.row(i);
        state.spill(out);
        state.refcount = state.refcount + 1;
        state.guest = None;
        state.dirty = false;
        proof {
            lemma_host_taken_ok(self@, host);
        }
        self.set_row(i, state);
        RegGuard { host }
    }

    /// Lets a host register be used for something else.
    pub fn release(&mut self, guard: RegGuard)
        requires
            old(self).wf(),
            old(self)@[row_of(guard.host)].refcount > 0,
        ensures
            final(self).wf(),
            final(self)@ == released(old(self)@, guard.host),
    {
        let i: usize = row_index(guard.host);
        let mut state = self.row(i);
        state.refcount = state.refcount - 1;
        proof {
            lemma_released_ok(self@, guard.host);
        }
        self.set_row(i, state);
    }

    /// Brings memory up to date, at the end of a block or before a call that may leave it.
    pub fn flush(&mut self, out: &mut X86Assembler)
        requires
            old(self).wf(),
            old(out).wf(),
        ensures
            final(self).wf(),
            final(out).wf(),
            final(self)@ == flushed(old(self)@),
            final(out)@ == old(out)@ + write_backs(old(self)@, 16),
    {
        let ghost t = self@;
        let mut i: usize = 0;
        assert(out@ =~= old(out)@ + write_backs(t, 0));
        while i < 16
            invariant
                i <= 16,
                self.wf(),
                out.wf(),
                t == old(self)@,
                table_ok(t),
                self@.len() == 16,
                forall|k: int| 0 <= k < i ==> #[trigger] self@[k] == flushed(t)[k],
                forall|k: int| i <= k < 16 ==> #[trigger] self@[k] == t[k],
                out@ == old(out)@ + write_backs(t, i as int),
            decreases 16 - i,
        {
            let mut state = self.row(i);
            assert(state == t[i as int]);
            state.spill(out);
            assert(out@ =~= old(out)@ + write_backs(t, i + 1));
            if state.refcount == 0 {
                state.dirty = false;
            }
            proof {
                lemma_update_ok(self@, i as int, state);
            }
            self.set_row(i, state);
            i = i + 1;
        }
        assert(self@ =~= flushed(t));
    }

    /// Gives up the host registers that a called function may change.
    pub fn flush_for_call(&mut self, out: &mut X86Assembler)
        requires
            old(self).wf(),
            old(out).wf(),
            can_flush_for_call(old(self)@),
        ensures
            final(self).wf(),
            final(out).wf(),
            final(self)@ == flushed_for_call(old(self)@),
            final(out)@ == old(out)@ + call_write_backs(old(self)@),
    {
        let ghost t = self@;
        self.vacate(5, out);
        self.vacate(6, out);
        self.vacate(7, out);
        assert(out@ =~= old(out)@ + call_write_backs(t));
    }

    fn vacate(&mut self, i: usize, out: &mut X86Assembler)
        requires
            old(self).wf(),
            old(out).wf(),
            i < 16,
        ensures
            final(self).wf(),
            final(out).wf(),
            final(self)@ == old(self)@.update(i as int, row_vacated(old(self)@[i as int])),
            final(out)@ == old(out)@ + old(self)@[i as int].write_back(),
    {
        let mut state = self.row(i);
        state.spill(out);
        state.guest = None;
        state.dirty = false;
        proof {
            lemma_update_ok(self@, i as int, state);
        }
        self.set_row(i, state);
    }

    /// Takes a host register with the value of a guest register.
    pub fn guest_read(&mut self, guest: u8, out: &mut X86Assembler) -> (r: RegGuard)
        requires
            old(self).wf(),
            old(out).wf(),
            can_take_guest(old(self)@, guest, RegKind::CallerOrCallee),
        ensures
            final(self).wf(),
            final(out).wf(),
            final(self)@ == guest_taken(
                old(self)@,
                guest,
                RegKind::CallerOrCallee,
                GuestAccess::ReadOnly,
            ),
            final(out)@ == old(out)@ + guest_code(
                old(self)@,
                guest,
                RegKind::CallerOrCallee,
                GuestAccess::ReadOnly,
            ),
            r.host == guest_host(old(self)@, guest, RegKind::CallerOrCallee),
    {
        self.guest_with(guest, RegKind::CallerOrCallee, GuestAccess::ReadOnly, out)
    }

    /// Takes a host register that a called function keeps, with the value of a guest register.
    pub fn guest_read_callee(&mut self, guest: u8, out: &mut X86Assembler) -> (r: RegGuard)
        requires
            old(self).wf(),
            old(out).wf(),
            can_take_guest(old(self)@, guest, RegKind::Callee),
        ensures
            final(self).wf(),
            final(out).wf(),
            final(self)@ == guest_taken(
                old(self)@,
                guest,
                RegKind::Callee,
                GuestAccess::ReadOnly,
            ),
            final(out)@ == old(out)@ + guest_code(
                old(self)@,
                guest,
                RegKind::Callee,
                GuestAccess::ReadOnly,
            ),
            r.host == guest_host(old(self)@, guest, RegKind::Callee),
    {
        self.guest_with(guest, RegKind::Callee, GuestAccess::ReadOnly, out)
    }

    /// Takes a host register for a new value of a guest register.
    pub fn guest_write(&mut self, guest: u8, out: &mut X86Assembler) -> (r: RegGuard)
        requires
            old(self).wf(),
            old(out).wf(),
            can_take_guest(old(self)@, guest, RegKind::CallerOrCallee),
        ensures
            final(self).wf(),
            final(out).wf(),
            final(self)@ == guest_taken(
                old(self)@,
                guest,
                RegKind::CallerOrCallee,
                GuestAccess::WriteOnly,
            ),
            final(out)@ == old(out)@ + guest_code(
                old(self)@,
                guest,
                RegKind::CallerOrCallee,
                GuestAccess::WriteOnly,
            ),
            r.host == guest_host(old(self)@, guest, RegKind::CallerOrCallee),
    {
        self.guest_with(guest, RegKind::CallerOrCallee, GuestAccess::WriteOnly, out)
    }

    /// Takes a host register that a called function keeps, for a new value of a guest register.
    pub fn guest_write_callee(&mut self, guest: u8, out: &mut X86Assembler) -> (r: RegGuard)
        requires
            old(self).wf(),
            old(out).wf(),
            can_take_guest(old(self)@, guest, RegKind::Callee),
        ensures
            final(self).wf(),
            final(out).wf(),
            final(self)@ == guest_taken(
                old(self)@,
                guest,
                RegKind::Callee,
                GuestAccess::WriteOnly,
            ),
            final(out)@ == old(out)@ + guest_code(
                old(self)@,
                guest,
                RegKind::Callee,
                GuestAccess::WriteOnly,
            ),
            r.host == guest_host(old(self)@, guest, RegKind::Callee),
    {
        self.guest_with(guest, RegKind::Callee, GuestAccess::WriteOnly, out)
    }

    /// Takes a host register with the value of a guest register, which changes.
    pub fn guest_read_write(&mut self, guest: u8, out: &mut X86Assembler) -> (r: RegGuard)
        requires
            old(self).wf(),
            old(out).wf(),
            can_take_guest(old(self)@, guest, RegKind::CallerOrCallee),
        ensures
            final(self).wf(),
            final(out).wf(),
            final(self)@ == guest_taken(
                old(self)@,
                guest,
                RegKind::CallerOrCallee,
                GuestAccess::ReadWrite,
            ),
            final(out)@ == old(out)@ + guest_code(
                old(self)@,
                guest,
                RegKind::CallerOrCallee,
                GuestAccess::ReadWrite,
            ),
            r.host == guest_host(old(self)@, guest, RegKind::CallerOrCallee),
    {
        self.guest_with(guest, RegKind::CallerOrCallee, GuestAccess::ReadWrite, out)
    }

    /// Takes a host register that a called function keeps, with the value of a guest register, which
    /// changes.
    pub fn guest_read_write_callee(&mut self, guest: u8, out: &mut X86Assembler) -> (r: RegGuard)
        requires
            old(self).wf(),
            old(out).wf(),
            can_take_guest(old(self)@, guest, RegKind::Callee),
        ensures
            final(self).wf(),
            final(out).wf(),
            final(self)@ == guest_taken(
                old(self)@,
                guest,
                RegKind::Callee,
                GuestAccess::ReadWrite,
            ),
            final(out)@ == old(out)@ + guest_code(
                old(self)@,
                guest,
                RegKind::Callee,
                GuestAccess::ReadWrite,
            ),
            r.host == guest_host(old(self)@, guest, RegKind::Callee),
    {
        self.guest_with(guest, RegKind::Callee, GuestAccess::ReadWrite, out)
    }
}

/// A table stays right when a row gives up what it holds or counts differently.
proof fn lemma_update_ok(t: Table, i: int, row: HostRegState)
    requires
        table_ok(t),
        0 <= i < 16,
        row.host == t[i].host,
        row.guest == t[i].guest || row.guest is None,
        row.dirty ==> row.guest is Some,
    ensures
        table_ok(t.update(i, row)),
{
    let after = t.update(i, row);
    assert forall|a: int, b: int|
        0 <= a < 16 && 0 <= b < 16 && a != b && (#[trigger] after[a]).guest
            is Some implies after[a].guest != (#[trigger] after[b]).guest by {
        assert(a != i ==> after[a] == t[a]);
        assert(b != i ==> after[b] == t[b]);
        assert(t[a].guest != t[b].guest);
    }
}

proof fn lemma_scratch_taken_ok(t: Table)
    requires
        table_ok(t),
        first_row(t, RegKind::CallerOrCallee, None, 0) is Some,
    ensures
        table_ok(scratch_taken(t)),
{
    lemma_first_row(t, RegKind::CallerOrCallee, None, 0);
    let i = first_row(t, RegKind::CallerOrCallee, None, 0)->0;
    lemma_update_ok(t, i, row_taken(t[i], RegAssignment::Scratch));
}

proof fn lemma_host_taken_ok(t: Table, host: X86Reg)
    requires
        table_ok(t),
    ensures
        table_ok(host_taken(t, host)),
{
    let i = row_of(host);
    lemma_update_ok(t, i, HostRegState { refcount: 1, ..row_vacated(t[i]) });
}

proof fn lemma_released_ok(t: Table, host: X86Reg)
    requires
        table_ok(t),
    ensures
        table_ok(released(t, host)),
{
    let i = row_of(host);
    lemma_update_ok(t, i, HostRegState { refcount: (t[i].refcount - 1) as u8, ..t[i] });
}

/// After memory is brought up to date, nothing that is not in use is newer than memory, and every
/// guest register that was held still is.
pub proof fn law_flush_keeps_guests(t: Table, i: int)
    requires
        table_ok(t),
        0 <= i < 16,
    ensures
        flushed(t)[i].guest == t[i].guest,
        t[i].refcount == 0 ==> !flushed(t)[i].dirty,
{
}

/// Before a call, only the guest registers in host registers that the called function keeps stay
/// held.
pub proof fn law_call_keeps_callee_saves(t: Table, i: int)
    requires
        table_ok(t),
        0 <= i < 16,
    ensures
        flushed_for_call(t)[i].guest is Some ==> !host_at(i).spec_caller_save()
            && flushed_for_call(t)[i] == t[i],
        i < 5 ==> flushed_for_call(t)[i] == t[i],
{
}

} // verus!
