//! The trace of function calls.
use std::collections::VecDeque;

use vstd::prelude::*;
use vstd::string::*;

use crate::isa::riscv::decoder::DecodeInstr;
use crate::isa::riscv::instruction::instr_table::RiscvInstr;
use crate::isa::riscv::instruction::RVInstrInfo;
use crate::load;
use crate::load::{SymTab, Symbol};

verus! {

/// How many calls and returns the trace keeps.
pub const MAX_FTRACE: usize = 1024;

/// A call of a function or a return into one.
#[derive(Debug, PartialEq)]
pub enum FuncTrace {
    Call { name: Option<String>, addr: u64 },
    Return { name: Option<String>, addr: u64 },
}

/// A call or a return as plain values.
pub struct TraceEntry {
    pub call: bool,
    pub name: Option<Seq<char>>,
    pub addr: u64,
}

pub open spec fn name_view(name: Option<String>) -> Option<Seq<char>> {
    match name {
        Some(n) => Some(n@),
        None => None,
    }
}

fn copy_name(name: &Option<String>) -> (r: Option<String>)
    ensures
        name_view(r) == name_view(*name),
{
    match name {
        Some(n) => Some(n.clone()),
        None => None,
    }
}

impl View for FuncTrace {
    type V = TraceEntry;

    open spec fn view(&self) -> TraceEntry {
        match *self {
            FuncTrace::Call { name, addr } => TraceEntry { call: true, name: name_view(name), addr },
            FuncTrace::Return { name, addr } => TraceEntry {
                call: false,
                name: name_view(name),
                addr,
            },
        }
    }
}

impl Clone for FuncTrace {
    fn clone(&self) -> (r: FuncTrace)
        ensures
            r@ == self@,
    {
        match self {
            FuncTrace::Call { name, addr } => FuncTrace::Call { name: copy_name(name), addr: *addr },
            FuncTrace::Return { name, addr } => FuncTrace::Return {
                name: copy_name(name),
                addr: *addr,
            },
        }
    }
}

/// The name of the function at an address, if a table has one.
pub open spec fn exact_name(symtab: Option<Seq<Symbol>>, addr: u64) -> Option<Seq<char>> {
    match symtab {
        Some(t) => match load::symbol_at(t, addr, t.len() as int) {
            Some(i) => Some(t[i].0),
            None => None,
        },
        None => None,
    }
}

/// The name of the function whose range an address lies in, if a table has one.
pub open spec fn range_name(symtab: Option<Seq<Symbol>>, addr: u64) -> Option<Seq<char>> {
    match symtab {
        Some(t) => match load::symbol_below(t, addr, t.len() as int) {
            Some(i) => Some(t[i].0),
            None => None,
        },
        None => None,
    }
}

/// What the trace gets from an instruction that went on to `pc`. A jump to the return address
/// returns; a jump that keeps its own address calls; a jump through register 6 is a tail call.
pub open spec fn traced(
    symtab: Option<Seq<Symbol>>,
    decoded: Option<DecodeInstr>,
    pc: u64,
) -> Option<TraceEntry> {
    match decoded {
        None => None,
        Some(d) => match d.info {
            RVInstrInfo::I { rs1, rd, imm } => if d.instr != RiscvInstr::JALR {
                None
            } else if rd == 0 && rs1 == 1 && imm == 0 {
                Some(TraceEntry { call: false, name: range_name(symtab, pc), addr: pc })
            } else if rd == 1 && rs1 == 1 {
                Some(TraceEntry { call: true, name: exact_name(symtab, pc), addr: pc })
            } else if rd == 0 && rs1 == 6 {
                Some(TraceEntry { call: true, name: range_name(symtab, pc), addr: pc })
            } else {
                None
            },
            RVInstrInfo::J { rd, .. } => if d.instr == RiscvInstr::JAL && rd == 1 {
                Some(TraceEntry { call: true, name: exact_name(symtab, pc), addr: pc })
            } else {
                None
            },
            _ => None,
        },
    }
}

fn find_exact(symtab: &Option<SymTab>, addr: u64) -> (r: Option<String>)
    ensures
        name_view(r) == exact_name(load::symtab_view(*symtab), addr),
{
    match symtab {
        Some(t) => match t.func_name_by_addr(addr) {
            Some(n) => Some(n.clone()),
            None => None,
        },
        None => None,
    }
}

fn find_range(symtab: &Option<SymTab>, addr: u64) -> (r: Option<String>)
    ensures
        name_view(r) == range_name(load::symtab_view(*symtab), addr),
{
    match symtab {
        Some(t) => match t.func_name_in_addr_range(addr) {
            Some(n) => Some(n.clone()),
            None => None,
        },
        None => None,
    }
}

fn is_instr(a: RiscvInstr, jalr: bool) -> (r: bool)
    ensures
        r == if jalr {
            a == RiscvInstr::JALR
        } else {
            a == RiscvInstr::JAL
        },
{
    match a {
        RiscvInstr::JALR => jalr,
        RiscvInstr::JAL => !jalr,
        _ => false,
    }
}

/// What the trace gets from an instruction that went on to `pc`.
pub fn ftrace_for_step(symtab: &Option<SymTab>, decoded_instr: Option<DecodeInstr>, pc: u64) -> (r:
    Option<FuncTrace>)
    ensures
        match traced(load::symtab_view(*symtab), decoded_instr, pc) {
            Some(e) => r is Some && r->0@ == e,
            None => r is None,
        },
{
    let d = match decoded_instr {
        Some(d) => d,
        None => {
            return None;
        },
    };
    match d.info {
        RVInstrInfo::I { rs1, rd, imm } => {
            if !is_instr(d.instr, true) {
                return None;
            }
            if rd == 0 && rs1 == 1 && imm == 0 {
                return Some(FuncTrace::Return { name: find_range(symtab, pc), addr: pc });
            }
            if rd == 1 && rs1 == 1 {
                return Some(FuncTrace::Call { name: find_exact(symtab, pc), addr: pc });
            }
            if rd == 0 && rs1 == 6 {
                return Some(FuncTrace::Call { name: find_range(symtab, pc), addr: pc });
            }
            None
        },
        RVInstrInfo::J { rd, imm: _ } => {
            if is_instr(d.instr, false) && rd == 1 {
                return Some(FuncTrace::Call { name: find_exact(symtab, pc), addr: pc });
            }
            None
        },
        _ => None,
    }
}

/// How often a function was called and returned into.
#[derive(Debug, Clone, Copy, PartialEq, Eq, Structural)]
pub struct FuncTraceStatEntry {
    pub calls: u64,
    pub returns: u64,
}

impl FuncTraceStatEntry {
    pub open spec fn counted(self, call: bool) -> FuncTraceStatEntry {
        if call {
            FuncTraceStatEntry { calls: self.calls.wrapping_add(1), ..self }
        } else {
            FuncTraceStatEntry { returns: self.returns.wrapping_add(1), ..self }
        }
    }

    fn count(self, call: bool) -> (r: FuncTraceStatEntry)
        ensures
            r == self.counted(call),
    {
        if call {
            FuncTraceStatEntry { calls: self.calls.wrapping_add(1), returns: self.returns }
        } else {
            FuncTraceStatEntry { calls: self.calls, returns: self.returns.wrapping_add(1) }
        }
    }
}

impl Default for FuncTraceStatEntry {
    fn default() -> (r: FuncTraceStatEntry)
        ensures
            r.calls == 0,
            r.returns == 0,
    {
        FuncTraceStatEntry { calls: 0, returns: 0 }
    }
}

/// Whether a name comes before another in the order of the characters, from index `i` on.
pub open spec fn name_less(a: Seq<char>, b: Seq<char>, i: int) -> bool
    decreases b.len() - i,
{
    if i < 0 || i >= b.len() {
        false
    } else if i >= a.len() {
        true
    } else if a[i] != b[i] {
        a[i] < b[i]
    } else {
        name_less(a, b, i + 1)
    }
}

/// One of two different names comes first, and not both do.
pub proof fn law_names_ordered(a: Seq<char>, b: Seq<char>, i: int)
    requires
        0 <= i <= a.len(),
        i <= b.len(),
        a.take(i) == b.take(i),
    ensures
        !(name_less(a, b, i) && name_less(b, a, i)),
        name_less(a, b, i) || name_less(b, a, i) || a == b,
        a == b ==> !name_less(a, b, i),
    decreases a.len() - i,
{
    if i < a.len() && i < b.len() && a[i] == b[i] {
        assert(a.take(i + 1) =~= b.take(i + 1)) by {
            assert forall|j: int| 0 <= j < i + 1 implies a[j] == b[j] by {
                if j < i {
                    assert(a[j] == a.take(i)[j]);
                    assert(b[j] == b.take(i)[j]);
                }
            }
        }
        law_names_ordered(a, b, i + 1);
    } else if i == a.len() && i == b.len() {
        assert(a =~= a.take(i));
        assert(b =~= b.take(i));
    }
}

/// The order of the names is transitive.
pub proof fn law_names_transitive(a: Seq<char>, b: Seq<char>, c: Seq<char>, i: int)
    requires
        0 <= i,
        name_less(a, b, i),
        name_less(b, c, i),
    ensures
        name_less(a, c, i),
    decreases b.len() - i,
{
    if i < a.len() && i < b.len() && i < c.len() && a[i] == b[i] && b[i] == c[i] {
        law_names_transitive(a, b, c, i + 1);
    }
}

fn comes_before(a: &String, b: &String) -> (r: bool)
    ensures
        r == name_less(a@, b@, 0),
{
    let x: &str = a.as_str();
    let y: &str = b.as_str();
    let n: usize = x.unicode_len();
    let m: usize = y.unicode_len();
    let mut i: usize = 0;
    while i < m
        invariant
            i <= m,
            n == x@.len(),
            m == y@.len(),
            x@ == a@,
            y@ == b@,
            name_less(a@, b@, 0) == name_less(a@, b@, i as int),
        decreases m - i,
    {
        if i >= n {
            return true;
        }
        let c: char = x.get_char(i);
        let d: char = y.get_char(i);
        if c != d {
            return c < d;
        }
        i = i + 1;
    }
    false
}

/// A row of the counts as plain values.
pub type StatRow = (Seq<char>, FuncTraceStatEntry);

/// The first row, from `i` on, whose name does not come before `name`.
pub open spec fn row_place(rows: Seq<StatRow>, name: Seq<char>, i: int) -> int
    decreases rows.len() - i,
{
    if i < 0 || i >= rows.len() || !name_less(rows[i].0, name, 0) {
        i
    } else {
        row_place(rows, name, i + 1)
    }
}

/// The rows after one more call or return of a function. A function without a row gets one in its
/// place in the order.
pub open spec fn rows_counted(rows: Seq<StatRow>, name: Seq<char>, call: bool) -> Seq<StatRow> {
    let i = row_place(rows, name, 0);
    if i < rows.len() && rows[i].0 == name {
        rows.update(i, (name, rows[i].1.counted(call)))
    } else {
        rows.insert(i, (name, FuncTraceStatEntry { calls: 0, returns: 0 }.counted(call)))
    }
}

/// Whether rows are in the order of their names, each name once.
pub open spec fn rows_sorted(rows: Seq<StatRow>) -> bool {
    forall|i: int, j: int|
        0 <= i < j < rows.len() ==> name_less((#[trigger] rows[i]).0, (#[trigger] rows[j]).0, 0)
}

proof fn lemma_row_place(rows: Seq<StatRow>, name: Seq<char>, i: int)
    requires
        0 <= i <= rows.len(),
    ensures
        i <= row_place(rows, name, i) <= rows.len(),
        forall|j: int|
            i <= j < row_place(rows, name, i) ==> name_less((#[trigger] rows[j]).0, name, 0),
        row_place(rows, name, i) < rows.len() ==> !name_less(
            rows[row_place(rows, name, i)].0,
            name,
            0,
        ),
    decreases rows.len() - i,
{
    if i < rows.len() && name_less(rows[i].0, name, 0) {
        lemma_row_place(rows, name, i + 1);
    }
}

/// Counting keeps the rows in order, each name once.
pub proof fn law_rows_stay_sorted(rows: Seq<StatRow>, name: Seq<char>, call: bool)
    requires
        rows_sorted(rows),
    ensures
        rows_sorted(rows_counted(rows, name, call)),
{
    lemma_row_place(rows, name, 0);
    let p = row_place(rows, name, 0);
    let after = rows_counted(rows, name, call);
    if p < rows.len() {
        assert(rows[p].0.take(0) =~= name.take(0));
        law_names_ordered(rows[p].0, name, 0);
    }
    if p < rows.len() && rows[p].0 == name {
        assert forall|i: int, j: int| 0 <= i < j < after.len() implies name_less(
            (#[trigger] after[i]).0,
            (#[trigger] after[j]).0,
            0,
        ) by {
            assert(after[i].0 == rows[i].0);
            assert(after[j].0 == rows[j].0);
        }
    } else {
        assert forall|i: int, j: int| 0 <= i < j < after.len() implies name_less(
            (#[trigger] after[i]).0,
            (#[trigger] after[j]).0,
            0,
        ) by {
            if i < p && j > p {
                assert(after[i] == rows[i]);
                assert(after[j] == rows[j - 1]);
            } else if j < p {
                assert(after[i] == rows[i]);
                assert(after[j] == rows[j]);
            } else if i > p {
                assert(after[i] == rows[i - 1]);
                assert(after[j] == rows[j - 1]);
            } else if j == p {
                assert(after[i] == rows[i]);
            } else {
                assert(after[j] == rows[j - 1]);
                if j - 1 > p {
                    assert(name_less(rows[p].0, rows[j - 1].0, 0));
                    law_names_transitive(name, rows[p].0, rows[j - 1].0, 0);
                }
            }
        }
    }
}

/// The counts as plain values.
#[verifier::ext_equal]
pub struct StatsState {
    pub call_count: u64,
    pub return_count: u64,
    pub unknown_calls: u64,
    pub unknown_returns: u64,
    pub per_func: Seq<StatRow>,
}

impl StatsState {
    /// No calls and no returns.
    pub open spec fn none() -> StatsState {
        StatsState {
            call_count: 0,
            return_count: 0,
            unknown_calls: 0,
            unknown_returns: 0,
            per_func: Seq::empty(),
        }
    }

    /// The counts after one more call or return.
    pub open spec fn recorded(self, e: TraceEntry) -> StatsState {
        let named = match e.name {
            Some(name) => StatsState {
                per_func: rows_counted(self.per_func, name, e.call),
                ..self
            },
            None => if e.call {
                StatsState { unknown_calls: self.unknown_calls.wrapping_add(1), ..self }
            } else {
                StatsState { unknown_returns: self.unknown_returns.wrapping_add(1), ..self }
            },
        };
        if e.call {
            StatsState { call_count: self.call_count.wrapping_add(1), ..named }
        } else {
            StatsState { return_count: self.return_count.wrapping_add(1), ..named }
        }
    }
}

pub open spec fn rows_view(rows: Seq<(String, FuncTraceStatEntry)>) -> Seq<StatRow> {
    Seq::new(rows.len(), |i: int| (rows[i].0@, rows[i].1))
}

/// Counts of calls and returns, for each function and in all. They count modulo 2^64.
#[derive(Debug)]
pub struct FtraceStats {
    pub call_count: u64,
    pub return_count: u64,
    pub unknown_calls: u64,
    pub unknown_returns: u64,
    pub per_func: Vec<(String, FuncTraceStatEntry)>,
}

impl View for FtraceStats {
    type V = StatsState;

    open spec fn view(&self) -> StatsState {
        StatsState {
            call_count: self.call_count,
            return_count: self.return_count,
            unknown_calls: self.unknown_calls,
            unknown_returns: self.unknown_returns,
            per_func: rows_view(self.per_func@),
        }
    }
}

/// The counts at a moment.
#[derive(Debug, Clone, PartialEq, Eq)]
pub struct FtraceStatsSnapshot {
    pub enabled: bool,
    pub queue_len: usize,
    pub call_count: u64,
    pub return_count: u64,
    pub unknown_calls: u64,
    pub unknown_returns: u64,
    pub per_func: Vec<(String, FuncTraceStatEntry)>,
}

impl FtraceStatsSnapshot {
    /// The counts as plain values.
    pub open spec fn stats(&self) -> StatsState {
        StatsState {
            call_count: self.call_count,
            return_count: self.return_count,
            unknown_calls: self.unknown_calls,
            unknown_returns: self.unknown_returns,
            per_func: rows_view(self.per_func@),
        }
    }
}

impl FtraceStats {
    pub fn new() -> (r: FtraceStats)
        ensures
            r@ == StatsState::none(),
    {
        let r = FtraceStats {
            call_count: 0,
            return_count: 0,
            unknown_calls: 0,
            unknown_returns: 0,
            per_func: Vec::new(),
        };
        assert(r@ =~= StatsState::none());
        r
    }

    /// Counts a call or a return of a function.
    fn count_named(&mut self, name: &String, call: bool)
        ensures
            final(self)@ == (StatsState {
                per_func: rows_counted(old(self)@.per_func, name@, call),
                ..old(self)@
            }),
    {
        let ghost rows = self@.per_func;
        let mut i: usize = 0;
        while i < self.per_func.len() && comes_before(&self.per_func[i].0, name)
            invariant
                i <= self.per_func.len(),
                *self == *old(self),
                rows == self@.per_func,
                row_place(rows, name@, 0) == row_place(rows, name@, i as int),
            decreases self.per_func.len() - i,
        {
            i = i + 1;
        }
        if i < self.per_func.len() && self.per_func[i].0 == *name {
            let entry = self.per_func[i].1;
            self.per_func.set(i, (name.clone(), entry.count(call)));
            assert(rows_view(self.per_func@) =~= rows_counted(rows, name@, call));
        } else {
            let entry = FuncTraceStatEntry { calls: 0, returns: 0 };
            self.per_func.insert(i, (name.clone(), entry.count(call)));
            assert(rows_view(self.per_func@) =~= rows_counted(rows, name@, call));
        }
    }

    /// Counts a call or a return.
    pub fn record(&mut self, trace: &FuncTrace)
        ensures
            final(self)@ == old(self)@.recorded(trace@),
    {
        match trace {
            FuncTrace::Call { name, addr: _ } => {
                match name {
                    Some(name) => self.count_named(name, true),
                    None => {
                        self.unknown_calls = self.unknown_calls.wrapping_add(1);
                    },
                }
                self.call_count = self.call_count.wrapping_add(1);
            },
            FuncTrace::Return { name, addr: _ } => {
                match name {
                    Some(name) => self.count_named(name, false),
                    None => {
                        self.unknown_returns = self.unknown_returns.wrapping_add(1);
                    },
                }
                self.return_count = self.return_count.wrapping_add(1);
            },
        }
    }

    /// The counts at this moment.
    pub fn snapshot(&self, enabled: bool, queue_len: usize) -> (r: FtraceStatsSnapshot)
        ensures
            r.enabled == enabled,
            r.queue_len == queue_len,
            r.stats() == self@,
    {
        let mut rows: Vec<(String, FuncTraceStatEntry)> = Vec::new();
        let mut i: usize = 0;
        while i < self.per_func.len()
            invariant
                i <= self.per_func.len(),
                rows_view(rows@) =~= self@.per_func.take(i as int),
            decreases self.per_func.len() - i,
        {
            let ghost before = rows@;
            rows.push((self.per_func[i].0.clone(), self.per_func[i].1));
            assert(rows_view(rows@) =~= rows_view(before).push(self@.per_func[i as int]));
            assert(self@.per_func.take(i + 1) =~= self@.per_func.take(i as int).push(
                self@.per_func[i as int],
            ));
            i = i + 1;
        }
        assert(rows_view(rows@) =~= self@.per_func);
        FtraceStatsSnapshot {
            enabled,
            queue_len,
            call_count: self.call_count,
            return_count: self.return_count,
            unknown_calls: self.unknown_calls,
            unknown_returns: self.unknown_returns,
            per_func: rows,
        }
    }
}

/// The trace as plain values.
#[verifier::ext_equal]
pub struct FtraceModel {
    pub enabled: bool,
    pub queue: Seq<TraceEntry>,
    pub stats: StatsState,
}

/// A bounded queue after an element is added. One that gets too long forgets its oldest element.
pub open spec fn bounded_push<T>(s: Seq<T>, x: T, bound: int) -> Seq<T> {
    if s.len() + 1 > bound {
        s.push(x).skip(1)
    } else {
        s.push(x)
    }
}

/// The last elements of a sequence, at most `n`.
pub open spec fn latest<T>(s: Seq<T>, n: int) -> Seq<T> {
    s.skip(
        if s.len() > n {
            s.len() - n
        } else {
            0
        },
    )
}

/// A bounded queue holds the last elements that were added, as many as the bound says.
pub proof fn law_queue_keeps_latest<T>(all: Seq<T>, x: T, bound: int)
    requires
        bound > 0,
    ensures
        bounded_push(latest(all, bound), x, bound) == latest(all.push(x), bound),
{
    assert(bounded_push(latest(all, bound), x, bound) =~= latest(all.push(x), bound));
}

impl FtraceModel {
    /// The trace after one more call or return. A trace that is not running does not change; one
    /// that is full forgets the oldest entry, but its counts do not.
    pub open spec fn recorded(self, e: TraceEntry) -> FtraceModel {
        if self.enabled {
            FtraceModel {
                queue: bounded_push(self.queue, e, MAX_FTRACE as int),
                stats: self.stats.recorded(e),
                ..self
            }
        } else {
            self
        }
    }

    /// What the trace gets from an instruction that went on to `pc`.
    pub open spec fn followed(
        self,
        symtab: Option<Seq<Symbol>>,
        decoded: Option<DecodeInstr>,
        pc: u64,
    ) -> FtraceModel {
        match traced(symtab, decoded, pc) {
            Some(e) => self.recorded(e),
            None => self,
        }
    }
}

/// The calls that rows count, without any wrap.
pub open spec fn sum_calls(rows: Seq<StatRow>) -> nat
    decreases rows.len(),
{
    if rows.len() == 0 {
        0
    } else {
        sum_calls(rows.drop_last()) + rows.last().1.calls as nat
    }
}

/// The returns that rows count, without any wrap.
pub open spec fn sum_returns(rows: Seq<StatRow>) -> nat
    decreases rows.len(),
{
    if rows.len() == 0 {
        0
    } else {
        sum_returns(rows.drop_last()) + rows.last().1.returns as nat
    }
}

/// Rows with one row replaced count the difference more.
proof fn lemma_sums_update(rows: Seq<StatRow>, i: int, row: StatRow)
    requires
        0 <= i < rows.len(),
    ensures
        sum_calls(rows.update(i, row)) == sum_calls(rows) - rows[i].1.calls + row.1.calls,
        sum_returns(rows.update(i, row)) == sum_returns(rows) - rows[i].1.returns + row.1.returns,
    decreases rows.len(),
{
    let after = rows.update(i, row);
    if i == rows.len() - 1 {
        assert(after.drop_last() =~= rows.drop_last());
    } else {
        lemma_sums_update(rows.drop_last(), i, row);
        assert(after.drop_last() =~= rows.drop_last().update(i, row));
    }
}

/// Rows with one row more count what it counts more.
proof fn lemma_sums_insert(rows: Seq<StatRow>, i: int, row: StatRow)
    requires
        0 <= i <= rows.len(),
    ensures
        sum_calls(rows.insert(i, row)) == sum_calls(rows) + row.1.calls,
        sum_returns(rows.insert(i, row)) == sum_returns(rows) + row.1.returns,
    decreases rows.len(),
{
    let after = rows.insert(i, row);
    if i == rows.len() {
        assert(after.drop_last() =~= rows);
    } else {
        lemma_sums_insert(rows.drop_last(), i, row);
        assert(after.drop_last() =~= rows.drop_last().insert(i, row));
        assert(after.last() == rows.last());
    }
}

/// No row counts more than all rows together.
proof fn lemma_sums_bound(rows: Seq<StatRow>, i: int)
    requires
        0 <= i < rows.len(),
    ensures
        rows[i].1.calls <= sum_calls(rows),
        rows[i].1.returns <= sum_returns(rows),
    decreases rows.len(),
{
    if i < rows.len() - 1 {
        lemma_sums_bound(rows.drop_last(), i);
    }
}

impl StatsState {
    /// Whether the counts fit together after `n` calls and returns: each is counted in all and
    /// either for its function or as unknown; the functions are in order, and each was called or
    /// returned into.
    pub open spec fn adds_up(self, n: nat) -> bool {
        &&& self.call_count + self.return_count == n
        &&& self.call_count == self.unknown_calls + sum_calls(self.per_func)
        &&& self.return_count == self.unknown_returns + sum_returns(self.per_func)
        &&& rows_sorted(self.per_func)
        &&& forall|i: int|
            0 <= i < self.per_func.len() ==> (#[trigger] self.per_func[i]).1.calls
                + self.per_func[i].1.returns > 0
    }
}

proof fn lemma_recorded_adds_up(s: StatsState, e: TraceEntry, n: nat)
    requires
        s.adds_up(n),
        n < u64::MAX,
    ensures
        s.recorded(e).adds_up(n + 1),
{
    if let Some(name) = e.name {
        let rows = s.per_func;
        let after = rows_counted(rows, name, e.call);
        lemma_row_place(rows, name, 0);
        law_rows_stay_sorted(rows, name, e.call);
        let i = row_place(rows, name, 0);
        if i < rows.len() && rows[i].0 == name {
            lemma_sums_update(rows, i, (name, rows[i].1.counted(e.call)));
            lemma_sums_bound(rows, i);
            assert forall|k: int| 0 <= k < after.len() implies (#[trigger] after[k]).1.calls
                + after[k].1.returns > 0 by {
                if k != i {
                    assert(after[k] == rows[k]);
                }
                assert(rows[k].1.calls + rows[k].1.returns > 0);
            }
        } else {
            let row = (name, FuncTraceStatEntry { calls: 0, returns: 0 }.counted(e.call));
            lemma_sums_insert(rows, i, row);
            assert forall|k: int| 0 <= k < after.len() implies (#[trigger] after[k]).1.calls
                + after[k].1.returns > 0 by {
                if k < i {
                    assert(after[k] == rows[k]);
                } else if k > i {
                    assert(after[k] == rows[k - 1]);
                }
            }
        }
    }
}

impl FtraceModel {
    /// A trace that was just started.
    pub open spec fn started() -> FtraceModel {
        FtraceModel { enabled: true, queue: Seq::empty(), stats: StatsState::none() }
    }

    /// The trace after one call or return after the other.
    pub open spec fn recorded_all(self, entries: Seq<TraceEntry>) -> FtraceModel
        decreases entries.len(),
    {
        if entries.len() == 0 {
            self
        } else {
            self.recorded_all(entries.drop_last()).recorded(entries.last())
        }
    }
}

/// A trace since it was started: it keeps the latest calls and returns, counts all of them, and
/// its counts fit together. (The counts are words: this holds while none of them wraps.)
pub proof fn law_trace_adds_up(entries: Seq<TraceEntry>)
    requires
        entries.len() <= u64::MAX,
    ensures
        ({
            let t = FtraceModel::started().recorded_all(entries);
            &&& t.enabled
            &&& t.queue == latest(entries, MAX_FTRACE as int)
            &&& t.queue.len() == if entries.len() < MAX_FTRACE {
                entries.len() as int
            } else {
                MAX_FTRACE as int
            }
            &&& t.stats.adds_up(entries.len())
        }),
    decreases entries.len(),
{
    if entries.len() == 0 {
        assert(latest(entries, MAX_FTRACE as int) =~= Seq::<TraceEntry>::empty());
        assert(sum_calls(StatsState::none().per_func) == 0);
        assert(sum_returns(StatsState::none().per_func) == 0);
    } else {
        let before = entries.drop_last();
        law_trace_adds_up(before);
        law_queue_keeps_latest(before, entries.last(), MAX_FTRACE as int);
        assert(before.push(entries.last()) =~= entries);
        lemma_recorded_adds_up(
            FtraceModel::started().recorded_all(before).stats,
            entries.last(),
            before.len(),
        );
    }
}

pub open spec fn queue_view(queue: Seq<FuncTrace>) -> Seq<TraceEntry> {
    Seq::new(queue.len(), |i: int| queue[i]@)
}

/// The trace of function calls.
#[derive(Debug)]
pub struct FtraceState {
    pub enabled: bool,
    pub queue: VecDeque<FuncTrace>,
    pub stats: FtraceStats,
}

impl View for FtraceState {
    type V = FtraceModel;

    open spec fn view(&self) -> FtraceModel {
        FtraceModel {
            enabled: self.enabled,
            queue: queue_view(self.queue@),
            stats: self.stats@,
        }
    }
}

impl FtraceState {
    /// A trace that does not run.
    pub fn new() -> (r: FtraceState)
        ensures
            r@ == (FtraceModel {
                enabled: false,
                queue: Seq::empty(),
                stats: StatsState::none(),
            }),
    {
        let r = FtraceState {
            enabled: false,
            queue: VecDeque::with_capacity(MAX_FTRACE),
            stats: FtraceStats::new(),
        };
        assert(r@.queue =~= Seq::empty());
        r
    }

    /// Starts the trace anew.
    pub fn start(&mut self)
        ensures
            final(self)@ == (FtraceModel {
                enabled: true,
                queue: Seq::empty(),
                stats: StatsState::none(),
            }),
    {
        self.enabled = true;
        self.queue.clear();
        self.stats = FtraceStats::new();
        assert(self@.queue =~= Seq::empty());
    }

    /// Stops the trace and keeps what it has.
    pub fn stop(&mut self)
        ensures
            final(self)@ == (FtraceModel { enabled: false, ..old(self)@ }),
    {
        self.enabled = false;
    }

    pub fn enabled(&self) -> (r: bool)
        ensures
            r == self@.enabled,
    {
        self.enabled
    }

    /// Adds a call or a return.
    pub fn record(&mut self, trace: FuncTrace)
        ensures
            final(self)@ == old(self)@.recorded(trace@),
    {
        if !self.enabled {
            return;
        }
        let ghost before = self@.queue;
        self.stats.record(&trace);
        self.queue.push_back(trace);
        assert(queue_view(self.queue@) =~= before.push(trace@));
        if self.queue.len() > MAX_FTRACE {
            let _ = self.queue.pop_front();
            assert(queue_view(self.queue@) =~= before.push(trace@).skip(1));
        }
    }

    /// The entries, the oldest first.
    pub fn entries(&self) -> (r: Vec<FuncTrace>)
        ensures
            queue_view(r@) == self@.queue,
    {
        let mut out: Vec<FuncTrace> = Vec::new();
        let mut i: usize = 0;
        while i < self.queue.len()
            invariant
                i <= self.queue@.len(),
                queue_view(out@) =~= self@.queue.take(i as int),
            decreases self.queue@.len() - i,
        {
            let ghost before = out@;
            out.push(self.queue[i].clone());
            assert(queue_view(out@) =~= queue_view(before).push(self@.queue[i as int]));
            assert(self@.queue.take(i + 1) =~= self@.queue.take(i as int).push(
                self@.queue[i as int],
            ));
            i = i + 1;
        }
        assert(queue_view(out@) =~= self@.queue);
        out
    }

    /// The counts at this moment.
    pub fn snapshot(&self) -> (r: FtraceStatsSnapshot)
        ensures
            r.enabled == self@.enabled,
            r.queue_len == self@.queue.len(),
            r.stats() == self@.stats,
    {
        self.stats.snapshot(self.enabled, self.queue.len())
    }
}

} // verus!
