//! Counts of what the translation and its code did.
use vstd::prelude::*;

use crate::isa::riscv::instruction::instr_table::RiscvInstr;
use crate::isa::riscv::trap::Exception;

verus! {

/// Why the translation of a block ended.
#[derive(Debug, Clone, Copy, PartialEq, Eq, Structural)]
pub enum TranslationStop {
    DecodeFailure,
    UnsupportedInstruction(RiscvInstr),
    InstructionLimit,
    ControlFlow,
}

/// How often a key occurs in rows of keys and counts.
pub open spec fn row_count<K>(rows: Seq<(K, u64)>, key: K, n: int) -> u64
    decreases n,
{
    if n <= 0 {
        0
    } else if rows[n - 1].0 == key {
        rows[n - 1].1
    } else {
        row_count(rows, key, n - 1)
    }
}

/// Whether no key has two rows.
pub open spec fn keys_differ<K>(rows: Seq<(K, u64)>) -> bool {
    forall|i: int, j: int|
        0 <= i < rows.len() && 0 <= j < rows.len() && i != j ==> (#[trigger] rows[i]).0 != (
        #[trigger] rows[j]).0
}

/// The rows after one more occurrence of a key.
pub open spec fn counted<K>(rows: Seq<(K, u64)>, key: K) -> Seq<(K, u64)> {
    if exists|i: int| 0 <= i < rows.len() && (#[trigger] rows[i]).0 == key {
        let at = choose|i: int| 0 <= i < rows.len() && (#[trigger] rows[i]).0 == key;
        rows.update(at, (key, rows[at].1.wrapping_add(1)))
    } else {
        rows.push((key, 1))
    }
}

proof fn lemma_row_count<K>(rows: Seq<(K, u64)>, key: K, n: int)
    requires
        keys_differ(rows),
        0 <= n <= rows.len(),
    ensures
        forall|i: int|
            0 <= i < n && (#[trigger] rows[i]).0 == key ==> row_count(rows, key, n) == rows[i].1,
        (forall|i: int| 0 <= i < n ==> (#[trigger] rows[i]).0 != key) ==> row_count(rows, key, n)
            == 0,
    decreases n,
{
    if n > 0 {
        lemma_row_count(rows, key, n - 1);
    }
}

/// Counting a key adds one to its count, modulo 2^64, and leaves the other counts as they are.
pub proof fn law_counting<K>(rows: Seq<(K, u64)>, key: K, other: K)
    requires
        keys_differ(rows),
    ensures
        keys_differ(counted(rows, key)),
        row_count(counted(rows, key), key, counted(rows, key).len() as int) == row_count(
            rows,
            key,
            rows.len() as int,
        ).wrapping_add(1),
        other != key ==> row_count(counted(rows, key), other, counted(rows, key).len() as int)
            == row_count(rows, other, rows.len() as int),
{
    let after = counted(rows, key);
    let n = rows.len() as int;
    lemma_row_count(rows, key, n);
    lemma_row_count(rows, other, n);
    if exists|i: int| 0 <= i < rows.len() && (#[trigger] rows[i]).0 == key {
        let at = choose|i: int| 0 <= i < rows.len() && (#[trigger] rows[i]).0 == key;
        assert forall|i: int| 0 <= i < n implies (#[trigger] after[i]).0 == rows[i].0 by {}
        assert(keys_differ(after)) by {
            assert forall|i: int, j: int|
                0 <= i < after.len() && 0 <= j < after.len() && i != j implies (
            #[trigger] after[i]).0 != (#[trigger] after[j]).0 by {
                assert(rows[i].0 != rows[j].0);
            }
        }
        lemma_row_count(after, key, n);
        lemma_row_count(after, other, n);
        assert(after[at].1 == rows[at].1.wrapping_add(1));
        if other != key {
            if exists|i: int| 0 <= i < n && (#[trigger] rows[i]).0 == other {
                let k = choose|i: int| 0 <= i < n && (#[trigger] rows[i]).0 == other;
                assert(after[k] == rows[k]);
            }
        }
    } else {
        assert(keys_differ(after)) by {
            assert forall|i: int, j: int|
                0 <= i < after.len() && 0 <= j < after.len() && i != j implies (
            #[trigger] after[i]).0 != (#[trigger] after[j]).0 by {
                if i < n && j < n {
                    assert(rows[i].0 != rows[j].0);
                } else if i < n {
                    assert(rows[i].0 != key);
                } else if j < n {
                    assert(rows[j].0 != key);
                }
            }
        }
        lemma_row_count(after, key, n + 1);
        lemma_row_count(after, other, n + 1);
        assert(after[n].0 == key);
        if other != key {
            if exists|i: int| 0 <= i < n && (#[trigger] rows[i]).0 == other {
                let k = choose|i: int| 0 <= i < n && (#[trigger] rows[i]).0 == other;
                assert(after[k] == rows[k]);
            } else {
                assert forall|i: int| 0 <= i < n + 1 implies (#[trigger] after[i]).0 != other by {
                    if i < n {
                        assert(rows[i].0 != other);
                    }
                }
            }
        }
    }
}

/// What is counted of translations and of blocks that an exception left.
pub struct DetailedStats {
    pub unsupported_instrs: Vec<(RiscvInstr, u64)>,
    pub fetch_decode_failures: u64,
    pub instruction_limit_blocks: u64,
    pub control_flow_blocks: u64,
    pub translated_blocks: u64,
    pub translated_instrs: u64,
    pub compiled_cache_hits: u64,
    pub exception_exits: u64,
    pub exception_retired_instrs: u64,
    pub exception_causes: Vec<(Exception, u64)>,
}

/// The counts as plain values.
#[verifier::ext_equal]
pub struct StatsModel {
    pub executed_blocks: u64,
    pub retired_instrs: u64,
    pub unsupported_instrs: Seq<(RiscvInstr, u64)>,
    pub fetch_decode_failures: u64,
    pub instruction_limit_blocks: u64,
    pub control_flow_blocks: u64,
    pub translated_blocks: u64,
    pub translated_instrs: u64,
    pub compiled_cache_hits: u64,
    pub exception_exits: u64,
    pub exception_retired_instrs: u64,
    pub exception_causes: Seq<(Exception, u64)>,
}

impl StatsModel {
    /// Nothing is counted.
    pub open spec fn none() -> StatsModel {
        StatsModel {
            executed_blocks: 0,
            retired_instrs: 0,
            unsupported_instrs: Seq::empty(),
            fetch_decode_failures: 0,
            instruction_limit_blocks: 0,
            control_flow_blocks: 0,
            translated_blocks: 0,
            translated_instrs: 0,
            compiled_cache_hits: 0,
            exception_exits: 0,
            exception_retired_instrs: 0,
            exception_causes: Seq::empty(),
        }
    }

    /// Whether no instruction and no exception has two rows.
    pub open spec fn valid(self) -> bool {
        keys_differ(self.unsupported_instrs) && keys_differ(self.exception_causes)
    }

    /// The counts after a block ran.
    pub open spec fn executed(self, retired: u64) -> StatsModel {
        StatsModel {
            executed_blocks: self.executed_blocks.wrapping_add(1),
            retired_instrs: self.retired_instrs.wrapping_add(retired),
            ..self
        }
    }

    /// The counts after a block is translated.
    pub open spec fn translated(self, instrs: u64, stop: TranslationStop) -> StatsModel {
        let s = StatsModel {
            translated_blocks: self.translated_blocks.wrapping_add(1),
            translated_instrs: self.translated_instrs.wrapping_add(instrs),
            ..self
        };
        match stop {
            TranslationStop::DecodeFailure => StatsModel {
                fetch_decode_failures: s.fetch_decode_failures.wrapping_add(1),
                ..s
            },
            TranslationStop::UnsupportedInstruction(instr) => StatsModel {
                unsupported_instrs: counted(s.unsupported_instrs, instr),
                ..s
            },
            TranslationStop::InstructionLimit => StatsModel {
                instruction_limit_blocks: s.instruction_limit_blocks.wrapping_add(1),
                ..s
            },
            TranslationStop::ControlFlow => StatsModel {
                control_flow_blocks: s.control_flow_blocks.wrapping_add(1),
                ..s
            },
        }
    }

    /// The counts after a block is found compiled.
    pub open spec fn hit(self) -> StatsModel {
        StatsModel { compiled_cache_hits: self.compiled_cache_hits.wrapping_add(1), ..self }
    }

    /// The counts after an exception left a block.
    pub open spec fn left_by(self, retired: u64, exception: Exception) -> StatsModel {
        StatsModel {
            exception_exits: self.exception_exits.wrapping_add(1),
            exception_retired_instrs: self.exception_retired_instrs.wrapping_add(retired),
            exception_causes: counted(self.exception_causes, exception),
            ..self
        }
    }
}

/// What is counted.
pub struct Stats {
    pub executed_blocks: u64,
    pub retired_instrs: u64,
    pub detailed: DetailedStats,
}

impl View for Stats {
    type V = StatsModel;

    open spec fn view(&self) -> StatsModel {
        StatsModel {
            executed_blocks: self.executed_blocks,
            retired_instrs: self.retired_instrs,
            unsupported_instrs: self.detailed.unsupported_instrs@,
            fetch_decode_failures: self.detailed.fetch_decode_failures,
            instruction_limit_blocks: self.detailed.instruction_limit_blocks,
            control_flow_blocks: self.detailed.control_flow_blocks,
            translated_blocks: self.detailed.translated_blocks,
            translated_instrs: self.detailed.translated_instrs,
            compiled_cache_hits: self.detailed.compiled_cache_hits,
            exception_exits: self.detailed.exception_exits,
            exception_retired_instrs: self.detailed.exception_retired_instrs,
            exception_causes: self.detailed.exception_causes@,
        }
    }
}

fn count_instr(rows: &mut Vec<(RiscvInstr, u64)>, key: RiscvInstr)
    requires
        keys_differ(old(rows)@),
    ensures
        final(rows)@ == counted(old(rows)@, key),
        keys_differ(final(rows)@),
{
    proof {
        law_counting(rows@, key, key);
    }
    let mut i: usize = 0;
    while i < rows.len()
        invariant
            i <= rows@.len(),
            rows@ == old(rows)@,
            keys_differ(rows@),
            keys_differ(counted(rows@, key)),
            forall|k: int| 0 <= k < i ==> (#[trigger] rows@[k]).0 != key,
        decreases rows@.len() - i,
    {
        let (k, n) = rows[i];
        if k == key {
            assert(rows@[i as int].0 == key);
            assert(rows@[i as int].1 == n);
            rows.set(i, (k, n.wrapping_add(1)));
            return;
        }
        i = i + 1;
    }
    rows.push((key, 1));
}

fn count_exception(rows: &mut Vec<(Exception, u64)>, key: Exception)
    requires
        keys_differ(old(rows)@),
    ensures
        final(rows)@ == counted(old(rows)@, key),
        keys_differ(final(rows)@),
{
    proof {
        law_counting(rows@, key, key);
    }
    let mut i: usize = 0;
    while i < rows.len()
        invariant
            i <= rows@.len(),
            rows@ == old(rows)@,
            keys_differ(rows@),
            keys_differ(counted(rows@, key)),
            forall|k: int| 0 <= k < i ==> (#[trigger] rows@[k]).0 != key,
        decreases rows@.len() - i,
    {
        let (k, n) = rows[i];
        if k == key {
            assert(rows@[i as int].0 == key);
            assert(rows@[i as int].1 == n);
            rows.set(i, (k, n.wrapping_add(1)));
            return;
        }
        i = i + 1;
    }
    rows.push((key, 1));
}

impl Stats {
    /// Nothing is counted yet.
    pub fn new() -> (r: Stats)
        ensures
            r@ == StatsModel::none(),
            r@.valid(),
    {
        Stats {
            executed_blocks: 0,
            retired_instrs: 0,
            detailed: DetailedStats {
                unsupported_instrs: Vec::new(),
                fetch_decode_failures: 0,
                instruction_limit_blocks: 0,
                control_flow_blocks: 0,
                translated_blocks: 0,
                translated_instrs: 0,
                compiled_cache_hits: 0,
                exception_exits: 0,
                exception_retired_instrs: 0,
                exception_causes: Vec::new(),
            },
        }
    }

    /// Counts a block that ran.
    pub fn record_execution(&mut self, retired_instrs: u64)
        ensures
            final(self)@ == old(self)@.executed(retired_instrs),
    {
        self.executed_blocks = self.executed_blocks.wrapping_add(1);
        self.retired_instrs = self.retired_instrs.wrapping_add(retired_instrs);
    }

    /// Counts a block that was translated.
    pub fn record_translation(&mut self, translated_instrs: u64, stop: TranslationStop)
        requires
            old(self)@.valid(),
        ensures
            final(self)@ == old(self)@.translated(translated_instrs, stop),
            final(self)@.valid(),
    {
        self.detailed.translated_blocks = self.detailed.translated_blocks.wrapping_add(1);
        self.detailed.translated_instrs = self.detailed.translated_instrs.wrapping_add(
            translated_instrs,
        );
        match stop {
            TranslationStop::DecodeFailure => {
                self.detailed.fetch_decode_failures =
                self.detailed.fetch_decode_failures.wrapping_add(1);
            },
            TranslationStop::UnsupportedInstruction(instr) => {
                count_instr(&mut self.detailed.unsupported_instrs, instr);
            },
            TranslationStop::InstructionLimit => {
                self.detailed.instruction_limit_blocks =
                self.detailed.instruction_limit_blocks.wrapping_add(1);
            },
            TranslationStop::ControlFlow => {
                self.detailed.control_flow_blocks =
                self.detailed.control_flow_blocks.wrapping_add(1);
            },
        }
    }

    /// Counts a block that was found compiled.
    pub fn record_compiled_cache_hit(&mut self)
        ensures
            final(self)@ == old(self)@.hit(),
    {
        self.detailed.compiled_cache_hits = self.detailed.compiled_cache_hits.wrapping_add(1);
    }

    /// Counts a block that an exception left.
    pub fn record_exception_exit(&mut self, retired_instrs: u64, exception: Exception)
        requires
            old(self)@.valid(),
        ensures
            final(self)@ == old(self)@.left_by(retired_instrs, exception),
            final(self)@.valid(),
    {
        self.detailed.exception_exits = self.detailed.exception_exits.wrapping_add(1);
        self.detailed.exception_retired_instrs =
        self.detailed.exception_retired_instrs.wrapping_add(retired_instrs);
        count_exception(&mut self.detailed.exception_causes, exception);
    }
}

/// A key of rows that has a place in an order.
pub trait RowKey: Copy {
    spec fn spec_key_place(self) -> u64;

    /// The place of the key.
    fn key_place(self) -> (r: u64)
        ensures
            r == self.spec_key_place(),
    ;
}

impl RowKey for Exception {
    open spec fn spec_key_place(self) -> u64 {
        self.spec_code()
    }

    fn key_place(self) -> (r: u64) {
        self.code()
    }
}

impl RowKey for RiscvInstr {
    open spec fn spec_key_place(self) -> u64 {
        self.spec_place() as u64
    }

    fn key_place(self) -> (r: u64) {
        self.place() as u64
    }
}

/// Whether a row may come before another: it was counted more often, or as often and its key does
/// not come later.
pub open spec fn ranks_before<K: RowKey>(a: (K, u64), b: (K, u64)) -> bool {
    a.1 > b.1 || (a.1 == b.1 && a.0.spec_key_place() <= b.0.spec_key_place())
}

/// Whether rows are in the order in which they are shown.
pub open spec fn is_ranked<K: RowKey>(rows: Seq<(K, u64)>) -> bool {
    forall|i: int, j: int|
        0 <= i < j < rows.len() ==> ranks_before(#[trigger] rows[i], #[trigger] rows[j])
}

/// An element that is inserted anywhere is one more of its kind.
proof fn lemma_inserted<T>(s: Seq<T>, i: int, x: T)
    requires
        0 <= i <= s.len(),
    ensures
        s.insert(i, x).to_multiset() == s.to_multiset().insert(x),
{
    let longer = s.insert(i, x);
    assert(longer.remove(i) =~= s);
    broadcast use vstd::seq_lib::group_to_multiset_ensures;

    assert(longer.contains(longer[i]));
    assert(longer.to_multiset().remove(x).insert(x) =~= longer.to_multiset());
}

/// The rows that were counted most often first; of two that were counted as often, the one whose
/// key comes first.
pub fn ranked<K: RowKey>(rows: &Vec<(K, u64)>) -> (r: Vec<(K, u64)>)
    ensures
        r@.to_multiset() == rows@.to_multiset(),
        is_ranked(r@),
{
    let mut out: Vec<(K, u64)> = Vec::new();
    let mut n: usize = 0;
    assert(out@ =~= rows@.take(0));
    while n < rows.len()
        invariant
            n <= rows@.len(),
            out@.len() == n,
            out@.to_multiset() == rows@.take(n as int).to_multiset(),
            is_ranked(out@),
        decreases rows@.len() - n,
    {
        let row = rows[n];
        let place: u64 = row.0.key_place();
        let mut i: usize = 0;
        while i < out.len() && (out[i].1 > row.1 || (out[i].1 == row.1 && out[i].0.key_place()
            <= place))
            invariant
                i <= out@.len(),
                is_ranked(out@),
                place == row.0.spec_key_place(),
                forall|k: int| 0 <= k < i ==> ranks_before(#[trigger] out@[k], row),
            decreases out@.len() - i,
        {
            i = i + 1;
        }
        let ghost before = out@;
        out.insert(i, row);
        proof {
            lemma_inserted(before, i as int, row);
            assert(rows@.take(n + 1) =~= rows@.take(n as int).push(row));
            broadcast use vstd::seq_lib::group_to_multiset_ensures;

            assert forall|a: int, b: int| 0 <= a < b < out@.len() implies ranks_before(
                #[trigger] out@[a],
                #[trigger] out@[b],
            ) by {
                if b < i {
                    assert(out@[a] == before[a] && out@[b] == before[b]);
                } else if b == i {
                    assert(out@[a] == before[a]);
                } else if a < i {
                    assert(out@[a] == before[a] && out@[b] == before[b - 1]);
                } else if a == i {
                    assert(out@[b] == before[b - 1]);
                    if b - 1 > i {
                        assert(ranks_before(before[i as int], before[b - 1]));
                    }
                } else {
                    assert(out@[a] == before[a - 1] && out@[b] == before[b - 1]);
                }
            }
        }
        n = n + 1;
    }
    assert(rows@.take(n as int) =~= rows@);
    out
}

} // verus!
