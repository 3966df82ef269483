//! The board that a hart sits on.
use vstd::prelude::*;

use crate::isa::riscv::executor::batch;
use crate::isa::riscv::executor::batch::{BatchResult, ExecutionHook, SeenCycles};
use crate::isa::riscv::executor::{CpuState, RVCPU};
use crate::load;
use crate::load::{SymTab, Symbols};

verus! {

/// Whether a board runs.
#[derive(Clone, Copy, Debug, PartialEq, Eq, Structural)]
pub enum BoardStatus {
    Running,
    Halt,
}

/// A hart with what belongs to it.
pub trait Board: Sized {
    spec fn wf(&self) -> bool;

    /// The hart.
    spec fn hart(&self) -> CpuState;

    spec fn halted(&self) -> bool;

    /// The symbols of the program that was loaded.
    spec fn symbols(&self) -> Option<Symbols>;

    fn status(&self) -> (r: BoardStatus)
        ensures
            (r == BoardStatus::Halt) == self.halted(),
    ;

    fn cpu(&self) -> (r: &RVCPU)
        requires
            self.wf(),
        ensures
            r.wf(),
            r@ == self.hart(),
    ;

    fn cpu_mut(&mut self) -> (r: &mut RVCPU)
        requires
            old(self).wf(),
        ensures
            r.wf(),
            r@ == old(self).hart(),
            final(r).wf() ==> final(self).wf(),
            final(self).hart() == final(r)@,
            final(self).halted() == old(self).halted(),
            final(self).symbols() == old(self).symbols(),
    ;

    /// The symbols of the program that was loaded.
    fn symbol_table(&self) -> (r: Option<SymTab>)
        ensures
            load::symtab_view(r) == self.symbols(),
    ;
}

/// A board that runs under a hook. A board may do more than its hart: what a run may lead to is
/// its own matter. But it shows the hook every cycle that it counts, and each is a cycle of its
/// hart; it leaves the cycle counter to the hart, and the hart alone once the hook stopped it; and
/// it stops short of the cycles that it was asked for only if the hook stops it or it halts.
pub trait HookedBoard<H: ExecutionHook>: Board {
    /// Whether a run of up to `cycles` cycles under a hook may end so, and show the hook some cycles.
    spec fn may_run(
        before: Self,
        hook: H::Model,
        cycles: u64,
        after: Self,
        hook_after: H::Model,
        r: BatchResult,
        seen: SeenCycles,
    ) -> bool;

    /// Runs up to `cycles` cycles, until the hook stops them.
    fn run_cycles_hooked(&mut self, cycles: u64, hook: &mut H) -> (r: BatchResult)
        requires
            old(self).wf(),
        ensures
            final(self).wf(),
            r.cycles <= cycles,
            !r.hook_stopped && !final(self).halted() ==> r.cycles == cycles,
            exists|seen: SeenCycles|
                {
                    &&& #[trigger] Self::may_run(
                        *old(self),
                        old(hook).model(),
                        cycles,
                        *final(self),
                        final(hook).model(),
                        r,
                        seen,
                    )
                    &&& seen.len() == r.cycles
                    &&& batch::watched::<H>(
                        old(hook).model(),
                        old(self).hart(),
                        seen,
                        final(hook).model(),
                        final(self).hart(),
                        r.hook_stopped,
                    )
                },
    ;
}

/// A hart alone is a board that never halts.
impl Board for RVCPU {
    open spec fn wf(&self) -> bool {
        RVCPU::wf(self)
    }

    open spec fn hart(&self) -> CpuState {
        self@
    }

    open spec fn halted(&self) -> bool {
        false
    }

    open spec fn symbols(&self) -> Option<Symbols> {
        None
    }

    fn status(&self) -> (r: BoardStatus) {
        BoardStatus::Running
    }

    fn cpu(&self) -> (r: &RVCPU) {
        self
    }

    fn cpu_mut(&mut self) -> (r: &mut RVCPU) {
        self
    }

    fn symbol_table(&self) -> (r: Option<SymTab>)
        ensures
            r is None,
    {
        None
    }
}

impl<H: ExecutionHook> HookedBoard<H> for RVCPU {
    open spec fn may_run(
        before: Self,
        hook: H::Model,
        cycles: u64,
        after: Self,
        hook_after: H::Model,
        r: BatchResult,
        seen: SeenCycles,
    ) -> bool {
        &&& batch::hooked_batch::<H>(hook, before@, cycles) == (hook_after, after@, r)
        &&& seen == batch::batch_seen::<H>(hook, before@, cycles)
    }

    fn run_cycles_hooked(&mut self, cycles: u64, hook: &mut H) -> (r: BatchResult) {
        proof {
            batch::law_batch_cycles::<H>(hook.model(), self@, cycles);
        }
        let ghost seen = batch::batch_seen::<H>(hook.model(), self@, cycles);
        let r = self.step_batch_with_hook(cycles, hook);
        proof {
            batch::law_batch_is_watched::<H>(old(hook).model(), old(self)@, cycles);
            assert(<Self as HookedBoard<H>>::may_run(
                *old(self),
                old(hook).model(),
                cycles,
                *self,
                hook.model(),
                r,
                seen,
            ));
        }
        r
    }
}

} // verus!
