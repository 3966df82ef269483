//! The hart's access to memory.
use vstd::prelude::*;

use crate::device::MemError;
use crate::isa::riscv::executor::{CpuState, RVCPU};
use crate::isa::riscv::trap::Exception;
use crate::utils::Width;

use super::manager;
use super::manager::{AccessPolicy, AccessType, AmoOp, VmState};
use super::page_table::PageTableError;
use super::policy;

verus! {

impl CpuState {
    /// The state after an access, which leaves memory as `vm`. A failed one leaves the address
    /// for the trap value.
    pub open spec fn after_access(self, vm: VmState, addr: u64, failed: bool) -> CpuState {
        CpuState {
            vm,
            pending_tval: if failed {
                Some(addr)
            } else {
                self.pending_tval
            },
            ..self
        }
    }

    /// A load, and the state after it.
    pub open spec fn data_read(self, addr: u64, w: Width) -> (CpuState, Result<u64, Exception>) {
        let (vm, r) = self.vm.read_with(
            addr,
            w,
            policy::data_policy(self.csr, AccessType::Read, true),
        );
        (
            self.after_access(vm, addr, r is Err),
            match r {
                Ok(v) => Ok(v),
                Err(e) => Err(Exception::of_memory_err(e)),
            },
        )
    }

    /// A store, and the state after it.
    pub open spec fn data_written(self, addr: u64, w: Width, data: u64) -> (
        CpuState,
        Result<(), Exception>,
    ) {
        let (vm, r) = self.vm.write_with(
            addr,
            w,
            data,
            policy::data_policy(self.csr, AccessType::Write, true),
        );
        (
            self.after_access(vm, addr, r is Err),
            match r {
                Ok(_) => Ok(()),
                Err(e) => Err(Exception::of_memory_err(e)),
            },
        )
    }

    /// A load-reserved, and the state after it.
    pub open spec fn data_reserved(self, addr: u64, w: Width) -> (
        CpuState,
        Result<u64, Exception>,
    ) {
        let (vm, r) = self.vm.load_reserved_with(
            addr,
            w,
            policy::data_policy(self.csr, AccessType::Read, true),
        );
        (
            self.after_access(vm, addr, r is Err),
            match r {
                Ok(v) => Ok(v),
                Err(e) => Err(Exception::of_memory_err(e)),
            },
        )
    }

    /// A store-conditional, and the state after it.
    pub open spec fn data_conditional(self, addr: u64, w: Width, data: u64) -> (
        CpuState,
        Result<bool, Exception>,
    ) {
        let (vm, r) = self.vm.store_conditional_with(
            addr,
            w,
            data,
            policy::data_policy(self.csr, AccessType::Write, true),
        );
        (
            self.after_access(vm, addr, r is Err),
            match r {
                Ok(done) => Ok(done),
                Err(e) => Err(Exception::of_memory_err(e)),
            },
        )
    }

    /// An atomic operation, and the state after it.
    pub open spec fn data_amo(self, op: AmoOp, addr: u64, w: Width, rhs: u64) -> (
        CpuState,
        Result<u64, Exception>,
    ) {
        let (vm, r) = self.vm.amo_with(
            op,
            addr,
            w,
            rhs,
            policy::data_policy(self.csr, AccessType::ReadWrite, true),
        );
        (self.after_access(vm, addr, r is Err), r)
    }

    /// A read of instruction bytes, and the state after it.
    pub open spec fn instr_read(self, addr: u64, w: Width, side_effect: bool) -> (
        CpuState,
        Result<u64, MemError>,
    ) {
        let (vm, r) = self.vm.read_with(addr, w, policy::ifetch_policy(self.csr, side_effect));
        (CpuState { vm, ..self }, r)
    }
}

/// What the debugger looks at keeps no trace of it: neither a fetch nor a translation for it
/// changes memory.
pub proof fn law_looking_leaves_no_trace(s: CpuState, addr: u64, w: Width, access: AccessType)
    ensures
        s.instr_read(addr, w, false).0 == s,
        s.vm.policy_translated(addr, policy::data_policy(s.csr, access, false)).0 == s.vm,
{
    if let AccessPolicy::Translated { check, .. } = policy::ifetch_policy(s.csr, false) {
        manager::lemma_no_effect(s.vm, addr, check);
    }
    if let AccessPolicy::Translated { check, .. } = policy::data_policy(s.csr, access, false) {
        manager::lemma_no_effect(s.vm, addr, check);
    }
}

impl RVCPU {
    /// Keeps the address of a failed access for the trap value.
    fn finish_memory_access<T>(&mut self, addr: u64, result: Result<T, MemError>) -> (r: Result<
        T,
        Exception,
    >)
        requires
            old(self).wf(),
        ensures
            final(self).wf(),
            final(self)@ == old(self)@.after_access(old(self)@.vm, addr, result is Err),
            r == match result {
                Ok(v) => Ok::<T, Exception>(v),
                Err(e) => Err(Exception::of_memory_err(e)),
            },
    {
        match result {
            Ok(v) => Ok(v),
            Err(e) => {
                self.pending_tval = Some(addr);
                Err(Exception::from_memory_err(e))
            },
        }
    }

    /// Loads.
    pub fn read(&mut self, addr: u64, w: Width) -> (r: Result<u64, Exception>)
        requires
            old(self).wf(),
        ensures
            final(self).wf(),
            final(self)@ == old(self)@.data_read(addr, w).0,
            r == old(self)@.data_read(addr, w).1,
            r is Ok ==> w.holds(r->Ok_0),
    {
        let policy = policy::resolve_data_policy(&self.csr, AccessType::Read, true);
        let result = self.memory.read_with_policy(addr, w, policy);
        self.finish_memory_access(addr, result)
    }

    /// Stores.
    pub fn write(&mut self, addr: u64, w: Width, data: u64) -> (r: Result<(), Exception>)
        requires
            old(self).wf(),
        ensures
            final(self).wf(),
            final(self)@ == old(self)@.data_written(addr, w, data).0,
            r == old(self)@.data_written(addr, w, data).1,
    {
        let policy = policy::resolve_data_policy(&self.csr, AccessType::Write, true);
        let result = self.memory.write_with_policy(addr, w, data, policy);
        self.finish_memory_access(addr, result)
    }

    /// Loads and reserves the address.
    pub fn load_reserved(&mut self, addr: u64, w: Width) -> (r: Result<u64, Exception>)
        requires
            old(self).wf(),
        ensures
            final(self).wf(),
            final(self)@ == old(self)@.data_reserved(addr, w).0,
            r == old(self)@.data_reserved(addr, w).1,
            r is Ok ==> w.holds(r->Ok_0),
    {
        let policy = policy::resolve_data_policy(&self.csr, AccessType::Read, true);
        let result = self.memory.load_reserved_with_policy(addr, w, policy);
        self.finish_memory_access(addr, result)
    }

    /// Stores if the address is reserved; says whether it did.
    pub fn store_conditional(&mut self, addr: u64, w: Width, data: u64) -> (r: Result<
        bool,
        Exception,
    >)
        requires
            old(self).wf(),
        ensures
            final(self).wf(),
            final(self)@ == old(self)@.data_conditional(addr, w, data).0,
            r == old(self)@.data_conditional(addr, w, data).1,
    {
        let policy = policy::resolve_data_policy(&self.csr, AccessType::Write, true);
        let result = self.memory.store_conditional_with_policy(addr, w, data, policy);
        self.finish_memory_access(addr, result)
    }

    /// Reads, computes and writes back in one step; gives what memory held before.
    pub fn fetch_and_op_amo(&mut self, op: AmoOp, addr: u64, w: Width, rhs_val: u64) -> (r: Result<
        u64,
        Exception,
    >)
        requires
            old(self).wf(),
            w.holds(rhs_val),
        ensures
            final(self).wf(),
            final(self)@ == old(self)@.data_amo(op, addr, w, rhs_val).0,
            r == old(self)@.data_amo(op, addr, w, rhs_val).1,
            r is Ok ==> w.holds(r->Ok_0),
    {
        let policy = policy::resolve_data_policy(&self.csr, AccessType::ReadWrite, true);
        let result = self.memory.fetch_and_op_amo_with_policy(op, addr, w, rhs_val, policy);
        match result {
            Ok(v) => Ok(v),
            Err(e) => {
                self.pending_tval = Some(addr);
                Err(e)
            },
        }
    }

    /// Reads instruction bytes.
    pub fn read_for_ifetch(&mut self, addr: u64, w: Width) -> (r: Result<u64, MemError>)
        requires
            old(self).wf(),
        ensures
            final(self).wf(),
            final(self)@ == old(self)@.instr_read(addr, w, true).0,
            r == old(self)@.instr_read(addr, w, true).1,
            r is Ok ==> w.holds(r->Ok_0),
    {
        let policy = policy::resolve_ifetch_policy(&self.csr, true);
        self.memory.read_with_policy(addr, w, policy)
    }

    /// Reads instruction bytes without a trace in the page table.
    pub fn read_for_debug_ifetch(&mut self, addr: u64, w: Width) -> (r: Result<u64, MemError>)
        requires
            old(self).wf(),
        ensures
            final(self).wf(),
            final(self)@ == old(self)@,
            r == old(self)@.instr_read(addr, w, false).1,
            r is Ok ==> w.holds(r->Ok_0),
    {
        proof {
            law_looking_leaves_no_trace(self@, addr, w, AccessType::Read);
        }
        let policy = policy::resolve_ifetch_policy(&self.csr, false);
        self.memory.read_with_policy(addr, w, policy)
    }

    /// Translates an address as a data access would, without a trace in the page table.
    pub fn translate_for_debug(&mut self, addr: u64, access: AccessType) -> (r: Result<
        u64,
        PageTableError,
    >)
        requires
            old(self).wf(),
        ensures
            final(self).wf(),
            final(self)@ == old(self)@,
            r == old(self)@.vm.policy_translated(
                addr,
                policy::data_policy(old(self)@.csr, access, false),
            ).1,
    {
        proof {
            law_looking_leaves_no_trace(self@, addr, Width::W8, access);
        }
        let policy = policy::resolve_data_policy(&self.csr, access, false);
        self.memory.translate_for_debug_with_policy(addr, policy)
    }
}

} // verus!
