//! Memory accesses under a policy that the hart prepares.
use vstd::prelude::*;

use crate::config::{BASE_ADDR, RAM_SIZE};
use crate::device;
use crate::device::{MemError, MemoryMapIO, PhysState, Window};
use crate::isa::riscv::instruction::alu;
use crate::isa::riscv::instruction::alu::AluFn;
use crate::isa::riscv::trap::Exception;
use crate::ram;
use crate::utils;
use crate::utils::Width;

use super::page_table;
use super::page_table::{
    AccessEffect,
    AdUpdatePolicy,
    PageTableError,
    PageTableWalker,
    PermissionCheck,
    VirtualMemoryMode,
};

verus! {

/// What a data access does.
#[derive(Clone, Copy, Debug, PartialEq, Eq, Structural)]
pub enum AccessType {
    Read,
    Write,
    ReadWrite,
}

/// How an access reaches physical memory.
#[derive(Clone, Copy, Debug, PartialEq, Eq, Structural)]
pub enum AccessPolicy {
    /// The address is physical.
    Direct,
    /// The address is translated; a translation that fails gives `fault`.
    Translated { check: PermissionCheck, effect: AccessEffect, fault: MemError },
}

/// An address as the debugger names it.
#[derive(Clone, Copy, Debug, PartialEq, Eq, Hash, Structural)]
pub enum Address {
    Phys(u64),
    Virt(u64),
}

impl Address {
    /// The address without its kind.
    pub open spec fn spec_value(self) -> u64 {
        match self {
            Address::Phys(a) => a,
            Address::Virt(a) => a,
        }
    }

    /// The address without its kind.
    pub fn value(&self) -> (r: u64)
        ensures
            r == self.spec_value(),
    {
        match *self {
            Address::Phys(a) => a,
            Address::Virt(a) => a,
        }
    }
}

/// An atomic read-modify-write operation.
#[derive(Clone, Copy, Debug, PartialEq, Eq, Structural)]
pub enum AmoOp {
    Add,
    And,
    Or,
    Xor,
    Max,
    Min,
    MaxU,
    MinU,
    Swap,
}

impl AmoOp {
    /// What memory that held `lhs` holds after the operation with `rhs`.
    pub open spec fn updated(self, w: Width, lhs: u64, rhs: u64) -> u64 {
        match self {
            AmoOp::Add => alu::alu(AluFn::Add, w, lhs, rhs),
            AmoOp::And => alu::alu(AluFn::And, w, lhs, rhs),
            AmoOp::Or => alu::alu(AluFn::Or, w, lhs, rhs),
            AmoOp::Xor => alu::alu(AluFn::Xor, w, lhs, rhs),
            AmoOp::Max => alu::alu(AluFn::Max, w, lhs, rhs),
            AmoOp::Min => alu::alu(AluFn::Min, w, lhs, rhs),
            AmoOp::MaxU => alu::alu(AluFn::Maxu, w, lhs, rhs),
            AmoOp::MinU => alu::alu(AluFn::Minu, w, lhs, rhs),
            AmoOp::Swap => rhs,
        }
    }

    /// What memory that held `lhs` holds after the operation with `rhs`.
    pub fn exec(self, w: Width, lhs: u64, rhs: u64) -> (r: u64)
        requires
            w.holds(lhs),
            w.holds(rhs),
        ensures
            r == self.updated(w, lhs, rhs),
            w.holds(r),
    {
        match self {
            AmoOp::Add => AluFn::Add.exec(w, lhs, rhs),
            AmoOp::And => AluFn::And.exec(w, lhs, rhs),
            AmoOp::Or => AluFn::Or.exec(w, lhs, rhs),
            AmoOp::Xor => AluFn::Xor.exec(w, lhs, rhs),
            AmoOp::Max => AluFn::Max.exec(w, lhs, rhs),
            AmoOp::Min => AluFn::Min.exec(w, lhs, rhs),
            AmoOp::MaxU => AluFn::Maxu.exec(w, lhs, rhs),
            AmoOp::MinU => AluFn::Minu.exec(w, lhs, rhs),
            AmoOp::Swap => rhs,
        }
    }
}

/// Virtual memory as plain values.
#[verifier::ext_equal]
pub struct VmState {
    pub phys: PhysState,
    pub walker: PageTableWalker,
}

impl VmState {
    /// Translation under a check, and memory after it.
    pub open spec fn translated(self, vaddr: u64, check: PermissionCheck, effect: AccessEffect) -> (
        VmState,
        Result<u64, PageTableError>,
    ) {
        let (ram, r) = self.walker.translated(self.phys.ram, vaddr, check, effect);
        (VmState { phys: PhysState { ram, ..self.phys }, ..self }, r)
    }

    /// Translation under a policy, and memory after it.
    pub open spec fn translated_with(self, vaddr: u64, policy: AccessPolicy) -> (
        VmState,
        Result<u64, MemError>,
    ) {
        match policy {
            AccessPolicy::Direct => (self, Ok(vaddr)),
            AccessPolicy::Translated { check, effect, fault } => {
                let (vm, r) = self.translated(vaddr, check, effect);
                (
                    vm,
                    match r {
                        Ok(paddr) => Ok(paddr),
                        Err(_) => Err(fault),
                    },
                )
            },
        }
    }

    /// A read under a policy, and memory after it.
    pub open spec fn read_with(self, addr: u64, w: Width, policy: AccessPolicy) -> (
        VmState,
        Result<u64, MemError>,
    ) {
        let (vm, r) = self.translated_with(addr, policy);
        match r {
            Ok(paddr) => (vm, vm.phys.read(paddr, w)),
            Err(e) => (vm, Err(e)),
        }
    }

    /// A write under a policy, and memory after it.
    pub open spec fn write_with(self, addr: u64, w: Width, data: u64, policy: AccessPolicy) -> (
        VmState,
        Result<(), MemError>,
    ) {
        let (vm, r) = self.translated_with(addr, policy);
        match r {
            Ok(paddr) => (
                VmState { phys: vm.phys.written(paddr, w, data), ..vm },
                vm.phys.write_result(paddr, w),
            ),
            Err(e) => (vm, Err(e)),
        }
    }

    /// A load-reserved under a policy, and memory after it.
    pub open spec fn load_reserved_with(self, addr: u64, w: Width, policy: AccessPolicy) -> (
        VmState,
        Result<u64, MemError>,
    ) {
        if !utils::aligned(w, addr) {
            (self, Err(MemError::LoadMisaligned))
        } else {
            let (vm, r) = self.translated_with(addr, policy);
            match r {
                Ok(paddr) => {
                    let v = vm.phys.load_reserved(paddr, w);
                    if v is Ok {
                        (
                            VmState {
                                phys: vm.phys.with_reservation(Some(PhysState::offset(paddr))),
                                ..vm
                            },
                            v,
                        )
                    } else {
                        (vm, v)
                    }
                },
                Err(e) => (vm, Err(e)),
            }
        }
    }

    /// A store-conditional under a policy, and memory after it. Every attempt that gets as far as
    /// memory ends the reservation, and so does a misaligned one.
    pub open spec fn store_conditional_with(
        self,
        addr: u64,
        w: Width,
        data: u64,
        policy: AccessPolicy,
    ) -> (VmState, Result<bool, MemError>) {
        if !utils::aligned(w, addr) {
            (
                VmState { phys: self.phys.with_reservation(None), ..self },
                Err(MemError::StoreMisaligned),
            )
        } else {
            let (vm, r) = self.translated_with(addr, policy);
            match r {
                Ok(paddr) => {
                    let done = vm.phys.store_conditional(paddr, w);
                    let phys = if done == Ok::<bool, MemError>(true) {
                        vm.phys.written(paddr, w, data)
                    } else {
                        vm.phys
                    };
                    (VmState { phys: phys.with_reservation(None), ..vm }, done)
                },
                Err(e) => (vm, Err(e)),
            }
        }
    }

    /// An atomic operation under a policy, and memory after it. It gives what memory held before.
    pub open spec fn amo_with(
        self,
        op: AmoOp,
        addr: u64,
        w: Width,
        rhs: u64,
        policy: AccessPolicy,
    ) -> (VmState, Result<u64, Exception>) {
        let (vm, r) = self.translated_with(addr, policy);
        match r {
            Err(_) => (vm, Err(Exception::StorePageFault)),
            Ok(paddr) => if !utils::aligned(w, paddr) {
                (vm, Err(Exception::StoreMisaligned))
            } else if !device::in_ram(paddr) {
                (vm, Err(Exception::StoreFault))
            } else {
                let lhs = ram::load_le(vm.phys.ram.bytes, paddr - BASE_ADDR, w);
                (
                    VmState { phys: vm.phys.written(paddr, w, op.updated(w, lhs, rhs)), ..vm },
                    Ok(lhs),
                )
            },
        }
    }
}

/// Translates addresses and accesses physical memory.
pub struct VirtAddrManager {
    pub mmio: MemoryMapIO,
    pub page_table: PageTableWalker,
}

impl View for VirtAddrManager {
    type V = VmState;

    open spec fn view(&self) -> VmState {
        VmState { phys: self.mmio@, walker: self.page_table }
    }
}

impl VirtAddrManager {
    pub open spec fn wf(&self) -> bool {
        &&& self.mmio.wf()
        &&& self.page_table.root_addr <= 0xffff_ffff_ffff_f000
    }

    /// Memory without translation.
    pub fn from_ram_and_mmio(mmio: MemoryMapIO) -> (r: VirtAddrManager)
        requires
            mmio.wf(),
        ensures
            r.wf(),
            r@ == (VmState {
                phys: mmio@,
                walker: PageTableWalker {
                    root_addr: 0,
                    mode: VirtualMemoryMode::Bare,
                    ad_policy: AdUpdatePolicy::Hardware,
                },
            }),
    {
        VirtAddrManager { mmio, page_table: PageTableWalker::new(0, VirtualMemoryMode::Bare) }
    }

    fn translate_vaddr(&mut self, vaddr: u64, check: PermissionCheck, effect: AccessEffect) -> (r:
        Result<u64, PageTableError>)
        requires
            old(self).wf(),
        ensures
            final(self).wf(),
            r == old(self)@.translated(vaddr, check, effect).1,
            final(self)@ == old(self)@.translated(vaddr, check, effect).0,
    {
        let r = self.page_table.translate_vaddr(&mut self.mmio.ram, vaddr, check, effect);
        assert(self@.phys.windows =~= old(self)@.phys.windows);
        r
    }

    fn translate_with_policy(&mut self, vaddr: u64, policy: AccessPolicy) -> (r: Result<
        u64,
        MemError,
    >)
        requires
            old(self).wf(),
        ensures
            final(self).wf(),
            r == old(self)@.translated_with(vaddr, policy).1,
            final(self)@ == old(self)@.translated_with(vaddr, policy).0,
    {
        match policy {
            AccessPolicy::Direct => Ok(vaddr),
            AccessPolicy::Translated { check, effect, fault } => match self.translate_vaddr(
                vaddr,
                check,
                effect,
            ) {
                Ok(paddr) => Ok(paddr),
                Err(_) => Err(fault),
            },
        }
    }

    pub fn read_with_policy(&mut self, addr: u64, w: Width, policy: AccessPolicy) -> (r: Result<
        u64,
        MemError,
    >)
        requires
            old(self).wf(),
        ensures
            final(self).wf(),
            r == old(self)@.read_with(addr, w, policy).1,
            final(self)@ == old(self)@.read_with(addr, w, policy).0,
            r is Ok ==> w.holds(r->Ok_0),
    {
        match self.translate_with_policy(addr, policy) {
            Ok(paddr) => self.mmio.read_by_type(paddr, w),
            Err(e) => Err(e),
        }
    }

    pub fn write_with_policy(
        &mut self,
        addr: u64,
        w: Width,
        data: u64,
        policy: AccessPolicy,
    ) -> (r: Result<(), MemError>)
        requires
            old(self).wf(),
        ensures
            final(self).wf(),
            r == old(self)@.write_with(addr, w, data, policy).1,
            final(self)@ == old(self)@.write_with(addr, w, data, policy).0,
    {
        match self.translate_with_policy(addr, policy) {
            Ok(paddr) => self.mmio.write_by_type(paddr, w, data),
            Err(e) => Err(e),
        }
    }

    pub fn load_reserved_with_policy(
        &mut self,
        addr: u64,
        w: Width,
        policy: AccessPolicy,
    ) -> (r: Result<u64, MemError>)
        requires
            old(self).wf(),
        ensures
            final(self).wf(),
            r == old(self)@.load_reserved_with(addr, w, policy).1,
            final(self)@ == old(self)@.load_reserved_with(addr, w, policy).0,
            r is Ok ==> w.holds(r->Ok_0),
    {
        if !utils::check_align(w, addr) {
            return Err(MemError::LoadMisaligned);
        }
        match self.translate_with_policy(addr, policy) {
            Ok(paddr) => self.mmio.load_reserved(paddr, w),
            Err(e) => Err(e),
        }
    }

    pub fn store_conditional_with_policy(
        &mut self,
        addr: u64,
        w: Width,
        data: u64,
        policy: AccessPolicy,
    ) -> (r: Result<bool, MemError>)
        requires
            old(self).wf(),
        ensures
            final(self).wf(),
            r == old(self)@.store_conditional_with(addr, w, data, policy).1,
            final(self)@ == old(self)@.store_conditional_with(addr, w, data, policy).0,
    {
        if !utils::check_align(w, addr) {
            self.mmio.clear_reservation();
            return Err(MemError::StoreMisaligned);
        }
        match self.translate_with_policy(addr, policy) {
            Ok(paddr) => {
                let r = self.mmio.store_conditional(paddr, w, data);
                self.mmio.clear_reservation();
                r
            },
            Err(e) => Err(e),
        }
    }

    /// Atomic read-modify-write.
    pub fn fetch_and_op_amo_with_policy(
        &mut self,
        op: AmoOp,
        addr: u64,
        w: Width,
        rhs_val: u64,
        policy: AccessPolicy,
    ) -> (r: Result<u64, Exception>)
        requires
            old(self).wf(),
            w.holds(rhs_val),
        ensures
            final(self).wf(),
            r == old(self)@.amo_with(op, addr, w, rhs_val, policy).1,
            final(self)@ == old(self)@.amo_with(op, addr, w, rhs_val, policy).0,
            r is Ok ==> w.holds(r->Ok_0),
    {
        let paddr: u64 = match self.translate_with_policy(addr, policy) {
            Ok(p) => p,
            Err(_) => {
                return Err(Exception::StorePageFault);
            },
        };
        if !utils::check_align(w, paddr) {
            return Err(Exception::StoreMisaligned);
        }
        if paddr < BASE_ADDR || paddr >= BASE_ADDR + RAM_SIZE {
            return Err(Exception::StoreFault);
        }
        match self.mmio.read_by_type(paddr, w) {
            Ok(lhs) => {
                let _ = self.mmio.write_by_type(paddr, w, op.exec(w, lhs, rhs_val));
                Ok(lhs)
            },
            Err(_) => Err(Exception::StoreFault),
        }
    }

    pub fn read_by_paddr(&self, paddr: u64, w: Width) -> (r: Result<u64, MemError>)
        requires
            self.wf(),
        ensures
            r == self@.phys.read(paddr, w),
            r is Ok ==> w.holds(r->Ok_0),
    {
        self.mmio.read_by_type(paddr, w)
    }

    pub fn write_by_paddr(&mut self, paddr: u64, w: Width, data: u64) -> (r: Result<(), MemError>)
        requires
            old(self).wf(),
        ensures
            final(self).wf(),
            r == old(self)@.phys.write_result(paddr, w),
            final(self)@ == (VmState {
                phys: old(self)@.phys.written(paddr, w, data),
                ..old(self)@
            }),
    {
        self.mmio.write_by_type(paddr, w, data)
    }

    /// Reads for the debugger: no flag of the page table is checked or changed.
    pub fn debug_read(&mut self, addr: Address, w: Width) -> (r: Result<u64, MemError>)
        requires
            old(self).wf(),
        ensures
            final(self).wf(),
            r == old(self)@.debug_read(addr, w),
            final(self)@ == old(self)@,
            r is Ok ==> w.holds(r->Ok_0),
    {
        match addr {
            Address::Phys(a) => self.read_by_paddr(a, w),
            Address::Virt(a) => match self.debug_vaddr_to_paddr(a) {
                Ok(paddr) => self.mmio.read_by_type(paddr, w),
                Err(_) => Err(MemError::LoadPageFault),
            },
        }
    }

    /// Writes for the debugger: no flag of the page table is checked or changed.
    pub fn debug_write(&mut self, addr: Address, w: Width, data: u64) -> (r: Result<(), MemError>)
        requires
            old(self).wf(),
        ensures
            final(self).wf(),
            r == old(self)@.debug_write(addr, w, data).1,
            final(self)@ == old(self)@.debug_write(addr, w, data).0,
    {
        match addr {
            Address::Phys(a) => self.write_by_paddr(a, w, data),
            Address::Virt(a) => match self.debug_vaddr_to_paddr(a) {
                Ok(paddr) => self.mmio.write_by_type(paddr, w, data),
                Err(_) => Err(MemError::StorePageFault),
            },
        }
    }

    /// Translates without checking any flag or changing any bit.
    pub fn debug_vaddr_to_paddr(&mut self, vaddr: u64) -> (r: Result<u64, PageTableError>)
        requires
            old(self).wf(),
        ensures
            final(self).wf(),
            r == old(self)@.debug_translated(vaddr),
            final(self)@ == old(self)@,
    {
        proof {
            lemma_no_effect(self@, vaddr, PermissionCheck::none());
        }
        self.translate_vaddr(vaddr, PermissionCheck::empty(), AccessEffect::Nothing)
    }

    /// Translates as an instruction would; the policy says whether bits may change.
    pub fn translate_for_debug_with_policy(&mut self, addr: u64, policy: AccessPolicy) -> (r:
        Result<u64, PageTableError>)
        requires
            old(self).wf(),
        ensures
            final(self).wf(),
            r == old(self)@.policy_translated(addr, policy).1,
            final(self)@ == old(self)@.policy_translated(addr, policy).0,
    {
        match policy {
            AccessPolicy::Direct => Ok(addr),
            AccessPolicy::Translated { check, effect, fault: _ } => self.translate_vaddr(
                addr,
                check,
                effect,
            ),
        }
    }

    /// Sets the virtual memory scheme.
    pub fn set_mode(&mut self, mode: u8)
        requires
            old(self).wf(),
        ensures
            final(self).wf(),
            final(self)@ == old(self)@.with_mode(mode),
    {
        self.page_table.set_mode(mode);
    }

    /// Sets the root page table by its page number.
    pub fn set_root_ppn(&mut self, ppn: u64)
        requires
            old(self).wf(),
            ppn < 0x10_0000_0000_0000,
        ensures
            final(self).wf(),
            final(self)@ == old(self)@.with_root(ppn),
    {
        self.page_table.root_addr = ppn * 0x1000;
    }

    pub fn set_ad_update_policy(&mut self, policy: AdUpdatePolicy)
        requires
            old(self).wf(),
        ensures
            final(self).wf(),
            final(self)@ == (VmState {
                walker: PageTableWalker { ad_policy: policy, ..old(self)@.walker },
                ..old(self)@
            }),
    {
        self.page_table.ad_policy = policy;
    }

    /// Hands the windows over to their devices.
    pub fn sync(&mut self)
        requires
            old(self).wf(),
        ensures
            final(self).wf(),
            final(self)@ == old(self)@.synced(),
    {
        self.mmio.sync();
    }

    /// Forgets cached translations. Every translation walks the tables, so the tables are what
    /// the next access sees, before and after.
    pub fn flush_tlb(&mut self)
        requires
            old(self).wf(),
        ensures
            final(self).wf(),
            final(self)@ == old(self)@,
    {
    }
}

impl VmState {
    /// Translation for the debugger.
    pub open spec fn debug_translated(self, vaddr: u64) -> Result<u64, PageTableError> {
        self.translated(vaddr, PermissionCheck::none(), AccessEffect::Nothing).1
    }

    /// A read for the debugger.
    pub open spec fn debug_read(self, addr: Address, w: Width) -> Result<u64, MemError> {
        match addr {
            Address::Phys(a) => self.phys.read(a, w),
            Address::Virt(a) => match self.debug_translated(a) {
                Ok(paddr) => self.phys.read(paddr, w),
                Err(_) => Err(MemError::LoadPageFault),
            },
        }
    }

    /// A write for the debugger, and memory after it.
    pub open spec fn debug_write(self, addr: Address, w: Width, data: u64) -> (
        VmState,
        Result<(), MemError>,
    ) {
        match addr {
            Address::Phys(a) => (
                VmState { phys: self.phys.written(a, w, data), ..self },
                self.phys.write_result(a, w),
            ),
            Address::Virt(a) => match self.debug_translated(a) {
                Ok(paddr) => (
                    VmState { phys: self.phys.written(paddr, w, data), ..self },
                    self.phys.write_result(paddr, w),
                ),
                Err(_) => (self, Err(MemError::StorePageFault)),
            },
        }
    }

    /// Translation under a policy that keeps the reason of a failure.
    pub open spec fn policy_translated(self, addr: u64, policy: AccessPolicy) -> (
        VmState,
        Result<u64, PageTableError>,
    ) {
        match policy {
            AccessPolicy::Direct => (self, Ok(addr)),
            AccessPolicy::Translated { check, effect, fault: _ } => self.translated(
                addr,
                check,
                effect,
            ),
        }
    }

    /// Memory under another scheme.
    pub open spec fn with_mode(self, mode: u8) -> VmState {
        VmState {
            walker: PageTableWalker { mode: page_table::scheme_of(mode, self.walker.mode), ..self.walker },
            ..self
        }
    }

    /// Memory under another root table.
    pub open spec fn with_root(self, ppn: u64) -> VmState {
        VmState {
            walker: PageTableWalker { root_addr: (ppn * 0x1000) as u64, ..self.walker },
            ..self
        }
    }

    /// Memory whose windows are handed over.
    pub open spec fn synced(self) -> VmState {
        VmState {
            phys: PhysState {
                windows: Seq::new(
                    self.phys.windows.len(),
                    |i: int| (Window { pending: false, ..self.phys.windows[i] }),
                ),
                ..self.phys
            },
            ..self
        }
    }
}

/// A translation without effect changes nothing.
pub proof fn lemma_no_effect(vm: VmState, vaddr: u64, check: PermissionCheck)
    ensures
        vm.translated(vaddr, check, AccessEffect::Nothing).0 == vm,
{
    assert forall|pte: u64| #[trigger] (pte & 0u64) == 0 by {
        assert(pte & 0u64 == 0) by (bit_vector);
    }
}

/// An atomic operation on an address ends a reservation of it: a store-conditional that follows
/// fails and leaves memory as the operation left it.
pub proof fn law_amo_ends_reservation(
    vm: VmState,
    op: AmoOp,
    addr: u64,
    w: Width,
    rhs: u64,
    data: u64,
)
    requires
        device::in_ram(addr),
        utils::aligned(w, addr),
    ensures
        ({
            let reserved = vm.load_reserved_with(addr, w, AccessPolicy::Direct).0;
            let after = reserved.amo_with(op, addr, w, rhs, AccessPolicy::Direct).0;
            let (last, r) = after.store_conditional_with(addr, w, data, AccessPolicy::Direct);
            &&& r == Ok::<bool, MemError>(false)
            &&& last.phys.ram.bytes == after.phys.ram.bytes
        }),
{
}

/// A store-conditional right after a load-reserved of the same address succeeds, and the
/// reservation is gone after it.
pub proof fn law_lr_sc_succeeds(vm: VmState, addr: u64, w: Width, data: u64)
    requires
        device::in_ram(addr),
        utils::aligned(w, addr),
    ensures
        ({
            let reserved = vm.load_reserved_with(addr, w, AccessPolicy::Direct).0;
            let (last, r) = reserved.store_conditional_with(addr, w, data, AccessPolicy::Direct);
            &&& r == Ok::<bool, MemError>(true)
            &&& last.phys.ram.reservation is None
            &&& last.phys.ram.bytes == ram::store_le(
                vm.phys.ram.bytes,
                addr - BASE_ADDR,
                w,
                data,
            )
        }),
{
}

/// Only RAM can be reserved: a load-reserved elsewhere faults, and a store-conditional elsewhere
/// faults and ends the reservation.
pub proof fn law_reservation_needs_ram(vm: VmState, addr: u64, w: Width, data: u64)
    requires
        !device::in_ram(addr),
        utils::aligned(w, addr),
    ensures
        vm.load_reserved_with(addr, w, AccessPolicy::Direct).1 == Err::<u64, MemError>(
            MemError::LoadFault,
        ),
        vm.store_conditional_with(addr, w, data, AccessPolicy::Direct).1 == Err::<bool, MemError>(
            MemError::StoreFault,
        ),
        vm.store_conditional_with(
            addr,
            w,
            data,
            AccessPolicy::Direct,
        ).0.phys.ram.reservation is None,
{
}

} // verus!
