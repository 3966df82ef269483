//! What address translation is for, as relations between a virtual address, the tables and the
//! physical address.
use vstd::arithmetic::div_mod::*;
use vstd::arithmetic::power2::*;
use vstd::prelude::*;

use crate::config::{BASE_ADDR, RAM_SIZE};
use crate::isa::riscv::csr_reg::field::CsrField;
use crate::isa::riscv::csr_reg::PrivilegeLevel;
use crate::isa::riscv::executor::CpuState;
use crate::ram;
use crate::ram::RamState;
use crate::utils::Width;

use super::manager::{AccessPolicy, AccessType};
use super::page_table;
use super::page_table::{
    AccessEffect,
    AdUpdatePolicy,
    PageTableError,
    PageTableWalker,
    PermissionCheck,
    VirtualMemoryMode,
};
use super::policy;

verus! {

/// The bits of a virtual address of a scheme.
pub open spec fn address_bits(mode: VirtualMemoryMode) -> nat {
    match mode {
        VirtualMemoryMode::Bare => 64,
        VirtualMemoryMode::Sv39 => 39,
        VirtualMemoryMode::Sv48 => 48,
        VirtualMemoryMode::Sv57 => 57,
    }
}

/// A scheme of n bits has as many levels as nine bits each and a page of twelve bits need, and an
/// address belongs to it if, read as a signed number, it fits n bits.
pub proof fn law_schemes(mode: VirtualMemoryMode, vaddr: u64)
    ensures
        mode != VirtualMemoryMode::Bare ==> address_bits(mode) == 12 + 9 * (mode.spec_top() + 1),
        mode.canonical(vaddr) <==> -(pow2((address_bits(mode) - 1) as nat) as int)
            <= Width::W64.signed(vaddr) < pow2((address_bits(mode) - 1) as nat),
{
    lemma2_to64();
    lemma2_to64_rest();
}

/// A page of each level is as large as 512 pages of the level below, and the smallest has 4096
/// bytes.
pub proof fn law_page_sizes(level: nat)
    requires
        level <= 4,
    ensures
        page_table::page_size(level) == pow2(12 + 9 * level),
        page_table::page_size(0) == 4096,
        level > 0 ==> page_table::page_size(level) == 512 * page_table::page_size(
            (level - 1) as nat,
        ),
{
    lemma2_to64();
    lemma2_to64_rest();
}

/// The page number in an entry: 44 bits from bit 10 on.
pub open spec fn page_number(pte: u64) -> int {
    (pte as int / 0x400) % 0x1000_0000_0000
}

/// The entry of an address on a level of the walk lies in its table at the index that the nine bits
/// of the address for that level give. A walk ends at an entry that is not valid, or that can be
/// written and not read; it ends at a leaf, which can be read or executed; and it goes on, one level
/// below, at the table that any other entry names, unless there is no level below.
pub proof fn law_walk(bytes: Seq<u8>, base: int, vaddr: u64, level: nat)
    requires
        level <= 4,
    ensures
        ({
            let index = (vaddr as int / (pow2(12 + 9 * level) as int)) % 512;
            let at = base + 8 * index;
            let pte = ram::load_le(bytes, at - BASE_ADDR, Width::W64);
            let (v, r, w, x) = (pte & 1 != 0, pte & 2 != 0, pte & 4 != 0, pte & 8 != 0);
            page_table::walk(bytes, base, vaddr, level) == if at < BASE_ADDR || at + 8 > BASE_ADDR
                + RAM_SIZE {
                Err(PageTableError::AccessFault)
            } else if !v || (!r && w) {
                Err(PageTableError::InvalidEntry)
            } else if r || x {
                Ok((at, pte, level))
            } else if level == 0 {
                Err(PageTableError::InvalidEntry)
            } else {
                page_table::walk(bytes, 0x1000 * page_number(pte), vaddr, (level - 1) as nat)
            }
        }),
{
    law_page_sizes(level);
}

/// A translation that succeeds found a leaf whose flags permit the access and whose page is aligned
/// to its size; the physical address is that of the page and the offset of the virtual address in
/// it, and the entry in memory then has every bit that the access sets and no other bit changed.
pub proof fn law_translation_succeeds(
    walker: PageTableWalker,
    ram: RamState,
    vaddr: u64,
    check: PermissionCheck,
    effect: AccessEffect,
)
    requires
        walker.mode != VirtualMemoryMode::Bare,
        walker.translated(ram, vaddr, check, effect).1 is Ok,
        ram.bytes.len() == RAM_SIZE,
    ensures
        ({
            let (after, r) = walker.translated(ram, vaddr, check, effect);
            let found = page_table::walk(
                ram.bytes,
                walker.root_addr as int,
                vaddr,
                walker.mode.spec_top(),
            );
            let (at, pte, level) = found->Ok_0;
            let size = pow2(12 + 9 * level) as int;
            let needed = match effect {
                AccessEffect::Nothing => 0u64,
                AccessEffect::Accessed => 0x40,
                AccessEffect::AccessedDirty => 0xc0,
            };
            let kept = ram::load_le(after.bytes, at - BASE_ADDR, Width::W64);
            &&& walker.mode.canonical(vaddr)
            &&& found is Ok
            &&& level <= walker.mode.spec_top()
            &&& check.permits(pte & 0xff)
            &&& (0x1000 * page_number(pte)) % size == 0
            &&& r->Ok_0 == 0x1000 * page_number(pte) + vaddr as int % size
            &&& kept == pte | needed
            &&& walker.ad_policy == AdUpdatePolicy::Software ==> after == ram
            &&& forall|k: int|
                0 <= k < RAM_SIZE && !(at - BASE_ADDR <= k < at - BASE_ADDR + 8)
                    ==> #[trigger] after.bytes[k] == ram.bytes[k]
        }),
{
    let top = walker.mode.spec_top();
    let root = walker.root_addr as int;
    let (at, pte, level) = page_table::walk(ram.bytes, root, vaddr, top)->Ok_0;
    page_table::lemma_leaf_in_ram(ram.bytes, root, vaddr, top);
    page_table::lemma_leaf_address(pte, vaddr, level);
    lemma_leaf_loaded(ram.bytes, root, vaddr, top);
    law_page_sizes(level);
    let needed = effect.bits();
    assert(pte & needed == needed ==> pte | needed == pte) by (bit_vector);
    ram::law_load_after_store(ram.bytes, at - BASE_ADDR, Width::W64, pte | needed);
}

/// A leaf is what memory holds where it lies.
proof fn lemma_leaf_loaded(bytes: Seq<u8>, base: int, vaddr: u64, level: nat)
    requires
        page_table::walk(bytes, base, vaddr, level) is Ok,
    ensures
        ({
            let (at, pte, found) = page_table::walk(bytes, base, vaddr, level)->Ok_0;
            pte == ram::load_le(bytes, at - BASE_ADDR, Width::W64)
        }),
    decreases level,
{
    let addr = page_table::entry_addr(base, vaddr, level);
    let pte = ram::load_le(bytes, addr - BASE_ADDR, Width::W64);
    if !(pte & page_table::PTE_R != 0 || pte & page_table::PTE_X != 0) && level > 0 {
        lemma_leaf_loaded(bytes, page_table::target_of(pte), vaddr, (level - 1) as nat);
    }
}

/// A translation fails where the address does not belong to the scheme, where the walk fails, where
/// the page is not aligned to its size, where the flags do not permit the access, or where bits are
/// missing that software has to set; a failure changes nothing.
pub proof fn law_translation_fails(
    walker: PageTableWalker,
    ram: RamState,
    vaddr: u64,
    check: PermissionCheck,
    effect: AccessEffect,
)
    requires
        walker.mode != VirtualMemoryMode::Bare,
        walker.translated(ram, vaddr, check, effect).1 is Err,
    ensures
        ({
            let (after, r) = walker.translated(ram, vaddr, check, effect);
            let found = page_table::walk(
                ram.bytes,
                walker.root_addr as int,
                vaddr,
                walker.mode.spec_top(),
            );
            let (at, pte, level) = found->Ok_0;
            &&& after == ram
            &&& r->Err_0 == PageTableError::NonCanonical <==> !walker.mode.canonical(vaddr)
            &&& walker.mode.canonical(vaddr) && found is Err ==> r->Err_0 == found->Err_0
            &&& walker.mode.canonical(vaddr) && found is Ok ==> {
                ||| (0x1000 * page_number(pte)) % page_table::page_size(level) != 0 && r->Err_0
                    == PageTableError::MisalignedPage
                ||| !check.permits(pte & 0xff) && r->Err_0 == PageTableError::PermissionDenied
                ||| walker.ad_policy == AdUpdatePolicy::Software && r->Err_0
                    == PageTableError::AdBitClear
            }
        }),
{
    lemma_walk_errors(
        ram.bytes,
        walker.root_addr as int,
        vaddr,
        walker.mode.spec_top(),
    );
}

/// A walk fails for one of two reasons.
proof fn lemma_walk_errors(bytes: Seq<u8>, base: int, vaddr: u64, level: nat)
    ensures
        page_table::walk(bytes, base, vaddr, level) matches Err(e) ==> e
            == PageTableError::AccessFault || e == PageTableError::InvalidEntry,
    decreases level,
{
    let addr = page_table::entry_addr(base, vaddr, level);
    let pte = ram::load_le(bytes, addr - BASE_ADDR, Width::W64);
    if !(pte & page_table::PTE_R != 0 || pte & page_table::PTE_X != 0) && level > 0 {
        lemma_walk_errors(bytes, page_table::target_of(pte), vaddr, (level - 1) as nat);
    }
}

/// Outside machine mode, under a scheme, an instruction that was fetched came from a page that can be
/// executed, and that is a user page exactly where the hart is not in supervisor mode.
pub proof fn law_fetched_page(s: CpuState, addr: u64, w: Width, side_effect: bool)
    requires
        s.csr.cpl != PrivilegeLevel::M,
        s.vm.walker.mode != VirtualMemoryMode::Bare,
        s.vm.phys.ram.bytes.len() == RAM_SIZE,
        s.instr_read(addr, w, side_effect).1 is Ok,
    ensures
        ({
            let found = page_table::walk(
                s.vm.phys.ram.bytes,
                s.vm.walker.root_addr as int,
                addr,
                s.vm.walker.mode.spec_top(),
            );
            let pte = (found->Ok_0).1;
            &&& found is Ok
            &&& pte & 8 != 0
            &&& (pte & 0x10 != 0) == (s.csr.cpl != PrivilegeLevel::S)
        }),
{
    let found = page_table::walk(
        s.vm.phys.ram.bytes,
        s.vm.walker.root_addr as int,
        addr,
        s.vm.walker.mode.spec_top(),
    );
    let pte = (found->Ok_0).1;
    policy::law_ifetch_policy_permits(s.csr, side_effect, pte & 0xff);
    if let AccessPolicy::Translated { check, effect, .. } = policy::ifetch_policy(
        s.csr,
        side_effect,
    ) {
        law_translation_succeeds(s.vm.walker, s.vm.phys.ram, addr, check, effect);
    }
    lemma_low_flags(pte);
}

/// Under a scheme, data that was loaded or stored came from or went to a page that the access has a
/// right to: a load one that can be read, or executed where MXR is set; a store one that can be
/// written.
pub proof fn law_accessed_page(s: CpuState, addr: u64, w: Width, data: u64)
    requires
        s.csr.cpl != PrivilegeLevel::M,
        s.vm.walker.mode != VirtualMemoryMode::Bare,
        s.vm.phys.ram.bytes.len() == RAM_SIZE,
    ensures
        ({
            let found = page_table::walk(
                s.vm.phys.ram.bytes,
                s.vm.walker.root_addr as int,
                addr,
                s.vm.walker.mode.spec_top(),
            );
            let pte = (found->Ok_0).1;
            let reachable = if s.csr.cpl == PrivilegeLevel::S {
                pte & 0x10 == 0 || s.csr.field(CsrField::Mstatus_sum) != 0
            } else {
                pte & 0x10 != 0
            };
            &&& s.data_read(addr, w).1 is Ok ==> found is Ok && reachable && (pte & 2 != 0 || (
            s.csr.field(CsrField::Mstatus_mxr) == 1 && pte & 8 != 0))
            &&& s.data_written(addr, w, data).1 is Ok ==> found is Ok && reachable && pte & 4 != 0
        }),
{
    let found = page_table::walk(
        s.vm.phys.ram.bytes,
        s.vm.walker.root_addr as int,
        addr,
        s.vm.walker.mode.spec_top(),
    );
    let pte = (found->Ok_0).1;
    policy::law_data_policy_permits(s.csr, AccessType::Read, pte & 0xff);
    policy::law_data_policy_permits(s.csr, AccessType::Write, pte & 0xff);
    lemma_low_flags(pte);
    if s.data_read(addr, w).1 is Ok {
        if let AccessPolicy::Translated { check, effect, .. } = policy::data_policy(
            s.csr,
            AccessType::Read,
            true,
        ) {
            law_translation_succeeds(s.vm.walker, s.vm.phys.ram, addr, check, effect);
        }
    }
    if s.data_written(addr, w, data).1 is Ok {
        if let AccessPolicy::Translated { check, effect, .. } = policy::data_policy(
            s.csr,
            AccessType::Write,
            true,
        ) {
            law_translation_succeeds(s.vm.walker, s.vm.phys.ram, addr, check, effect);
        }
    }
}

/// The flags of an entry are its low bits.
proof fn lemma_low_flags(pte: u64)
    ensures
        (pte & 0xff) & 2 == pte & 2,
        (pte & 0xff) & 4 == pte & 4,
        (pte & 0xff) & 8 == pte & 8,
        (pte & 0xff) & 0x10 == pte & 0x10,
{
    assert({
        &&& (pte & 0xff) & 2 == pte & 2
        &&& (pte & 0xff) & 4 == pte & 4
        &&& (pte & 0xff) & 8 == pte & 8
        &&& (pte & 0xff) & 0x10 == pte & 0x10
    }) by (bit_vector);
}

} // verus!
