//! The page-table walker of the Sv39, Sv48 and Sv57 schemes.
use vstd::arithmetic::div_mod::*;
use vstd::prelude::*;

use crate::config::{BASE_ADDR, RAM_SIZE};
use crate::ram;
use crate::ram::{Ram, RamState};
use crate::utils::Width;

verus! {

/// Log2 of the page size.
pub const PAGE_SIZE_XLEN: u64 = 12;

/// The flags of a page-table entry.
pub const PTE_V: u64 = 0x01;

pub const PTE_R: u64 = 0x02;

pub const PTE_W: u64 = 0x04;

pub const PTE_X: u64 = 0x08;

pub const PTE_U: u64 = 0x10;

pub const PTE_A: u64 = 0x40;

pub const PTE_D: u64 = 0x80;

/// A virtual memory scheme.
#[derive(Clone, Copy, Debug, PartialEq, Eq, Structural)]
pub enum VirtualMemoryMode {
    Bare,
    Sv39,
    Sv48,
    Sv57,
}

impl VirtualMemoryMode {
    /// The index of the root level; the leaves of the last level have index 0.
    pub open spec fn spec_top(self) -> nat {
        match self {
            VirtualMemoryMode::Bare => 0,
            VirtualMemoryMode::Sv39 => 2,
            VirtualMemoryMode::Sv48 => 3,
            VirtualMemoryMode::Sv57 => 4,
        }
    }

    /// Half the size of the virtual address space.
    pub open spec fn spec_half_space(self) -> int {
        match self {
            VirtualMemoryMode::Bare => 0x8000_0000_0000_0000,
            VirtualMemoryMode::Sv39 => 0x40_0000_0000,
            VirtualMemoryMode::Sv48 => 0x8000_0000_0000,
            VirtualMemoryMode::Sv57 => 0x100_0000_0000_0000,
        }
    }

    /// Whether the upper bits of an address repeat the top bit of the scheme.
    pub open spec fn canonical(self, vaddr: u64) -> bool {
        vaddr < self.spec_half_space() || vaddr >= 0x1_0000_0000_0000_0000
            - self.spec_half_space()
    }

    fn top(self) -> (r: u32)
        ensures
            r == self.spec_top(),
            r <= 4,
    {
        match self {
            VirtualMemoryMode::Bare => 0,
            VirtualMemoryMode::Sv39 => 2,
            VirtualMemoryMode::Sv48 => 3,
            VirtualMemoryMode::Sv57 => 4,
        }
    }

    fn is_canonical(self, vaddr: u64) -> (r: bool)
        ensures
            r == self.canonical(vaddr),
    {
        let half: u64 = match self {
            VirtualMemoryMode::Bare => 0x8000_0000_0000_0000,
            VirtualMemoryMode::Sv39 => 0x40_0000_0000,
            VirtualMemoryMode::Sv48 => 0x8000_0000_0000,
            VirtualMemoryMode::Sv57 => 0x100_0000_0000_0000,
        };
        vaddr < half || vaddr > 0xffff_ffff_ffff_ffff - half
    }
}

/// How accessed and dirty bits are kept.
#[derive(Clone, Copy, Debug, PartialEq, Eq, Structural)]
pub enum AdUpdatePolicy {
    /// The walker sets them.
    Hardware,
    /// An access that needs them set fails.
    Software,
}

/// Why a translation failed.
#[derive(Clone, Copy, Debug, PartialEq, Eq, Structural)]
pub enum PageTableError {
    /// The address does not belong to the address space.
    NonCanonical,
    /// An entry does not lie in RAM.
    AccessFault,
    /// An entry is not valid, or the last level is not a leaf.
    InvalidEntry,
    /// The page of a leaf is not aligned to its size.
    MisalignedPage,
    /// The flags of the leaf do not allow the access.
    PermissionDenied,
    /// The accessed or dirty bit is not set, and software has to set it.
    AdBitClear,
}

/// The flags that an access asks for.
#[derive(Clone, Copy, Debug, PartialEq, Eq, Structural)]
pub struct PermissionCheck {
    /// If not empty, one of these must be set.
    pub any_of: u64,
    /// Under this mask, the flags must be `exact_flags`.
    pub exact_mask: u64,
    pub exact_flags: u64,
}

impl PermissionCheck {
    /// Whether the flags of an entry allow the access.
    pub open spec fn permits(self, flags: u64) -> bool {
        &&& self.any_of == 0 || flags & self.any_of != 0
        &&& flags & self.exact_mask == self.exact_flags
    }

    /// A check that any flags pass.
    pub open spec fn none() -> PermissionCheck {
        PermissionCheck { any_of: 0, exact_mask: 0, exact_flags: 0 }
    }

    fn passes(self, flags: u64) -> (r: bool)
        ensures
            r == self.permits(flags),
    {
        (self.any_of == 0 || flags & self.any_of != 0) && flags & self.exact_mask
            == self.exact_flags
    }

    /// A check that any flags pass.
    pub fn empty() -> (r: PermissionCheck)
        ensures
            r == PermissionCheck::none(),
    {
        PermissionCheck { any_of: 0, exact_mask: 0, exact_flags: 0 }
    }
}

/// The bits of a leaf that an access sets.
#[derive(Clone, Copy, Debug, PartialEq, Eq, Structural)]
pub enum AccessEffect {
    Nothing,
    Accessed,
    AccessedDirty,
}

impl AccessEffect {
    /// The bits that have to be set.
    pub open spec fn bits(self) -> u64 {
        match self {
            AccessEffect::Nothing => 0,
            AccessEffect::Accessed => 0x40,
            AccessEffect::AccessedDirty => 0xc0,
        }
    }

    fn needed(self) -> (r: u64)
        ensures
            r == self.bits(),
    {
        match self {
            AccessEffect::Nothing => 0,
            AccessEffect::Accessed => 0x40,
            AccessEffect::AccessedDirty => 0xc0,
        }
    }
}

/// The size of a page of a level.
pub open spec fn page_size(level: nat) -> int {
    if level == 0 {
        0x1000
    } else if level == 1 {
        0x20_0000
    } else if level == 2 {
        0x4000_0000
    } else if level == 3 {
        0x80_0000_0000
    } else {
        0x1_0000_0000_0000
    }
}

fn size_of_page(level: u32) -> (r: u64)
    ensures
        r == page_size(level as nat),
        r > 0,
{
    match level {
        0 => 0x1000,
        1 => 0x20_0000,
        2 => 0x4000_0000,
        3 => 0x80_0000_0000,
        _ => 0x1_0000_0000_0000,
    }
}

/// The address of the page or table that an entry points at.
pub open spec fn target_of(pte: u64) -> int {
    ((pte as int / 0x400) % 0x1000_0000_0000) * 0x1000
}

/// Where the entry of `vaddr` lies in the table at `base`.
pub open spec fn entry_addr(base: int, vaddr: u64, level: nat) -> int {
    base + ((vaddr as int / page_size(level)) % 512) * 8
}

/// Whether a doubleword at a physical address lies in RAM.
pub open spec fn entry_in_ram(addr: int) -> bool {
    BASE_ADDR <= addr && addr + 8 <= BASE_ADDR + RAM_SIZE
}

/// The leaf that a walk from the table at `base` finds: where it lies, its value and its level.
pub open spec fn walk(bytes: Seq<u8>, base: int, vaddr: u64, level: nat) -> Result<
    (int, u64, nat),
    PageTableError,
>
    decreases level,
{
    let addr = entry_addr(base, vaddr, level);
    if !entry_in_ram(addr) {
        Err(PageTableError::AccessFault)
    } else {
        let pte = ram::load_le(bytes, addr - BASE_ADDR, Width::W64);
        if pte & PTE_V == 0 || (pte & PTE_R == 0 && pte & PTE_W != 0) {
            Err(PageTableError::InvalidEntry)
        } else if pte & PTE_R != 0 || pte & PTE_X != 0 {
            Ok((addr, pte, level))
        } else if level == 0 {
            Err(PageTableError::InvalidEntry)
        } else {
            walk(bytes, target_of(pte), vaddr, (level - 1) as nat)
        }
    }
}

/// The walker: where the root table lies, under which scheme.
#[derive(Clone, Copy, Debug, PartialEq, Eq, Structural)]
pub struct PageTableWalker {
    pub root_addr: u64,
    pub mode: VirtualMemoryMode,
    pub ad_policy: AdUpdatePolicy,
}

impl PageTableWalker {
    /// What translation of `vaddr` gives, and RAM after it.
    pub open spec fn translated(
        self,
        ram: RamState,
        vaddr: u64,
        check: PermissionCheck,
        effect: AccessEffect,
    ) -> (RamState, Result<u64, PageTableError>) {
        if self.mode == VirtualMemoryMode::Bare {
            (ram, Ok(vaddr))
        } else if !self.mode.canonical(vaddr) {
            (ram, Err(PageTableError::NonCanonical))
        } else {
            match walk(ram.bytes, self.root_addr as int, vaddr, self.mode.spec_top()) {
                Err(e) => (ram, Err(e)),
                Ok((addr, pte, level)) => {
                    let page = page_size(level);
                    if target_of(pte) % page != 0 {
                        (ram, Err(PageTableError::MisalignedPage))
                    } else if !check.permits(pte & 0xff) {
                        (ram, Err(PageTableError::PermissionDenied))
                    } else {
                        let paddr = (target_of(pte) + vaddr as int % page) as u64;
                        if pte & effect.bits() == effect.bits() {
                            (ram, Ok(paddr))
                        } else if self.ad_policy == AdUpdatePolicy::Software {
                            (ram, Err(PageTableError::AdBitClear))
                        } else {
                            (
                                ram.stored(
                                    (addr - BASE_ADDR) as u64,
                                    Width::W64,
                                    pte | effect.bits(),
                                ),
                                Ok(paddr),
                            )
                        }
                    }
                },
            }
        }
    }

    pub fn new(root_addr: u64, mode: VirtualMemoryMode) -> (r: PageTableWalker)
        ensures
            r == (PageTableWalker { root_addr, mode, ad_policy: AdUpdatePolicy::Hardware }),
    {
        PageTableWalker { root_addr, mode, ad_policy: AdUpdatePolicy::Hardware }
    }

    /// Selects the scheme that the MODE field of `satp` names. A reserved value selects nothing.
    pub fn set_mode(&mut self, mode: u8)
        ensures
            *final(self) == (PageTableWalker {
                mode: scheme_of(mode, old(self).mode),
                ..*old(self)
            }),
    {
        self.mode =
        match mode {
            0 => VirtualMemoryMode::Bare,
            8 => VirtualMemoryMode::Sv39,
            9 => VirtualMemoryMode::Sv48,
            10 => VirtualMemoryMode::Sv57,
            _ => self.mode,
        };
    }

    fn find_leaf(ram: &Ram, base: u64, vaddr: u64, level: u32) -> (r: Result<
        (u64, u64, u32),
        PageTableError,
    >)
        requires
            ram.wf(),
            level <= 4,
            base <= 0xffff_ffff_ffff_f000,
        ensures
            match (r, walk(ram@.bytes, base as int, vaddr, level as nat)) {
                (Ok(a), Ok(b)) => {
                    &&& a.0 == b.0
                    &&& a.1 == b.1
                    &&& a.2 == b.2
                    &&& a.2 <= 4
                    &&& entry_in_ram(b.0)
                },
                (Err(a), Err(b)) => a == b,
                _ => false,
            },
        decreases level,
    {
        let index: u64 = (vaddr / size_of_page(level)) % 512;
        let addr: u64 = base + index * 8;
        if addr < BASE_ADDR || addr > BASE_ADDR + RAM_SIZE - 8 {
            return Err(PageTableError::AccessFault);
        }
        let pte: u64 = ram.read(addr - BASE_ADDR, Width::W64);
        if pte & PTE_V == 0 || (pte & PTE_R == 0 && pte & PTE_W != 0) {
            Err(PageTableError::InvalidEntry)
        } else if pte & PTE_R != 0 || pte & PTE_X != 0 {
            Ok((addr, pte, level))
        } else if level == 0 {
            Err(PageTableError::InvalidEntry)
        } else {
            let next: u64 = ((pte / 0x400) % 0x1000_0000_0000) * 0x1000;
            PageTableWalker::find_leaf(ram, next, vaddr, level - 1)
        }
    }

    /// Translates an address, checks the access and sets the bits that it has to set.
    pub fn translate_vaddr(
        &self,
        ram: &mut Ram,
        vaddr: u64,
        check: PermissionCheck,
        effect: AccessEffect,
    ) -> (r: Result<u64, PageTableError>)
        requires
            old(ram).wf(),
            self.root_addr <= 0xffff_ffff_ffff_f000,
        ensures
            final(ram).wf(),
            r == self.translated(old(ram)@, vaddr, check, effect).1,
            final(ram)@ == self.translated(old(ram)@, vaddr, check, effect).0,
    {
        match self.mode {
            VirtualMemoryMode::Bare => {
                return Ok(vaddr);
            },
            _ => {},
        }
        if !self.mode.is_canonical(vaddr) {
            return Err(PageTableError::NonCanonical);
        }
        let (addr, pte, level) = match PageTableWalker::find_leaf(
            ram,
            self.root_addr,
            vaddr,
            self.mode.top(),
        ) {
            Ok(leaf) => leaf,
            Err(e) => {
                return Err(e);
            },
        };
        let page: u64 = size_of_page(level);
        let target: u64 = ((pte / 0x400) % 0x1000_0000_0000) * 0x1000;
        if target % page != 0 {
            return Err(PageTableError::MisalignedPage);
        }
        if !check.passes(pte & 0xff) {
            return Err(PageTableError::PermissionDenied);
        }
        proof {
            lemma_page_offset(vaddr as int, level as nat);
        }
        let paddr: u64 = target + vaddr % page;
        let needed: u64 = effect.needed();
        if pte & needed == needed {
            return Ok(paddr);
        }
        match self.ad_policy {
            AdUpdatePolicy::Software => Err(PageTableError::AdBitClear),
            AdUpdatePolicy::Hardware => {
                ram.write(addr - BASE_ADDR, Width::W64, pte | needed);
                Ok(paddr)
            },
        }
    }
}

/// The scheme that the MODE field of `satp` selects.
pub open spec fn scheme_of(mode: u8, current: VirtualMemoryMode) -> VirtualMemoryMode {
    if mode == 0 {
        VirtualMemoryMode::Bare
    } else if mode == 8 {
        VirtualMemoryMode::Sv39
    } else if mode == 9 {
        VirtualMemoryMode::Sv48
    } else if mode == 10 {
        VirtualMemoryMode::Sv57
    } else {
        current
    }
}

/// The offset in a page of any level has the low bits of the address.
proof fn lemma_page_offset(v: int, level: nat)
    requires
        0 <= v,
    ensures
        (v % page_size(level)) % 0x1000 == v % 0x1000,
        0 <= v % page_size(level) < page_size(level) <= 0x1_0000_0000_0000,
{
    lemma_mod_bound(v, page_size(level));
    if level == 0 {
        lemma_mod_twice(v, 0x1000);
    } else if level == 1 {
        lemma_mod_mod(v, 0x1000, 0x200);
    } else if level == 2 {
        lemma_mod_mod(v, 0x1000, 0x4_0000);
    } else if level == 3 {
        lemma_mod_mod(v, 0x1000, 0x800_0000);
    } else {
        lemma_mod_mod(v, 0x1000, 0x10_0000_0000);
    }
}

/// A leaf lies in RAM, on one of the levels of the scheme.
pub proof fn lemma_leaf_in_ram(bytes: Seq<u8>, base: int, vaddr: u64, level: nat)
    requires
        walk(bytes, base, vaddr, level) is Ok,
    ensures
        entry_in_ram((walk(bytes, base, vaddr, level)->Ok_0).0),
        (walk(bytes, base, vaddr, level)->Ok_0).2 <= level,
    decreases level,
{
    let addr = entry_addr(base, vaddr, level);
    let pte = ram::load_le(bytes, addr - BASE_ADDR, Width::W64);
    if !(pte & PTE_R != 0 || pte & PTE_X != 0) && level > 0 {
        lemma_leaf_in_ram(bytes, target_of(pte), vaddr, (level - 1) as nat);
    }
}

/// A leaf maps to physical addresses of 56 bits and a page more.
pub proof fn lemma_leaf_address(pte: u64, vaddr: u64, level: nat)
    ensures
        0 <= target_of(pte) <= 0xff_ffff_ffff_f000,
        0 <= vaddr as int % page_size(level) < page_size(level) <= 0x1_0000_0000_0000,
{
    lemma_mod_bound(pte as int / 0x400, 0x1000_0000_0000);
    lemma_page_offset(vaddr as int, level);
}

/// A translation keeps the offset within a page: the physical address of a translated access
/// has the low twelve bits of the virtual address.
pub proof fn law_translation_keeps_page_offset(
    walker: PageTableWalker,
    ram: RamState,
    vaddr: u64,
    check: PermissionCheck,
    effect: AccessEffect,
)
    requires
        walker.translated(ram, vaddr, check, effect).1 is Ok,
    ensures
        walker.translated(ram, vaddr, check, effect).1->Ok_0 % 0x1000 == vaddr % 0x1000,
{
    if walker.mode != VirtualMemoryMode::Bare {
        let leaf = walk(ram.bytes, walker.root_addr as int, vaddr, walker.mode.spec_top())->Ok_0;
        let pte = leaf.1;
        let page = page_size(leaf.2);
        let frame = (pte as int / 0x400) % 0x1000_0000_0000;
        let off = vaddr as int % page;
        lemma_page_offset(vaddr as int, leaf.2);
        lemma_mod_bound(pte as int / 0x400, 0x1000_0000_0000);
        lemma_mod_multiples_vanish(frame, off, 0x1000);
        assert(target_of(pte) + off == 0x1000 * frame + off);
    }
}

} // verus!
