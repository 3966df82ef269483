//! The physical memory map: RAM and the register windows of devices.
use vstd::prelude::*;

use crate::config::{BASE_ADDR, RAM_SIZE};
use crate::ram;
use crate::ram::{Ram, RamState};
use crate::utils;
use crate::utils::Width;

verus! {

/// Why a memory access failed.
#[derive(Clone, Copy, Debug, PartialEq, Eq, Structural)]
pub enum MemError {
    LoadMisaligned,
    LoadFault,
    LoadPageFault,
    StoreMisaligned,
    StoreFault,
    StorePageFault,
}

/// The register window of a device.
pub struct MemoryMapItem {
    pub start: u64,
    pub regs: Vec<u8>,
    /// Whether the window was written since the last synchronisation.
    pub pending: bool,
}

/// A register window as plain values.
#[verifier::ext_equal]
pub struct Window {
    pub start: u64,
    pub bytes: Seq<u8>,
    pub pending: bool,
}

impl Window {
    /// Whether an access of `n` bytes at `addr` lies in the window.
    pub open spec fn covers(self, addr: u64, n: int) -> bool {
        self.start <= addr && addr - self.start + n <= self.bytes.len()
    }
}

impl View for MemoryMapItem {
    type V = Window;

    open spec fn view(&self) -> Window {
        Window { start: self.start, bytes: self.regs@, pending: self.pending }
    }
}

impl MemoryMapItem {
    /// A window of `size` bytes that hold zeros.
    pub fn new(start: u64, size: usize) -> (r: MemoryMapItem)
        ensures
            r@ == (Window { start, bytes: Seq::new(size as nat, |i: int| 0u8), pending: false }),
    {
        let regs: Vec<u8> = vec![0u8; size];
        MemoryMapItem { start, regs, pending: false }
    }

    fn covers(&self, addr: u64, w: Width) -> (r: bool)
        ensures
            r == self@.covers(addr, w.spec_bytes()),
    {
        let n: usize = w.bytes();
        if addr < self.start || self.regs.len() < n {
            false
        } else {
            addr - self.start <= (self.regs.len() - n) as u64
        }
    }
}

/// The first window from index `i` on that an access lies in.
pub open spec fn window_from(windows: Seq<Window>, addr: u64, n: int, i: int) -> Option<int>
    decreases windows.len() - i,
{
    if i < 0 || i >= windows.len() {
        None
    } else if windows[i].covers(addr, n) {
        Some(i)
    } else {
        window_from(windows, addr, n, i + 1)
    }
}

/// Whether `addr` is the address of a byte of RAM.
pub open spec fn in_ram(addr: u64) -> bool {
    BASE_ADDR <= addr < BASE_ADDR + RAM_SIZE
}

/// An aligned access that starts in RAM ends in RAM.
pub proof fn lemma_aligned_fits(addr: u64, w: Width)
    requires
        in_ram(addr),
        utils::aligned(w, addr),
    ensures
        addr - BASE_ADDR + w.spec_bytes() <= RAM_SIZE,
{
    match w {
        Width::W8 => {},
        Width::W16 => assert(addr as int % 2 == 0),
        Width::W32 => assert(addr as int % 4 == 0),
        Width::W64 => assert(addr as int % 8 == 0),
    }
}

/// Physical memory as plain values.
#[verifier::ext_equal]
pub struct PhysState {
    pub ram: RamState,
    pub windows: Seq<Window>,
}

impl PhysState {
    /// The offset of an address in RAM.
    pub open spec fn offset(addr: u64) -> u64 {
        (addr - BASE_ADDR) as u64
    }

    /// What a read gives.
    pub open spec fn read(self, addr: u64, w: Width) -> Result<u64, MemError> {
        if in_ram(addr) {
            if utils::aligned(w, addr) {
                Ok(ram::load_le(self.ram.bytes, addr - BASE_ADDR, w))
            } else {
                Err(MemError::LoadMisaligned)
            }
        } else {
            match window_from(self.windows, addr, w.spec_bytes(), 0) {
                Some(i) => Ok(
                    ram::load_le(self.windows[i].bytes, addr - self.windows[i].start, w),
                ),
                None => Err(MemError::LoadFault),
            }
        }
    }

    /// What a write gives.
    pub open spec fn write_result(self, addr: u64, w: Width) -> Result<(), MemError> {
        if in_ram(addr) {
            if utils::aligned(w, addr) {
                Ok(())
            } else {
                Err(MemError::StoreMisaligned)
            }
        } else if window_from(self.windows, addr, w.spec_bytes(), 0) is Some {
            Ok(())
        } else {
            Err(MemError::StoreFault)
        }
    }

    /// Memory after a write; one that fails changes nothing.
    pub open spec fn written(self, addr: u64, w: Width, v: u64) -> PhysState {
        if self.write_result(addr, w) is Err {
            self
        } else if in_ram(addr) {
            PhysState { ram: self.ram.stored(PhysState::offset(addr), w, v), ..self }
        } else {
            let i = window_from(self.windows, addr, w.spec_bytes(), 0)->0;
            let old_window = self.windows[i];
            let new_window = Window {
                bytes: ram::store_le(old_window.bytes, addr - old_window.start, w, v),
                pending: true,
                ..old_window
            };
            PhysState { windows: self.windows.update(i, new_window), ..self }
        }
    }

    /// What a load-reserved gives: only RAM can be reserved.
    pub open spec fn load_reserved(self, addr: u64, w: Width) -> Result<u64, MemError> {
        if in_ram(addr) {
            self.read(addr, w)
        } else {
            Err(MemError::LoadFault)
        }
    }

    /// Memory with a reservation.
    pub open spec fn with_reservation(self, reservation: Option<u64>) -> PhysState {
        PhysState { ram: RamState { reservation, ..self.ram }, ..self }
    }

    /// What a store-conditional gives: whether the address is the reserved one.
    pub open spec fn store_conditional(self, addr: u64, w: Width) -> Result<bool, MemError> {
        if !in_ram(addr) {
            Err(MemError::StoreFault)
        } else if !utils::aligned(w, addr) {
            Err(MemError::StoreMisaligned)
        } else {
            Ok(self.ram.reservation == Some(PhysState::offset(addr)))
        }
    }
}

/// The physical memory of the machine.
pub struct MemoryMapIO {
    pub ram: Ram,
    pub items: Vec<MemoryMapItem>,
}

impl View for MemoryMapIO {
    type V = PhysState;

    open spec fn view(&self) -> PhysState {
        PhysState {
            ram: self.ram@,
            windows: Seq::new(self.items@.len(), |i: int| self.items@[i]@),
        }
    }
}

impl MemoryMapIO {
    pub open spec fn wf(&self) -> bool {
        self.ram.wf()
    }

    /// A memory map with RAM alone.
    pub fn from_ram(ram: Ram) -> (r: MemoryMapIO)
        requires
            ram.wf(),
        ensures
            r.wf(),
            r@ == (PhysState { ram: ram@, windows: Seq::empty() }),
    {
        MemoryMapIO { ram, items: Vec::new() }
    }

    /// A memory map with RAM and device windows.
    pub fn from_mmio_items(ram: Ram, items: Vec<MemoryMapItem>) -> (r: MemoryMapIO)
        requires
            ram.wf(),
        ensures
            r.wf(),
            r@ == (PhysState {
                ram: ram@,
                windows: Seq::new(items@.len(), |i: int| items@[i]@),
            }),
    {
        MemoryMapIO { ram, items }
    }

    fn is_ram(addr: u64) -> (r: bool)
        ensures
            r == in_ram(addr),
    {
        BASE_ADDR <= addr && addr < BASE_ADDR + RAM_SIZE
    }

    /// The first window that an access lies in.
    fn find(&self, addr: u64, w: Width) -> (r: Option<usize>)
        ensures
            match r {
                Some(i) => {
                    &&& i < self.items@.len()
                    &&& window_from(self@.windows, addr, w.spec_bytes(), 0) == Some(i as int)
                    &&& self.items@[i as int]@.covers(addr, w.spec_bytes())
                },
                None => window_from(self@.windows, addr, w.spec_bytes(), 0) is None,
            },
    {
        let mut i: usize = 0;
        while i < self.items.len()
            invariant
                i <= self.items@.len(),
                window_from(self@.windows, addr, w.spec_bytes(), 0) == window_from(
                    self@.windows,
                    addr,
                    w.spec_bytes(),
                    i as int,
                ),
            decreases self.items@.len() - i,
        {
            assert(self@.windows[i as int] == self.items@[i as int]@);
            if self.items[i].covers(addr, w) {
                return Some(i);
            }
            i = i + 1;
        }
        None
    }

    pub fn read_by_type(&self, addr: u64, w: Width) -> (r: Result<u64, MemError>)
        requires
            self.wf(),
        ensures
            r == self@.read(addr, w),
            r is Ok ==> w.holds(r->Ok_0),
    {
        if MemoryMapIO::is_ram(addr) {
            if utils::check_align(w, addr) {
                proof {
                    lemma_aligned_fits(addr, w);
                }
                Ok(self.ram.read(addr - BASE_ADDR, w))
            } else {
                Err(MemError::LoadMisaligned)
            }
        } else {
            match self.find(addr, w) {
                Some(i) => {
                    assert(self@.windows[i as int] == self.items@[i as int]@);
                    assert(addr - self.items@[i as int].start <= self.items@[i as int].regs.len());
                    let at: usize = (addr - self.items[i].start) as usize;
                    Ok(ram::read_le(&self.items[i].regs, at, w))
                },
                None => Err(MemError::LoadFault),
            }
        }
    }

    pub fn write_by_type(&mut self, addr: u64, w: Width, data: u64) -> (r: Result<(), MemError>)
        requires
            old(self).wf(),
        ensures
            final(self).wf(),
            r == old(self)@.write_result(addr, w),
            final(self)@ == old(self)@.written(addr, w, data),
    {
        if MemoryMapIO::is_ram(addr) {
            if utils::check_align(w, addr) {
                proof {
                    lemma_aligned_fits(addr, w);
                }
                self.ram.write(addr - BASE_ADDR, w, data);
                Ok(())
            } else {
                Err(MemError::StoreMisaligned)
            }
        } else {
            match self.find(addr, w) {
                Some(i) => {
                    assert(self@.windows[i as int] == self.items@[i as int]@);
                    let start: u64 = self.items[i].start;
                    assert(addr - start <= self.items@[i as int].regs.len());
                    let at: usize = (addr - start) as usize;
                    let item = &mut self.items[i];
                    ram::write_le(&mut item.regs, at, w, data);
                    item.pending = true;
                    assert(self@.windows =~= old(self)@.written(addr, w, data).windows);
                    Ok(())
                },
                None => Err(MemError::StoreFault),
            }
        }
    }

    pub fn load_reserved(&mut self, addr: u64, w: Width) -> (r: Result<u64, MemError>)
        requires
            old(self).wf(),
        ensures
            final(self).wf(),
            r == old(self)@.load_reserved(addr, w),
            r is Ok ==> w.holds(r->Ok_0),
            final(self)@ == if r is Ok {
                old(self)@.with_reservation(Some(PhysState::offset(addr)))
            } else {
                old(self)@
            },
    {
        if !MemoryMapIO::is_ram(addr) {
            return Err(MemError::LoadFault);
        }
        match self.read_by_type(addr, w) {
            Ok(v) => {
                self.ram.reserve(addr - BASE_ADDR);
                Ok(v)
            },
            Err(e) => Err(e),
        }
    }

    /// Stores if the address is the reserved one; says whether it did.
    pub fn store_conditional(&mut self, addr: u64, w: Width, data: u64) -> (r: Result<
        bool,
        MemError,
    >)
        requires
            old(self).wf(),
        ensures
            final(self).wf(),
            r == old(self)@.store_conditional(addr, w),
            final(self)@ == if r == Ok::<bool, MemError>(true) {
                old(self)@.written(addr, w, data)
            } else {
                old(self)@
            },
    {
        if !MemoryMapIO::is_ram(addr) {
            return Err(MemError::StoreFault);
        }
        if !utils::check_align(w, addr) {
            return Err(MemError::StoreMisaligned);
        }
        match self.ram.reservation {
            Some(reserved) => if reserved == addr - BASE_ADDR {
                proof {
                    lemma_aligned_fits(addr, w);
                }
                self.ram.write(addr - BASE_ADDR, w, data);
                Ok(true)
            } else {
                Ok(false)
            },
            None => Ok(false),
        }
    }

    pub fn clear_reservation(&mut self)
        requires
            old(self).wf(),
        ensures
            final(self).wf(),
            final(self)@ == old(self)@.with_reservation(None),
    {
        self.ram.clear_reservation();
    }

    /// Marks every window as handed over to its device.
    pub fn sync(&mut self)
        requires
            old(self).wf(),
        ensures
            final(self).wf(),
            final(self)@.ram == old(self)@.ram,
            final(self)@.windows == Seq::new(
                old(self)@.windows.len(),
                |i: int| (Window { pending: false, ..old(self)@.windows[i] }),
            ),
    {
        let mut i: usize = 0;
        while i < self.items.len()
            invariant
                i <= self.items@.len(),
                self.items@.len() == old(self).items@.len(),
                self.ram == old(self).ram,
                forall|j: int|
                    0 <= j < self.items@.len() ==> (#[trigger] self.items@[j])@ == if j < i {
                        Window { pending: false, ..old(self).items@[j]@ }
                    } else {
                        old(self).items@[j]@
                    },
            decreases self.items@.len() - i,
        {
            let item = &mut self.items[i];
            item.pending = false;
            i = i + 1;
        }
    }
}

} // verus!
