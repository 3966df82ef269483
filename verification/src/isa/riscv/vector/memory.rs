//! Vector loads and stores.
use vstd::prelude::*;

use crate::device::{MemError, MemoryMapIO, PhysState};
use crate::isa::riscv::instruction::alu::AluFn;
use crate::isa::riscv::trap::Exception;
use crate::ram;
use crate::utils;
use crate::utils::Width;

use super::element;
use super::state;
use super::state::{Vector, VectorState, VREG_BYTES};
use super::types;
use super::types::VectorConfig;

verus! {

/// Why a vector memory instruction failed. A precise memory fault carries the index of the
/// element at which the instruction can be resumed.
#[derive(Clone, Copy, Debug, PartialEq, Eq, Structural)]
pub struct VectorMemException {
    pub cause: Exception,
    pub index: Option<u64>,
}

impl VectorMemException {
    /// The fault of an access for element `i`.
    pub open spec fn of_fault(err: MemError, i: int) -> VectorMemException {
        VectorMemException { cause: Exception::of_memory_err(err), index: Some(i as u64) }
    }

    /// The error of an instruction that is not legal.
    pub open spec fn of_illegal() -> VectorMemException {
        VectorMemException { cause: Exception::IllegalInstruction, index: None }
    }

    fn fault(err: MemError, i: usize) -> (r: VectorMemException)
        ensures
            r == VectorMemException::of_fault(err, i as int),
    {
        VectorMemException { cause: Exception::from_memory_err(err), index: Some(i as u64) }
    }

    fn illegal() -> (r: VectorMemException)
        ensures
            r == VectorMemException::of_illegal(),
    {
        VectorMemException { cause: Exception::IllegalInstruction, index: None }
    }

    /// The element at which the instruction can be resumed.
    pub fn fault_index(&self) -> (r: Option<u64>)
        ensures
            r == self.index,
    {
        self.index
    }

    pub fn exception(&self) -> (r: Exception)
        ensures
            r == self.cause,
    {
        self.cause
    }
}

/// Where the fields of an access lie in memory.
#[derive(Clone, Copy, Debug, PartialEq, Eq, Structural)]
pub enum Addressing {
    /// One field after the other.
    Unit,
    /// The segments lie a number of bytes apart.
    Stride(u64),
    /// An array of offsets in memory, one for each field, of a width of their own.
    Indexed { array: u64, width: Width },
}

/// A vector memory access. Field `f` of segment `i` is number `i * segments + f`.
#[derive(Clone, Copy, Debug, PartialEq, Eq, Structural)]
pub struct VectorAccess {
    /// The first register.
    pub reg: u8,
    /// The width of a field.
    pub width: Width,
    /// The number of fields of a segment.
    pub segments: u8,
    pub addressing: Addressing,
    pub masked: bool,
    pub vstart: u64,
    pub base: u64,
}

impl VectorAccess {
    /// The number of registers that one field of all segments takes.
    pub open spec fn regs(self, c: VectorConfig) -> int {
        types::group_regs(c.emul(self.width))
    }

    /// Whether the registers of the access exist.
    pub open spec fn legal(self, c: VectorConfig) -> bool {
        &&& c.group_ok(self.reg, self.width)
        &&& 1 <= self.segments <= 8
        &&& self.segments * self.regs(c) <= 8
        &&& self.reg + self.segments * self.regs(c) <= 32
    }

    /// The offset of a field in the register file.
    pub open spec fn place(self, c: VectorConfig, k: int) -> int {
        (self.reg + (k % self.segments as int) * self.regs(c)) * 16 + (k / self.segments as int)
            * self.width.spec_bytes()
    }

    /// The address of a field, which may have to be looked up in memory.
    pub open spec fn target(self, m: PhysState, k: int) -> Result<u64, MemError> {
        let n = self.width.spec_bytes();
        match self.addressing {
            Addressing::Unit => Ok(Width::W64.wrap(self.base + k * n)),
            Addressing::Stride(stride) => Ok(
                Width::W64.wrap(
                    self.base + ((k / self.segments as int) * stride + (k % self.segments as int)
                        * n),
                ),
            ),
            Addressing::Indexed { array, width } => {
                match m.read(Width::W64.wrap(array + k * width.spec_bytes()), width) {
                    Ok(offset) => Ok(Width::W64.wrap(self.base + offset)),
                    Err(e) => Err(e),
                }
            },
        }
    }

    /// The registers after the fields from `k` on are loaded, and whether all were.
    pub open spec fn loaded(self, s: VectorState, m: PhysState, bytes: Seq<u8>, k: int) -> (
        Seq<u8>,
        Result<(), VectorMemException>,
    )
        decreases s.config.vl * self.segments - k,
    {
        let i = k / self.segments as int;
        if k >= s.config.vl * self.segments {
            (bytes, Ok(()))
        } else if !s.active(i, self.masked, self.vstart) {
            self.loaded(s, m, bytes, k + 1)
        } else {
            match self.target(m, k) {
                Err(e) => (bytes, Err(VectorMemException::of_fault(e, i))),
                Ok(addr) => match m.read(addr, self.width) {
                    Err(e) => (bytes, Err(VectorMemException::of_fault(e, i))),
                    Ok(v) => self.loaded(
                        s,
                        m,
                        ram::store_le(bytes, self.place(s.config, k), self.width, v),
                        k + 1,
                    ),
                },
            }
        }
    }

    /// Memory after the fields from `k` on are stored, and whether all were.
    pub open spec fn stored(self, s: VectorState, m: PhysState, k: int) -> (
        PhysState,
        Result<(), VectorMemException>,
    )
        decreases s.config.vl * self.segments - k,
    {
        let i = k / self.segments as int;
        if k >= s.config.vl * self.segments {
            (m, Ok(()))
        } else if !s.active(i, self.masked, self.vstart) {
            self.stored(s, m, k + 1)
        } else {
            match self.target(m, k) {
                Err(e) => (m, Err(VectorMemException::of_fault(e, i))),
                Ok(addr) => match m.write_result(addr, self.width) {
                    Err(e) => (m, Err(VectorMemException::of_fault(e, i))),
                    Ok(_) => self.stored(
                        s,
                        m.written(
                            addr,
                            self.width,
                            ram::load_le(s.bytes, self.place(s.config, k), self.width),
                        ),
                        k + 1,
                    ),
                },
            }
        }
    }

    /// The vector unit after the access loads, and whether it completed.
    pub open spec fn load_effect(self, s: VectorState, m: PhysState) -> (
        VectorState,
        Result<(), VectorMemException>,
    ) {
        if self.legal(s.config) {
            let (bytes, r) = self.loaded(s, m, s.bytes, 0);
            (VectorState { bytes, ..s }, r)
        } else {
            (s, Err(VectorMemException::of_illegal()))
        }
    }

    /// Memory after the access stores, and whether it completed.
    pub open spec fn store_effect(self, s: VectorState, m: PhysState) -> (
        PhysState,
        Result<(), VectorMemException>,
    ) {
        if self.legal(s.config) {
            self.stored(s, m, 0)
        } else {
            (m, Err(VectorMemException::of_illegal()))
        }
    }

    /// A field of an access lies in the register file.
    pub proof fn lemma_place(self, c: VectorConfig, k: int)
        requires
            c.wf(),
            self.legal(c),
            0 <= k < c.vl * self.segments,
        ensures
            0 <= k / self.segments as int,
            k / (self.segments as int) < c.vl,
            0 <= k % self.segments as int,
            k % (self.segments as int) < self.segments,
            0 <= self.place(c, k),
            self.place(c, k) + self.width.spec_bytes() <= VREG_BYTES,
            0 <= (k % self.segments as int) * self.regs(c) <= 8,
            0 <= (k / self.segments as int) * self.width.spec_bytes() <= 1024,
    {
        let seg = self.segments as int;
        let i = k / seg;
        let f = k % seg;
        let g = self.regs(c);
        let b = self.width.spec_bytes();
        vstd::arithmetic::div_mod::lemma_fundamental_div_mod(k, seg);
        vstd::arithmetic::div_mod::lemma_mod_bound(k, seg);
        assert(0 <= i && i < c.vl) by (nonlinear_arith)
            requires
                k == seg * i + f,
                0 <= f < seg,
                0 <= k < c.vl * seg,
        ;
        types::lemma_element_in_file(c, self.reg, self.width, i);
        state::lemma_vl_bound(c);
        assert(f * g + g <= seg * g && 0 <= f * g) by (nonlinear_arith)
            requires
                0 <= f < seg,
                g >= 1,
        ;
        assert(0 <= i * b <= 1024) by (nonlinear_arith)
            requires
                0 <= i <= 128,
                1 <= b <= 8,
        ;
    }

    pub fn check(self, c: VectorConfig) -> (r: bool)
        ensures
            r == self.legal(c),
    {
        if !c.check_group(self.reg, self.width) || self.segments < 1 || self.segments > 8 {
            return false;
        }
        match c.group_size(self.width) {
            Some(g) => {
                let n: u16 = self.segments as u16;
                let total: u16 = match g {
                    1 => n,
                    2 => n * 2,
                    4 => n * 4,
                    _ => n * 8,
                };
                proof {
                    let seg = self.segments as int;
                    let regs = self.regs(c);
                    assert(seg * regs == total) by (nonlinear_arith)
                        requires
                            (regs == 1 && total == seg) || (regs == 2 && total == seg * 2) || (regs
                                == 4 && total == seg * 4) || (regs == 8 && total == seg * 8),
                    ;
                }
                total <= 8 && self.reg as u16 + total <= 32
            },
            None => false,
        }
    }

    /// Computes the offset of a field in the register file.
    pub fn locate(self, c: VectorConfig, k: usize) -> (r: usize)
        requires
            c.wf(),
            self.legal(c),
            k < c.vl * self.segments,
        ensures
            r == self.place(c, k as int),
            r + self.width.spec_bytes() <= VREG_BYTES,
    {
        proof {
            self.lemma_place(c, k as int);
        }
        let g: usize = c.group_size(self.width).unwrap() as usize;
        let seg: usize = self.segments as usize;
        (self.reg as usize + (k % seg) * g) * 16 + (k / seg) * self.width.bytes()
    }

    /// Computes the address of a field.
    fn address(self, mmio: &MemoryMapIO, k: usize) -> (r: Result<u64, MemError>)
        requires
            mmio.wf(),
            1 <= self.segments <= 8,
            k < 1024,
        ensures
            r == self.target(mmio@, k as int),
    {
        let n: usize = self.width.bytes();
        let seg: usize = self.segments as usize;
        proof {
            assert(0 <= k * n <= 8192) by (nonlinear_arith)
                requires
                    k < 1024,
                    1 <= n <= 8,
            ;
            vstd::arithmetic::div_mod::lemma_mod_bound(k as int, seg as int);
        }
        match self.addressing {
            Addressing::Unit => Ok(utils::add64(self.base, (k * n) as u64)),
            Addressing::Stride(stride) => {
                let i: u64 = (k / seg) as u64;
                let f: usize = k % seg;
                proof {
                    assert(0 <= f * n <= 64) by (nonlinear_arith)
                        requires
                            f < 8,
                            1 <= n <= 8,
                    ;
                    element::lemma_wrap_sum(Width::W64, i * stride, f * n);
                    element::lemma_wrap_sum(Width::W64, i * stride + f * n, self.base as int);
                }
                let along: u64 = AluFn::MulLow.exec(Width::W64, i, stride);
                let within: u64 = utils::add64(along, (f * n) as u64);
                Ok(utils::add64(self.base, within))
            },
            Addressing::Indexed { array, width } => {
                let wn: usize = width.bytes();
                proof {
                    assert(0 <= k * wn <= 8192) by (nonlinear_arith)
                        requires
                            k < 1024,
                            1 <= wn <= 8,
                    ;
                }
                match mmio.read_by_type(utils::add64(array, (k * wn) as u64), width) {
                    Ok(offset) => Ok(utils::add64(self.base, offset)),
                    Err(e) => Err(e),
                }
            },
        }
    }
}

impl Vector {
    /// Notes which segments an access works on.
    fn active_segments(&self, masked: bool, vstart: u64) -> (r: Vec<bool>)
        requires
            self.wf(),
        ensures
            r@.len() == self@.config.vl,
            forall|i: int| 0 <= i < r@.len() ==> r@[i] == self@.active(i, masked, vstart),
    {
        let n: usize = self.config.vl as usize;
        let mut out: Vec<bool> = Vec::new();
        let mut i: usize = 0;
        while i < n
            invariant
                i <= n,
                n == self@.config.vl,
                self.wf(),
                out@.len() == i,
                forall|j: int| 0 <= j < i ==> out@[j] == self@.active(j, masked, vstart),
            decreases n - i,
        {
            out.push(self.is_active(i, masked, vstart));
            i = i + 1;
        }
        out
    }

    /// Loads fields from memory.
    pub fn exec_load(&mut self, access: VectorAccess, mmio: &MemoryMapIO) -> (r: Result<
        (),
        VectorMemException,
    >)
        requires
            old(self).wf(),
            mmio.wf(),
        ensures
            final(self).wf(),
            final(self)@ == access.load_effect(old(self)@, mmio@).0,
            r == access.load_effect(old(self)@, mmio@).1,
    {
        if !access.check(self.config) {
            return Err(VectorMemException::illegal());
        }
        let active = self.active_segments(access.masked, access.vstart);
        let seg: usize = access.segments as usize;
        proof {
            state::lemma_vl_bound(self.config);
            lemma_field_count(self.config.vl as int, seg as int);
        }
        let total: usize = self.config.vl as usize * seg;
        let mut k: usize = 0;
        while k < total
            invariant
                k <= total <= 1024,
                total == old(self)@.config.vl * seg,
                seg == access.segments,
                1 <= seg <= 8,
                mmio.wf(),
                old(self).wf(),
                self.config == old(self).config,
                self.regs@.len() == VREG_BYTES,
                access.legal(self.config),
                active@.len() == self.config.vl,
                forall|i: int|
                    0 <= i < active@.len() ==> active@[i] == old(self)@.active(
                        i,
                        access.masked,
                        access.vstart,
                    ),
                access.loaded(old(self)@, mmio@, old(self)@.bytes, 0) == access.loaded(
                    old(self)@,
                    mmio@,
                    self.regs@,
                    k as int,
                ),
            decreases total - k,
        {
            proof {
                access.lemma_place(self.config, k as int);
            }
            let i: usize = k / seg;
            if active[i] {
                let addr: u64 = match access.address(mmio, k) {
                    Ok(addr) => addr,
                    Err(e) => {
                        return Err(VectorMemException::fault(e, i));
                    },
                };
                match mmio.read_by_type(addr, access.width) {
                    Ok(v) => {
                        let at: usize = access.locate(self.config, k);
                        ram::write_le(&mut self.regs, at, access.width, v);
                    },
                    Err(e) => {
                        return Err(VectorMemException::fault(e, i));
                    },
                }
            }
            k = k + 1;
        }
        Ok(())
    }

    /// Stores fields to memory.
    pub fn exec_store(&self, access: VectorAccess, mmio: &mut MemoryMapIO) -> (r: Result<
        (),
        VectorMemException,
    >)
        requires
            self.wf(),
            old(mmio).wf(),
        ensures
            final(mmio).wf(),
            final(mmio)@ == access.store_effect(self@, old(mmio)@).0,
            r == access.store_effect(self@, old(mmio)@).1,
    {
        if !access.check(self.config) {
            return Err(VectorMemException::illegal());
        }
        let active = self.active_segments(access.masked, access.vstart);
        let seg: usize = access.segments as usize;
        proof {
            state::lemma_vl_bound(self.config);
            lemma_field_count(self.config.vl as int, seg as int);
        }
        let total: usize = self.config.vl as usize * seg;
        let mut k: usize = 0;
        while k < total
            invariant
                k <= total <= 1024,
                total == self@.config.vl * seg,
                seg == access.segments,
                1 <= seg <= 8,
                mmio.wf(),
                self.wf(),
                access.legal(self.config),
                active@.len() == self.config.vl,
                forall|i: int|
                    0 <= i < active@.len() ==> active@[i] == self@.active(
                        i,
                        access.masked,
                        access.vstart,
                    ),
                access.stored(self@, old(mmio)@, 0) == access.stored(self@, mmio@, k as int),
            decreases total - k,
        {
            proof {
                access.lemma_place(self.config, k as int);
            }
            let i: usize = k / seg;
            if active[i] {
                let addr: u64 = match access.address(mmio, k) {
                    Ok(addr) => addr,
                    Err(e) => {
                        return Err(VectorMemException::fault(e, i));
                    },
                };
                let at: usize = access.locate(self.config, k);
                let v: u64 = ram::read_le(&self.regs, at, access.width);
                match mmio.write_by_type(addr, access.width, v) {
                    Ok(_) => {},
                    Err(e) => {
                        return Err(VectorMemException::fault(e, i));
                    },
                }
            }
            k = k + 1;
        }
        Ok(())
    }
}

/// No access has more than 1024 fields.
pub proof fn lemma_field_count(vl: int, seg: int)
    requires
        0 <= vl <= 128,
        1 <= seg <= 8,
    ensures
        0 <= vl * seg <= 1024,
{
    assert(0 <= vl * seg <= 1024) by (nonlinear_arith)
        requires
            0 <= vl <= 128,
            1 <= seg <= 8,
    ;
}

/// A run of bytes that moves between registers and memory.
#[derive(Clone, Copy, Debug, PartialEq, Eq, Structural)]
pub struct ByteRun {
    pub reg: u8,
    pub len: u64,
    pub vstart: u64,
    pub base: u64,
}

impl ByteRun {
    /// The run of the mask in `reg`: as many bytes as hold a bit for each element.
    pub open spec fn of_mask(c: VectorConfig, reg: u8, vstart: u64, base: u64) -> ByteRun {
        ByteRun { reg, len: ((c.vl + 7) / 8) as u64, vstart, base }
    }

    /// The run of `count` whole registers.
    pub open spec fn of_registers(reg: u8, count: u8, vstart: u64, base: u64) -> ByteRun {
        ByteRun { reg, len: (count * 16) as u64, vstart, base }
    }

    /// Whether the bytes lie in the register file.
    pub open spec fn fits(self) -> bool {
        self.reg * 16 + self.len <= VREG_BYTES
    }

    /// The registers after the bytes from `i` on are loaded, and whether all were.
    pub open spec fn loaded(self, m: PhysState, bytes: Seq<u8>, i: int) -> (
        Seq<u8>,
        Result<(), VectorMemException>,
    )
        decreases self.len - i,
    {
        if i >= self.len {
            (bytes, Ok(()))
        } else {
            match m.read(Width::W64.wrap(self.base + i), Width::W8) {
                Err(e) => (bytes, Err(VectorMemException::of_fault(e, i))),
                Ok(v) => self.loaded(
                    m,
                    ram::store_le(bytes, self.reg * 16 + i, Width::W8, v),
                    i + 1,
                ),
            }
        }
    }

    /// Memory after the bytes from `i` on are stored, and whether all were.
    pub open spec fn stored(self, bytes: Seq<u8>, m: PhysState, i: int) -> (
        PhysState,
        Result<(), VectorMemException>,
    )
        decreases self.len - i,
    {
        if i >= self.len {
            (m, Ok(()))
        } else {
            let addr = Width::W64.wrap(self.base + i);
            match m.write_result(addr, Width::W8) {
                Err(e) => (m, Err(VectorMemException::of_fault(e, i))),
                Ok(_) => self.stored(
                    bytes,
                    m.written(addr, Width::W8, bytes[self.reg * 16 + i] as u64),
                    i + 1,
                ),
            }
        }
    }
}

/// Whether `count` registers can move as a whole from `reg` on.
pub open spec fn whole_ok(reg: u8, count: u8) -> bool {
    &&& count == 1 || count == 2 || count == 4 || count == 8
    &&& reg < 32
    &&& reg as int % count as int == 0
}

pub fn check_whole(reg: u8, count: u8) -> (r: bool)
    ensures
        r == whole_ok(reg, count),
        r ==> reg + count <= 32,
{
    (count == 1 || count == 2 || count == 4 || count == 8) && reg < 32 && reg % count == 0
}

impl VectorState {
    /// The unit after a run of bytes is loaded, and whether it completed.
    pub open spec fn load_run(self, run: ByteRun, m: PhysState) -> (
        VectorState,
        Result<(), VectorMemException>,
    ) {
        let (bytes, r) = run.loaded(m, self.bytes, run.vstart as int);
        (VectorState { bytes, ..self }, r)
    }

    /// What loading the mask `vd` does.
    pub open spec fn mask_loaded(self, vd: u8, vstart: u64, base: u64, m: PhysState) -> (
        VectorState,
        Result<(), VectorMemException>,
    ) {
        if vd < 32 {
            self.load_run(ByteRun::of_mask(self.config, vd, vstart, base), m)
        } else {
            (self, Err(VectorMemException::of_illegal()))
        }
    }

    /// What storing the mask `vs3` does to memory.
    pub open spec fn mask_stored(self, vs3: u8, vstart: u64, base: u64, m: PhysState) -> (
        PhysState,
        Result<(), VectorMemException>,
    ) {
        if vs3 < 32 {
            ByteRun::of_mask(self.config, vs3, vstart, base).stored(self.bytes, m, vstart as int)
        } else {
            (m, Err(VectorMemException::of_illegal()))
        }
    }

    /// What loading `nf + 1` whole registers does.
    pub open spec fn whole_loaded(self, vd: u8, nf: u8, vstart: u64, base: u64, m: PhysState) -> (
        VectorState,
        Result<(), VectorMemException>,
    ) {
        let count = (nf + 1) as u8;
        if nf < 8 && whole_ok(vd, count) {
            self.load_run(ByteRun::of_registers(vd, count, vstart, base), m)
        } else {
            (self, Err(VectorMemException::of_illegal()))
        }
    }

    /// What storing `nf + 1` whole registers does to memory.
    pub open spec fn whole_stored(self, vs3: u8, nf: u8, vstart: u64, base: u64, m: PhysState) -> (
        PhysState,
        Result<(), VectorMemException>,
    ) {
        let count = (nf + 1) as u8;
        if nf < 8 && whole_ok(vs3, count) {
            ByteRun::of_registers(vs3, count, vstart, base).stored(self.bytes, m, vstart as int)
        } else {
            (m, Err(VectorMemException::of_illegal()))
        }
    }
}

impl Vector {
    fn exec_load_run(&mut self, run: ByteRun, mmio: &MemoryMapIO) -> (r: Result<
        (),
        VectorMemException,
    >)
        requires
            old(self).wf(),
            mmio.wf(),
            run.fits(),
        ensures
            final(self).wf(),
            final(self)@ == old(self)@.load_run(run, mmio@).0,
            r == old(self)@.load_run(run, mmio@).1,
    {
        let mut i: u64 = run.vstart;
        while i < run.len
            invariant
                mmio.wf(),
                run.fits(),
                old(self).wf(),
                self.config == old(self).config,
                self.regs@.len() == VREG_BYTES,
                run.loaded(mmio@, old(self)@.bytes, run.vstart as int) == run.loaded(
                    mmio@,
                    self.regs@,
                    i as int,
                ),
            decreases run.len - i,
        {
            match mmio.read_by_type(utils::add64(run.base, i), Width::W8) {
                Ok(v) => {
                    ram::write_le(
                        &mut self.regs,
                        run.reg as usize * 16 + i as usize,
                        Width::W8,
                        v,
                    );
                },
                Err(e) => {
                    return Err(VectorMemException::fault(e, i as usize));
                },
            }
            i = i + 1;
        }
        Ok(())
    }

    fn exec_store_run(&self, run: ByteRun, mmio: &mut MemoryMapIO) -> (r: Result<
        (),
        VectorMemException,
    >)
        requires
            self.wf(),
            old(mmio).wf(),
            run.fits(),
        ensures
            final(mmio).wf(),
            final(mmio)@ == run.stored(self@.bytes, old(mmio)@, run.vstart as int).0,
            r == run.stored(self@.bytes, old(mmio)@, run.vstart as int).1,
    {
        let mut i: u64 = run.vstart;
        while i < run.len
            invariant
                mmio.wf(),
                run.fits(),
                self.wf(),
                run.stored(self@.bytes, old(mmio)@, run.vstart as int) == run.stored(
                    self@.bytes,
                    mmio@,
                    i as int,
                ),
            decreases run.len - i,
        {
            let byte: u8 = self.regs[run.reg as usize * 16 + i as usize];
            match mmio.write_by_type(utils::add64(run.base, i), Width::W8, byte as u64) {
                Ok(_) => {},
                Err(e) => {
                    return Err(VectorMemException::fault(e, i as usize));
                },
            }
            i = i + 1;
        }
        Ok(())
    }

    /// Loads the mask in `vd`.
    pub fn mask_load(&mut self, vd: u8, vstart: u64, base: u64, mmio: &MemoryMapIO) -> (r: Result<
        (),
        VectorMemException,
    >)
        requires
            old(self).wf(),
            mmio.wf(),
        ensures
            final(self).wf(),
            final(self)@ == old(self)@.mask_loaded(vd, vstart, base, mmio@).0,
            r == old(self)@.mask_loaded(vd, vstart, base, mmio@).1,
    {
        if vd >= 32 {
            return Err(VectorMemException::illegal());
        }
        proof {
            state::lemma_vl_bound(self.config);
        }
        let len: u64 = (self.config.vl as u64 + 7) / 8;
        self.exec_load_run(ByteRun { reg: vd, len, vstart, base }, mmio)
    }

    /// Stores the mask in `vs3`.
    pub fn mask_store(&self, vs3: u8, vstart: u64, base: u64, mmio: &mut MemoryMapIO) -> (r: Result<
        (),
        VectorMemException,
    >)
        requires
            self.wf(),
            old(mmio).wf(),
        ensures
            final(mmio).wf(),
            final(mmio)@ == self@.mask_stored(vs3, vstart, base, old(mmio)@).0,
            r == self@.mask_stored(vs3, vstart, base, old(mmio)@).1,
    {
        if vs3 >= 32 {
            return Err(VectorMemException::illegal());
        }
        proof {
            state::lemma_vl_bound(self.config);
        }
        let len: u64 = (self.config.vl as u64 + 7) / 8;
        self.exec_store_run(ByteRun { reg: vs3, len, vstart, base }, mmio)
    }

    /// Loads `nf + 1` whole registers.
    pub fn load_whole_register(
        &mut self,
        vd: u8,
        nf: u8,
        vstart: u64,
        base: u64,
        mmio: &MemoryMapIO,
    ) -> (r: Result<(), VectorMemException>)
        requires
            old(self).wf(),
            mmio.wf(),
        ensures
            final(self).wf(),
            final(self)@ == old(self)@.whole_loaded(vd, nf, vstart, base, mmio@).0,
            r == old(self)@.whole_loaded(vd, nf, vstart, base, mmio@).1,
    {
        if !(nf < 8 && check_whole(vd, nf + 1)) {
            return Err(VectorMemException::illegal());
        }
        let len: u64 = (nf as u64 + 1) * 16;
        self.exec_load_run(ByteRun { reg: vd, len, vstart, base }, mmio)
    }

    /// Stores `nf + 1` whole registers.
    pub fn store_whole_register(
        &self,
        vs3: u8,
        nf: u8,
        vstart: u64,
        base: u64,
        mmio: &mut MemoryMapIO,
    ) -> (r: Result<(), VectorMemException>)
        requires
            self.wf(),
            old(mmio).wf(),
        ensures
            final(mmio).wf(),
            final(mmio)@ == self@.whole_stored(vs3, nf, vstart, base, old(mmio)@).0,
            r == self@.whole_stored(vs3, nf, vstart, base, old(mmio)@).1,
    {
        if !(nf < 8 && check_whole(vs3, nf + 1)) {
            return Err(VectorMemException::illegal());
        }
        let len: u64 = (nf as u64 + 1) * 16;
        self.exec_store_run(ByteRun { reg: vs3, len, vstart, base }, mmio)
    }
}

} // verus!
