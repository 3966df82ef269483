//! The vector registers.
use vstd::prelude::*;

use crate::ram;
use crate::utils::Width;

use super::types;
use super::types::{Vlmul, VectorConfig, Vsew};

verus! {

/// The size of the vector register file in bytes.
pub const VREG_BYTES: usize = 512;

/// The vector unit as plain values.
#[verifier::ext_equal]
pub struct VectorState {
    /// The registers one after the other, 16 bytes each.
    pub bytes: Seq<u8>,
    pub config: VectorConfig,
}

/// Element `i` of the group at `reg`, as a value of width `w`.
pub open spec fn element(bytes: Seq<u8>, reg: u8, i: int, w: Width) -> u64 {
    ram::load_le(bytes, reg * 16 + i * w.spec_bytes(), w)
}

/// Bit `i` of the mask in register `reg`.
pub open spec fn mask_bit(bytes: Seq<u8>, reg: u8, i: int) -> bool {
    (bytes[reg * 16 + i / 8] >> ((i % 8) as u8)) & 1 == 1
}

/// A byte with bit `p` replaced.
pub open spec fn with_bit(byte: u8, p: int, bit: bool) -> u8 {
    let m = 1u8 << (p as u8);
    if bit {
        byte | m
    } else {
        byte & !m
    }
}

/// The registers after the first `n` results are written to the group at `vd`. An element without
/// a result keeps its value.
pub open spec fn with_elements(
    bytes: Seq<u8>,
    vd: u8,
    w: Width,
    results: Seq<Option<u64>>,
    n: int,
) -> Seq<u8>
    decreases n,
{
    if n <= 0 {
        bytes
    } else {
        let prev = with_elements(bytes, vd, w, results, n - 1);
        match results[n - 1] {
            Some(v) => ram::store_le(prev, vd * 16 + (n - 1) * w.spec_bytes(), w, v),
            None => prev,
        }
    }
}

/// The registers after the first `n` results are written to the mask in `vd`. A bit without a
/// result keeps its value.
pub open spec fn with_mask(bytes: Seq<u8>, vd: u8, results: Seq<Option<bool>>, n: int) -> Seq<u8>
    decreases n,
{
    if n <= 0 {
        bytes
    } else {
        let prev = with_mask(bytes, vd, results, n - 1);
        match results[n - 1] {
            Some(bit) => {
                let at = vd * 16 + (n - 1) / 8;
                prev.update(at, with_bit(prev[at], (n - 1) % 8, bit))
            },
            None => prev,
        }
    }
}

/// Writing results changes no length.
pub proof fn lemma_with_elements_len(
    bytes: Seq<u8>,
    vd: u8,
    w: Width,
    results: Seq<Option<u64>>,
    n: int,
)
    ensures
        with_elements(bytes, vd, w, results, n).len() == bytes.len(),
    decreases n,
{
    if n > 0 {
        lemma_with_elements_len(bytes, vd, w, results, n - 1);
    }
}

/// Writing mask bits changes no length.
pub proof fn lemma_with_mask_len(bytes: Seq<u8>, vd: u8, results: Seq<Option<bool>>, n: int)
    requires
        bytes.len() == VREG_BYTES,
        vd < 32,
        n <= 128,
    ensures
        with_mask(bytes, vd, results, n).len() == bytes.len(),
    decreases n,
{
    if n > 0 {
        lemma_with_mask_len(bytes, vd, results, n - 1);
    }
}

/// After results are written, an element with a result holds it, cut to the width, and an element
/// without one holds what it held.
pub proof fn law_written_elements(
    bytes: Seq<u8>,
    vd: u8,
    w: Width,
    results: Seq<Option<u64>>,
    n: int,
    i: int,
)
    requires
        bytes.len() == VREG_BYTES,
        0 <= i < n <= results.len(),
        vd * 16 + n * w.spec_bytes() <= VREG_BYTES,
    ensures
        element(with_elements(bytes, vd, w, results, n), vd, i, w) == match results[i] {
            Some(v) => w.wrap(v as int),
            None => element(bytes, vd, i, w),
        },
    decreases n,
{
    let b = w.spec_bytes();
    let prev = with_elements(bytes, vd, w, results, n - 1);
    lemma_with_elements_len(bytes, vd, w, results, n - 1);
    assert((n - 1) * b + b == n * b && 0 <= (n - 1) * b) by (nonlinear_arith)
        requires
            n >= 1,
            b >= 1,
    ;
    let at = vd * 16 + (n - 1) * b;
    if i == n - 1 {
        if results[i] is Some {
            ram::law_load_after_store(prev, at, w, results[i]->0);
        } else {
            lemma_elements_frame(bytes, vd, w, results, n - 1, at, w);
        }
    } else {
        law_written_elements(bytes, vd, w, results, n - 1, i);
        if results[n - 1] is Some {
            assert(i * b + b <= (n - 1) * b && 0 <= i * b) by (nonlinear_arith)
                requires
                    0 <= i < n - 1,
                    b >= 1,
            ;
            ram::law_store_frame(prev, at, w, results[n - 1]->0, vd * 16 + i * b, w);
        }
    }
}

/// Replacing a bit of a byte replaces that bit and no other.
proof fn lemma_with_bit(byte: u8, p: int, bit: bool, q: int)
    requires
        0 <= p < 8,
        0 <= q < 8,
    ensures
        ((with_bit(byte, p, bit) >> (q as u8)) & 1 == 1) == if p == q {
            bit
        } else {
            (byte >> (q as u8)) & 1 == 1
        },
{
    let (x, y) = (p as u8, q as u8);
    assert(x < 8 && y < 8 ==> {
        &&& (((byte | (1u8 << x)) >> y) & 1 == 1) == (x == y || (byte >> y) & 1 == 1)
        &&& (((byte & !(1u8 << x)) >> y) & 1 == 1) == (x != y && (byte >> y) & 1 == 1)
    }) by (bit_vector);
}

/// After results are written to a mask, a bit with a result holds it, and every other bit of the
/// register holds what it held.
pub proof fn law_written_mask(
    bytes: Seq<u8>,
    vd: u8,
    results: Seq<Option<bool>>,
    n: int,
    i: int,
)
    requires
        bytes.len() == VREG_BYTES,
        vd < 32,
        0 <= n <= results.len(),
        n <= 128,
        0 <= i < 128,
    ensures
        mask_bit(with_mask(bytes, vd, results, n), vd, i) == if i < n && results[i] is Some {
            results[i]->0
        } else {
            mask_bit(bytes, vd, i)
        },
    decreases n,
{
    if n > 0 {
        let prev = with_mask(bytes, vd, results, n - 1);
        lemma_with_mask_len(bytes, vd, results, n - 1);
        law_written_mask(bytes, vd, results, n - 1, i);
        if results[n - 1] is Some {
            let at = vd * 16 + (n - 1) / 8;
            if i / 8 == (n - 1) / 8 {
                lemma_with_bit(prev[at], (n - 1) % 8, results[n - 1]->0, i % 8);
            }
        }
    }
}

/// Writing results leaves everything outside the written elements alone.
pub proof fn lemma_elements_frame(
    bytes: Seq<u8>,
    vd: u8,
    w: Width,
    results: Seq<Option<u64>>,
    n: int,
    at: int,
    other: Width,
)
    requires
        bytes.len() == VREG_BYTES,
        0 <= n <= results.len(),
        vd * 16 + n * w.spec_bytes() <= VREG_BYTES,
        0 <= at,
        at + other.spec_bytes() <= VREG_BYTES,
        at >= vd * 16 + n * w.spec_bytes() || at + other.spec_bytes() <= vd * 16,
    ensures
        ram::load_le(with_elements(bytes, vd, w, results, n), at, other) == ram::load_le(
            bytes,
            at,
            other,
        ),
    decreases n,
{
    if n > 0 {
        let b = w.spec_bytes();
        let prev = with_elements(bytes, vd, w, results, n - 1);
        lemma_with_elements_len(bytes, vd, w, results, n - 1);
        assert((n - 1) * b + b == n * b && 0 <= (n - 1) * b) by (nonlinear_arith)
            requires
                n >= 1,
                b >= 1,
        ;
        lemma_elements_frame(bytes, vd, w, results, n - 1, at, other);
        if results[n - 1] is Some {
            ram::law_store_frame(prev, vd * 16 + (n - 1) * b, w, results[n - 1]->0, at, other);
        }
    }
}

/// The vector unit.
pub struct Vector {
    pub regs: Vec<u8>,
    pub config: VectorConfig,
}

impl View for Vector {
    type V = VectorState;

    open spec fn view(&self) -> VectorState {
        VectorState { bytes: self.regs@, config: self.config }
    }
}

impl VectorState {
    pub open spec fn wf(self) -> bool {
        &&& self.bytes.len() == VREG_BYTES
        &&& self.config.wf()
    }

    /// The selected element width.
    pub open spec fn sew(self) -> Width {
        self.config.vsew.spec_width()
    }

    /// Whether an instruction works on element `i`: it is among the first `vl` from `vstart` on,
    /// and an instruction under a mask finds its bit in `v0` set.
    pub open spec fn active(self, i: int, masked: bool, vstart: u64) -> bool {
        &&& vstart <= i < self.config.vl
        &&& !masked || mask_bit(self.bytes, 0, i)
    }

    /// The unit after all results are written to the group at `vd`.
    pub open spec fn with_results(
        self,
        vd: u8,
        w: Width,
        results: Seq<Option<u64>>,
    ) -> VectorState {
        VectorState {
            bytes: with_elements(self.bytes, vd, w, results, results.len() as int),
            ..self
        }
    }

    /// The unit after all results are written to the mask in `vd`.
    pub open spec fn with_mask_results(self, vd: u8, results: Seq<Option<bool>>) -> VectorState {
        VectorState { bytes: with_mask(self.bytes, vd, results, results.len() as int), ..self }
    }
}

impl Vector {
    pub open spec fn wf(&self) -> bool {
        self@.wf()
    }

    /// Registers that hold zeros, without a configuration.
    pub fn new() -> (r: Vector)
        ensures
            r.wf(),
            r@.bytes == Seq::new(VREG_BYTES as nat, |i: int| 0u8),
            r@.config == (VectorConfig {
                vlmul: Vlmul::M1,
                vsew: Vsew::E8,
                vta: false,
                vma: false,
                vl: 0,
            }),
    {
        let regs: Vec<u8> = vec![0u8; VREG_BYTES];
        Vector {
            regs,
            config: VectorConfig {
                vlmul: Vlmul::M1,
                vsew: Vsew::E8,
                vta: false,
                vma: false,
                vl: 0,
            },
        }
    }

    pub fn set_config(&mut self, config: VectorConfig)
        requires
            old(self).wf(),
            config.wf(),
        ensures
            final(self).wf(),
            final(self)@ == (VectorState { config, ..old(self)@ }),
    {
        self.config = config;
    }

    /// Reads element `i` of the group at `reg`.
    pub fn get(&self, reg: u8, i: usize, w: Width) -> (r: u64)
        requires
            self.wf(),
            reg < 32,
            i < 512,
            reg * 16 + i * w.spec_bytes() + w.spec_bytes() <= VREG_BYTES,
        ensures
            r == element(self@.bytes, reg, i as int, w),
            w.holds(r),
    {
        proof {
            lemma_offset_fits(i as int, w);
        }
        ram::read_le(&self.regs, reg as usize * 16 + i * w.bytes(), w)
    }

    /// Reads bit `i` of the mask in register `reg`.
    pub fn get_bit(&self, reg: u8, i: usize) -> (r: bool)
        requires
            self.wf(),
            reg < 32,
            i < 128,
        ensures
            r == mask_bit(self@.bytes, reg, i as int),
    {
        let byte: u8 = self.regs[reg as usize * 16 + i / 8];
        (byte >> ((i % 8) as u8)) & 1 == 1
    }

    /// Whether an instruction works on element `i`.
    pub fn is_active(&self, i: usize, masked: bool, vstart: u64) -> (r: bool)
        requires
            self.wf(),
            i < self@.config.vl,
        ensures
            r == self@.active(i as int, masked, vstart),
    {
        proof {
            lemma_vl_bound(self.config);
        }
        i as u64 >= vstart && (!masked || self.get_bit(0, i))
    }

    /// Writes results to the group at `vd`.
    pub fn write_results(&mut self, vd: u8, w: Width, results: &Vec<Option<u64>>)
        requires
            old(self).wf(),
            vd < 32,
            results@.len() <= 512,
            vd * 16 + results@.len() * w.spec_bytes() <= VREG_BYTES,
        ensures
            final(self).wf(),
            final(self)@ == old(self)@.with_results(vd, w, results@),
    {
        let n: usize = results.len();
        let mut i: usize = 0;
        while i < n
            invariant
                i <= n,
                n == results@.len(),
                n <= 512,
                vd < 32,
                vd * 16 + n * w.spec_bytes() <= VREG_BYTES,
                self.config == old(self).config,
                self.regs@.len() == VREG_BYTES,
                self.regs@ == with_elements(old(self).regs@, vd, w, results@, i as int),
            decreases n - i,
        {
            assert(i * w.spec_bytes() + w.spec_bytes() <= n * w.spec_bytes() && 0 <= i
                * w.spec_bytes()) by (nonlinear_arith)
                requires
                    0 <= i < n,
                    w.spec_bytes() >= 1,
            ;
            proof {
                lemma_offset_fits(i as int, w);
            }
            match results[i] {
                Some(v) => {
                    ram::write_le(&mut self.regs, vd as usize * 16 + i * w.bytes(), w, v);
                },
                None => {},
            }
            i = i + 1;
        }
    }

    /// Writes results to the mask in `vd`.
    pub fn write_mask(&mut self, vd: u8, results: &Vec<Option<bool>>)
        requires
            old(self).wf(),
            vd < 32,
            results@.len() <= 128,
        ensures
            final(self).wf(),
            final(self)@ == old(self)@.with_mask_results(vd, results@),
    {
        let n: usize = results.len();
        let mut i: usize = 0;
        while i < n
            invariant
                i <= n,
                n == results@.len(),
                n <= 128,
                vd < 32,
                self.config == old(self).config,
                self.regs@.len() == VREG_BYTES,
                self.regs@ == with_mask(old(self).regs@, vd, results@, i as int),
            decreases n - i,
        {
            match results[i] {
                Some(bit) => {
                    let at: usize = vd as usize * 16 + i / 8;
                    let m: u8 = 1u8 << ((i % 8) as u8);
                    let byte: u8 = self.regs[at];
                    let new_byte: u8 = if bit {
                        byte | m
                    } else {
                        byte & !m
                    };
                    self.regs.set(at, new_byte);
                },
                None => {},
            }
            i = i + 1;
        }
    }

    /// The elements of the group at `reg`, read as values of width `w`. A group of the current
    /// multiplier has to start there.
    pub fn read_as_type(&self, reg: u8, w: Width) -> (r: Option<Vec<u64>>)
        requires
            self.wf(),
            reg < 32,
        ensures
            match r {
                Some(v) => {
                    let regs = types::group_regs(self@.config.vlmul.spec_eighths());
                    &&& reg as int % regs == 0
                    &&& v@ == Seq::new(
                        (16 * regs / w.spec_bytes()) as nat,
                        |i: int| element(self@.bytes, reg, i, w),
                    )
                },
                None => reg as int % types::group_regs(self@.config.vlmul.spec_eighths()) != 0,
            },
    {
        let lmul: u8 = self.config.vlmul.get_lmul();
        if reg % lmul != 0 {
            return None;
        }
        let n: usize = match w {
            Width::W8 => lmul as usize * 16,
            Width::W16 => lmul as usize * 8,
            Width::W32 => lmul as usize * 4,
            Width::W64 => lmul as usize * 2,
        };
        assert(reg + lmul <= 32) by {
            lemma_aligned_group(reg as int, lmul as int);
        }
        assert(n * w.spec_bytes() == 16 * lmul && n == 16 * lmul as int / w.spec_bytes()) by {
            match w {
                Width::W8 => assert(16 * lmul as int / 1 == n),
                Width::W16 => assert(16 * lmul as int / 2 == n),
                Width::W32 => assert(16 * lmul as int / 4 == n),
                Width::W64 => assert(16 * lmul as int / 8 == n),
            }
        }
        let mut out: Vec<u64> = Vec::new();
        let mut i: usize = 0;
        while i < n
            invariant
                i <= n,
                n <= 128,
                self.wf(),
                reg < 32,
                reg + lmul <= 32,
                n * w.spec_bytes() == 16 * lmul,
                out@ =~= Seq::new(i as nat, |i: int| element(self@.bytes, reg, i, w)),
            decreases n - i,
        {
            assert(i * w.spec_bytes() + w.spec_bytes() <= n * w.spec_bytes()) by (nonlinear_arith)
                requires
                    0 <= i < n,
                    w.spec_bytes() >= 1,
            ;
            out.push(self.get(reg, i, w));
            i = i + 1;
        }
        Some(out)
    }

    /// Writes elements of width `w` to the registers from `reg` on.
    pub fn write_as_type(&mut self, reg: u8, w: Width, values: &Vec<u64>)
        requires
            old(self).wf(),
            reg < 32,
            values@.len() <= 512,
            reg * 16 + values@.len() * w.spec_bytes() <= VREG_BYTES,
        ensures
            final(self).wf(),
            final(self)@ == old(self)@.with_results(
                reg,
                w,
                Seq::new(values@.len(), |i: int| Some(values@[i])),
            ),
    {
        let mut results: Vec<Option<u64>> = Vec::new();
        let mut i: usize = 0;
        while i < values.len()
            invariant
                i <= values@.len(),
                results@ =~= Seq::new(i as nat, |i: int| Some(values@[i])),
            decreases values@.len() - i,
        {
            results.push(Some(values[i]));
            i = i + 1;
        }
        self.write_results(reg, w, &results);
    }
}

/// A group that starts at a multiple of its size ends in the file.
proof fn lemma_aligned_group(reg: int, lmul: int)
    requires
        0 <= reg < 32,
        lmul == 1 || lmul == 2 || lmul == 4 || lmul == 8,
        reg % lmul == 0,
    ensures
        reg + lmul <= 32,
{
    if lmul == 2 {
        assert(reg % 2 == 0);
    } else if lmul == 4 {
        assert(reg % 4 == 0);
    } else if lmul == 8 {
        assert(reg % 8 == 0);
    }
}

/// The offset of an element fits in an index.
proof fn lemma_offset_fits(i: int, w: Width)
    requires
        0 <= i < 512,
    ensures
        0 <= i * w.spec_bytes() <= 4096,
{
    assert(0 <= i * w.spec_bytes() <= 4096) by (nonlinear_arith)
        requires
            0 <= i < 512,
            1 <= w.spec_bytes() <= 8,
    ;
}

/// No instruction works on more than 128 elements.
pub proof fn lemma_vl_bound(c: VectorConfig)
    requires
        c.wf(),
    ensures
        c.vl <= 128,
{
    match c.vsew {
        Vsew::E8 => {},
        Vsew::E16 => {},
        Vsew::E32 => {},
        Vsew::E64 => {},
    }
}

} // verus!
