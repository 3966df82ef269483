//! Vector instructions that move data, and the decoding of `vtype`.
use vstd::prelude::*;

use crate::isa::riscv::trap::Exception;
use crate::ram;
use crate::utils;
use crate::utils::Width;

use super::memory;
use super::memory::{Addressing, VectorAccess};
use super::state;
use super::state::{Vector, VectorState};
use super::types;
use super::types::{VectorConfig, Vlmul, Vsew};

verus! {

impl VectorConfig {
    /// The configuration that `vtype` encodes, with as many elements as fit in a group. There is
    /// none if a field or a bit is reserved or if not even one element fits.
    pub open spec fn of_vtype(vtype: u64) -> Option<VectorConfig> {
        match (Vlmul::of_bits(vtype % 8), Vsew::of_bits(vtype / 8 % 8)) {
            (Some(vlmul), Some(vsew)) => if vtype < 256 && types::vlmax_of(
                vlmul,
                vsew.spec_width(),
            ) >= 1 {
                Some(
                    VectorConfig {
                        vlmul,
                        vsew,
                        vta: vtype / 64 % 2 == 1,
                        vma: vtype / 128 % 2 == 1,
                        vl: types::vlmax_of(vlmul, vsew.spec_width()) as u16,
                    },
                )
            } else {
                None
            },
            _ => None,
        }
    }

    /// Decodes `vtype`.
    pub fn from_vtype(vtype: u64) -> (r: Option<VectorConfig>)
        ensures
            r == VectorConfig::of_vtype(vtype),
            r is Some ==> r->0.wf(),
    {
        let vlmul = match Vlmul::from_bits(vtype % 8) {
            Some(vlmul) => vlmul,
            None => {
                return None;
            },
        };
        let vsew = match Vsew::from_bits(vtype / 8 % 8) {
            Some(vsew) => vsew,
            None => {
                return None;
            },
        };
        let max: u64 = types::vlmax(vlmul, vsew.width());
        if vtype >= 256 || max < 1 {
            return None;
        }
        Some(
            VectorConfig {
                vlmul,
                vsew,
                vta: vtype / 64 % 2 == 1,
                vma: vtype / 128 % 2 == 1,
                vl: max as u16,
            },
        )
    }
}

impl VectorState {
    /// The unit after a scalar is moved to element 0 of `vd`.
    pub open spec fn with_scalar(self, x: u64, vd: u8, vstart: u64) -> VectorState {
        if vstart < self.config.vl {
            self.with_results(vd, self.sew(), seq![Some(x)])
        } else {
            self
        }
    }

    /// The number that a move of element 0 of `vs2` to a register gives, sign-extended. A move that
    /// starts behind the last element gives none.
    pub open spec fn scalar_of(self, vs2: u8, vstart: u64) -> Result<Option<u64>, Exception> {
        if vs2 >= 32 {
            Err(Exception::IllegalInstruction)
        } else if vstart < self.config.vl {
            Ok(Some(utils::widened(self.sew(), state::element(self.bytes, vs2, 0, self.sew()))))
        } else {
            Ok(None)
        }
    }

    /// The unit after `count` whole registers are moved, in doublewords from `vstart` on.
    pub open spec fn with_registers(self, vs2: u8, vd: u8, count: u8, vstart: u64) -> (
        VectorState,
        Result<(), Exception>,
    ) {
        if memory::whole_ok(vs2, count) && memory::whole_ok(vd, count) {
            (
                self.with_results(
                    vd,
                    Width::W64,
                    Seq::new(
                        (count * 2) as nat,
                        |i: int|
                            if vstart <= i {
                                Some(state::element(self.bytes, vs2, i, Width::W64))
                            } else {
                                None
                            },
                    ),
                ),
                Ok(()),
            )
        } else {
            (self, Err(Exception::IllegalInstruction))
        }
    }

    /// The access that describes `segments` groups from `reg` on.
    pub open spec fn segment_groups(reg: u8, w: Width, segments: u8) -> VectorAccess {
        VectorAccess {
            reg,
            width: w,
            segments,
            addressing: Addressing::Unit,
            masked: false,
            vstart: 0,
            base: 0,
        }
    }
}

impl Vector {
    /// Moves a scalar to element 0 of `vd`.
    pub fn exec_move_scalar_to_element(&mut self, x: u64, vd: u8, vstart: u64)
        requires
            old(self).wf(),
            vd < 32,
        ensures
            final(self).wf(),
            final(self)@ == old(self)@.with_scalar(x, vd, vstart),
    {
        if vstart < self.config.vl as u64 {
            let w = self.config.vsew.width();
            let results: Vec<Option<u64>> = vec![Some(x)];
            assert(results@ =~= seq![Some(x)]);
            self.write_results(vd, w, &results);
        }
    }

    /// Reads element 0 of `vs2`, sign-extended, unless the move starts behind the last element.
    pub fn exec_move_element_to_scalar(&self, vs2: u8, vstart: u64) -> (r: Result<
        Option<u64>,
        Exception,
    >)
        requires
            self.wf(),
        ensures
            r == self@.scalar_of(vs2, vstart),
    {
        if vs2 >= 32 {
            return Err(Exception::IllegalInstruction);
        }
        if vstart >= self.config.vl as u64 {
            return Ok(None);
        }
        let w = self.config.vsew.width();
        Ok(Some(utils::widen(w, self.get(vs2, 0, w))))
    }

    /// Moves `count` whole registers.
    pub fn exec_whole_register_move(&mut self, vs2: u8, vd: u8, count: u8, vstart: u64) -> (r:
        Result<(), Exception>)
        requires
            old(self).wf(),
        ensures
            final(self).wf(),
            final(self)@ == old(self)@.with_registers(vs2, vd, count, vstart).0,
            r == old(self)@.with_registers(vs2, vd, count, vstart).1,
    {
        if !(memory::check_whole(vs2, count) && memory::check_whole(vd, count)) {
            return Err(Exception::IllegalInstruction);
        }
        let n: usize = count as usize * 2;
        let ghost spec_results = Seq::new(
            (count * 2) as nat,
            |i: int|
                if vstart <= i {
                    Some(state::element(old(self)@.bytes, vs2, i, Width::W64))
                } else {
                    None
                },
        );
        let mut results: Vec<Option<u64>> = Vec::new();
        let mut i: usize = 0;
        while i < n
            invariant
                i <= n,
                n == count * 2,
                count <= 8,
                vs2 + count <= 32,
                self.wf(),
                *self == *old(self),
                spec_results == Seq::new(
                    (count * 2) as nat,
                    |i: int|
                        if vstart <= i {
                            Some(state::element(old(self)@.bytes, vs2, i, Width::W64))
                        } else {
                            None
                        },
                ),
                results@ =~= spec_results.take(i as int),
            decreases n - i,
        {
            if vstart <= i as u64 {
                results.push(Some(self.get(vs2, i, Width::W64)));
            } else {
                results.push(None);
            }
            i = i + 1;
        }
        assert(results@ =~= spec_results);
        self.write_results(vd, Width::W64, &results);
        Ok(())
    }

    /// The fields of the first `vl` segments in the groups from `reg` on, segment by segment.
    pub fn read_with_seg(&self, reg: u8, w: Width, segments: u8) -> (r: Option<Vec<u64>>)
        requires
            self.wf(),
        ensures
            match r {
                Some(v) => {
                    let access = VectorState::segment_groups(reg, w, segments);
                    &&& access.legal(self@.config)
                    &&& v@ == Seq::new(
                        (self@.config.vl * segments) as nat,
                        |k: int|
                            ram::load_le(self@.bytes, access.place(self@.config, k), w),
                    )
                },
                None => !VectorState::segment_groups(reg, w, segments).legal(self@.config),
            },
    {
        let access = VectorAccess {
            reg,
            width: w,
            segments,
            addressing: Addressing::Unit,
            masked: false,
            vstart: 0,
            base: 0,
        };
        if !access.check(self.config) {
            return None;
        }
        proof {
            state::lemma_vl_bound(self.config);
            memory::lemma_field_count(self.config.vl as int, segments as int);
        }
        let total: usize = self.config.vl as usize * segments as usize;
        let mut out: Vec<u64> = Vec::new();
        let mut k: usize = 0;
        while k < total
            invariant
                k <= total,
                total == self@.config.vl * segments,
                self.wf(),
                access == VectorState::segment_groups(reg, w, segments),
                access.legal(self@.config),
                out@ =~= Seq::new(
                    k as nat,
                    |k: int| ram::load_le(self@.bytes, access.place(self@.config, k), w),
                ),
            decreases total - k,
        {
            let at: usize = access.locate(self.config, k);
            out.push(ram::read_le(&self.regs, at, w));
            k = k + 1;
        }
        Some(out)
    }
}

} // verus!
