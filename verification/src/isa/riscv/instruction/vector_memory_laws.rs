//! What vector loads and stores are for, as relations between registers and memory.
use vstd::arithmetic::div_mod::*;
use vstd::prelude::*;

use crate::config::{BASE_ADDR, RAM_SIZE};
use crate::device::{MemError, PhysState};
use crate::isa::riscv::executor::CpuState;
use crate::isa::riscv::vector::memory;
use crate::isa::riscv::vector::memory::{Addressing, ByteRun, VectorAccess};
use crate::isa::riscv::vector::state;
use crate::isa::riscv::vector::state::{VectorState, VREG_BYTES};
use crate::isa::riscv::vector::types;
use crate::isa::riscv::vector::types::{VectorConfig, Vsew};
use crate::ram;
use crate::utils::Width;

use super::dispatch;
use super::exec_mapping;
use super::exec_mapping::ExecFn;
use super::exec_vector_function;
use super::info::RVInstrInfo;
use super::instr_table::RiscvInstr;
use super::vector_laws;

verus! {

/// Two fields of an access share no byte of the register file.
#[verifier::rlimit(40)]
proof fn lemma_places_apart(access: VectorAccess, c: VectorConfig, j: int, k: int)
    requires
        c.wf(),
        access.legal(c),
        0 <= j < k < c.vl * access.segments,
    ensures
        access.place(c, j) + access.width.spec_bytes() <= access.place(c, k) || access.place(c, k)
            + access.width.spec_bytes() <= access.place(c, j),
{
    let seg = access.segments as int;
    let (ij, fj, ik, fk) = (j / seg, j % seg, k / seg, k % seg);
    let g = access.regs(c);
    let b = access.width.spec_bytes();
    access.lemma_place(c, j);
    access.lemma_place(c, k);
    lemma_fundamental_div_mod(j, seg);
    lemma_fundamental_div_mod(k, seg);
    types::lemma_element_in_file(c, access.reg, access.width, ij);
    types::lemma_element_in_file(c, access.reg, access.width, ik);
    if fj == fk {
        assert(ij < ik) by (nonlinear_arith)
            requires
                j == seg * ij + fj,
                k == seg * ik + fj,
                j < k,
                seg >= 1,
        ;
        assert(ij * b + b <= ik * b) by (nonlinear_arith)
            requires
                ij < ik,
                b >= 1,
        ;
    } else if fj < fk {
        assert(fj * g + g <= fk * g) by (nonlinear_arith)
            requires
                fj < fk,
                g >= 1,
        ;
    } else {
        assert(fk * g + g <= fj * g) by (nonlinear_arith)
            requires
                fk < fj,
                g >= 1,
        ;
    }
}

/// What a load that completes leaves in each field, from field `k` on.
#[verifier::rlimit(40)]
proof fn lemma_loaded(
    access: VectorAccess,
    s: VectorState,
    m: PhysState,
    bytes: Seq<u8>,
    k: int,
    j: int,
)
    requires
        s.config.wf(),
        access.legal(s.config),
        bytes.len() == VREG_BYTES,
        0 <= k <= s.config.vl * access.segments,
        0 <= j < s.config.vl * access.segments,
        access.loaded(s, m, bytes, k).1 is Ok,
    ensures
        ({
            let after = access.loaded(s, m, bytes, k).0;
            let i = j / access.segments as int;
            let held = ram::load_le(after, access.place(s.config, j), access.width);
            if j >= k && s.active(i, access.masked, access.vstart) {
                &&& access.target(m, j) is Ok
                &&& m.read(access.target(m, j)->Ok_0, access.width) == Ok::<u64, MemError>(held)
            } else {
                held == ram::load_le(bytes, access.place(s.config, j), access.width)
            }
        }),
    decreases s.config.vl * access.segments - k,
{
    let c = s.config;
    if k < c.vl * access.segments {
        let i = k / access.segments as int;
        access.lemma_place(c, k);
        access.lemma_place(c, j);
        if !s.active(i, access.masked, access.vstart) {
            lemma_loaded(access, s, m, bytes, k + 1, j);
        } else {
            let v = m.read(access.target(m, k)->Ok_0, access.width)->Ok_0;
            let next = ram::store_le(bytes, access.place(c, k), access.width, v);
            lemma_loaded(access, s, m, next, k + 1, j);
            if j == k {
                ram::law_load_after_store(bytes, access.place(c, k), access.width, v);
                lemma_read_fits(m, access.target(m, k)->Ok_0, access.width);
                vector_laws::lemma_wrapped(access.width, v as int);
            } else {
                if j < k {
                    lemma_places_apart(access, c, j, k);
                } else {
                    lemma_places_apart(access, c, k, j);
                }
                ram::law_store_frame(
                    bytes,
                    access.place(c, k),
                    access.width,
                    v,
                    access.place(c, j),
                    access.width,
                );
            }
        }
    }
}

/// What is read fits the width.
#[verifier::rlimit(40)]
proof fn lemma_read_fits(m: PhysState, addr: u64, w: Width)
    ensures
        m.read(addr, w) matches Ok(v) ==> w.holds(v),
{
}

/// The address of field `f` of element `i`: one after the other, a number of bytes from element to
/// element, or at an offset that an array in memory holds.
pub open spec fn field_address(
    instr: RiscvInstr,
    s: CpuState,
    rs1: u8,
    rs2: u8,
    fields: int,
    i: int,
    f: int,
) -> Option<(Width, Option<int>)> {
    let base = s.reg(rs1);
    match instr {
        RiscvInstr::VLE_V(eew) | RiscvInstr::VSE_V(eew) => {
            let w = eew.spec_width();
            Some((w, Some(base + (i * fields + f) * w.spec_bytes())))
        },
        RiscvInstr::VLSE_V(eew) | RiscvInstr::VSSE_V(eew) => {
            let w = eew.spec_width();
            Some((w, Some(base + (i * s.reg(rs2) + f * w.spec_bytes()))))
        },
        RiscvInstr::VLOXEI_V(eew) | RiscvInstr::VSOXEI_V(eew) => {
            let x = eew.spec_width();
            let at = (s.reg(rs2) + (i * fields + f) * x.spec_bytes()) % 0x1_0000_0000_0000_0000;
            Some(
                (
                    s.vector.config.vsew.spec_width(),
                    match s.vm.phys.read(at as u64, x) {
                        Ok(offset) => Some(base + offset),
                        Err(_) => None,
                    },
                ),
            )
        },
        _ => None,
    }
}

/// A vector load that completes leaves in element `i` of field `f` what memory holds at the address
/// of that field; elements that it does not work on keep their value. The fields of a segment go to
/// groups of registers one behind the other.
#[verifier::rlimit(60)]
pub proof fn law_vector_loads(
    instr: RiscvInstr,
    s: CpuState,
    rs1: u8,
    rs2: u8,
    rd: u8,
    vm: bool,
    func6: u8,
    i: int,
    f: int,
)
    requires
        instr is VLE_V || instr is VLSE_V || instr is VLOXEI_V,
        s.vector.wf(),
        func6 < 64,
        0 <= i < s.vector.config.vl,
        0 <= f < func6 / 8 + 1,
        dispatch::executed(instr, s, RVInstrInfo::V { rs1, rs2, rd, vm, func6 }).1 is Ok,
    ensures
        ({
            let t = dispatch::executed(instr, s, RVInstrInfo::V { rs1, rs2, rd, vm, func6 }).0;
            let (w, place) = field_address(instr, s, rs1, rs2, func6 / 8 + 1, i, f)->0;
            let group = types::group_regs(s.vector.config.emul(w));
            let at = (rd + f * group) * 16 + i * w.spec_bytes();
            let before = ram::load_le(s.vector.bytes, at, w);
            let after = ram::load_le(t.vector.bytes, at, w);
            &&& if vector_laws::works_on(s, vm, i) {
                place is Some && s.vm.phys.read(
                    (place->0 % 0x1_0000_0000_0000_0000) as u64,
                    w,
                ) == Ok::<u64, MemError>(after)
            } else {
                after == before
            }
            &&& t.vm == s.vm
            &&& t.regs == s.regs
        }),
{
    let info = RVInstrInfo::V { rs1, rs2, rd, vm, func6 };
    let h = exec_mapping::exec_func_of(instr);
    vector_laws::lemma_vector_dispatch(h, s, info);
    lemma_memory_dispatch(h, s, info);
    reveal(ExecFn::vector_load_step);
    reveal(exec_vector_function::vector_load_step);
    reveal(exec_vector_function::vector_step);
    let access = match h {
        ExecFn::VecUnitLoad(eew) => exec_vector_function::unit_access(eew, s, info),
        ExecFn::VecStrideLoad(eew) => exec_vector_function::stride_access(eew, s, info),
        ExecFn::VecIndexedLoad(eew) => exec_vector_function::indexed_access(eew, s, info),
        _ => arbitrary(),
    };
    let seg = access.segments as int;
    assert(seg == func6 / 8 + 1);
    let j = i * seg + f;
    lemma_field_number(i, seg, f, s.vector.config.vl as int);
    lemma_loaded(access, s.vector, s.vm.phys, s.vector.bytes, 0, j);
    assert(vector_laws::works_on(s, vm, i) == s.vector.active(i, !vm, s.vstart()));
}

/// The number of a field, taken apart.
#[verifier::rlimit(40)]
proof fn lemma_field_number(i: int, seg: int, f: int, vl: int)
    requires
        0 <= f < seg,
        0 <= i < vl,
    ensures
        (i * seg + f) / seg == i,
        (i * seg + f) % seg == f,
        0 <= i * seg + f < vl * seg,
{
    lemma_fundamental_div_mod_converse(i * seg + f, seg, i, f);
    assert(0 <= i * seg && i * seg + seg <= vl * seg) by (nonlinear_arith)
        requires
            0 <= i < vl,
            seg >= 1,
    ;
}

/// The handlers of loads and stores are reached.
#[verifier::rlimit(40)]
proof fn lemma_memory_dispatch(f: ExecFn, s: CpuState, info: RVInstrInfo)
    requires
        f is VecUnitLoad || f is VecStrideLoad || f is VecIndexedLoad || f is VecWholeLoad
            || f is VecMaskLoad || f is VecUnitStore || f is VecStrideStore || f is VecIndexedStore
            || f is VecWholeStore || f is VecMaskStore,
    ensures
        f.vector_step(s, info) == f.vector_load_step(s, info),
        f is VecUnitStore || f is VecStrideStore || f is VecIndexedStore || f is VecWholeStore
            || f is VecMaskStore ==> f.vector_step(s, info) == f.vector_store_step(s, info),
{
    reveal(ExecFn::vector_step);
    reveal(ExecFn::vector_fixed_step);
    reveal(ExecFn::vector_mask_step);
    reveal(ExecFn::vector_load_step);
}

/// What a store to consecutive places in RAM that completes leaves at each place, from field `k` on.
#[verifier::rlimit(40)]
proof fn lemma_stored(access: VectorAccess, s: VectorState, m: PhysState, k: int, j: int)
    requires
        s.config.wf(),
        access.legal(s.config),
        access.addressing == Addressing::Unit,
        m.ram.bytes.len() == RAM_SIZE,
        BASE_ADDR <= access.base,
        access.base + s.config.vl * access.segments * access.width.spec_bytes() <= BASE_ADDR
            + RAM_SIZE,
        0 <= k <= s.config.vl * access.segments,
        0 <= j < s.config.vl * access.segments,
        access.stored(s, m, k).1 is Ok,
    ensures
        ({
            let after = access.stored(s, m, k).0;
            let i = j / access.segments as int;
            let b = access.width.spec_bytes();
            let at = access.base - BASE_ADDR + j * b;
            &&& after.ram.bytes.len() == RAM_SIZE
            &&& ram::load_le(after.ram.bytes, at, access.width) == if j >= k && s.active(
                i,
                access.masked,
                access.vstart,
            ) {
                ram::load_le(s.bytes, access.place(s.config, j), access.width)
            } else {
                ram::load_le(m.ram.bytes, at, access.width)
            }
            &&& after.windows == m.windows
        }),
    decreases s.config.vl * access.segments - k,
{
    let c = s.config;
    let b = access.width.spec_bytes();
    let total = c.vl * access.segments;
    if k < total {
        let i = k / access.segments as int;
        lemma_between(j, total, b);
        lemma_between(k, total, b);
        if !s.active(i, access.masked, access.vstart) {
            lemma_stored(access, s, m, k + 1, j);
        } else {
            let addr = access.target(m, k)->Ok_0;
            assert(addr == access.base + k * b);
            let v = ram::load_le(s.bytes, access.place(c, k), access.width);
            assert(access.width.holds(v));
            let next = m.written(addr, access.width, v);
            let at = access.base - BASE_ADDR + j * b;
            let put = access.base - BASE_ADDR + k * b;
            assert(next.ram.bytes == ram::store_le(m.ram.bytes, put, access.width, v));
            lemma_stored(access, s, next, k + 1, j);
            if j == k {
                ram::law_load_after_store(m.ram.bytes, put, access.width, v);
                vector_laws::lemma_wrapped(access.width, v as int);
            } else {
                assert(j < k ==> j * b + b <= k * b) by (nonlinear_arith)
                    requires
                        b >= 1,
                ;
                assert(k < j ==> k * b + b <= j * b) by (nonlinear_arith)
                    requires
                        b >= 1,
                ;
                ram::law_store_frame(m.ram.bytes, put, access.width, v, at, access.width);
            }
        }
    }
}

#[verifier::rlimit(40)]
proof fn lemma_between(j: int, total: int, b: int)
    requires
        0 <= j < total,
        b >= 1,
    ensures
        0 <= j * b,
        j * b + b <= total * b,
{
    assert(0 <= j * b && j * b + b <= total * b) by (nonlinear_arith)
        requires
            0 <= j < total,
            b >= 1,
    ;
}

/// A store of consecutive fields to RAM that completes leaves at the address of field `f` of element
/// `i` what the registers hold of it; the places of elements that it does not work on keep their
/// value, and so do the registers.
#[verifier::rlimit(60)]
pub proof fn law_vector_unit_stores(
    eew: Vsew,
    s: CpuState,
    rs1: u8,
    rs2: u8,
    rd: u8,
    vm: bool,
    func6: u8,
    i: int,
    f: int,
)
    requires
        s.vector.wf(),
        s.vm.phys.ram.bytes.len() == RAM_SIZE,
        func6 < 64,
        0 <= i < s.vector.config.vl,
        0 <= f < func6 / 8 + 1,
        BASE_ADDR <= s.reg(rs1),
        s.reg(rs1) + s.vector.config.vl * (func6 / 8 + 1) * eew.spec_width().spec_bytes()
            <= BASE_ADDR + RAM_SIZE,
        dispatch::executed(
            RiscvInstr::VSE_V(eew),
            s,
            RVInstrInfo::V { rs1, rs2, rd, vm, func6 },
        ).1 is Ok,
    ensures
        ({
            let t = dispatch::executed(
                RiscvInstr::VSE_V(eew),
                s,
                RVInstrInfo::V { rs1, rs2, rd, vm, func6 },
            ).0;
            let w = eew.spec_width();
            let group = types::group_regs(s.vector.config.emul(w));
            let place = (rd + f * group) * 16 + i * w.spec_bytes();
            let at = s.reg(rs1) - BASE_ADDR + (i * (func6 / 8 + 1) + f) * w.spec_bytes();
            &&& ram::load_le(t.vm.phys.ram.bytes, at, w) == if vector_laws::works_on(s, vm, i) {
                ram::load_le(s.vector.bytes, place, w)
            } else {
                ram::load_le(s.vm.phys.ram.bytes, at, w)
            }
            &&& t.vector.bytes == s.vector.bytes
            &&& t.regs == s.regs
            &&& t.vm.phys.windows == s.vm.phys.windows
        }),
{
    let info = RVInstrInfo::V { rs1, rs2, rd, vm, func6 };
    let h = exec_mapping::exec_func_of(RiscvInstr::VSE_V(eew));
    vector_laws::lemma_vector_dispatch(h, s, info);
    lemma_memory_dispatch(h, s, info);
    reveal(ExecFn::vector_store_step);
    reveal(exec_vector_function::vector_store_step);
    reveal(exec_vector_function::vector_step);
    let access = exec_vector_function::unit_access(eew, s, info);
    let seg = access.segments as int;
    assert(seg == func6 / 8 + 1);
    lemma_field_number(i, seg, f, s.vector.config.vl as int);
    lemma_stored(access, s.vector, s.vm.phys, 0, i * seg + f);
    assert(vector_laws::works_on(s, vm, i) == s.vector.active(i, !vm, s.vstart()));
}

/// What a load of bytes that completes leaves in each byte, from byte `k` on.
#[verifier::rlimit(40)]
proof fn lemma_run_loaded(run: ByteRun, m: PhysState, bytes: Seq<u8>, k: int, j: int)
    requires
        run.fits(),
        bytes.len() == VREG_BYTES,
        0 <= k,
        0 <= j < VREG_BYTES,
        run.loaded(m, bytes, k).1 is Ok,
    ensures
        ({
            let after = run.loaded(m, bytes, k).0;
            let i = j - run.reg * 16;
            if k <= i < run.len {
                m.read(((run.base + i) % 0x1_0000_0000_0000_0000) as u64, Width::W8) == Ok::<
                    u64,
                    MemError,
                >(after[j] as u64)
            } else {
                after[j] == bytes[j]
            }
        }),
    decreases run.len - k,
{
    if k < run.len {
        let v = m.read(Width::W64.wrap(run.base + k), Width::W8)->Ok_0;
        let next = ram::store_le(bytes, run.reg * 16 + k, Width::W8, v);
        lemma_run_loaded(run, m, next, k + 1, j);
        lemma_read_fits(m, Width::W64.wrap(run.base + k), Width::W8);
        reveal_with_fuel(ram::drop_bytes, 2);
    }
}

/// Loads of whole registers and of masks that complete leave in each byte what memory holds, one
/// byte after the other: as many whole registers as the instruction says, or as many bytes as a mask
/// of all elements has.
#[verifier::rlimit(60)]
pub proof fn law_vector_byte_loads(
    s: CpuState,
    rs1: u8,
    rs2: u8,
    rd: u8,
    vm: bool,
    func6: u8,
    whole: bool,
    eew: Vsew,
    j: int,
)
    requires
        s.vector.wf(),
        func6 < 64,
        rd < 32,
        0 <= j < VREG_BYTES,
        dispatch::executed(
            if whole {
                RiscvInstr::VLRE_V(eew)
            } else {
                RiscvInstr::VLM_V
            },
            s,
            RVInstrInfo::V { rs1, rs2, rd, vm, func6 },
        ).1 is Ok,
    ensures
        ({
            let instr = if whole {
                RiscvInstr::VLRE_V(eew)
            } else {
                RiscvInstr::VLM_V
            };
            let t = dispatch::executed(instr, s, RVInstrInfo::V { rs1, rs2, rd, vm, func6 }).0;
            let len = if whole {
                (func6 / 8 + 1) * 16
            } else {
                (s.vector.config.vl + 7) / 8
            };
            let i = j - rd * 16;
            &&& if s.vstart() <= i < len {
                s.vm.phys.read(
                    ((s.reg(rs1) + i) % 0x1_0000_0000_0000_0000) as u64,
                    Width::W8,
                ) == Ok::<u64, MemError>(t.vector.bytes[j] as u64)
            } else {
                t.vector.bytes[j] == s.vector.bytes[j]
            }
            &&& t.vm == s.vm
        }),
{
    let instr = if whole {
        RiscvInstr::VLRE_V(eew)
    } else {
        RiscvInstr::VLM_V
    };
    let info = RVInstrInfo::V { rs1, rs2, rd, vm, func6 };
    let h = exec_mapping::exec_func_of(instr);
    vector_laws::lemma_vector_dispatch(h, s, info);
    lemma_memory_dispatch(h, s, info);
    reveal(ExecFn::vector_load_step);
    reveal(exec_vector_function::vector_whole_register_load_step);
    reveal(exec_vector_function::vector_mask_load_step);
    reveal(exec_vector_function::vector_step);
    let base = s.reg(rs1);
    let run = if whole {
        ByteRun::of_registers(rd, (func6 / 8 + 1) as u8, s.vstart(), base)
    } else {
        ByteRun::of_mask(s.vector.config, rd, s.vstart(), base)
    };
    state::lemma_vl_bound(s.vector.config);
    if whole {
        let count = (func6 / 8 + 1) as u8;
        assert(memory::whole_ok(rd, count));
        assert(rd + count <= 32) by {
            assert(count == 1 || rd as int % 2 == 0 || rd as int % 4 == 0 || rd as int % 8 == 0);
        }
        assert(run.len == count * 16);
    }
    assert(run.fits());
    lemma_run_loaded(run, s.vm.phys, s.vector.bytes, s.vstart() as int, j);
}

} // verus!
