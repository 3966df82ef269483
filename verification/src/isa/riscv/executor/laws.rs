//! What holds of every step.
use vstd::prelude::*;

use crate::fpu::bits::FloatFormat;
use crate::isa::cache::{CachePolicy, Slot};
use crate::isa::riscv::csr_reg::csr_index;
use crate::isa::riscv::csr_reg::file;
use crate::isa::riscv::decoder::decode;
use crate::isa::riscv::decoder::DecodeInstr;
use crate::isa::riscv::instruction::exec_compress_function;
use crate::isa::riscv::instruction::exec_core::Step;
use crate::isa::riscv::instruction::exec_float_function;
use crate::isa::riscv::instruction::exec_mapping;
use crate::isa::riscv::instruction::exec_mapping::ExecFn;
use crate::isa::riscv::instruction::exec_vector_function;
use crate::isa::riscv::instruction::RVInstrInfo;
use crate::isa::riscv::trap::trap_controller;
use crate::isa::riscv::trap::Exception;
use crate::isa::riscv::vector::element::ElemFn;
use crate::isa::riscv::vector::fixed::FixedOp;
use crate::isa::riscv::vector::mask::MaskFn;
use crate::utils::Width;

use super::{CpuState, InstrCache, RVCPU};

verus! {

/// What no instruction touches: the number of registers, the decoder and the place of the clock.
/// Every address keeps its slot for a control and status register, and the instruction cache
/// stays as it is or is emptied.
/// Only a trap that carries a value leaves one behind.
pub open spec fn framed(s: CpuState, step: Step) -> bool {
    &&& step.0.regs.len() == s.regs.len()
    &&& step.0.decoder == s.decoder
    &&& step.0.time_addr == s.time_addr
    &&& s.csr.table.len() == file::CSR_SIZE ==> step.0.csr.table.len() == file::CSR_SIZE
    &&& step.0.icache == s.icache || step.0.icache == InstrCache::empty()
    &&& step.1 is Ok || step.1 == Err::<(), Exception>(Exception::IllegalInstruction)
        ==> step.0.pending_tval == s.pending_tval
}

/// Whether a step leaves the cycle counter as it was.
pub open spec fn clock_kept(s: CpuState, step: Step) -> bool {
    s.csr.table.len() == file::CSR_SIZE ==> step.0.csr.value(csr_index::mcycle) == s.csr.value(
        csr_index::mcycle,
    )
}

/// Whether an instruction is one that reads and writes a control and status register.
pub open spec fn accesses_csr(f: ExecFn) -> bool {
    f is Csrw || f is CsrBit
}

spec fn undisturbed(s: CpuState, step: Step) -> bool {
    framed(s, step) && clock_kept(s, step)
}

/// The vector computations keep the rest of the hart.
proof fn lemma_computations_framed(s: CpuState)
    requires
        s.regs.len() == 32,
    ensures
        forall|f: ElemFn, vd: u8, masked: bool|
            undisturbed(s, #[trigger] exec_vector_function::elements_step(f, vd, masked, s)),
        forall|f: MaskFn, vd: u8, masked: bool|
            undisturbed(s, #[trigger] exec_vector_function::mask_step(f, vd, masked, s)),
        forall|f: FixedOp, vd: u8, masked: bool|
            undisturbed(s, #[trigger] exec_vector_function::fixed_point_step(f, vd, masked, s)),
        forall|value: Result<u64, Exception>, rd: u8|
            rd < 32 ==> undisturbed(s, #[trigger] exec_vector_function::number_step(value, rd, s)),
{
    reveal(exec_vector_function::vector_step);
    assert forall|f: ElemFn, vd: u8, masked: bool|
        undisturbed(s, #[trigger] exec_vector_function::elements_step(f, vd, masked, s)) by {
        reveal(exec_vector_function::elements_step);
    }
    assert forall|f: MaskFn, vd: u8, masked: bool|
        undisturbed(s, #[trigger] exec_vector_function::mask_step(f, vd, masked, s)) by {
        reveal(exec_vector_function::mask_step);
    }
    assert forall|f: FixedOp, vd: u8, masked: bool|
        undisturbed(s, #[trigger] exec_vector_function::fixed_point_step(f, vd, masked, s)) by {
        reveal(exec_vector_function::fixed_point_step);
    }
    assert forall|value: Result<u64, Exception>, rd: u8| rd < 32 implies undisturbed(
        s,
        #[trigger] exec_vector_function::number_step(value, rd, s),
    ) by {
        reveal(exec_vector_function::number_step);
    }
}

proof fn lemma_base_framed(f: ExecFn, s: CpuState, info: RVInstrInfo)
    requires
        s.regs.len() == 32,
        f.takes(info),
    ensures
        framed(s, f.base_step(s, info)),
        !accesses_csr(f) ==> clock_kept(s, f.base_step(s, info)),
{
    reveal(ExecFn::base_step);
    match f {
        ExecFn::Arith(_) => {},
        ExecFn::ArithWord(_) => {},
        ExecFn::Branch(_) => {},
        ExecFn::Load(_, _) => {},
        ExecFn::Store(_) => {},
        ExecFn::Jal => {},
        ExecFn::Jalr => {},
        ExecFn::Auipc => {},
        ExecFn::Lui => {},
        ExecFn::Ebreak => {},
        ExecFn::Ecall => {},
        ExecFn::Nop => {},
        ExecFn::FenceI => {},
        ExecFn::Csrw(_) => {},
        ExecFn::CsrBit(_, _) => {},
        ExecFn::Mret => {},
        ExecFn::Sret => {},
        ExecFn::SfenceVma => {},
        ExecFn::Illegal => {},
        ExecFn::Amo(_, _) => {},
        ExecFn::LoadReserved(_, _) => {},
        ExecFn::StoreConditional(_) => {},
        _ => {
            lemma_float_arith_framed(f, s, info);
        },
    }
}

proof fn lemma_float_arith_framed(f: ExecFn, s: CpuState, info: RVInstrInfo)
    requires
        s.regs.len() == 32,
        f.takes(info),
    ensures
        undisturbed(s, f.float_arith_step(s, info)),
{
    reveal(ExecFn::float_arith_step);
    reveal(exec_float_function::float_arith_rm_step);
    reveal(exec_float_function::float_arith_r4_rm_step);
    reveal(exec_float_function::sqrt_step);
    reveal(exec_float_function::float_min_step);
    reveal(exec_float_function::float_max_step);
    reveal(exec_float_function::float_arith_step);
    reveal(exec_float_function::float_step);
    match f {
        ExecFn::FloatArith(_, _) => {},
        ExecFn::FloatFused(_, _) => {},
        ExecFn::FloatSqrt(_) => {},
        ExecFn::FloatMin(_) => {},
        ExecFn::FloatMax(_) => {},
        ExecFn::FloatSign(_, _) => {},
        _ => {
            lemma_float_convert_framed(f, s, info);
        },
    }
}

proof fn lemma_float_convert_framed(f: ExecFn, s: CpuState, info: RVInstrInfo)
    requires
        s.regs.len() == 32,
        f.takes(info),
    ensures
        undisturbed(s, f.float_convert_step(s, info)),
{
    reveal(ExecFn::float_convert_step);
    reveal(exec_float_function::cvt_i_from_f_step);
    reveal(exec_float_function::cvt_u_from_f_step);
    reveal(exec_float_function::cvt_f_from_i_step);
    reveal(exec_float_function::cvt_f_from_u_step);
    reveal(exec_float_function::cvt_float_step);
    reveal(exec_float_function::float_compare_step);
    reveal(exec_float_function::float_step);
    match f {
        ExecFn::IntFromFloat(_, _, _) => {},
        ExecFn::FloatFromSigned(_) => {},
        ExecFn::FloatFromUnsigned(_, _) => {},
        ExecFn::FloatConvert(_) => {},
        ExecFn::FloatCompare(_, _) => {},
        _ => {
            lemma_float_move_framed(f, s, info);
        },
    }
}

proof fn lemma_float_move_framed(f: ExecFn, s: CpuState, info: RVInstrInfo)
    requires
        s.regs.len() == 32,
        f.takes(info),
    ensures
        undisturbed(s, f.float_move_step(s, info)),
{
    reveal(ExecFn::float_move_step);
    reveal(exec_float_function::float_load_step);
    reveal(exec_float_function::float_store_step);
    reveal(exec_float_function::mv_x_from_f_step);
    reveal(exec_float_function::mv_f_from_x_step);
    reveal(exec_float_function::float_classify_step);
    reveal(exec_float_function::float_step);
    match f {
        ExecFn::FloatLoad(_) => {},
        ExecFn::FloatStore(_) => {},
        ExecFn::XFromFloat(_) => {},
        ExecFn::FloatFromX(_) => {},
        ExecFn::FloatClassify(_) => {},
        _ => {
            lemma_compressed_framed(f, s, info);
        },
    }
}

proof fn lemma_compressed_framed(f: ExecFn, s: CpuState, info: RVInstrInfo)
    requires
        s.regs.len() == 32,
        f.takes(info),
    ensures
        undisturbed(s, f.compressed_step(s, info)),
{
    reveal(ExecFn::compressed_step);
    reveal(exec_compress_function::compress_arith_step);
    reveal(exec_compress_function::compress_arith_word_step);
    reveal(exec_compress_function::compress_set_step);
    reveal(exec_compress_function::compress_branch_step);
    reveal(exec_compress_function::compress_jump_step);
    reveal(exec_compress_function::compress_jump_reg_step);
    match f {
        ExecFn::CompressArith(_) => {},
        ExecFn::CompressArithWord(_) => {},
        ExecFn::Addi4spn => {},
        ExecFn::CompressMv => {},
        ExecFn::CompressNop => {},
        ExecFn::CompressLi => {},
        ExecFn::CompressBranch(_) => {},
        ExecFn::CompressJump(_) => {},
        ExecFn::CompressJumpReg(_) => {},
        _ => {
            lemma_compressed_memory_framed(f, s, info);
        },
    }
}

proof fn lemma_compress_load_framed(w: Width, extend: bool, s: CpuState, info: RVInstrInfo)
    requires
        s.regs.len() == 32,
        info.regs_ok(),
    ensures
        undisturbed(s, exec_compress_function::compress_load_step(w, extend, s, info)),
{
    reveal(exec_compress_function::compress_load_step);
}

proof fn lemma_compress_store_framed(w: Width, s: CpuState, info: RVInstrInfo)
    requires
        s.regs.len() == 32,
        info.regs_ok(),
    ensures
        undisturbed(s, exec_compress_function::compress_store_step(w, s, info)),
{
    reveal(exec_compress_function::compress_store_step);
}

proof fn lemma_compress_float_load_framed(f: FloatFormat, s: CpuState, info: RVInstrInfo)
    requires
        s.regs.len() == 32,
        info.regs_ok(),
    ensures
        undisturbed(s, exec_compress_function::compress_float_load_step(f, s, info)),
{
    reveal(exec_compress_function::compress_float_load_step);
    reveal(exec_float_function::float_step);
}

proof fn lemma_compress_float_store_framed(f: FloatFormat, s: CpuState, info: RVInstrInfo)
    requires
        s.regs.len() == 32,
        info.regs_ok(),
    ensures
        undisturbed(s, exec_compress_function::compress_float_store_step(f, s, info)),
{
    reveal(exec_compress_function::compress_float_store_step);
}

proof fn lemma_compressed_memory_framed(f: ExecFn, s: CpuState, info: RVInstrInfo)
    requires
        s.regs.len() == 32,
        f.takes(info),
    ensures
        undisturbed(s, f.compressed_memory_step(s, info)),
{
    reveal(ExecFn::compressed_memory_step);
    match f {
        ExecFn::CompressLoad(w, extend) => {
            lemma_compress_load_framed(w, extend, s, info);
        },
        ExecFn::CompressLoadSp(w, extend) => {
            lemma_compress_load_framed(w, extend, s, info);
        },
        ExecFn::CompressStore(w) => {
            lemma_compress_store_framed(w, s, info);
        },
        ExecFn::CompressStoreSp(w) => {
            lemma_compress_store_framed(w, s, info);
        },
        ExecFn::CompressFloatLoad(format) => {
            lemma_compress_float_load_framed(format, s, info);
        },
        ExecFn::CompressFloatLoadSp(format) => {
            lemma_compress_float_load_framed(format, s, info);
        },
        ExecFn::CompressFloatStore(format) => {
            lemma_compress_float_store_framed(format, s, info);
        },
        ExecFn::CompressFloatStoreSp(format) => {
            lemma_compress_float_store_framed(format, s, info);
        },
        _ => {
            lemma_vector_framed(f, s, info);
        },
    }
}

proof fn lemma_vector_framed(f: ExecFn, s: CpuState, info: RVInstrInfo)
    requires
        s.regs.len() == 32,
        f.takes(info),
    ensures
        undisturbed(s, f.vector_step(s, info)),
{
    reveal(ExecFn::vector_step);
    reveal(exec_vector_function::vector_config_step);
    reveal(exec_vector_function::vec_integer_op_step);
    reveal(exec_vector_function::vec_mul_add_op_step);
    reveal(exec_vector_function::vec_widening_integer_op_step);
    reveal(exec_vector_function::vec_widening_mul_add_op_step);
    lemma_computations_framed(s);
    reveal(exec_vector_function::vector_step);
    match f {
        ExecFn::VecConfig(_) => {},
        ExecFn::VecInteger(_, _) => {},
        ExecFn::VecMulAdd(_, _) => {},
        ExecFn::VecWiden(_, _, _) => {},
        ExecFn::VecWidenMulAdd(_, _) => {},
        _ => {
            lemma_vector_fixed_framed(f, s, info);
        },
    }
}

proof fn lemma_vector_fixed_framed(f: ExecFn, s: CpuState, info: RVInstrInfo)
    requires
        s.regs.len() == 32,
        f.takes(info),
    ensures
        undisturbed(s, f.vector_fixed_step(s, info)),
{
    reveal(ExecFn::vector_fixed_step);
    reveal(exec_vector_function::vec_fixed_point_op_step);
    reveal(exec_vector_function::vec_fixed_point_narrowing_op_step);
    reveal(exec_vector_function::vec_carry_op_step);
    reveal(exec_vector_function::vec_merge_op_step);
    lemma_computations_framed(s);
    reveal(exec_vector_function::vector_step);
    match f {
        ExecFn::VecFixedPoint(_, _) => {},
        ExecFn::VecClip(_, _) => {},
        ExecFn::VecCarry(_, _) => {},
        ExecFn::VecMerge(_) => {},
        _ => {
            lemma_vector_mask_framed(f, s, info);
        },
    }
}

proof fn lemma_vector_mask_framed(f: ExecFn, s: CpuState, info: RVInstrInfo)
    requires
        s.regs.len() == 32,
        f.takes(info),
    ensures
        undisturbed(s, f.vector_mask_step(s, info)),
{
    reveal(ExecFn::vector_mask_step);
    reveal(exec_vector_function::vec_integer_mask_op_step);
    reveal(exec_vector_function::vec_carry_out_op_step);
    reveal(exec_vector_function::vec_bit_op_step);
    reveal(exec_vector_function::vec_integer_ext_op_step);
    reveal(exec_vector_function::vec_whole_register_move_step);
    reveal(exec_vector_function::vec_integer_spec_step);
    lemma_computations_framed(s);
    reveal(exec_vector_function::vector_step);
    match f {
        ExecFn::VecCompare(_, _) => {},
        ExecFn::VecCarryOut(_, _) => {},
        ExecFn::VecBit(_) => {},
        ExecFn::VecExtend(_, _) => {},
        ExecFn::VecWholeMove(_) => {},
        ExecFn::VecSpec(_) => {},
        _ => {
            lemma_vector_load_framed(f, s, info);
        },
    }
}

proof fn lemma_vector_load_framed(f: ExecFn, s: CpuState, info: RVInstrInfo)
    requires
        s.regs.len() == 32,
        f.takes(info),
    ensures
        undisturbed(s, f.vector_load_step(s, info)),
{
    reveal(ExecFn::vector_load_step);
    reveal(exec_vector_function::vector_load_step);
    reveal(exec_vector_function::vector_whole_register_load_step);
    reveal(exec_vector_function::vector_mask_load_step);
    reveal(exec_vector_function::vector_step);
    match f {
        ExecFn::VecUnitLoad(_) => {},
        ExecFn::VecStrideLoad(_) => {},
        ExecFn::VecIndexedLoad(_) => {},
        ExecFn::VecUnorderedLoad => {},
        ExecFn::VecFaultFirstLoad => {},
        ExecFn::VecWholeLoad => {},
        ExecFn::VecMaskLoad => {},
        _ => {
            lemma_vector_store_framed(f, s, info);
        },
    }
}

proof fn lemma_vector_store_framed(f: ExecFn, s: CpuState, info: RVInstrInfo)
    requires
        s.regs.len() == 32,
        f.takes(info),
    ensures
        undisturbed(s, f.vector_store_step(s, info)),
{
    reveal(ExecFn::vector_store_step);
    reveal(exec_vector_function::vector_store_step);
    reveal(exec_vector_function::vector_whole_register_store_step);
    reveal(exec_vector_function::vector_mask_store_step);
    reveal(exec_vector_function::vector_step);
    match f {
        ExecFn::VecUnitStore(_) => {},
        ExecFn::VecStrideStore(_) => {},
        ExecFn::VecIndexedStore(_) => {},
        ExecFn::VecUnorderedStore => {},
        ExecFn::VecWholeStore => {},
        ExecFn::VecMaskStore => {},
        _ => {
            
        },
    }
}

impl CpuState {
    /// What the state of a hart is like.
    pub open spec fn valid(self) -> bool {
        &&& self.regs.len() == 32
        &&& self.csr.table.len() == file::CSR_SIZE
        &&& self.icache.len() == 8192
        &&& super::cached_ok(self.icache)
    }
}

/// The state of a valid hart is valid.
pub proof fn law_state_is_valid(cpu: RVCPU)
    requires
        cpu.wf(),
    ensures
        cpu@.valid(),
{
}

/// No instruction touches what the steps keep.
pub proof fn law_instructions_framed(f: ExecFn, s: CpuState, info: RVInstrInfo)
    requires
        s.regs.len() == 32,
        f.takes(info),
    ensures
        framed(s, f.step(s, info)),
        !accesses_csr(f) ==> clock_kept(s, f.step(s, info)),
{
    lemma_base_framed(f, s, info);
}

proof fn lemma_fetch_framed(s: CpuState, addr: u64)
    ensures
        s.instr_fetched(addr).0.regs == s.regs,
        s.instr_fetched(addr).0.csr == s.csr,
        s.instr_fetched(addr).0.icache == s.icache,
        s.instr_fetched(addr).0.decoder == s.decoder,
        s.instr_fetched(addr).0.time_addr == s.time_addr,
        s.instr_fetched(addr).0.pending_tval == s.pending_tval,
{
    reveal(CpuState::instr_fetched);
}

/// Register 0 reads as 0 after every step.
pub proof fn law_zero_register(s: CpuState)
    requires
        s.valid(),
        s.reg(0) == 0,
    ensures
        s.stepped().regs.len() == 32,
        s.stepped().reg(0) == 0,
{
    reveal(CpuState::stepped);
    lemma_step_parts(s);
}

/// No step leaves a trap value behind that was not delivered.
pub proof fn law_no_stale_trap_value(s: CpuState)
    requires
        s.valid(),
        s.pending_tval is None,
    ensures
        s.stepped().pending_tval is None,
{
    reveal(CpuState::stepped);
    lemma_step_parts(s);
}

/// The extensions that a hart decodes stay the same for good.
pub proof fn law_decoder_is_fixed(s: CpuState)
    requires
        s.valid(),
    ensures
        s.stepped().decoder == s.decoder,
{
    reveal(CpuState::stepped);
    lemma_step_parts(s);
}

/// Putting a decoded instruction in a cache keeps what is cached in order.
proof fn lemma_put_ok(slots: Seq<Slot<DecodeInstr>>, addr: u64, d: DecodeInstr)
    requires
        slots.len() == 8192,
        super::cached_ok(slots),
        d.wf(),
    ensures
        InstrCache::after_put(slots, addr, d).len() == 8192,
        super::cached_ok(InstrCache::after_put(slots, addr, d)),
{
    InstrCache::lemma_slot(addr);
    let after = InstrCache::after_put(slots, addr, d);
    assert forall|i: int| 0 <= i < after.len() && (#[trigger] after[i]).1 is Some implies (
    after[i].1->0).wf() by {
        assert(i != InstrCache::slot(addr) ==> after[i] == slots[i]);
    }
}

/// Finding or fetching an instruction leaves a valid hart valid.
proof fn lemma_decoded_valid(s: CpuState)
    requires
        s.valid(),
    ensures
        s.instr_decoded(s.pc).0.valid(),
{
    let asked = s.icache_asked(s.pc);
    lemma_fetch_framed(asked, s.pc);
    let (fetched, r) = asked.instr_fetched(s.pc);
    if let Ok(raw) = r {
        decode::lemma_decoded_wf(fetched.decoder, raw);
        if let Some(d) = fetched.decoder.decoded(raw) {
            lemma_put_ok(fetched.icache, s.pc, d);
        }
    }
}

proof fn lemma_step_parts(s: CpuState)
    requires
        s.valid(),
    ensures
        ({
            let (fetched, r) = s.instr_decoded(s.pc);
            &&& fetched.regs == s.regs
            &&& fetched.csr == s.csr
            &&& fetched.decoder == s.decoder
            &&& fetched.pending_tval == s.pending_tval
            &&& r is Ok ==> {
                let d = r->Ok_0;
                let after = fetched.executed(d.instr, d.info).0;
                &&& framed(
                    fetched,
                    exec_mapping::exec_func_of(d.instr).step(fetched, d.info),
                )
                &&& !accesses_csr(exec_mapping::exec_func_of(d.instr)) ==> clock_kept(
                    fetched,
                    exec_mapping::exec_func_of(d.instr).step(fetched, d.info),
                )
                &&& after.instr_fetched(after.pc).0.regs == after.regs
                &&& after.instr_fetched(after.pc).0.csr == after.csr
                &&& after.instr_fetched(after.pc).0.icache == after.icache
                &&& after.instr_fetched(after.pc).0.decoder == after.decoder
                &&& after.instr_fetched(after.pc).0.pending_tval == after.pending_tval
            }
        }),
{
    lemma_fetch_framed(s.icache_asked(s.pc), s.pc);
    let (fetched, r) = s.instr_decoded(s.pc);
    if r is Ok {
        let d = r->Ok_0;
        InstrCache::lemma_slot(s.pc);
        let raw = s.icache_asked(s.pc).instr_fetched(s.pc).1;
        if raw is Ok {
            decode::lemma_decoded_wf(s.decoder, raw->Ok_0);
        }
        law_instructions_framed(exec_mapping::exec_func_of(d.instr), fetched, d.info);
        let after = fetched.executed(d.instr, d.info).0;
        lemma_fetch_framed(after, after.pc);
    }
}

/// Whether the next instruction gives the cycle counter another value. Only one that accesses a
/// control and status register can.
pub open spec fn writes_clock(s: CpuState) -> bool {
    match s.instr_decoded(s.pc).1 {
        Ok(d) => accesses_csr(exec_mapping::exec_func_of(d.instr)) && s.stepped().csr.value(
            csr_index::mcycle,
        ) != s.csr.value(csr_index::mcycle),
        Err(_) => false,
    }
}

/// Taking a trap leaves the cycle counter alone, and every address its slot.
proof fn lemma_trap_keeps_clock(s: CpuState, to_s: bool, cause: u64, tval: u64)
    requires
        s.csr.table.len() == file::CSR_SIZE,
    ensures
        s.trapped(to_s, cause, tval).csr.table.len() == file::CSR_SIZE,
        s.trapped(to_s, cause, tval).csr.value(csr_index::mcycle) == s.csr.value(csr_index::mcycle),
{
}

/// A valid hart stays valid, whatever it executes.
pub proof fn law_step_stays_valid(s: CpuState)
    requires
        s.valid(),
    ensures
        s.stepped().valid(),
{
    reveal(CpuState::stepped);
    lemma_decoded_valid(s);
    lemma_step_parts(s);
    let (fetched, r) = s.instr_decoded(s.pc);
    match r {
        Err(e) => {
            lemma_trap_keeps_clock(
                fetched,
                fetched.csr.delegates(e.cause.spec_code()),
                e.cause.spec_code(),
                e.tval,
            );
        },
        Ok(d) => {
            let (after, done) = fetched.executed(d.instr, d.info);
            assert(after.valid());
            if let Err(cause) = done {
                lemma_instr_trapped_valid(after, cause);
            }
        },
    }
}

proof fn lemma_instr_trapped_valid(s: CpuState, cause: Exception)
    requires
        s.valid(),
    ensures
        s.instr_trapped(cause).valid(),
{
    lemma_fetch_framed(s, s.pc);
    let ready = if cause == Exception::IllegalInstruction {
        s.instr_fetched(s.pc).0
    } else {
        CpuState { pending_tval: None, ..s }
    };
    let to_s = ready.csr.delegates(cause.spec_code());
    assert forall|tval: u64| #[trigger]
        ready.trapped(to_s, cause.spec_code(), tval).csr.table.len() == file::CSR_SIZE by {
        lemma_trap_keeps_clock(ready, to_s, cause.spec_code(), tval);
    }
}

/// No step changes the cycle counter but one whose instruction writes it, whether it ends or traps.
pub proof fn law_step_keeps_clock(s: CpuState)
    requires
        s.valid(),
        !writes_clock(s),
    ensures
        s.stepped().csr.value(csr_index::mcycle) == s.csr.value(csr_index::mcycle),
{
    reveal(CpuState::stepped);
    lemma_step_parts(s);
    let (fetched, r) = s.instr_decoded(s.pc);
    match r {
        Err(e) => {
            lemma_trap_keeps_clock(
                fetched,
                fetched.csr.delegates(e.cause.spec_code()),
                e.cause.spec_code(),
                e.tval,
            );
        },
        Ok(d) => {
            let (after, done) = fetched.executed(d.instr, d.info);
            if let Err(cause) = done {
                let ready = if cause == Exception::IllegalInstruction {
                    after.instr_fetched(after.pc).0
                } else {
                    CpuState { pending_tval: None, ..after }
                };
                let tval = if cause == Exception::IllegalInstruction {
                    match after.instr_fetched(after.pc).1 {
                        Ok(raw) => raw.val as u64,
                        Err(_) => 0,
                    }
                } else {
                    match after.pending_tval {
                        Some(tval) => tval,
                        None => 0,
                    }
                };
                assert(s.stepped() == ready.exception_taken(cause, tval));
                lemma_trap_keeps_clock(
                    ready,
                    ready.csr.delegates(cause.spec_code()),
                    cause.spec_code(),
                    tval,
                );
            }
        },
    }
}

/// Whether none of the next `n` instructions writes the cycle counter.
pub open spec fn leaves_clock(s: CpuState, n: nat) -> bool {
    forall|k: nat| k < n ==> !writes_clock(#[trigger] s.ran(k))
}

/// Whether no instruction of a batch of `n` cycles writes the cycle counter.
pub open spec fn batch_leaves_clock(s: CpuState, n: nat) -> bool {
    if n == 0 {
        true
    } else if s.csr.next_interrupt() is Some {
        leaves_clock(s.interrupt_taken().cycled(1), (n - 1) as nat)
    } else {
        leaves_clock(s, n)
    }
}

/// A cycle without an interrupt leaves a valid hart valid and adds one to the cycle counter, modulo
/// 2^64, unless its instruction writes it.
pub proof fn law_cycle_is_counted(s: CpuState)
    requires
        s.valid(),
    ensures
        s.stepped().cycled(1).valid(),
        !writes_clock(s) ==> s.stepped().cycled(1).csr.value(csr_index::mcycle) == (s.csr.value(
            csr_index::mcycle,
        ) + 1) % 0x1_0000_0000_0000_0000,
{
    law_step_stays_valid(s);
    if !writes_clock(s) {
        law_step_keeps_clock(s);
    }
}

/// A cycle in which an interrupt is taken leaves a valid hart valid and adds one to the cycle
/// counter, modulo 2^64.
pub proof fn law_interrupt_is_counted(s: CpuState)
    requires
        s.valid(),
    ensures
        s.interrupt_taken().cycled(1).valid(),
        s.interrupt_taken().cycled(1).csr.value(csr_index::mcycle) == (s.csr.value(
            csr_index::mcycle,
        ) + 1) % 0x1_0000_0000_0000_0000,
{
    if let Some(i) = s.csr.next_interrupt() {
        lemma_trap_keeps_clock(
            s,
            trap_controller::bit_set(s.csr.value(csr_index::mideleg), i.spec_code()),
            (trap_controller::INTERRUPT_BIT + i.spec_code()) as u64,
            0,
        );
    }
}

/// In `n` cycles the cycle counter grows by `n`, modulo 2^64, unless an instruction writes it.
/// Every cycle counts, one that ends in a trap too.
pub proof fn law_cycles_are_counted(s: CpuState, n: nat)
    requires
        s.valid(),
        leaves_clock(s, n),
    ensures
        s.ran(n).valid(),
        s.ran(n).csr.value(csr_index::mcycle) == (s.csr.value(csr_index::mcycle) + n)
            % 0x1_0000_0000_0000_0000,
    decreases n,
{
    if n > 0 {
        assert(s.ran(0) == s);
        law_cycle_is_counted(s);
        let next = s.stepped().cycled(1);
        assert forall|k: nat| k < n - 1 implies !writes_clock(#[trigger] next.ran(k)) by {
            assert(s.ran(k + 1) == next.ran(k));
        }
        law_cycles_are_counted(next, (n - 1) as nat);
    }
}

/// In a batch of `n` cycles the cycle counter grows by `n`, modulo 2^64, unless an instruction
/// writes it. The cycle in which an interrupt is taken counts too.
pub proof fn law_batch_counts_cycles(s: CpuState, n: nat)
    requires
        s.valid(),
        batch_leaves_clock(s, n),
    ensures
        s.batched(n).csr.value(csr_index::mcycle) == (s.csr.value(csr_index::mcycle) + n)
            % 0x1_0000_0000_0000_0000,
{
    if n > 0 {
        if s.csr.next_interrupt() is Some {
            law_interrupt_is_counted(s);
            law_cycles_are_counted(s.interrupt_taken().cycled(1), (n - 1) as nat);
        } else {
            law_cycles_are_counted(s, n);
        }
    }
}

} // verus!
