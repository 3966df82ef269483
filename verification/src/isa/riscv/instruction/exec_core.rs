//! What the handlers share.
use vstd::prelude::*;

use crate::fpu::bits::FloatFormat;
use crate::isa::riscv::csr_reg::csr_index;
use crate::isa::riscv::executor::{CpuState, RVCPU};
use crate::isa::riscv::trap::Exception;
use crate::utils;
use crate::utils::Width;

verus! {

/// The state after an instruction, and the exception that it raised.
pub type Step = (CpuState, Result<(), Exception>);

/// What an instruction of `len` bytes does that goes on to the next one if its effect `step`
/// raised no exception.
pub open spec fn retire_step(step: Step, len: u64) -> Step {
    match step.1 {
        Ok(_) => (step.0.retired(len), Ok(())),
        Err(_) => step,
    }
}

/// Goes on to the next instruction, `len` bytes further, if there was no exception.
pub fn finish(cpu: &mut RVCPU, done: Result<(), Exception>, len: u64) -> (r: Result<(), Exception>)
    requires
        old(cpu).wf(),
    ensures
        final(cpu).wf(),
        final(cpu)@ == retire_step((old(cpu)@, done), len).0,
        r == retire_step((old(cpu)@, done), len).1,
{
    match done {
        Ok(_) => {
            cpu.retire(len);
            Ok(())
        },
        Err(e) => Err(e),
    }
}

impl CpuState {
    /// Whether instructions of two bytes are enabled.
    pub open spec fn compressed_enabled(self) -> bool {
        self.csr.value(csr_index::misa) / 4 % 2 == 1
    }

    /// Whether the hart can jump to an address.
    pub open spec fn can_jump(self, target: u64) -> bool {
        self.compressed_enabled() || target % 4 == 0
    }

    /// What a jump to an address that the hart cannot jump to does.
    pub open spec fn misaligned_jump(self, target: u64) -> Step {
        (
            CpuState { pending_tval: Some(target), ..self },
            Err(Exception::InstructionMisaligned),
        )
    }

    /// What a jump does.
    pub open spec fn jumped(self, target: u64) -> Step {
        if self.can_jump(target) {
            (self.with_pc(target).counted(1), Ok(()))
        } else {
            self.misaligned_jump(target)
        }
    }

    /// What a load to a register does.
    pub open spec fn loaded(self, w: Width, extend: bool, rd: u8, addr: u64) -> Step {
        let (s, r) = self.data_read(addr, w);
        match r {
            Ok(v) => (
                s.with_reg(
                    rd,
                    if extend {
                        utils::widened(w, v)
                    } else {
                        v
                    },
                ),
                Ok(()),
            ),
            Err(e) => (s, Err(e)),
        }
    }

    /// What a load to a floating-point register does.
    pub open spec fn float_loaded(self, f: FloatFormat, rd: u8, addr: u64) -> Step {
        let (s, r) = self.data_read(addr, width_of(f));
        match r {
            Ok(v) => (CpuState { fpu: s.fpu.with_value(f, rd, v), ..s }, Ok(())),
            Err(e) => (s, Err(e)),
        }
    }

    /// What a store of a floating-point register does.
    pub open spec fn float_stored(self, f: FloatFormat, rs: u8, addr: u64) -> Step {
        self.data_written(addr, width_of(f), width_of(f).wrap(self.fpu.regs[rs as int] as int))
    }
}

/// The width of the numbers of a format.
pub open spec fn width_of(f: FloatFormat) -> Width {
    match f {
        FloatFormat::Single => Width::W32,
        FloatFormat::Double => Width::W64,
    }
}

/// The width of the numbers of a format.
pub fn float_width(f: FloatFormat) -> (r: Width)
    ensures
        r == width_of(f),
{
    match f {
        FloatFormat::Single => Width::W32,
        FloatFormat::Double => Width::W64,
    }
}

/// Checks that the hart can jump to an address.
pub fn check_jump_alignment(cpu: &mut RVCPU, target: u64) -> (r: Result<(), Exception>)
    requires
        old(cpu).wf(),
    ensures
        final(cpu).wf(),
        r == if old(cpu)@.can_jump(target) {
            Ok::<(), Exception>(())
        } else {
            old(cpu)@.misaligned_jump(target).1
        },
        final(cpu)@ == if r is Ok {
            old(cpu)@
        } else {
            old(cpu)@.misaligned_jump(target).0
        },
{
    if cpu.csr.value_of(csr_index::misa) / 4 % 2 != 1 && target % 4 != 0 {
        cpu.pending_tval = Some(target);
        return Err(Exception::InstructionMisaligned);
    }
    Ok(())
}

/// Loads to a register.
pub fn handle_load(cpu: &mut RVCPU, w: Width, extend: bool, rd: u8, addr: u64) -> (r: Result<
    (),
    Exception,
>)
    requires
        old(cpu).wf(),
        rd < 32,
    ensures
        final(cpu).wf(),
        final(cpu)@ == old(cpu)@.loaded(w, extend, rd, addr).0,
        r == old(cpu)@.loaded(w, extend, rd, addr).1,
{
    match cpu.read(addr, w) {
        Ok(data) => {
            let value: u64 = if extend {
                utils::widen(w, data)
            } else {
                data
            };
            cpu.write_reg(rd, value);
            Ok(())
        },
        Err(err) => Err(err),
    }
}

/// Loads to a floating-point register.
pub fn handle_float_load(cpu: &mut RVCPU, f: FloatFormat, addr: u64, rd: u8) -> (r: Result<
    (),
    Exception,
>)
    requires
        old(cpu).wf(),
        rd < 32,
    ensures
        final(cpu).wf(),
        final(cpu)@ == old(cpu)@.float_loaded(f, rd, addr).0,
        r == old(cpu)@.float_loaded(f, rd, addr).1,
{
    match cpu.read(addr, float_width(f)) {
        Ok(data) => {
            cpu.fpu.store_raw(f, rd, data);
            Ok(())
        },
        Err(err) => Err(err),
    }
}

/// Stores the low bits of a word.
pub fn handle_store(cpu: &mut RVCPU, w: Width, addr: u64, data: u64) -> (r: Result<(), Exception>)
    requires
        old(cpu).wf(),
    ensures
        final(cpu).wf(),
        final(cpu)@ == old(cpu)@.data_written(addr, w, w.wrap(data as int)).0,
        r == old(cpu)@.data_written(addr, w, w.wrap(data as int)).1,
{
    cpu.write(addr, w, w.truncate(data))
}

/// Stores a floating-point register.
pub fn handle_float_store(cpu: &mut RVCPU, f: FloatFormat, addr: u64, rs: u8) -> (r: Result<
    (),
    Exception,
>)
    requires
        old(cpu).wf(),
        rs < 32,
    ensures
        final(cpu).wf(),
        final(cpu)@ == old(cpu)@.float_stored(f, rs, addr).0,
        r == old(cpu)@.float_stored(f, rs, addr).1,
{
    let data: u64 = cpu.fpu.load_raw(rs);
    handle_store(cpu, float_width(f), addr, data)
}

} // verus!
