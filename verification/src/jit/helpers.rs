//! What generated code calls.
use vstd::prelude::*;

use crate::isa::riscv::executor::RVCPU;
use crate::isa::riscv::trap::Exception;
use crate::utils::Width;

use super::jit_function::JitContext;

verus! {

/// How a load extends what it loads.
#[derive(Debug, Clone, Copy, PartialEq, Eq, Structural)]
pub enum LoadKind {
    SignedByte,
    UnsignedByte,
    SignedHalf,
    UnsignedHalf,
    SignedWord,
    UnsignedWord,
    DoubleWord,
}

/// How much a store stores.
#[derive(Debug, Clone, Copy, PartialEq, Eq, Structural)]
pub enum StoreKind {
    Byte,
    Half,
    Word,
    DoubleWord,
}

/// The addresses of the functions that generated code calls.
#[derive(Debug, Clone, Copy, PartialEq, Eq, Structural)]
pub struct Helpers {
    pub load_u8: u64,
    pub load_u16: u64,
    pub load_u32: u64,
    pub load_u64: u64,
    pub store_u8: u64,
    pub store_u16: u64,
    pub store_u32: u64,
    pub store_u64: u64,
    pub check_alignment: u64,
}

impl LoadKind {
    /// The width of what is loaded.
    pub open spec fn spec_width(self) -> Width {
        match self {
            LoadKind::SignedByte | LoadKind::UnsignedByte => Width::W8,
            LoadKind::SignedHalf | LoadKind::UnsignedHalf => Width::W16,
            LoadKind::SignedWord | LoadKind::UnsignedWord => Width::W32,
            LoadKind::DoubleWord => Width::W64,
        }
    }

    /// The address of the function for the load.
    pub open spec fn helper_in(self, helpers: Helpers) -> u64 {
        match self {
            LoadKind::SignedByte | LoadKind::UnsignedByte => helpers.load_u8,
            LoadKind::SignedHalf | LoadKind::UnsignedHalf => helpers.load_u16,
            LoadKind::SignedWord | LoadKind::UnsignedWord => helpers.load_u32,
            LoadKind::DoubleWord => helpers.load_u64,
        }
    }

    /// The address of the function for the load.
    pub fn helper(self, helpers: &Helpers) -> (r: u64)
        ensures
            r == self.helper_in(*helpers),
    {
        match self {
            LoadKind::SignedByte | LoadKind::UnsignedByte => helpers.load_u8,
            LoadKind::SignedHalf | LoadKind::UnsignedHalf => helpers.load_u16,
            LoadKind::SignedWord | LoadKind::UnsignedWord => helpers.load_u32,
            LoadKind::DoubleWord => helpers.load_u64,
        }
    }
}

impl StoreKind {
    /// The width of what is stored.
    pub open spec fn spec_width(self) -> Width {
        match self {
            StoreKind::Byte => Width::W8,
            StoreKind::Half => Width::W16,
            StoreKind::Word => Width::W32,
            StoreKind::DoubleWord => Width::W64,
        }
    }

    /// The address of the function for the store.
    pub open spec fn helper_in(self, helpers: Helpers) -> u64 {
        match self {
            StoreKind::Byte => helpers.store_u8,
            StoreKind::Half => helpers.store_u16,
            StoreKind::Word => helpers.store_u32,
            StoreKind::DoubleWord => helpers.store_u64,
        }
    }

    /// The address of the function for the store.
    pub fn helper(self, helpers: &Helpers) -> (r: u64)
        ensures
            r == self.helper_in(*helpers),
    {
        match self {
            StoreKind::Byte => helpers.store_u8,
            StoreKind::Half => helpers.store_u16,
            StoreKind::Word => helpers.store_u32,
            StoreKind::DoubleWord => helpers.store_u64,
        }
    }
}

/// Loads for generated code. An exception is recorded, and there is no value.
pub fn helper_load(
    cpu: &mut RVCPU,
    width: Width,
    addr: u64,
    context: &mut JitContext,
    guest_pc: u64,
    icount: u64,
) -> (r: Option<u64>)
    requires
        old(cpu).wf(),
    ensures
        final(cpu).wf(),
        final(cpu)@ == old(cpu)@.data_read(addr, width).0,
        match old(cpu)@.data_read(addr, width).1 {
            Ok(value) => r == Some(value) && *final(context) == *old(context),
            Err(e) => r is None && *final(context) == old(context).raised(
                guest_pc,
                icount,
                e,
                addr,
            ),
        },
{
    match cpu.read(addr, width) {
        Ok(value) => Some(value),
        Err(e) => {
            context.raise(guest_pc, icount, e, addr);
            None
        },
    }
}

/// Stores for generated code. An exception is recorded, and the block is left.
pub fn helper_store(
    cpu: &mut RVCPU,
    width: Width,
    addr: u64,
    value: u64,
    context: &mut JitContext,
    guest_pc: u64,
    icount: u64,
) -> (r: bool)
    requires
        old(cpu).wf(),
    ensures
        final(cpu).wf(),
        final(cpu)@ == old(cpu)@.data_written(addr, width, width.wrap(value as int)).0,
        match old(cpu)@.data_written(addr, width, width.wrap(value as int)).1 {
            Ok(_) => r && *final(context) == *old(context),
            Err(e) => !r && *final(context) == old(context).raised(guest_pc, icount, e, addr),
        },
{
    match cpu.write(addr, width, width.truncate(value)) {
        Ok(_) => true,
        Err(e) => {
            context.raise(guest_pc, icount, e, addr);
            false
        },
    }
}

/// Checks the target of a jump for generated code. A target that the hart cannot jump to is
/// recorded, and the block is left.
pub fn helper_check_instruction_alignment(
    target: u64,
    context: &mut JitContext,
    guest_pc: u64,
    icount: u64,
) -> (r: Option<u64>)
    ensures
        target % 4 == 0 ==> r == Some(target) && *final(context) == *old(context),
        target % 4 != 0 ==> r is None && *final(context) == old(context).raised(
            guest_pc,
            icount,
            Exception::InstructionMisaligned,
            target,
        ),
{
    if target % 4 == 0 {
        Some(target)
    } else {
        context.raise(guest_pc, icount, Exception::InstructionMisaligned, target);
        None
    }
}

} // verus!
