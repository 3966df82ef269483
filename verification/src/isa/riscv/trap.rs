//! Exceptions and interrupts.
use vstd::prelude::*;

use crate::device::MemError;

pub mod trap_controller;
pub mod trap_laws;

verus! {

/// A synchronous trap.
#[derive(Clone, Copy, Debug, PartialEq, Eq, PartialOrd, Ord, Hash, Structural)]
pub enum Exception {
    InstructionMisaligned,
    InstructionFault,
    IllegalInstruction,
    Breakpoint,
    LoadMisaligned,
    LoadFault,
    StoreMisaligned,
    StoreFault,
    UserEnvCall,
    SupervisorEnvCall,
    MachineEnvCall,
    InstructionPageFault,
    LoadPageFault,
    StorePageFault,
}

impl Exception {
    /// The exception code of the cause registers.
    pub open spec fn spec_code(self) -> u64 {
        match self {
            Exception::InstructionMisaligned => 0,
            Exception::InstructionFault => 1,
            Exception::IllegalInstruction => 2,
            Exception::Breakpoint => 3,
            Exception::LoadMisaligned => 4,
            Exception::LoadFault => 5,
            Exception::StoreMisaligned => 6,
            Exception::StoreFault => 7,
            Exception::UserEnvCall => 8,
            Exception::SupervisorEnvCall => 9,
            Exception::MachineEnvCall => 11,
            Exception::InstructionPageFault => 12,
            Exception::LoadPageFault => 13,
            Exception::StorePageFault => 15,
        }
    }

    /// The exception code of the cause registers.
    pub fn code(self) -> (r: u64)
        ensures
            r == self.spec_code(),
            r < 16,
    {
        match self {
            Exception::InstructionMisaligned => 0,
            Exception::InstructionFault => 1,
            Exception::IllegalInstruction => 2,
            Exception::Breakpoint => 3,
            Exception::LoadMisaligned => 4,
            Exception::LoadFault => 5,
            Exception::StoreMisaligned => 6,
            Exception::StoreFault => 7,
            Exception::UserEnvCall => 8,
            Exception::SupervisorEnvCall => 9,
            Exception::MachineEnvCall => 11,
            Exception::InstructionPageFault => 12,
            Exception::LoadPageFault => 13,
            Exception::StorePageFault => 15,
        }
    }

    /// The exception that a failed data access raises.
    pub open spec fn of_memory_err(err: MemError) -> Exception {
        match err {
            MemError::LoadMisaligned => Exception::LoadMisaligned,
            MemError::LoadFault => Exception::LoadFault,
            MemError::LoadPageFault => Exception::LoadPageFault,
            MemError::StoreMisaligned => Exception::StoreMisaligned,
            MemError::StoreFault => Exception::StoreFault,
            MemError::StorePageFault => Exception::StorePageFault,
        }
    }

    /// The exception that a failed data access raises.
    pub fn from_memory_err(err: MemError) -> (r: Exception)
        ensures
            r == Exception::of_memory_err(err),
    {
        match err {
            MemError::LoadMisaligned => Exception::LoadMisaligned,
            MemError::LoadFault => Exception::LoadFault,
            MemError::LoadPageFault => Exception::LoadPageFault,
            MemError::StoreMisaligned => Exception::StoreMisaligned,
            MemError::StoreFault => Exception::StoreFault,
            MemError::StorePageFault => Exception::StorePageFault,
        }
    }

    /// The exception that a failed instruction fetch raises.
    pub open spec fn of_instr_fetch_err(err: MemError) -> Exception {
        match err {
            MemError::LoadMisaligned | MemError::StoreMisaligned => {
                Exception::InstructionMisaligned
            },
            MemError::LoadFault | MemError::StoreFault => Exception::InstructionFault,
            MemError::LoadPageFault | MemError::StorePageFault => {
                Exception::InstructionPageFault
            },
        }
    }

    /// The exception that a failed instruction fetch raises.
    pub fn from_instr_fetch_err(err: MemError) -> (r: Exception)
        ensures
            r == Exception::of_instr_fetch_err(err),
    {
        match err {
            MemError::LoadMisaligned | MemError::StoreMisaligned => {
                Exception::InstructionMisaligned
            },
            MemError::LoadFault | MemError::StoreFault => Exception::InstructionFault,
            MemError::LoadPageFault | MemError::StorePageFault => {
                Exception::InstructionPageFault
            },
        }
    }
}

/// An asynchronous trap.
#[derive(Clone, Copy, Debug, PartialEq, Eq, Structural)]
pub enum Interrupt {
    SupervisorSoft,
    MachineSoft,
    SupervisorTimer,
    MachineTimer,
    SupervisorExternal,
    MachineExternal,
}

impl Interrupt {
    /// The bit of the interrupt in `mip` and `mie`, and its code in the cause registers.
    pub open spec fn spec_code(self) -> u64 {
        match self {
            Interrupt::SupervisorSoft => 1,
            Interrupt::MachineSoft => 3,
            Interrupt::SupervisorTimer => 5,
            Interrupt::MachineTimer => 7,
            Interrupt::SupervisorExternal => 9,
            Interrupt::MachineExternal => 11,
        }
    }

    /// The bit of the interrupt in `mip` and `mie`, and its code in the cause registers.
    pub fn code(self) -> (r: u64)
        ensures
            r == self.spec_code(),
            r < 16,
    {
        match self {
            Interrupt::SupervisorSoft => 1,
            Interrupt::MachineSoft => 3,
            Interrupt::SupervisorTimer => 5,
            Interrupt::MachineTimer => 7,
            Interrupt::SupervisorExternal => 9,
            Interrupt::MachineExternal => 11,
        }
    }
}

} // verus!
