//! Architecture parameters of the emulated hart and of its RAM.
use vstd::prelude::*;

verus! {

/// The type of a general-purpose register.
pub type WordType = u64;

/// The number of general-purpose registers.
pub const REGFILE_CNT: usize = 32;

/// The physical address of the first byte of RAM.
pub const BASE_ADDR: u64 = 0x8000_0000;

/// The size of RAM in bytes.
pub const RAM_SIZE: u64 = 0x2000_0000;

/// The program counter after reset.
pub const DEFAULT_PC_VALUE: u64 = 0x8000_0000;

/// The width of a vector register in bits.
pub const VLEN: usize = 128;

/// The width of a vector register in bytes.
pub const VLEN_BYTE: usize = 16;

} // verus!
