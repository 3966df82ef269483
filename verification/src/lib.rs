//! HERE: a RISC-V machine emulator.
use vstd::prelude::*;

pub mod board;
pub mod config;
pub mod cpu;
pub mod device;
pub mod device_config;
pub mod fpu;
pub mod isa;
pub mod jit;
pub mod load;
pub mod ram;
pub mod rvdb;
pub mod utils;
pub mod version;

verus! {

} // verus!
