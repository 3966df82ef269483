//! Instruction set architectures.
pub mod cache;
pub mod riscv;
pub mod utils;
