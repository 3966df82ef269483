//! The RISC-V instruction set architecture.
pub mod csr_reg;
pub mod debugger;
pub mod decoder;
pub mod executor;
pub mod instruction;
pub mod mmu;
pub mod trap;
pub mod vector;
