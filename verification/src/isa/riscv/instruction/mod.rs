//! The instructions: operands, operations and their effect.
pub mod alu;
pub mod alu_laws;
pub mod atomic_laws;
pub mod csr_laws;
pub mod dispatch;
pub mod exec_atomic_function;
pub mod exec_compress_function;
pub mod exec_core;
pub mod exec_float_function;
pub mod exec_function;
pub mod exec_mapping;
pub mod exec_vector_function;
pub mod float_laws;
pub mod flow_laws;
pub mod info;
pub mod instr_order;
pub mod integer_laws;
pub mod instr_table;
pub mod vector_fixed_laws;
pub mod vector_laws;
pub mod vector_mask_laws;
pub mod vector_memory_laws;
pub mod vector_move_laws;

pub use info::{InstrFormat, RVInstrInfo};
