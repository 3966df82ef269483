//! The decoder.
pub mod decode;
pub mod opcode;
pub mod opcode_laws;
pub mod operand_laws;
pub mod operands;

pub use decode::{DecodeInstr, Decoder, RawInstr};
