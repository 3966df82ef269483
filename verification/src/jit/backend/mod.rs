//! The host side of the translation.
pub mod reg_alloc;
pub mod x86;
