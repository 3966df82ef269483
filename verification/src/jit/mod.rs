//! Translation of guest code to host code.
pub mod backend;
pub mod engine;
pub mod equivalence;
pub mod helpers;
pub mod ir;
pub mod jit_buffer;
pub mod jit_function;
pub mod machine;
pub mod pass;
pub mod stats;
pub mod translator;
