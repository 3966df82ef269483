//! The parts of the interactive debugger that decide.
pub mod nostd_repl;
