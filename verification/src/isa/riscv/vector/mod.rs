//! The vector unit.
pub mod element;
pub mod fixed;
pub mod mask;
pub mod memory;
pub mod moves;
pub mod state;
pub mod types;

pub use state::Vector;
