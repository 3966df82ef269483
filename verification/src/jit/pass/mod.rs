//! What can be known of a block before it is compiled.
pub mod liveness;
