//! Address translation and memory access.
pub mod cpu;
pub mod manager;
pub mod page_table;
pub mod policy;
pub mod translation_laws;

pub use manager::AccessPolicy;
pub use manager::AccessType;
pub use manager::Address;
pub use manager::AmoOp;
pub use manager::VirtAddrManager;
pub use page_table::AccessEffect;
pub use page_table::AdUpdatePolicy;
pub use page_table::PageTableError;
pub use page_table::PermissionCheck;
