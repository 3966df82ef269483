//! Control and status registers.
pub mod cpu;
pub mod csr_index;
pub mod field;
pub mod file;
pub mod view_laws;

pub use file::CsrContext;
pub use file::CsrReg;
pub use file::CsrRegFile;
pub use file::CsrWriteOp;
pub use file::NamedCsrReg;
pub use file::PrivilegeLevel;
pub use file::ReadValidator;
pub use file::WriteValidator;
