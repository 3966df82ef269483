//! The control and status registers.
use here::isa::riscv::csr_reg::field::CsrField;
use here::isa::riscv::csr_reg::file::WriteValidator;
use here::isa::riscv::csr_reg::{csr_index, CsrRegFile, CsrWriteOp, NamedCsrReg, PrivilegeLevel};

#[test]
fn test_rw_by_addr() {
    let mut reg = CsrRegFile::new();
    assert!(reg.write_checked(csr_index::mcause, 3));
    assert!(reg.write_checked(csr_index::mepc, 0x1234_5678));

    let mcause = reg.read_checked(csr_index::mcause).unwrap();
    let mepc = reg.read_checked(csr_index::mepc).unwrap();

    assert_eq!(mcause, 3);
    assert_eq!(mepc, 0x1234_5678);
}

#[test]
fn test_rw_by_type() {
    let mut reg = CsrRegFile::new();
    assert!(reg.get_by_type(NamedCsrReg::Mstatus).is_some());

    reg.set_field(CsrField::Mstatus_mpp, 3);
    reg.set_field(CsrField::Mstatus_sie, 1);

    assert_eq!(reg.get_field(CsrField::Mstatus_mpp), 3);
    assert_eq!(reg.get_field(CsrField::Mstatus_sie), 1);
    let mstatus_val = reg.read_checked(csr_index::mstatus).unwrap();
    assert_eq!(mstatus_val, (1 << 1 | 3 << 11));

    reg.set_field(CsrField::Mstatus_mpp, 0b10);
    assert_eq!(reg.get_field(CsrField::Mstatus_mpp), 0b10);

    assert!(reg.get_by_type(NamedCsrReg::Mtvec).is_some());
    assert!(reg.write_checked(csr_index::mtvec, 0x114514));
    assert_eq!(reg.get_field(CsrField::Mtvec_base), 0x114514 >> 2);
}

#[test]
fn test_read_privilege() {
    let mut reg = CsrRegFile::new();
    reg.set_current_privileged(PrivilegeLevel::M);
    assert!(reg.write_checked(csr_index::mcause, 0xFEFE));
    assert_eq!(reg.read_uncheck_privilege(csr_index::mcause).unwrap(), 0xFEFE);

    reg.set_current_privileged(PrivilegeLevel::S);
    assert!(!reg.write_checked(csr_index::mcause, 0xFEFE));
    assert_eq!(reg.read_uncheck_privilege(csr_index::mcause).unwrap(), 0xFEFE);
}

#[test]
fn test_mcycle() {
    let mut reg = CsrRegFile::new();
    let mcycle = NamedCsrReg::Mcycle.get_index();

    reg.set_field(CsrField::Mcycle_mcycle, 1);
    assert_eq!(reg.get_field(CsrField::Mcycle_mcycle), 1);

    assert_eq!(reg.read_uncheck_privilege(mcycle).unwrap(), 1);
    reg.write_uncheck_privilege(mcycle, 2);
    assert_eq!(reg.read_uncheck_privilege(mcycle).unwrap(), 2);

    // The shadow of the counter cannot be written.
    let cycle = NamedCsrReg::Cycle.get_index();
    reg.write_uncheck_privilege(cycle, 3);
    assert_eq!(reg.read_uncheck_privilege(cycle).unwrap(), 2);
}

#[test]
fn test_vector_fixed_point_shadow_csr() {
    let mut reg = CsrRegFile::new();

    reg.write_uncheck_privilege(csr_index::vxrm, 0b10);
    reg.write_uncheck_privilege(csr_index::vxsat, 1);

    assert_eq!(reg.read_uncheck_privilege(csr_index::vxrm).unwrap(), 0b10);
    assert_eq!(reg.read_uncheck_privilege(csr_index::vxsat).unwrap(), 1);
    assert_eq!(reg.get_field(CsrField::Vcsr_vxrm), 0b10);
    assert_eq!(reg.get_field(CsrField::Vcsr_vxsat), 1);
    assert_eq!(reg.read_uncheck_privilege(NamedCsrReg::Fcsr.get_index()).unwrap(), 0);
}

#[test]
fn test_xstatus() {
    let mut reg = CsrRegFile::new();
    let mstatus = NamedCsrReg::Mstatus.get_index();
    let sstatus = NamedCsrReg::Sstatus.get_index();

    reg.set_field(CsrField::Mstatus_spp, 1);
    assert_eq!(reg.get_field(CsrField::Mstatus_spp), 1);
    assert_eq!(reg.read_uncheck_privilege(sstatus).unwrap() >> 8 & 1, 1);

    reg.write_uncheck_privilege(mstatus, 0x1002);
    assert_eq!(reg.read_uncheck_privilege(sstatus).unwrap(), 0x02);
    assert_eq!(reg.read_uncheck_privilege(mstatus).unwrap(), 0x1002);
}

#[test]
fn test_s_mode_shadow_csr() {
    let mut csr = CsrRegFile::new();
    let (mip, sip) = (NamedCsrReg::Mip.get_index(), NamedCsrReg::Sip.get_index());

    csr.set_field(CsrField::Mip_seip, 1);
    assert_eq!(csr.read_uncheck_privilege(sip).unwrap() >> 9 & 1, 1);
    csr.set_field(CsrField::Mip_meip, 1);
    assert_eq!(csr.read_uncheck_privilege(sip).unwrap(), 0x200);
    assert_eq!(csr.read_uncheck_privilege(mip).unwrap(), 0xa00);

    csr.set_field(CsrField::Mie_seie, 1);
    let sie = csr.read_uncheck_privilege(NamedCsrReg::Sie.get_index()).unwrap();
    assert_eq!(sie >> 9 & 1, 1);
}

#[test]
fn a_masked_write_keeps_the_other_bits() {
    let op = CsrWriteOp::new(0xff00);
    assert_eq!(op.get_new_value(0x1234, 0xabcd), 0xab34);
    assert_eq!(CsrWriteOp::new_write_all().get_new_value(0x1234, 0xabcd), 0xabcd);
    assert_eq!(op.merge(&CsrWriteOp::new(0x00f0)).get_new_value(0, u64::MAX), 0xfff0);
    assert_eq!(op.mask(&CsrWriteOp::new(0x0ff0)).get_new_value(0, u64::MAX), 0x0f00);
    let mut target = 0x1111;
    op.apply(&mut target, 0x2222);
    assert_eq!(target, 0x2211);
}

#[test]
fn a_field_reads_back_and_leaves_the_others() {
    let mut reg = CsrRegFile::new();
    reg.set_field_directly(CsrField::Mstatus_fs, 3);
    reg.set_field_directly(CsrField::Mstatus_mie, 1);
    assert_eq!(reg.get_field(CsrField::Mstatus_fs), 3);
    assert_eq!(reg.get_field(CsrField::Mstatus_mie), 1);
    assert_eq!(reg.get_field(CsrField::Mstatus_mpp), 0);
}

#[test]
fn registers_that_do_not_exist_are_refused() {
    let mut reg = CsrRegFile::new();
    assert_eq!(reg.read_checked(0x7c0), None);
    reg.write_uncheck_privilege(0x7c0, 1);
    assert_eq!(reg.read_uncheck_privilege(0x7c0), None);
    assert_eq!(reg.debug(0x7c0, Some(1)), None);
}

#[test]
fn privilege_levels_come_from_their_ranks() {
    assert_eq!(PrivilegeLevel::try_from(0), Ok(PrivilegeLevel::U));
    assert_eq!(PrivilegeLevel::try_from(1), Ok(PrivilegeLevel::S));
    assert_eq!(PrivilegeLevel::try_from(3), Ok(PrivilegeLevel::M));
    assert!(PrivilegeLevel::try_from(4).is_err());
}

#[test]
fn a_file_without_mstatus_is_accessed_by_level() {
    let mut reg = CsrRegFile::from(&[(csr_index::mepc, 5, WriteValidator::All)]);
    assert_eq!(reg.read_checked(csr_index::mepc), Some(5));
    assert!(reg.write_checked(csr_index::mepc, 6));
    assert_eq!(reg.read_checked(csr_index::mepc), Some(6));
    reg.set_current_privileged(PrivilegeLevel::U);
    assert!(!reg.is_read_priv_legal(csr_index::mepc));
    assert!(!reg.is_write_priv_legal(csr_index::mepc));
    assert_eq!(reg.read_checked(csr_index::mepc), None);
}
