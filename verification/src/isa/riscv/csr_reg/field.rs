//! Named bit-fields of the control and status registers.
use vstd::prelude::*;

use super::csr_index;

verus! {

/// A bit-field of a register. The fields of a shadow register lie in its base register.
#[allow(non_camel_case_types)]
#[derive(Clone, Copy, Debug, PartialEq, Eq, Structural)]
pub enum CsrField {
    Mstatus_sie,
    Mstatus_mie,
    Mstatus_spie,
    Mstatus_mpie,
    Mstatus_spp,
    Mstatus_vs,
    Mstatus_mpp,
    Mstatus_fs,
    Mstatus_mprv,
    Mstatus_sum,
    Mstatus_mxr,
    Mstatus_tvm,
    Mstatus_tsr,
    Mstatus_uxl,
    Mstatus_sxl,
    Mip_msip,
    Mip_mtip,
    Mip_seip,
    Mip_meip,
    Mie_seie,
    Mtvec_base,
    Satp_mode,
    Satp_ppn,
    Misa_extension,
    Misa_mxl,
    Fcsr_fflags,
    Fcsr_rm,
    Vcsr_vxsat,
    Vcsr_vxrm,
    Mcycle_mcycle,
    Vstart_vstart,
}

impl CsrField {
    /// The register that holds the field, its lowest bit and its width.
    pub open spec fn place(self) -> (u64, u64, u64) {
        match self {
            CsrField::Mstatus_sie => (csr_index::mstatus, 1, 1),
            CsrField::Mstatus_mie => (csr_index::mstatus, 3, 1),
            CsrField::Mstatus_spie => (csr_index::mstatus, 5, 1),
            CsrField::Mstatus_mpie => (csr_index::mstatus, 7, 1),
            CsrField::Mstatus_spp => (csr_index::mstatus, 8, 1),
            CsrField::Mstatus_vs => (csr_index::mstatus, 9, 2),
            CsrField::Mstatus_mpp => (csr_index::mstatus, 11, 2),
            CsrField::Mstatus_fs => (csr_index::mstatus, 13, 2),
            CsrField::Mstatus_mprv => (csr_index::mstatus, 17, 1),
            CsrField::Mstatus_sum => (csr_index::mstatus, 18, 1),
            CsrField::Mstatus_mxr => (csr_index::mstatus, 19, 1),
            CsrField::Mstatus_tvm => (csr_index::mstatus, 20, 1),
            CsrField::Mstatus_tsr => (csr_index::mstatus, 22, 1),
            CsrField::Mstatus_uxl => (csr_index::mstatus, 32, 2),
            CsrField::Mstatus_sxl => (csr_index::mstatus, 34, 2),
            CsrField::Mip_msip => (csr_index::mip, 3, 1),
            CsrField::Mip_mtip => (csr_index::mip, 7, 1),
            CsrField::Mip_seip => (csr_index::mip, 9, 1),
            CsrField::Mip_meip => (csr_index::mip, 11, 1),
            CsrField::Mie_seie => (csr_index::mie, 9, 1),
            CsrField::Mtvec_base => (csr_index::mtvec, 2, 62),
            CsrField::Satp_mode => (csr_index::satp, 60, 4),
            CsrField::Satp_ppn => (csr_index::satp, 0, 44),
            CsrField::Misa_extension => (csr_index::misa, 0, 26),
            CsrField::Misa_mxl => (csr_index::misa, 62, 2),
            CsrField::Fcsr_fflags => (csr_index::fcsr, 0, 5),
            CsrField::Fcsr_rm => (csr_index::fcsr, 5, 3),
            CsrField::Vcsr_vxsat => (csr_index::vcsr, 0, 1),
            CsrField::Vcsr_vxrm => (csr_index::vcsr, 1, 2),
            CsrField::Mcycle_mcycle => (csr_index::mcycle, 0, 64),
            CsrField::Vstart_vstart => (csr_index::vstart, 0, 64),
        }
    }

    /// The register that holds the field, its lowest bit and its width.
    pub fn location(self) -> (r: (u64, u64, u64))
        ensures
            r == self.place(),
            r.0 < 4096,
            r.1 < 64,
            1 <= r.2 <= 64,
            r.1 + r.2 <= 64,
    {
        match self {
            CsrField::Mstatus_sie => (csr_index::mstatus, 1, 1),
            CsrField::Mstatus_mie => (csr_index::mstatus, 3, 1),
            CsrField::Mstatus_spie => (csr_index::mstatus, 5, 1),
            CsrField::Mstatus_mpie => (csr_index::mstatus, 7, 1),
            CsrField::Mstatus_spp => (csr_index::mstatus, 8, 1),
            CsrField::Mstatus_vs => (csr_index::mstatus, 9, 2),
            CsrField::Mstatus_mpp => (csr_index::mstatus, 11, 2),
            CsrField::Mstatus_fs => (csr_index::mstatus, 13, 2),
            CsrField::Mstatus_mprv => (csr_index::mstatus, 17, 1),
            CsrField::Mstatus_sum => (csr_index::mstatus, 18, 1),
            CsrField::Mstatus_mxr => (csr_index::mstatus, 19, 1),
            CsrField::Mstatus_tvm => (csr_index::mstatus, 20, 1),
            CsrField::Mstatus_tsr => (csr_index::mstatus, 22, 1),
            CsrField::Mstatus_uxl => (csr_index::mstatus, 32, 2),
            CsrField::Mstatus_sxl => (csr_index::mstatus, 34, 2),
            CsrField::Mip_msip => (csr_index::mip, 3, 1),
            CsrField::Mip_mtip => (csr_index::mip, 7, 1),
            CsrField::Mip_seip => (csr_index::mip, 9, 1),
            CsrField::Mip_meip => (csr_index::mip, 11, 1),
            CsrField::Mie_seie => (csr_index::mie, 9, 1),
            CsrField::Mtvec_base => (csr_index::mtvec, 2, 62),
            CsrField::Satp_mode => (csr_index::satp, 60, 4),
            CsrField::Satp_ppn => (csr_index::satp, 0, 44),
            CsrField::Misa_extension => (csr_index::misa, 0, 26),
            CsrField::Misa_mxl => (csr_index::misa, 62, 2),
            CsrField::Fcsr_fflags => (csr_index::fcsr, 0, 5),
            CsrField::Fcsr_rm => (csr_index::fcsr, 5, 3),
            CsrField::Vcsr_vxsat => (csr_index::vcsr, 0, 1),
            CsrField::Vcsr_vxrm => (csr_index::vcsr, 1, 2),
            CsrField::Mcycle_mcycle => (csr_index::mcycle, 0, 64),
            CsrField::Vstart_vstart => (csr_index::vstart, 0, 64),
        }
    }
}

/// A word whose low `width` bits are set.
pub open spec fn low_mask(width: u64) -> u64 {
    if width >= 64 {
        0xffff_ffff_ffff_ffff
    } else {
        (((1u64 << width) as int) - 1) as u64
    }
}

/// A word whose low `width` bits are set.
pub fn low_bits(width: u64) -> (r: u64)
    ensures
        r == low_mask(width),
{
    if width >= 64 {
        0xffff_ffff_ffff_ffff
    } else {
        assert((1u64 << width) >= 1) by (bit_vector)
            requires
                width < 64,
        ;
        (1u64 << width) - 1
    }
}

/// The field of `width` bits at bit `low` of `value`.
pub open spec fn field_of(value: u64, low: u64, width: u64) -> u64 {
    (value >> low) & low_mask(width)
}

/// `value` with the field of `width` bits at bit `low` replaced by `field`.
pub open spec fn with_field(value: u64, low: u64, width: u64, field: u64) -> u64 {
    (value & !(low_mask(width) << low)) | ((field & low_mask(width)) << low)
}

/// A replaced field reads back, cut to its width.
pub proof fn law_field_reads_back(value: u64, low: u64, width: u64, field: u64)
    requires
        low < 64,
        1 <= width <= 64,
        low + width <= 64,
    ensures
        field_of(with_field(value, low, width, field), low, width) == field & low_mask(width),
{
    let m = low_mask(width);
    if width == 64 {
        assert(((value & !(m << 0u64)) | ((field & m) << 0u64)) >> 0u64 & m == field & m)
            by (bit_vector)
            requires
                m == 0xffff_ffff_ffff_ffffu64,
        ;
    } else {
        assert(1u64 << width >= 1) by (bit_vector)
            requires
                width < 64,
        ;
        assert(((value & !(m << low)) | ((field & m) << low)) >> low & m == field & m)
            by (bit_vector)
            requires
                1 <= width < 64,
                low < 64,
                low + width <= 64,
                m == (1u64 << width) - 1,
        ;
    }
}

/// Replacing a field leaves every field beside it alone.
pub proof fn law_field_frame(
    value: u64,
    low: u64,
    width: u64,
    field: u64,
    other_low: u64,
    other_width: u64,
)
    requires
        low < 64,
        1 <= width < 64,
        low + width <= 64,
        other_low < 64,
        1 <= other_width < 64,
        other_low + other_width <= 64,
        low + width <= other_low || other_low + other_width <= low,
    ensures
        field_of(with_field(value, low, width, field), other_low, other_width) == field_of(
            value,
            other_low,
            other_width,
        ),
{
    let m = low_mask(width);
    let n = low_mask(other_width);
    assert(1u64 << width >= 1 && 1u64 << other_width >= 1) by (bit_vector)
        requires
            width < 64,
            other_width < 64,
    ;
    assert((((value & !(m << low)) | ((field & m) << low)) >> other_low) & n == (value
        >> other_low) & n) by (bit_vector)
        requires
            1 <= width < 64,
            low < 64,
            low + width <= 64,
            1 <= other_width < 64,
            other_low < 64,
            other_low + other_width <= 64,
            low + width <= other_low || other_low + other_width <= low,
            m == (1u64 << width) - 1,
            n == (1u64 << other_width) - 1,
    ;
}

} // verus!
