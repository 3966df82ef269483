//! What the registers that show parts of others are for.
use vstd::prelude::*;

use super::csr_index;
use super::file;
use super::file::CsrState;

verus! {

/// The floating-point registers are one: the flags are its lower five bits and the rounding direction
/// the three above, each read and written by itself, and the whole register is both.
pub proof fn law_float_views(s: CsrState, d: u64)
    requires
        s.table.len() == file::CSR_SIZE,
        s.has(csr_index::fcsr),
    ensures
        s.written(csr_index::fflags, d).read(csr_index::fflags) == Some(d & 0x1f),
        s.written(csr_index::fflags, d).read(csr_index::frm) == s.read(csr_index::frm),
        s.written(csr_index::frm, d).read(csr_index::frm) == Some(d & 7),
        s.written(csr_index::frm, d).read(csr_index::fflags) == s.read(csr_index::fflags),
        s.written(csr_index::fcsr, d).read(csr_index::fflags) == Some(d & 0x1f),
        s.written(csr_index::fcsr, d).read(csr_index::frm) == Some((d >> 5u64) & 7),
{
    let v = s.value(csr_index::fcsr);
    assert({
        &&& ((v & !0b11111u64) | (d & 0b11111)) & 0b11111 == d & 0x1f
        &&& (((v & !0b11111u64) | (d & 0b11111)) >> 5u64) & 0b111 == (v >> 5u64) & 0b111
        &&& (((v & !0b11100000u64) | ((d & 0b111) << 5u64)) >> 5u64) & 0b111 == d & 7
        &&& ((v & !0b11100000u64) | ((d & 0b111) << 5u64)) & 0b11111 == v & 0b11111
        &&& (d & 0xff) & 0b11111 == d & 0x1f
        &&& ((d & 0xff) >> 5u64) & 0b111 == (d >> 5u64) & 7
    }) by (bit_vector);
}

/// The fixed-point registers are one as well: saturation is its lowest bit, and the rounding mode the
/// two above.
pub proof fn law_fixed_point_views(s: CsrState, d: u64)
    requires
        s.table.len() == file::CSR_SIZE,
        s.has(csr_index::vcsr),
    ensures
        s.written(csr_index::vxsat, d).read(csr_index::vxsat) == Some(d & 1),
        s.written(csr_index::vxsat, d).read(csr_index::vxrm) == s.read(csr_index::vxrm),
        s.written(csr_index::vxrm, d).read(csr_index::vxrm) == Some(d & 3),
        s.written(csr_index::vxrm, d).read(csr_index::vxsat) == s.read(csr_index::vxsat),
{
    let v = s.value(csr_index::vcsr);
    assert({
        &&& ((v & !0b1u64) | (d & 0b1)) & 0b1 == d & 1
        &&& (((v & !0b1u64) | (d & 0b1)) >> 1u64) & 0b11 == (v >> 1u64) & 0b11
        &&& (((v & !0b110u64) | ((d & 0b11) << 1u64)) >> 1u64) & 0b11 == d & 3
        &&& ((v & !0b110u64) | ((d & 0b11) << 1u64)) & 0b1 == v & 0b1
    }) by (bit_vector);
}

/// The supervisor sees the bits of the machine's registers that concern it: of `mstatus` those of the
/// supervisor's own trap state, the state of the units and the rights of data accesses, of `mie` and
/// `mip` those of its three interrupts. The counters are shown whole.
pub proof fn law_supervisor_views(s: CsrState)
    ensures
        s.read(csr_index::sstatus) == Some(
            s.value(csr_index::mstatus) & 0x8000_0003_000d_e762,
        ),
        s.read(csr_index::sie) == Some(s.value(csr_index::mie) & 0x222),
        s.read(csr_index::sip) == Some(s.value(csr_index::mip) & 0x222),
        s.read(csr_index::cycle) == Some(s.value(csr_index::mcycle)),
        s.read(csr_index::instret) == Some(s.value(csr_index::minstret)),
{
    let (a, b) = (s.value(csr_index::mcycle), s.value(csr_index::minstret));
    assert(a & !0u64 == a && b & !0u64 == b) by (bit_vector);
}

} // verus!
