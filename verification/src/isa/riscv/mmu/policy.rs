//! Which policy an access of the hart goes by.
use vstd::prelude::*;

use crate::device::MemError;
use crate::isa::riscv::csr_reg::csr_index;
use crate::isa::riscv::csr_reg::field::CsrField;
use crate::isa::riscv::csr_reg::file::CsrState;
use crate::isa::riscv::csr_reg::{CsrRegFile, PrivilegeLevel};

use super::manager::{AccessPolicy, AccessType};
use super::page_table::{AccessEffect, PermissionCheck, PTE_R, PTE_U, PTE_W, PTE_X};

verus! {

/// Which pages an access may touch.
#[derive(Clone, Copy, Debug, PartialEq, Eq, Structural)]
pub enum AccessPrivilege {
    UserOnly,
    SupervisorOnly,
    SupervisorAndUser,
    MachineOnly,
}

/// The rights of a privilege level, where `sum` lets a supervisor touch user pages. The reserved
/// level has the rights of a user.
pub open spec fn privilege_of(level: PrivilegeLevel, sum: bool) -> AccessPrivilege {
    match level {
        PrivilegeLevel::M => AccessPrivilege::MachineOnly,
        PrivilegeLevel::S => if sum {
            AccessPrivilege::SupervisorAndUser
        } else {
            AccessPrivilege::SupervisorOnly
        },
        PrivilegeLevel::U => AccessPrivilege::UserOnly,
        PrivilegeLevel::V => AccessPrivilege::UserOnly,
    }
}

/// The rights of a data access: those of the current level, or in machine mode with MPRV set
/// those of the level that MPP names.
pub open spec fn data_privilege(csr: CsrState) -> AccessPrivilege {
    let sum = csr.field(CsrField::Mstatus_sum) != 0;
    if csr.cpl == PrivilegeLevel::M && csr.field(CsrField::Mstatus_mprv) != 0 {
        privilege_of(PrivilegeLevel::of_bits(csr.field(CsrField::Mstatus_mpp)), sum)
    } else {
        privilege_of(csr.cpl, sum)
    }
}

/// The policy of a data access.
pub open spec fn data_policy(csr: CsrState, access: AccessType, side_effect: bool) -> AccessPolicy {
    let executable_readable = csr.field(CsrField::Mstatus_mxr) == 1 && access == AccessType::Read;
    let rwx = if executable_readable {
        0u64
    } else {
        match access {
            AccessType::Read => PTE_R,
            AccessType::Write => PTE_W,
            AccessType::ReadWrite => 0x06u64,
        }
    };
    let (user_mask, user_flag) = match data_privilege(csr) {
        AccessPrivilege::UserOnly => (PTE_U, PTE_U),
        AccessPrivilege::SupervisorOnly => (PTE_U, 0u64),
        _ => (0u64, 0u64),
    };
    if data_privilege(csr) == AccessPrivilege::MachineOnly {
        AccessPolicy::Direct
    } else {
        AccessPolicy::Translated {
            check: PermissionCheck {
                any_of: if executable_readable {
                    0x0au64
                } else {
                    0
                },
                exact_mask: user_mask | rwx,
                exact_flags: user_flag | rwx,
            },
            effect: if !side_effect {
                AccessEffect::Nothing
            } else if access == AccessType::Read {
                AccessEffect::Accessed
            } else {
                AccessEffect::AccessedDirty
            },
            fault: if access == AccessType::Read {
                MemError::LoadPageFault
            } else {
                MemError::StorePageFault
            },
        }
    }
}

/// The policy of an instruction fetch.
pub open spec fn ifetch_policy(csr: CsrState, side_effect: bool) -> AccessPolicy {
    if csr.cpl == PrivilegeLevel::M {
        AccessPolicy::Direct
    } else {
        AccessPolicy::Translated {
            check: PermissionCheck {
                any_of: 0,
                exact_mask: 0x18,
                exact_flags: if csr.cpl == PrivilegeLevel::S {
                    0x08
                } else {
                    0x18
                },
            },
            effect: if side_effect {
                AccessEffect::Accessed
            } else {
                AccessEffect::Nothing
            },
            fault: MemError::LoadPageFault,
        }
    }
}

/// The rights of a data access.
pub fn determine_data_access_privilege(csr: &CsrRegFile) -> (r: AccessPrivilege)
    requires
        csr.wf(),
        csr@.has(csr_index::mstatus),
    ensures
        r == data_privilege(csr@),
{
    let level = match csr.privelege_level() {
        PrivilegeLevel::M => if csr.get_field(CsrField::Mstatus_mprv) == 0 {
            PrivilegeLevel::M
        } else {
            PrivilegeLevel::from_bits(csr.get_field(CsrField::Mstatus_mpp))
        },
        other => other,
    };
    match level {
        PrivilegeLevel::M => AccessPrivilege::MachineOnly,
        PrivilegeLevel::S => if csr.get_field(CsrField::Mstatus_sum) == 0 {
            AccessPrivilege::SupervisorOnly
        } else {
            AccessPrivilege::SupervisorAndUser
        },
        PrivilegeLevel::U => AccessPrivilege::UserOnly,
        PrivilegeLevel::V => AccessPrivilege::UserOnly,
    }
}

/// The policy of a data access. Without side effect no accessed or dirty bit is set.
pub fn resolve_data_policy(csr: &CsrRegFile, access: AccessType, side_effect: bool) -> (r:
    AccessPolicy)
    requires
        csr.wf(),
        csr@.has(csr_index::mstatus),
    ensures
        r == data_policy(csr@, access, side_effect),
{
    let fault = match access {
        AccessType::Read => MemError::LoadPageFault,
        AccessType::Write => MemError::StorePageFault,
        AccessType::ReadWrite => MemError::StorePageFault,
    };
    let effect = match (side_effect, access) {
        (false, _) => AccessEffect::Nothing,
        (true, AccessType::Read) => AccessEffect::Accessed,
        (true, _) => AccessEffect::AccessedDirty,
    };
    let (masks, flags): (u64, u64) = match determine_data_access_privilege(csr) {
        AccessPrivilege::MachineOnly => {
            return AccessPolicy::Direct;
        },
        AccessPrivilege::SupervisorAndUser => (0, 0),
        AccessPrivilege::SupervisorOnly => (PTE_U, 0),
        AccessPrivilege::UserOnly => (PTE_U, PTE_U),
    };
    if csr.get_field(CsrField::Mstatus_mxr) == 1 {
        if let AccessType::Read = access {
            proof {
                lemma_or_zero(masks);
                lemma_or_zero(flags);
                lemma_flag_unions();
            }
            return AccessPolicy::Translated {
                check: PermissionCheck {
                    any_of: PTE_R | PTE_X,
                    exact_mask: masks,
                    exact_flags: flags,
                },
                effect,
                fault,
            };
        }
    }
    proof {
        lemma_flag_unions();
    }
    let rwx_base: u64 = match access {
        AccessType::Read => PTE_R,
        AccessType::Write => PTE_W,
        AccessType::ReadWrite => PTE_R | PTE_W,
    };
    AccessPolicy::Translated {
        check: PermissionCheck {
            any_of: 0,
            exact_mask: masks | rwx_base,
            exact_flags: flags | rwx_base,
        },
        effect,
        fault,
    }
}

/// The policy of an instruction fetch.
pub fn resolve_ifetch_policy(csr: &CsrRegFile, side_effect: bool) -> (r: AccessPolicy)
    ensures
        r == ifetch_policy(csr@, side_effect),
{
    let effect = if side_effect {
        AccessEffect::Accessed
    } else {
        AccessEffect::Nothing
    };
    proof {
        lemma_flag_unions();
    }
    match csr.privelege_level() {
        PrivilegeLevel::M => AccessPolicy::Direct,
        PrivilegeLevel::S => AccessPolicy::Translated {
            check: PermissionCheck {
                any_of: 0,
                exact_mask: PTE_X | PTE_U,
                exact_flags: PTE_X,
            },
            effect,
            fault: MemError::LoadPageFault,
        },
        PrivilegeLevel::U => AccessPolicy::Translated {
            check: PermissionCheck {
                any_of: 0,
                exact_mask: PTE_X | PTE_U,
                exact_flags: PTE_X | PTE_U,
            },
            effect,
            fault: MemError::LoadPageFault,
        },
        PrivilegeLevel::V => AccessPolicy::Translated {
            check: PermissionCheck {
                any_of: 0,
                exact_mask: PTE_X | PTE_U,
                exact_flags: PTE_X | PTE_U,
            },
            effect,
            fault: MemError::LoadPageFault,
        },
    }
}

proof fn lemma_or_zero(a: u64)
    ensures
        a | 0u64 == a,
{
    assert(a | 0u64 == a) by (bit_vector);
}

proof fn lemma_flag_unions()
    ensures
        PTE_R | PTE_X == 0x0a,
        PTE_R | PTE_W == 0x06,
        PTE_X | PTE_U == 0x18,
{
    assert(0x02u64 | 0x08u64 == 0x0a && 0x02u64 | 0x04u64 == 0x06 && 0x08u64 | 0x10u64 == 0x18)
        by (bit_vector);
}

/// What the data policy means for the flags of a page. A user reaches user pages only, a
/// supervisor reaches them only where SUM is set; a read needs R, or X where MXR is set; a write
/// needs W; an atomic operation needs both R and W.
pub proof fn law_data_policy_permits(csr: CsrState, access: AccessType, flags: u64)
    requires
        data_privilege(csr) != AccessPrivilege::MachineOnly,
    ensures
        data_policy(csr, access, true) matches AccessPolicy::Translated { check, .. }
            && check.permits(flags) == ({
            let user = flags & PTE_U != 0;
            let page = match data_privilege(csr) {
                AccessPrivilege::UserOnly => user,
                AccessPrivilege::SupervisorOnly => !user,
                _ => true,
            };
            let right = match access {
                AccessType::Read => flags & PTE_R != 0 || (csr.field(CsrField::Mstatus_mxr) == 1
                    && flags & PTE_X != 0),
                AccessType::Write => flags & PTE_W != 0,
                AccessType::ReadWrite => flags & PTE_R != 0 && flags & PTE_W != 0,
            };
            page && right
        }),
{
    let f = flags;
    assert(0x10u64 | 0u64 == 0x10 && 0u64 | 0u64 == 0 && 0x10u64 | 2u64 == 0x12 && 0u64 | 2u64
        == 2 && 0x10u64 | 4u64 == 0x14 && 0u64 | 4u64 == 4 && 0x10u64 | 6u64 == 0x16 && 0u64 | 6u64
        == 6) by (bit_vector);
    assert({
        &&& (f & 0x12 == 0x12) == (f & 0x10 != 0 && f & 2 != 0)
        &&& (f & 0x12 == 2) == (f & 0x10 == 0 && f & 2 != 0)
        &&& (f & 2 == 2) == (f & 2 != 0)
        &&& (f & 0x14 == 0x14) == (f & 0x10 != 0 && f & 4 != 0)
        &&& (f & 0x14 == 4) == (f & 0x10 == 0 && f & 4 != 0)
        &&& (f & 4 == 4) == (f & 4 != 0)
        &&& (f & 0x16 == 0x16) == (f & 0x10 != 0 && f & 2 != 0 && f & 4 != 0)
        &&& (f & 0x16 == 6) == (f & 0x10 == 0 && f & 2 != 0 && f & 4 != 0)
        &&& (f & 6 == 6) == (f & 2 != 0 && f & 4 != 0)
        &&& (f & 0x10 == 0x10) == (f & 0x10 != 0)
        &&& (f & 0x0a != 0) == (f & 2 != 0 || f & 8 != 0)
        &&& f & 0 == 0
    }) by (bit_vector);
}

/// What the fetch policy means for the flags of a page: outside machine mode an instruction comes
/// from an executable page only, a supervisor's from a page that is not a user page, and any other
/// level's from a user page. A fetch is no write: it leaves the dirty bit alone.
pub proof fn law_ifetch_policy_permits(csr: CsrState, side_effect: bool, flags: u64)
    ensures
        csr.cpl == PrivilegeLevel::M <==> ifetch_policy(csr, side_effect) is Direct,
        csr.cpl != PrivilegeLevel::M ==> (ifetch_policy(
            csr,
            side_effect,
        ) matches AccessPolicy::Translated { check, effect, .. } && (check.permits(flags) <==> (
        flags & PTE_X != 0 && ((flags & PTE_U != 0) == (csr.cpl != PrivilegeLevel::S))))
            && effect != AccessEffect::AccessedDirty && (effect == AccessEffect::Nothing
            <==> !side_effect)),
{
    let f = flags;
    assert({
        &&& (f & 0x18 == 0x18) == (f & 8 != 0 && f & 0x10 != 0)
        &&& (f & 0x18 == 8) == (f & 8 != 0 && f & 0x10 == 0)
    }) by (bit_vector);
}

/// Looking is allowed where doing is: the check of an access does not depend on whether the access
/// leaves a trace in the page table, and only a write or an atomic operation makes a page dirty.
pub proof fn law_trace_does_not_change_rights(csr: CsrState, access: AccessType)
    ensures
        match (data_policy(csr, access, true), data_policy(csr, access, false)) {
            (AccessPolicy::Direct, AccessPolicy::Direct) => true,
            (
                AccessPolicy::Translated { check: c, effect: e, fault: f },
                AccessPolicy::Translated { check: d, effect: n, fault: g },
            ) => {
                &&& forall|flags: u64| c.permits(flags) == d.permits(flags)
                &&& f == g
                &&& (f == MemError::LoadPageFault <==> access == AccessType::Read)
                &&& n == AccessEffect::Nothing
                &&& e != AccessEffect::Nothing
                &&& (e == AccessEffect::AccessedDirty <==> access != AccessType::Read)
            },
            _ => false,
        },
{
}

/// Who reaches which pages: machine mode goes by physical addresses unless MPRV lends it the rights
/// of the level in MPP, and SUM matters to a supervisor alone.
pub proof fn law_data_privilege_levels(csr: CsrState)
    ensures
        csr.cpl != PrivilegeLevel::M ==> data_privilege(csr) != AccessPrivilege::MachineOnly,
        csr.cpl == PrivilegeLevel::M && csr.field(CsrField::Mstatus_mprv) == 0 ==> data_privilege(
            csr,
        ) == AccessPrivilege::MachineOnly,
        csr.cpl == PrivilegeLevel::M && csr.field(CsrField::Mstatus_mprv) != 0 ==> data_privilege(
            csr,
        ) == data_privilege(
            CsrState { cpl: PrivilegeLevel::of_bits(csr.field(CsrField::Mstatus_mpp)), ..csr },
        ) || PrivilegeLevel::of_bits(csr.field(CsrField::Mstatus_mpp)) == PrivilegeLevel::M,
        (data_privilege(csr) == AccessPrivilege::SupervisorAndUser) ==> csr.field(
            CsrField::Mstatus_sum,
        ) != 0,
        (data_privilege(csr) == AccessPrivilege::SupervisorOnly) ==> csr.field(
            CsrField::Mstatus_sum,
        ) == 0,
        csr.cpl == PrivilegeLevel::U || csr.cpl == PrivilegeLevel::V ==> data_privilege(csr)
            == AccessPrivilege::UserOnly,
{
}

} // verus!
