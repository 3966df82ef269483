//! The register file of the control and status registers.
use vstd::prelude::*;

use super::csr_index;
use super::field;
use super::field::CsrField;

verus! {

/// A privilege level of the hart.
#[derive(Clone, Copy, Debug, PartialEq, Eq, PartialOrd, Ord, Structural)]
pub enum PrivilegeLevel {
    U,
    S,
    V,
    M,
}

impl PrivilegeLevel {
    /// The encoding of the level; a greater one has more rights.
    pub open spec fn spec_rank(self) -> u64 {
        match self {
            PrivilegeLevel::U => 0,
            PrivilegeLevel::S => 1,
            PrivilegeLevel::V => 2,
            PrivilegeLevel::M => 3,
        }
    }

    /// The level that the low two bits of `value` encode.
    pub open spec fn of_bits(value: u64) -> PrivilegeLevel {
        if value % 4 == 0 {
            PrivilegeLevel::U
        } else if value % 4 == 1 {
            PrivilegeLevel::S
        } else if value % 4 == 2 {
            PrivilegeLevel::V
        } else {
            PrivilegeLevel::M
        }
    }

    /// The encoding of the level.
    pub fn rank(self) -> (r: u64)
        ensures
            r == self.spec_rank(),
            r < 4,
    {
        match self {
            PrivilegeLevel::U => 0,
            PrivilegeLevel::S => 1,
            PrivilegeLevel::V => 2,
            PrivilegeLevel::M => 3,
        }
    }

    /// The level that `value` encodes; only the values below 4 encode one.
    pub fn try_from(value: u8) -> (r: Result<PrivilegeLevel, &'static str>)
        ensures
            match r {
                Ok(level) => value < 4 && level.spec_rank() == value,
                Err(_) => value >= 4,
            },
    {
        match value {
            0 => Ok(PrivilegeLevel::U),
            1 => Ok(PrivilegeLevel::S),
            2 => Ok(PrivilegeLevel::V),
            3 => Ok(PrivilegeLevel::M),
            _ => Err("Invalid privilege level"),
        }
    }

    /// The level that the low two bits of `value` encode.
    pub fn from_bits(value: u64) -> (r: PrivilegeLevel)
        ensures
            r == PrivilegeLevel::of_bits(value),
    {
        match value % 4 {
            0 => PrivilegeLevel::U,
            1 => PrivilegeLevel::S,
            2 => PrivilegeLevel::V,
            _ => PrivilegeLevel::M,
        }
    }
}

/// The level that an access to the register at `addr` asks for: bits 9 and 8 of the address.
pub open spec fn required_rank(addr: u64) -> int {
    if addr >= 0x1000 {
        3
    } else {
        (addr as int / 0x100) % 4
    }
}

/// A write to the bits of a register that are set in the mask.
#[derive(Clone, Copy, Debug, PartialEq, Eq, Structural)]
pub struct CsrWriteOp {
    pub mask: u64,
}

impl CsrWriteOp {
    /// What a register that held `old_value` holds after `value` is written to it.
    pub open spec fn written(self, old_value: u64, value: u64) -> u64 {
        (old_value & !self.mask) | (value & self.mask)
    }

    pub fn new(mask: u64) -> (r: CsrWriteOp)
        ensures
            r.mask == mask,
    {
        CsrWriteOp { mask }
    }

    /// An operation that writes every bit.
    pub fn new_write_all() -> (r: CsrWriteOp)
        ensures
            r.mask == !0u64,
    {
        CsrWriteOp { mask: !0u64 }
    }

    pub fn apply(&self, target: &mut u64, value: u64)
        ensures
            *final(target) == self.written(*old(target), value),
    {
        *target = self.get_new_value(*target, value);
    }

    pub fn get_new_value(&self, old_value: u64, value: u64) -> (r: u64)
        ensures
            r == self.written(old_value, value),
    {
        (old_value & !self.mask) | (value & self.mask)
    }

    /// An operation that writes what either operation writes.
    pub fn merge(&self, rhs: &CsrWriteOp) -> (r: CsrWriteOp)
        ensures
            r.mask == self.mask | rhs.mask,
    {
        CsrWriteOp { mask: self.mask | rhs.mask }
    }

    /// An operation that writes what both operations write.
    pub fn mask(&self, rhs: &CsrWriteOp) -> (r: CsrWriteOp)
        ensures
            r.mask == self.mask & rhs.mask,
    {
        CsrWriteOp { mask: self.mask & rhs.mask }
    }
}

/// Writing twice through one mask is writing the second value; bits outside the mask never change.
pub proof fn law_masked_write(op: CsrWriteOp, old_value: u64, first: u64, second: u64)
    ensures
        op.written(op.written(old_value, first), second) == op.written(old_value, second),
        op.written(old_value, first) & !op.mask == old_value & !op.mask,
        op.written(old_value, first) & op.mask == first & op.mask,
{
    let m = op.mask;
    assert((((old_value & !m) | (first & m)) & !m) | (second & m) == (old_value & !m) | (second
        & m)) by (bit_vector);
    assert(((old_value & !m) | (first & m)) & !m == old_value & !m) by (bit_vector);
    assert(((old_value & !m) | (first & m)) & m == first & m) by (bit_vector);
}

/// Which bits of a register software can write.
#[derive(Clone, Copy, Debug, PartialEq, Eq, Structural)]
pub enum WriteValidator {
    All,
    ReadOnly,
    Masked(u64),
}

impl WriteValidator {
    /// The mask of the bits that a write changes.
    pub open spec fn writable(self) -> u64 {
        match self {
            WriteValidator::All => !0u64,
            WriteValidator::ReadOnly => 0,
            WriteValidator::Masked(mask) => mask,
        }
    }

    fn validate(self) -> (r: CsrWriteOp)
        ensures
            r.mask == self.writable(),
    {
        match self {
            WriteValidator::All => CsrWriteOp::new_write_all(),
            WriteValidator::ReadOnly => CsrWriteOp::new(0),
            WriteValidator::Masked(mask) => CsrWriteOp::new(mask),
        }
    }
}

/// A shadow register: a view of some bits of another register.
#[derive(Clone, Copy, Debug, PartialEq, Eq, Structural)]
pub struct ReadValidator {
    pub target_index: u64,
    pub view_mask: u64,
}

/// The base register of a shadow register, and the bits of it that are visible.
pub open spec fn shadow_of(addr: u64) -> Option<ReadValidator> {
    if addr == csr_index::sstatus {
        Some(ReadValidator { target_index: csr_index::mstatus, view_mask: 0x8000_0003_000d_e762 })
    } else if addr == csr_index::sie {
        Some(ReadValidator { target_index: csr_index::mie, view_mask: 0x222 })
    } else if addr == csr_index::sip {
        Some(ReadValidator { target_index: csr_index::mip, view_mask: 0x222 })
    } else if addr == csr_index::cycle {
        Some(ReadValidator { target_index: csr_index::mcycle, view_mask: !0u64 })
    } else if addr == csr_index::instret {
        Some(ReadValidator { target_index: csr_index::minstret, view_mask: !0u64 })
    } else {
        None
    }
}

/// The base register of a shadow register, and the bits of it that are visible.
pub fn resolve_shadow_addr(addr: u64) -> (r: Option<ReadValidator>)
    ensures
        r == shadow_of(addr),
{
    if addr == csr_index::sstatus {
        Some(ReadValidator { target_index: csr_index::mstatus, view_mask: 0x8000_0003_000d_e762 })
    } else if addr == csr_index::sie {
        Some(ReadValidator { target_index: csr_index::mie, view_mask: 0x222 })
    } else if addr == csr_index::sip {
        Some(ReadValidator { target_index: csr_index::mip, view_mask: 0x222 })
    } else if addr == csr_index::cycle {
        Some(ReadValidator { target_index: csr_index::mcycle, view_mask: !0u64 })
    } else if addr == csr_index::instret {
        Some(ReadValidator { target_index: csr_index::minstret, view_mask: !0u64 })
    } else {
        None
    }
}

/// Facts about the hart that the registers report.
#[derive(Clone, Copy, Debug, PartialEq, Eq, Structural)]
pub struct CsrContext {
    /// The extensions that `misa` reports.
    pub extension: u64,
    /// The register width, 32 or 64.
    pub xlen: u8,
}

impl CsrContext {
    pub fn new() -> (r: CsrContext)
        ensures
            r.extension == 0,
            r.xlen == 0,
    {
        CsrContext { extension: 0, xlen: 0 }
    }
}

/// One register: its value, who may write it, and what it is a view of.
#[derive(Clone, Copy, Debug, PartialEq, Eq, Structural)]
pub struct CsrReg {
    pub value: u64,
    pub write_validator: Option<WriteValidator>,
    pub read_validator: Option<ReadValidator>,
}

impl CsrReg {
    /// The mask of the bits that a write changes.
    pub open spec fn writable(self) -> u64 {
        match self.write_validator {
            Some(validator) => validator.writable(),
            None => !0u64,
        }
    }

    /// The register with another value.
    pub open spec fn with_value(self, value: u64) -> CsrReg {
        CsrReg { value, ..self }
    }

    /// The register after a validated write of `new_value`.
    pub open spec fn after_write(self, new_value: u64) -> CsrReg {
        match self.write_validator {
            Some(validator) => self.with_value(
                (CsrWriteOp { mask: validator.writable() }).written(self.value, new_value),
            ),
            None => self.with_value(new_value),
        }
    }

    /// The register after a validated write of `new_value` that is cut to `mask` as well.
    pub open spec fn after_masked_write(self, new_value: u64, mask: u64) -> CsrReg {
        match self.write_validator {
            Some(validator) => self.with_value(
                (CsrWriteOp { mask: validator.writable() & mask }).written(self.value, new_value),
            ),
            None => self.with_value(new_value),
        }
    }

    pub fn new(
        value: u64,
        validator: Option<WriteValidator>,
        shadow_view: Option<ReadValidator>,
    ) -> (r: CsrReg)
        ensures
            r.value == value,
            r.write_validator == validator,
            r.read_validator == shadow_view,
    {
        CsrReg { value, write_validator: validator, read_validator: shadow_view }
    }

    pub fn value(&self) -> (r: u64)
        ensures
            r == self.value,
    {
        self.value
    }

    pub fn validate(&self) -> (r: CsrWriteOp)
        ensures
            r.mask == self.writable(),
    {
        match self.write_validator {
            Some(validator) => validator.validate(),
            None => CsrWriteOp::new_write_all(),
        }
    }

    pub fn write(&mut self, new_value: u64)
        ensures
            *final(self) == old(self).after_write(new_value),
    {
        match self.write_validator {
            Some(validator) => {
                let op = validator.validate();
                self.value = op.get_new_value(self.value, new_value);
            },
            None => {
                self.value = new_value;
            },
        }
    }

    /// Writes the bits that both the register's own validator and `mask` allow.
    pub fn write_with_mask(&mut self, new_value: u64, mask: CsrWriteOp)
        ensures
            *final(self) == old(self).after_masked_write(new_value, mask.mask),
    {
        match self.write_validator {
            Some(validator) => {
                let op = validator.validate().mask(&mask);
                self.value = op.get_new_value(self.value, new_value);
            },
            None => {
                self.value = new_value;
            },
        }
    }

    /// Writes without validation.
    pub fn write_directly(&mut self, new_value: u64)
        ensures
            *final(self) == old(self).with_value(new_value),
    {
        self.value = new_value;
    }
}

/// The number of register addresses.
pub const CSR_SIZE: usize = 4096;

/// The registers, the current privilege level and the context, as plain values.
#[verifier::ext_equal]
pub struct CsrState {
    pub table: Seq<Option<CsrReg>>,
    pub cpl: PrivilegeLevel,
    pub ctx: CsrContext,
}

impl CsrState {
    /// Whether there is a register at `addr`.
    pub open spec fn has(self, addr: u64) -> bool {
        addr < self.table.len() && self.table[addr as int] is Some
    }

    /// The register at `addr`.
    pub open spec fn reg(self, addr: u64) -> CsrReg {
        self.table[addr as int]->0
    }

    /// The value of the register at `addr`.
    pub open spec fn value(self, addr: u64) -> u64 {
        self.reg(addr).value
    }

    /// The file with another register at `addr`.
    pub open spec fn with_reg(self, addr: u64, reg: CsrReg) -> CsrState {
        CsrState { table: self.table.update(addr as int, Some(reg)), ..self }
    }

    /// The file with another value in the register at `addr`.
    pub open spec fn with_value(self, addr: u64, value: u64) -> CsrState {
        self.with_reg(addr, self.reg(addr).with_value(value))
    }

    /// The value of a field.
    pub open spec fn field(self, f: CsrField) -> u64 {
        let (addr, low, width) = f.place();
        field::field_of(self.value(addr), low, width)
    }

    /// The file after a validated write of a field.
    pub open spec fn with_field(self, f: CsrField, v: u64) -> CsrState {
        let (addr, low, width) = f.place();
        self.with_reg(
            addr,
            self.reg(addr).after_write(field::with_field(self.value(addr), low, width, v)),
        )
    }

    /// The file after an unvalidated write of a field.
    pub open spec fn with_field_directly(self, f: CsrField, v: u64) -> CsrState {
        let (addr, low, width) = f.place();
        self.with_value(addr, field::with_field(self.value(addr), low, width, v))
    }

    /// Whether reading `addr` finds the register whose bits it shows.
    pub open spec fn can_read(self, addr: u64) -> bool {
        if addr == csr_index::fflags || addr == csr_index::frm {
            self.has(csr_index::fcsr)
        } else if addr == csr_index::vxsat || addr == csr_index::vxrm {
            self.has(csr_index::vcsr)
        } else {
            match shadow_of(addr) {
                Some(view) => self.has(view.target_index),
                None => addr < CSR_SIZE,
            }
        }
    }

    /// What reading `addr` gives, whatever the privilege level.
    pub open spec fn read(self, addr: u64) -> Option<u64> {
        if addr == csr_index::fflags {
            Some(self.value(csr_index::fcsr) & 0b11111)
        } else if addr == csr_index::frm {
            Some((self.value(csr_index::fcsr) >> 5u64) & 0b111)
        } else if addr == csr_index::vxsat {
            Some(self.value(csr_index::vcsr) & 0b1)
        } else if addr == csr_index::vxrm {
            Some((self.value(csr_index::vcsr) >> 1u64) & 0b11)
        } else {
            match shadow_of(addr) {
                Some(view) => Some(self.value(view.target_index) & view.view_mask),
                None => if self.has(addr) {
                    Some(self.value(addr))
                } else {
                    None
                },
            }
        }
    }

    /// Whether writing `addr` finds the register whose bits it sets.
    pub open spec fn can_write(self, addr: u64) -> bool {
        if addr == csr_index::fflags || addr == csr_index::frm || addr == csr_index::fcsr {
            self.has(csr_index::fcsr)
        } else if addr == csr_index::vxsat || addr == csr_index::vxrm {
            self.has(csr_index::vcsr)
        } else {
            addr < CSR_SIZE
        }
    }

    /// The file after a validated write of `data` to `addr`, whatever the privilege level.
    pub open spec fn written(self, addr: u64, data: u64) -> CsrState {
        if addr == csr_index::fflags {
            self.with_value(
                csr_index::fcsr,
                (self.value(csr_index::fcsr) & !0b11111u64) | (data & 0b11111),
            )
        } else if addr == csr_index::frm {
            self.with_value(
                csr_index::fcsr,
                (self.value(csr_index::fcsr) & !0b11100000u64) | ((data & 0b111) << 5u64),
            )
        } else if addr == csr_index::fcsr {
            self.with_value(csr_index::fcsr, data & 0xff)
        } else if addr == csr_index::vxsat {
            self.with_value(
                csr_index::vcsr,
                (self.value(csr_index::vcsr) & !0b1u64) | (data & 0b1),
            )
        } else if addr == csr_index::vxrm {
            self.with_value(
                csr_index::vcsr,
                (self.value(csr_index::vcsr) & !0b110u64) | ((data & 0b11) << 1u64),
            )
        } else if !self.has(addr) {
            self
        } else {
            match self.reg(addr).read_validator {
                Some(view) => if self.has(view.target_index) {
                    self.with_reg(
                        view.target_index,
                        self.reg(view.target_index).after_masked_write(
                            data,
                            self.reg(addr).writable(),
                        ),
                    )
                } else {
                    self
                },
                None => self.with_reg(addr, self.reg(addr).after_write(data)),
            }
        }
    }

    /// Whether `mstatus`, which says if an access to `satp` traps at level S, is there where it is
    /// asked.
    pub open spec fn knows_traps(self, addr: u64) -> bool {
        addr == csr_index::satp && self.cpl == PrivilegeLevel::S ==> self.has(csr_index::mstatus)
    }

    /// Whether the current level may read `addr`.
    pub open spec fn may_read(self, addr: u64) -> bool {
        &&& !(addr == csr_index::satp && self.cpl == PrivilegeLevel::S && self.field(
            CsrField::Mstatus_tvm,
        ) == 1)
        &&& self.cpl.spec_rank() >= required_rank(addr)
    }

    /// Whether the current level may write `addr`. Nothing from 0xC00 on can be written.
    pub open spec fn may_write(self, addr: u64) -> bool {
        addr < 0xC00 && self.may_read(addr)
    }

    /// Whether the registers are those of the hart, each with the rules that it has after reset.
    pub open spec fn governed(self) -> bool {
        rules_kept(self.table)
    }

    /// Whether every register that the hart itself uses is there, and the shadows point where
    /// their addresses say.
    pub open spec fn complete(self) -> bool {
        &&& self.table.len() == CSR_SIZE
        &&& self.has(csr_index::fcsr)
        &&& self.has(csr_index::vstart)
        &&& self.has(csr_index::vcsr)
        &&& self.has(csr_index::vl)
        &&& self.has(csr_index::vtype)
        &&& self.has(csr_index::vlenb)
        &&& self.has(csr_index::stvec)
        &&& self.has(csr_index::sepc)
        &&& self.has(csr_index::scause)
        &&& self.has(csr_index::stval)
        &&& self.has(csr_index::satp)
        &&& self.has(csr_index::mstatus)
        &&& self.has(csr_index::misa)
        &&& self.has(csr_index::medeleg)
        &&& self.has(csr_index::mideleg)
        &&& self.has(csr_index::mie)
        &&& self.has(csr_index::mtvec)
        &&& self.has(csr_index::mepc)
        &&& self.has(csr_index::mcause)
        &&& self.has(csr_index::mtval)
        &&& self.has(csr_index::mip)
        &&& self.has(csr_index::mcycle)
        &&& self.has(csr_index::minstret)
    }
}

/// Whether two slots have the same register up to its value: who may write it and what it is a
/// view of.
pub open spec fn same_rules(a: Option<CsrReg>, b: Option<CsrReg>) -> bool {
    match (a, b) {
        (Some(x), Some(y)) => x.write_validator == y.write_validator && x.read_validator
            == y.read_validator,
        (None, None) => true,
        _ => false,
    }
}

/// Whether the registers are those of the hart, each with the rules that its row gives it.
#[verifier::opaque]
pub open spec fn rules_kept(table: Seq<Option<CsrReg>>) -> bool {
    &&& table.len() == CSR_SIZE
    &&& forall|a: u64|
        #![trigger table[a as int]]
        a < CSR_SIZE ==> same_rules(table[a as int], table_lookup(csr_reg_table(), a))
}

/// With every register of the hart there, any address can be read and written.
pub proof fn lemma_complete_access(s: CsrState, addr: u64)
    requires
        s.complete(),
        addr < CSR_SIZE,
    ensures
        s.can_read(addr),
        s.can_write(addr),
{
}

/// With every register of the hart there, every field is there.
pub proof fn lemma_complete_field(s: CsrState, f: CsrField)
    requires
        s.complete(),
    ensures
        s.has(f.place().0),
{
}

/// The registers that have a name.
#[derive(Clone, Copy, Debug, PartialEq, Eq, Structural)]
pub enum NamedCsrReg {
    Fcsr,
    Vstart,
    Vcsr,
    Vl,
    Vtype,
    Vlenb,
    Sstatus,
    Sie,
    Stvec,
    Sepc,
    Scause,
    Stval,
    Sip,
    Satp,
    Mstatus,
    Misa,
    Medeleg,
    Mideleg,
    Mie,
    Mtvec,
    Mepc,
    Mcause,
    Mtval,
    Mip,
    Mcycle,
    Minstret,
    Cycle,
    Instret,
}

impl NamedCsrReg {
    /// The address of the register.
    pub open spec fn index(self) -> u64 {
        match self {
            NamedCsrReg::Fcsr => csr_index::fcsr,
            NamedCsrReg::Vstart => csr_index::vstart,
            NamedCsrReg::Vcsr => csr_index::vcsr,
            NamedCsrReg::Vl => csr_index::vl,
            NamedCsrReg::Vtype => csr_index::vtype,
            NamedCsrReg::Vlenb => csr_index::vlenb,
            NamedCsrReg::Sstatus => csr_index::sstatus,
            NamedCsrReg::Sie => csr_index::sie,
            NamedCsrReg::Stvec => csr_index::stvec,
            NamedCsrReg::Sepc => csr_index::sepc,
            NamedCsrReg::Scause => csr_index::scause,
            NamedCsrReg::Stval => csr_index::stval,
            NamedCsrReg::Sip => csr_index::sip,
            NamedCsrReg::Satp => csr_index::satp,
            NamedCsrReg::Mstatus => csr_index::mstatus,
            NamedCsrReg::Misa => csr_index::misa,
            NamedCsrReg::Medeleg => csr_index::medeleg,
            NamedCsrReg::Mideleg => csr_index::mideleg,
            NamedCsrReg::Mie => csr_index::mie,
            NamedCsrReg::Mtvec => csr_index::mtvec,
            NamedCsrReg::Mepc => csr_index::mepc,
            NamedCsrReg::Mcause => csr_index::mcause,
            NamedCsrReg::Mtval => csr_index::mtval,
            NamedCsrReg::Mip => csr_index::mip,
            NamedCsrReg::Mcycle => csr_index::mcycle,
            NamedCsrReg::Minstret => csr_index::minstret,
            NamedCsrReg::Cycle => csr_index::cycle,
            NamedCsrReg::Instret => csr_index::instret,
        }
    }

    /// The address of the register.
    pub fn get_index(self) -> (r: u64)
        ensures
            r == self.index(),
            r < CSR_SIZE,
    {
        match self {
            NamedCsrReg::Fcsr => csr_index::fcsr,
            NamedCsrReg::Vstart => csr_index::vstart,
            NamedCsrReg::Vcsr => csr_index::vcsr,
            NamedCsrReg::Vl => csr_index::vl,
            NamedCsrReg::Vtype => csr_index::vtype,
            NamedCsrReg::Vlenb => csr_index::vlenb,
            NamedCsrReg::Sstatus => csr_index::sstatus,
            NamedCsrReg::Sie => csr_index::sie,
            NamedCsrReg::Stvec => csr_index::stvec,
            NamedCsrReg::Sepc => csr_index::sepc,
            NamedCsrReg::Scause => csr_index::scause,
            NamedCsrReg::Stval => csr_index::stval,
            NamedCsrReg::Sip => csr_index::sip,
            NamedCsrReg::Satp => csr_index::satp,
            NamedCsrReg::Mstatus => csr_index::mstatus,
            NamedCsrReg::Misa => csr_index::misa,
            NamedCsrReg::Medeleg => csr_index::medeleg,
            NamedCsrReg::Mideleg => csr_index::mideleg,
            NamedCsrReg::Mie => csr_index::mie,
            NamedCsrReg::Mtvec => csr_index::mtvec,
            NamedCsrReg::Mepc => csr_index::mepc,
            NamedCsrReg::Mcause => csr_index::mcause,
            NamedCsrReg::Mtval => csr_index::mtval,
            NamedCsrReg::Mip => csr_index::mip,
            NamedCsrReg::Mcycle => csr_index::mcycle,
            NamedCsrReg::Minstret => csr_index::minstret,
            NamedCsrReg::Cycle => csr_index::cycle,
            NamedCsrReg::Instret => csr_index::instret,
        }
    }

    /// The address of the register that holds the value: the base register of a shadow.
    pub open spec fn base_index(self) -> u64 {
        match shadow_of(self.index()) {
            Some(view) => view.target_index,
            None => self.index(),
        }
    }
}

/// The registers of the hart: address, value after reset, and who may write.
pub open spec fn csr_reg_table() -> Seq<(u64, u64, WriteValidator)> {
    seq![
        (csr_index::fcsr, 0u64, WriteValidator::Masked(0xff)),
        (csr_index::vstart, 0, WriteValidator::Masked(0x7f)),
        (csr_index::vcsr, 0, WriteValidator::Masked(0x7)),
        (csr_index::vl, 0, WriteValidator::ReadOnly),
        (csr_index::vtype, 0, WriteValidator::ReadOnly),
        (csr_index::vlenb, 16, WriteValidator::ReadOnly),
        (csr_index::sstatus, 0, WriteValidator::Masked(0xc_6722)),
        (csr_index::sie, 0, WriteValidator::Masked(0x222)),
        (csr_index::stvec, 0, WriteValidator::Masked(0xffff_ffff_ffff_fffd)),
        (csr_index::scounteren, 0, WriteValidator::All),
        (csr_index::sscratch, 0, WriteValidator::All),
        (csr_index::sepc, 0, WriteValidator::All),
        (csr_index::scause, 0, WriteValidator::All),
        (csr_index::stval, 0, WriteValidator::All),
        (csr_index::sip, 0, WriteValidator::Masked(0x2)),
        (csr_index::satp, 0, WriteValidator::All),
        (csr_index::mstatus, 0, WriteValidator::Masked(0x7e_7faa)),
        (csr_index::misa, 0, WriteValidator::ReadOnly),
        (csr_index::medeleg, 0, WriteValidator::All),
        (csr_index::mideleg, 0, WriteValidator::All),
        (csr_index::mie, 0, WriteValidator::All),
        (csr_index::mtvec, 0, WriteValidator::Masked(0xffff_ffff_ffff_fffd)),
        (csr_index::mcounteren, 0, WriteValidator::All),
        (csr_index::mscratch, 0, WriteValidator::All),
        (csr_index::mepc, 0, WriteValidator::All),
        (csr_index::mcause, 0, WriteValidator::All),
        (csr_index::mtval, 0, WriteValidator::All),
        (csr_index::mip, 0, WriteValidator::All),
        (csr_index::mcycle, 0, WriteValidator::All),
        (csr_index::minstret, 0, WriteValidator::All),
        (csr_index::mvendorid, 0, WriteValidator::ReadOnly),
        (csr_index::marchid, 0, WriteValidator::ReadOnly),
        (csr_index::mimpid, 0, WriteValidator::ReadOnly),
        (csr_index::mhartid, 0, WriteValidator::ReadOnly),
        (csr_index::cycle, 0, WriteValidator::ReadOnly),
        (csr_index::instret, 0, WriteValidator::ReadOnly),
    ]
}

/// The register that a table has for `addr`: the one of the last row with that address.
pub open spec fn table_lookup(rows: Seq<(u64, u64, WriteValidator)>, addr: u64) -> Option<CsrReg>
    decreases rows.len(),
{
    if rows.len() == 0 {
        None
    } else if rows.last().0 == addr {
        Some(
            CsrReg {
                value: rows.last().1,
                write_validator: Some(rows.last().2),
                read_validator: shadow_of(addr),
            },
        )
    } else {
        table_lookup(rows.drop_last(), addr)
    }
}

/// The registers of the hart: address, value after reset, and who may write.
fn csr_reg_rows() -> (r: Vec<(u64, u64, WriteValidator)>)
    ensures
        r@ == csr_reg_table(),
{
    let r: Vec<(u64, u64, WriteValidator)> =
        vec![
        (csr_index::fcsr, 0, WriteValidator::Masked(0xff)),
        (csr_index::vstart, 0, WriteValidator::Masked(0x7f)),
        (csr_index::vcsr, 0, WriteValidator::Masked(0x7)),
        (csr_index::vl, 0, WriteValidator::ReadOnly),
        (csr_index::vtype, 0, WriteValidator::ReadOnly),
        (csr_index::vlenb, 16, WriteValidator::ReadOnly),
        (csr_index::sstatus, 0, WriteValidator::Masked(0xc_6722)),
        (csr_index::sie, 0, WriteValidator::Masked(0x222)),
        (csr_index::stvec, 0, WriteValidator::Masked(0xffff_ffff_ffff_fffd)),
        (csr_index::scounteren, 0, WriteValidator::All),
        (csr_index::sscratch, 0, WriteValidator::All),
        (csr_index::sepc, 0, WriteValidator::All),
        (csr_index::scause, 0, WriteValidator::All),
        (csr_index::stval, 0, WriteValidator::All),
        (csr_index::sip, 0, WriteValidator::Masked(0x2)),
        (csr_index::satp, 0, WriteValidator::All),
        (csr_index::mstatus, 0, WriteValidator::Masked(0x7e_7faa)),
        (csr_index::misa, 0, WriteValidator::ReadOnly),
        (csr_index::medeleg, 0, WriteValidator::All),
        (csr_index::mideleg, 0, WriteValidator::All),
        (csr_index::mie, 0, WriteValidator::All),
        (csr_index::mtvec, 0, WriteValidator::Masked(0xffff_ffff_ffff_fffd)),
        (csr_index::mcounteren, 0, WriteValidator::All),
        (csr_index::mscratch, 0, WriteValidator::All),
        (csr_index::mepc, 0, WriteValidator::All),
        (csr_index::mcause, 0, WriteValidator::All),
        (csr_index::mtval, 0, WriteValidator::All),
        (csr_index::mip, 0, WriteValidator::All),
        (csr_index::mcycle, 0, WriteValidator::All),
        (csr_index::minstret, 0, WriteValidator::All),
        (csr_index::mvendorid, 0, WriteValidator::ReadOnly),
        (csr_index::marchid, 0, WriteValidator::ReadOnly),
        (csr_index::mimpid, 0, WriteValidator::ReadOnly),
        (csr_index::mhartid, 0, WriteValidator::ReadOnly),
        (csr_index::cycle, 0, WriteValidator::ReadOnly),
        (csr_index::instret, 0, WriteValidator::ReadOnly),
    ];
    r
}

/// The control and status registers of a hart.
pub struct CsrRegFile {
    pub table: Vec<Option<CsrReg>>,
    /// The current privilege level.
    pub cpl: PrivilegeLevel,
    pub ctx: CsrContext,
}

impl View for CsrRegFile {
    type V = CsrState;

    open spec fn view(&self) -> CsrState {
        CsrState { table: self.table@, cpl: self.cpl, ctx: self.ctx }
    }
}

impl CsrRegFile {
    /// Every address has a slot.
    pub open spec fn wf(&self) -> bool {
        self.table@.len() == CSR_SIZE
    }

    /// The registers of the hart, after reset.
    pub fn new() -> (r: CsrRegFile)
        ensures
            r.wf(),
            r@.complete(),
            r@.governed(),
            r@.cpl == PrivilegeLevel::M,
            r@.ctx == (CsrContext { extension: 0, xlen: 0 }),
            forall|a: u64|
                #![trigger r@.table[a as int]]
                a < CSR_SIZE ==> r@.table[a as int] == table_lookup(csr_reg_table(), a),
    {
        let rows = csr_reg_rows();
        let r = CsrRegFile::from(rows.as_slice());
        proof {
            lemma_reset_complete(r@);
            reveal(rules_kept);
        }
        r
    }

    /// The registers that the rows of a table describe.
    pub fn from(csr_table: &[(u64, u64, WriteValidator)]) -> (r: CsrRegFile)
        requires
            forall|i: int| 0 <= i < csr_table@.len() ==> (#[trigger] csr_table@[i]).0 < CSR_SIZE,
        ensures
            r.wf(),
            r@.cpl == PrivilegeLevel::M,
            r@.ctx == (CsrContext { extension: 0, xlen: 0 }),
            forall|a: u64|
                #![trigger r@.table[a as int]]
                a < CSR_SIZE ==> r@.table[a as int] == table_lookup(csr_table@, a),
    {
        let mut table: Vec<Option<CsrReg>> = vec![None; CSR_SIZE];
        let mut i: usize = 0;
        while i < csr_table.len()
            invariant
                i <= csr_table@.len(),
                table@.len() == CSR_SIZE,
                forall|j: int|
                    0 <= j < csr_table@.len() ==> (#[trigger] csr_table@[j]).0 < CSR_SIZE,
                forall|a: u64|
                    #![trigger table@[a as int]]
                    a < CSR_SIZE ==> table@[a as int] == table_lookup(
                        csr_table@.take(i as int),
                        a,
                    ),
            decreases csr_table@.len() - i,
        {
            let (addr, default_value, validator) = csr_table[i];
            assert(csr_table@.take(i as int + 1).drop_last() =~= csr_table@.take(i as int));
            table.set(
                addr as usize,
                Some(CsrReg::new(default_value, Some(validator), resolve_shadow_addr(addr))),
            );
            i = i + 1;
        }
        assert(csr_table@.take(i as int) =~= csr_table@);
        CsrRegFile { table, cpl: PrivilegeLevel::M, ctx: CsrContext::new() }
    }

    /// Whether the current level may read the register.
    pub fn is_read_priv_legal(&self, csr_addr: u64) -> (r: bool)
        requires
            self.wf(),
            self@.knows_traps(csr_addr),
        ensures
            r == self@.may_read(csr_addr),
    {
        if csr_addr == csr_index::satp && self.cpl == PrivilegeLevel::S && self.get_field(
            CsrField::Mstatus_tvm,
        ) == 1 {
            return false;
        }
        let required: u64 = if csr_addr >= 0x1000 {
            3
        } else {
            (csr_addr / 0x100) % 4
        };
        self.cpl.rank() >= required
    }

    /// Whether the current level may write the register.
    pub fn is_write_priv_legal(&self, csr_addr: u64) -> (r: bool)
        requires
            self.wf(),
            self@.knows_traps(csr_addr),
        ensures
            r == self@.may_write(csr_addr),
    {
        if csr_addr >= 0xC00 {
            false
        } else {
            self.is_read_priv_legal(csr_addr)
        }
    }

    /// Reads a register if the current level may.
    #[must_use]
    pub fn read_checked(&self, addr: u64) -> (r: Option<u64>)
        requires
            self.wf(),
            self@.knows_traps(addr),
            self@.may_read(addr) ==> self@.can_read(addr),
        ensures
            r == if self@.may_read(addr) {
                self@.read(addr)
            } else {
                None
            },
    {
        if !self.is_read_priv_legal(addr) {
            return None;
        }
        self.read_uncheck_privilege(addr)
    }

    /// Writes a register if the current level may; says whether it did.
    #[must_use]
    pub fn write_checked(&mut self, addr: u64, data: u64) -> (r: bool)
        requires
            old(self).wf(),
            old(self)@.knows_traps(addr),
            old(self)@.may_write(addr) ==> old(self)@.can_write(addr),
        ensures
            final(self).wf(),
            r == old(self)@.may_write(addr),
            final(self)@ == if r {
                old(self)@.written(addr, data)
            } else {
                old(self)@
            },
            old(self)@.complete() ==> final(self)@.complete(),
            old(self)@.governed() ==> final(self)@.governed(),
    {
        if !self.is_write_priv_legal(addr) {
            return false;
        }
        self.write_uncheck_privilege(addr, data);
        true
    }

    /// Reads a register for the debugger and, if there is a new value, writes it.
    pub fn debug(&mut self, addr: u64, new_value: Option<u64>) -> (r: Option<u64>)
        requires
            old(self).wf(),
            old(self)@.can_read(addr),
            new_value is Some ==> old(self)@.can_write(addr),
        ensures
            final(self).wf(),
            r == old(self)@.read(addr),
            final(self)@ == match new_value {
                Some(value) => old(self)@.written(addr, value),
                None => old(self)@,
            },
            old(self)@.complete() ==> final(self)@.complete(),
            old(self)@.governed() ==> final(self)@.governed(),
    {
        let value = self.read_uncheck_privilege(addr);
        match new_value {
            Some(v) => {
                self.write_uncheck_privilege(addr, v);
            },
            None => {},
        }
        value
    }

    /// Writes without any check or validation and without other side effects; says whether there
    /// is such a register.
    #[must_use]
    pub fn write_directly(&mut self, addr: u64, data: u64) -> (r: bool)
        requires
            old(self).wf(),
        ensures
            final(self).wf(),
            r == old(self)@.has(addr),
            final(self)@ == if r {
                old(self)@.with_value(addr, data)
            } else {
                old(self)@
            },
            old(self)@.complete() ==> final(self)@.complete(),
            old(self)@.governed() ==> final(self)@.governed(),
    {
        if addr >= CSR_SIZE as u64 {
            return false;
        }
        match self.table[addr as usize] {
            Some(reg) => {
                let mut reg = reg;
                reg.write_directly(data);
                proof {
                    lemma_rules_kept(self.table@, addr, reg);
                }
                self.table.set(addr as usize, Some(reg));
                true
            },
            None => false,
        }
    }

    /// Sets the value of a register that is there.
    fn set_value(&mut self, addr: u64, value: u64)
        requires
            old(self).wf(),
            old(self)@.has(addr),
        ensures
            final(self).wf(),
            final(self)@ == old(self)@.with_value(addr, value),
            old(self)@.governed() ==> final(self)@.governed(),
    {
        let _ = self.write_directly(addr, value);
    }

    /// The value of a register that is there.
    pub fn value_of(&self, addr: u64) -> (r: u64)
        requires
            self.wf(),
            self@.has(addr),
        ensures
            r == self@.value(addr),
    {
        self.table[addr as usize].unwrap().value()
    }

    /// Writes with validation, whatever the privilege level.
    pub fn write_uncheck_privilege(&mut self, addr: u64, data: u64)
        requires
            old(self).wf(),
            old(self)@.can_write(addr),
        ensures
            final(self).wf(),
            final(self)@ == old(self)@.written(addr, data),
            old(self)@.complete() ==> final(self)@.complete(),
            old(self)@.governed() ==> final(self)@.governed(),
    {
        if addr == csr_index::fflags {
            let fcsr: u64 = self.value_of(csr_index::fcsr);
            self.set_value(csr_index::fcsr, (fcsr & !0b11111u64) | (data & 0b11111));
        } else if addr == csr_index::frm {
            let fcsr: u64 = self.value_of(csr_index::fcsr);
            self.set_value(csr_index::fcsr, (fcsr & !0b11100000u64) | ((data & 0b111) << 5u64));
        } else if addr == csr_index::fcsr {
            // Bits 31 to 8 are reserved: writes to them are ignored and they read as zero.
            self.set_value(csr_index::fcsr, data & 0xff);
        } else if addr == csr_index::vxsat {
            let vcsr: u64 = self.value_of(csr_index::vcsr);
            self.set_value(csr_index::vcsr, (vcsr & !0b1u64) | (data & 0b1));
        } else if addr == csr_index::vxrm {
            let vcsr: u64 = self.value_of(csr_index::vcsr);
            self.set_value(csr_index::vcsr, (vcsr & !0b110u64) | ((data & 0b11) << 1u64));
        } else {
            match self.table[addr as usize] {
                Some(csr) => match csr.read_validator {
                    Some(view) => {
                        // A shadow register: the write goes to its base register, cut by the
                        // validators of both.
                        let op = csr.validate();
                        if view.target_index < CSR_SIZE as u64 {
                            match self.table[view.target_index as usize] {
                                Some(base) => {
                                    let mut base = base;
                                    base.write_with_mask(data, op);
                                    proof {
                                        lemma_rules_kept(self.table@, view.target_index, base);
                                    }
                                    self.table.set(view.target_index as usize, Some(base));
                                },
                                None => {},
                            }
                        }
                    },
                    None => {
                        let mut csr = csr;
                        csr.write(data);
                        proof {
                            lemma_rules_kept(self.table@, addr, csr);
                        }
                        self.table.set(addr as usize, Some(csr));
                    },
                },
                None => {},
            }
        }
    }

    /// Reads a register, whatever the privilege level.
    pub fn read_uncheck_privilege(&self, addr: u64) -> (r: Option<u64>)
        requires
            self.wf(),
            self@.can_read(addr),
        ensures
            r == self@.read(addr),
    {
        if addr == csr_index::fflags {
            Some(self.value_of(csr_index::fcsr) & 0b11111)
        } else if addr == csr_index::frm {
            Some((self.value_of(csr_index::fcsr) >> 5u64) & 0b111)
        } else if addr == csr_index::vxsat {
            Some(self.value_of(csr_index::vcsr) & 0b1)
        } else if addr == csr_index::vxrm {
            Some((self.value_of(csr_index::vcsr) >> 1u64) & 0b11)
        } else {
            match resolve_shadow_addr(addr) {
                Some(view) => Some(self.value_of(view.target_index) & view.view_mask),
                None => match self.table[addr as usize] {
                    Some(reg) => Some(reg.value()),
                    None => None,
                },
            }
        }
    }

    /// The register of a name, or the base register of a shadow, if it is there.
    pub fn get_by_type(&self, name: NamedCsrReg) -> (r: Option<CsrReg>)
        requires
            self.wf(),
        ensures
            r == self@.table[name.base_index() as int],
    {
        match resolve_shadow_addr(name.get_index()) {
            Some(view) => self.table[view.target_index as usize],
            None => self.table[name.get_index() as usize],
        }
    }

    /// The register of a name that is there.
    pub fn get_by_type_existing(&self, name: NamedCsrReg) -> (r: CsrReg)
        requires
            self.wf(),
            self@.has(name.base_index()),
        ensures
            r == self@.reg(name.base_index()),
    {
        self.get_by_type(name).unwrap()
    }

    /// Reads a field.
    pub fn get_field(&self, f: CsrField) -> (r: u64)
        requires
            self.wf(),
            self@.has(f.place().0),
        ensures
            r == self@.field(f),
    {
        let (addr, low, width) = f.location();
        (self.value_of(addr) >> low) & field::low_bits(width)
    }

    /// Replaces a field of the value `value`.
    fn replace_field(value: u64, low: u64, width: u64, v: u64) -> (r: u64)
        requires
            low < 64,
        ensures
            r == field::with_field(value, low, width, v),
    {
        let m: u64 = field::low_bits(width);
        (value & !(m << low)) | ((v & m) << low)
    }

    /// Writes a field with the validation of its register.
    pub fn set_field(&mut self, f: CsrField, v: u64)
        requires
            old(self).wf(),
            old(self)@.has(f.place().0),
        ensures
            final(self).wf(),
            final(self)@ == old(self)@.with_field(f, v),
            old(self)@.complete() ==> final(self)@.complete(),
            old(self)@.governed() ==> final(self)@.governed(),
    {
        let (addr, low, width) = f.location();
        let mut reg = self.table[addr as usize].unwrap();
        let value: u64 = CsrRegFile::replace_field(reg.value(), low, width, v);
        reg.write(value);
        proof {
            lemma_rules_kept(self.table@, addr, reg);
        }
        self.table.set(addr as usize, Some(reg));
    }

    /// Writes a field without validation.
    pub fn set_field_directly(&mut self, f: CsrField, v: u64)
        requires
            old(self).wf(),
            old(self)@.has(f.place().0),
        ensures
            final(self).wf(),
            final(self)@ == old(self)@.with_field_directly(f, v),
            old(self)@.complete() ==> final(self)@.complete(),
            old(self)@.governed() ==> final(self)@.governed(),
    {
        let (addr, low, width) = f.location();
        let value: u64 = CsrRegFile::replace_field(self.value_of(addr), low, width, v);
        self.set_value(addr, value);
    }

    /// Adds to a counter, modulo 2^64.
    pub fn wrapping_add(&mut self, addr: u64, n: u64)
        requires
            old(self).wf(),
            old(self)@.has(addr),
        ensures
            final(self).wf(),
            final(self)@ == old(self)@.with_value(addr, old(self)@.value(addr).wrapping_add(n)),
            old(self)@.complete() ==> final(self)@.complete(),
            old(self)@.governed() ==> final(self)@.governed(),
    {
        let v: u64 = self.value_of(addr);
        self.set_value(addr, v.wrapping_add(n));
    }

    /// The current privilege level.
    pub fn privelege_level(&self) -> (r: PrivilegeLevel)
        ensures
            r == self@.cpl,
    {
        self.cpl
    }

    pub fn set_current_privileged(&mut self, new_level: PrivilegeLevel)
        ensures
            final(self)@ == (CsrState { cpl: new_level, ..old(self)@ }),
            final(self).wf() == old(self).wf(),
            old(self)@.complete() ==> final(self)@.complete(),
            old(self)@.governed() ==> final(self)@.governed(),
    {
        self.cpl = new_level;
    }
}

/// The table of the hart has every register that the hart uses.
proof fn lemma_reset_complete(s: CsrState)
    requires
        s.table.len() == CSR_SIZE,
        forall|a: u64|
            #![trigger s.table[a as int]]
            a < CSR_SIZE ==> s.table[a as int] == table_lookup(csr_reg_table(), a),
    ensures
        s.complete(),
{
    let t = csr_reg_table();
    assert forall|i: int| 0 <= i < t.len() implies table_lookup(t, (#[trigger] t[i]).0) is Some by {
        lemma_row_found(t, i);
    }
    assert(t[0].0 == csr_index::fcsr);
    assert(t[1].0 == csr_index::vstart);
    assert(t[2].0 == csr_index::vcsr);
    assert(t[3].0 == csr_index::vl);
    assert(t[4].0 == csr_index::vtype);
    assert(t[5].0 == csr_index::vlenb);
    assert(t[8].0 == csr_index::stvec);
    assert(t[11].0 == csr_index::sepc);
    assert(t[12].0 == csr_index::scause);
    assert(t[13].0 == csr_index::stval);
    assert(t[15].0 == csr_index::satp);
    assert(t[16].0 == csr_index::mstatus);
    assert(t[17].0 == csr_index::misa);
    assert(t[18].0 == csr_index::medeleg);
    assert(t[19].0 == csr_index::mideleg);
    assert(t[20].0 == csr_index::mie);
    assert(t[21].0 == csr_index::mtvec);
    assert(t[24].0 == csr_index::mepc);
    assert(t[25].0 == csr_index::mcause);
    assert(t[26].0 == csr_index::mtval);
    assert(t[27].0 == csr_index::mip);
    assert(t[28].0 == csr_index::mcycle);
    assert(t[29].0 == csr_index::minstret);
}

/// An address that stands in a row is found.
proof fn lemma_row_found(rows: Seq<(u64, u64, WriteValidator)>, i: int)
    requires
        0 <= i < rows.len(),
    ensures
        table_lookup(rows, rows[i].0) is Some,
    decreases rows.len(),
{
    if rows.last().0 != rows[i].0 {
        lemma_row_found(rows.drop_last(), i);
    }
}

/// A register that changes only its value keeps its rules.
proof fn lemma_rules_kept(table: Seq<Option<CsrReg>>, addr: u64, reg: CsrReg)
    requires
        addr < table.len(),
        same_rules(table[addr as int], Some(reg)),
    ensures
        rules_kept(table) ==> rules_kept(table.update(addr as int, Some(reg))),
{
    reveal(rules_kept);
}

/// No write changes who may write a register.
pub proof fn law_rules_stay(s: CsrState, addr: u64, data: u64)
    requires
        s.governed(),
    ensures
        s.written(addr, data).governed(),
{
    reveal(rules_kept);
    let next = s.written(addr, data);
    assert forall|a: u64|
        #![trigger next.table[a as int]]
        a < CSR_SIZE implies same_rules(
        next.table[a as int],
        table_lookup(csr_reg_table(), a),
    ) by {
        assert(same_rules(s.table[a as int], table_lookup(csr_reg_table(), a)));
        lemma_own_registers();
        assert(same_rules(
            s.table[csr_index::fcsr as int],
            table_lookup(csr_reg_table(), csr_index::fcsr),
        ));
        assert(same_rules(
            s.table[csr_index::vcsr as int],
            table_lookup(csr_reg_table(), csr_index::vcsr),
        ));
    }
}

/// The registers that are written through parts of them stand in the table.
proof fn lemma_own_registers()
    ensures
        table_lookup(csr_reg_table(), csr_index::fcsr) is Some,
        table_lookup(csr_reg_table(), csr_index::vcsr) is Some,
{
    let t = csr_reg_table();
    assert(t[0].0 == csr_index::fcsr);
    assert(t[2].0 == csr_index::vcsr);
    lemma_row_found(t, 0);
    lemma_row_found(t, 2);
}

/// No two rows of the table describe one register.
proof fn lemma_rows_distinct(i: int, j: int)
    requires
        0 <= i < j < csr_reg_table().len(),
    ensures
        csr_reg_table()[i].0 != csr_reg_table()[j].0,
{
}

/// The last row with an address is the one that is found.
proof fn lemma_row_decides(rows: Seq<(u64, u64, WriteValidator)>, i: int)
    requires
        0 <= i < rows.len(),
        forall|j: int| i < j < rows.len() ==> (#[trigger] rows[j]).0 != rows[i].0,
    ensures
        table_lookup(rows, rows[i].0) == Some(
            CsrReg {
                value: rows[i].1,
                write_validator: Some(rows[i].2),
                read_validator: shadow_of(rows[i].0),
            },
        ),
    decreases rows.len(),
{
    if i < rows.len() - 1 {
        lemma_row_decides(rows.drop_last(), i);
    }
}

/// Each register of the hart has the rules of its row: they say which bits a write changes.
pub proof fn law_row_governs(s: CsrState, i: int)
    requires
        s.governed(),
        0 <= i < csr_reg_table().len(),
    ensures
        s.has(csr_reg_table()[i].0),
        s.reg(csr_reg_table()[i].0).write_validator == Some(csr_reg_table()[i].2),
        s.reg(csr_reg_table()[i].0).read_validator == shadow_of(csr_reg_table()[i].0),
{
    reveal(rules_kept);
    let t = csr_reg_table();
    assert forall|j: int| i < j < t.len() implies (#[trigger] t[j]).0 != t[i].0 by {
        lemma_rows_distinct(i, j);
    }
    lemma_row_decides(t, i);
    assert(same_rules(s.table[t[i].0 as int], table_lookup(t, t[i].0)));
}

/// A write to a register of the hart that is not a view of another and has no parts with
/// addresses of their own changes the bits that its row names, and no others.
pub proof fn law_write_obeys_row(s: CsrState, i: int, data: u64)
    requires
        s.governed(),
        0 <= i < csr_reg_table().len(),
        shadow_of(csr_reg_table()[i].0) is None,
        csr_reg_table()[i].0 != csr_index::fcsr,
    ensures
        s.written(csr_reg_table()[i].0, data) == s.with_value(
            csr_reg_table()[i].0,
            (CsrWriteOp { mask: csr_reg_table()[i].2.writable() }).written(
                s.value(csr_reg_table()[i].0),
                data,
            ),
        ),
{
    law_row_governs(s, i);
    lemma_no_parts(i);
}

/// A write to a register that is a view of another changes, in that one, the bits that the rows of
/// both name, and no others.
pub proof fn law_view_write_obeys_rows(s: CsrState, i: int, j: int, data: u64)
    requires
        s.governed(),
        0 <= i < csr_reg_table().len(),
        0 <= j < csr_reg_table().len(),
        shadow_of(csr_reg_table()[i].0) is Some,
        (shadow_of(csr_reg_table()[i].0)->0).target_index == csr_reg_table()[j].0,
    ensures
        s.written(csr_reg_table()[i].0, data) == s.with_value(
            csr_reg_table()[j].0,
            (CsrWriteOp {
                mask: csr_reg_table()[j].2.writable() & csr_reg_table()[i].2.writable(),
            }).written(s.value(csr_reg_table()[j].0), data),
        ),
{
    law_row_governs(s, i);
    law_row_governs(s, j);
    lemma_no_parts(i);
}

/// The parts of registers that have addresses of their own have no rows.
proof fn lemma_no_parts(i: int)
    requires
        0 <= i < csr_reg_table().len(),
    ensures
        csr_reg_table()[i].0 != csr_index::fflags,
        csr_reg_table()[i].0 != csr_index::frm,
        csr_reg_table()[i].0 != csr_index::vxsat,
        csr_reg_table()[i].0 != csr_index::vxrm,
        csr_reg_table()[i].0 < CSR_SIZE,
{
}

} // verus!
