//! Registers and operands of the host.
use vstd::prelude::*;

pub mod assembler;
pub mod code;

pub use assembler::X86Assembler;

verus! {

/// A register, by its number.
#[derive(Debug, Clone, Copy, PartialEq, Eq, Structural)]
pub enum X86Reg {
    RAX,
    RCX,
    RDX,
    RBX,
    RSP,
    RBP,
    RSI,
    RDI,
    R8,
    R9,
    R10,
    R11,
    R12,
    R13,
    R14,
    R15,
}

impl X86Reg {
    /// The number of the register.
    pub open spec fn spec_code(self) -> u8 {
        match self {
            X86Reg::RAX => 0,
            X86Reg::RCX => 1,
            X86Reg::RDX => 2,
            X86Reg::RBX => 3,
            X86Reg::RSP => 4,
            X86Reg::RBP => 5,
            X86Reg::RSI => 6,
            X86Reg::RDI => 7,
            X86Reg::R8 => 8,
            X86Reg::R9 => 9,
            X86Reg::R10 => 10,
            X86Reg::R11 => 11,
            X86Reg::R12 => 12,
            X86Reg::R13 => 13,
            X86Reg::R14 => 14,
            X86Reg::R15 => 15,
        }
    }

    /// Whether a called function may change the register.
    pub open spec fn spec_caller_save(self) -> bool {
        match self {
            X86Reg::RAX
            | X86Reg::RCX
            | X86Reg::RDX
            | X86Reg::RSI
            | X86Reg::RDI
            | X86Reg::R8
            | X86Reg::R9
            | X86Reg::R10
            | X86Reg::R11 => true,
            _ => false,
        }
    }

    /// The number of the register.
    pub fn code(self) -> (r: u8)
        ensures
            r == self.spec_code(),
            r < 16,
    {
        match self {
            X86Reg::RAX => 0,
            X86Reg::RCX => 1,
            X86Reg::RDX => 2,
            X86Reg::RBX => 3,
            X86Reg::RSP => 4,
            X86Reg::RBP => 5,
            X86Reg::RSI => 6,
            X86Reg::RDI => 7,
            X86Reg::R8 => 8,
            X86Reg::R9 => 9,
            X86Reg::R10 => 10,
            X86Reg::R11 => 11,
            X86Reg::R12 => 12,
            X86Reg::R13 => 13,
            X86Reg::R14 => 14,
            X86Reg::R15 => 15,
        }
    }

    /// The low three bits of the number.
    pub fn base(self) -> (r: u8)
        ensures
            r == self.spec_code() % 8,
    {
        self.code() % 8
    }

    /// The high bit of the number, which goes to the prefix.
    pub fn rex_bit(self) -> (r: u8)
        ensures
            r == self.spec_code() / 8,
            r <= 1,
    {
        self.code() / 8
    }

    /// Whether a called function may change the register.
    pub fn caller_save(self) -> (r: bool)
        ensures
            r == self.spec_caller_save(),
    {
        match self {
            X86Reg::RAX
            | X86Reg::RCX
            | X86Reg::RDX
            | X86Reg::RSI
            | X86Reg::RDI
            | X86Reg::R8
            | X86Reg::R9
            | X86Reg::R10
            | X86Reg::R11 => true,
            _ => false,
        }
    }

    /// Whether a called function keeps the register.
    pub fn callee_save(self) -> (r: bool)
        ensures
            r == !self.spec_caller_save(),
    {
        !self.caller_save()
    }
}

/// The number names the register.
pub proof fn law_register_numbers(a: X86Reg, b: X86Reg)
    ensures
        a.spec_code() < 16,
        a.spec_code() == b.spec_code() ==> a == b,
{
}

/// An argument of a call.
#[derive(Debug, Clone, Copy, PartialEq, Eq, Structural)]
pub enum CallArg {
    Reg(X86Reg),
    Imm(u64),
}

impl From<X86Reg> for CallArg {
    fn from(reg: X86Reg) -> (res: CallArg) {
        CallArg::Reg(reg)
    }
}

impl vstd::std_specs::convert::FromSpecImpl<X86Reg> for CallArg {
    open spec fn obeys_from_spec() -> bool {
        true
    }

    open spec fn from_spec(reg: X86Reg) -> CallArg {
        CallArg::Reg(reg)
    }
}

impl From<u64> for CallArg {
    fn from(value: u64) -> (res: CallArg) {
        CallArg::Imm(value)
    }
}

impl vstd::std_specs::convert::FromSpecImpl<u64> for CallArg {
    open spec fn obeys_from_spec() -> bool {
        true
    }

    open spec fn from_spec(value: u64) -> CallArg {
        CallArg::Imm(value)
    }
}

/// The width of an operation.
#[derive(Debug, Clone, Copy, PartialEq, Eq, Structural)]
pub enum OperandSize {
    Dword,
    Qword,
}

impl OperandSize {
    /// The bit of the prefix that asks for 64 bits.
    pub open spec fn spec_rex_w(self) -> u8 {
        match self {
            OperandSize::Dword => 0,
            OperandSize::Qword => 1,
        }
    }

    /// The bit of the prefix that asks for 64 bits.
    pub fn rex_w(self) -> (r: u8)
        ensures
            r == self.spec_rex_w(),
            r <= 1,
    {
        match self {
            OperandSize::Dword => 0,
            OperandSize::Qword => 1,
        }
    }
}

/// An arithmetic or logical operation.
#[derive(Debug, Clone, Copy, PartialEq, Eq, Structural)]
pub enum AluOp {
    Add,
    Or,
    /// Addition with carry.
    Adc,
    /// Subtraction with borrow.
    Sbb,
    And,
    Sub,
    Xor,
    Cmp,
}

impl AluOp {
    pub open spec fn spec_code(self) -> u8 {
        match self {
            AluOp::Add => 0,
            AluOp::Or => 1,
            AluOp::Adc => 2,
            AluOp::Sbb => 3,
            AluOp::And => 4,
            AluOp::Sub => 5,
            AluOp::Xor => 6,
            AluOp::Cmp => 7,
        }
    }

    pub fn code(self) -> (r: u8)
        ensures
            r == self.spec_code(),
            r < 8,
    {
        match self {
            AluOp::Add => 0,
            AluOp::Or => 1,
            AluOp::Adc => 2,
            AluOp::Sbb => 3,
            AluOp::And => 4,
            AluOp::Sub => 5,
            AluOp::Xor => 6,
            AluOp::Cmp => 7,
        }
    }
}

/// A condition on the flags.
#[derive(Debug, Clone, Copy, PartialEq, Eq, Structural)]
pub enum ConditionCode {
    Below,
    AboveOrEqual,
    Equal,
    NotEqual,
    Less,
    GreaterOrEqual,
}

impl ConditionCode {
    pub open spec fn spec_code(self) -> u8 {
        match self {
            ConditionCode::Below => 0x2,
            ConditionCode::AboveOrEqual => 0x3,
            ConditionCode::Equal => 0x4,
            ConditionCode::NotEqual => 0x5,
            ConditionCode::Less => 0xc,
            ConditionCode::GreaterOrEqual => 0xd,
        }
    }

    pub fn code(self) -> (r: u8)
        ensures
            r == self.spec_code(),
            r < 16,
    {
        match self {
            ConditionCode::Below => 0x2,
            ConditionCode::AboveOrEqual => 0x3,
            ConditionCode::Equal => 0x4,
            ConditionCode::NotEqual => 0x5,
            ConditionCode::Less => 0xc,
            ConditionCode::GreaterOrEqual => 0xd,
        }
    }
}

/// A shift.
#[derive(Debug, Clone, Copy, PartialEq, Eq, Structural)]
pub enum ShiftOp {
    SAR,
    SHL,
    SHR,
}

impl ShiftOp {
    pub open spec fn spec_code(self) -> u8 {
        match self {
            ShiftOp::SHL => 4,
            ShiftOp::SAR => 7,
            ShiftOp::SHR => 5,
        }
    }

    /// The extension of the opcode.
    pub fn op3(self) -> (r: u8)
        ensures
            r == self.spec_code(),
            r < 8,
    {
        match self {
            ShiftOp::SHL => 4,
            ShiftOp::SAR => 7,
            ShiftOp::SHR => 5,
        }
    }
}

/// A register, or memory at a register with or without a displacement.
#[derive(Debug, Clone, Copy, PartialEq, Eq, Structural)]
pub enum RegMem {
    Reg(X86Reg),
    Mem(X86Reg),
    MemDisp8(X86Reg, i8),
    MemDisp32(X86Reg, i32),
}

impl From<X86Reg> for RegMem {
    fn from(r: X86Reg) -> (res: RegMem) {
        RegMem::Reg(r)
    }
}

impl vstd::std_specs::convert::FromSpecImpl<X86Reg> for RegMem {
    open spec fn obeys_from_spec() -> bool {
        true
    }

    open spec fn from_spec(r: X86Reg) -> RegMem {
        RegMem::Reg(r)
    }
}

/// The four bytes of a number, the lowest first.
pub open spec fn le32(v: int) -> Seq<u8> {
    seq![
        (v % 0x100) as u8,
        (v / 0x100 % 0x100) as u8,
        (v / 0x1_0000 % 0x100) as u8,
        (v / 0x100_0000 % 0x100) as u8,
    ]
}

/// The eight bytes of a number, the lowest first.
pub open spec fn le64(v: int) -> Seq<u8> {
    le32(v % 0x1_0000_0000) + le32(v / 0x1_0000_0000)
}

impl RegMem {
    /// The shortest operand for memory at a register and a displacement.
    pub open spec fn of_disp(reg: X86Reg, disp: i32) -> RegMem {
        if disp == 0 && reg != X86Reg::RBP && reg != X86Reg::R13 {
            RegMem::Mem(reg)
        } else if -128 <= disp <= 127 {
            RegMem::MemDisp8(reg, disp as i8)
        } else {
            RegMem::MemDisp32(reg, disp)
        }
    }

    /// The shortest operand for memory at a register and a displacement.
    pub fn from_disp(reg: X86Reg, disp: i32) -> (r: RegMem)
        ensures
            r == RegMem::of_disp(reg, disp),
    {
        if disp == 0 && reg != X86Reg::RBP && reg != X86Reg::R13 {
            RegMem::Mem(reg)
        } else if -128 <= disp && disp <= 127 {
            RegMem::MemDisp8(reg, disp as i8)
        } else {
            RegMem::MemDisp32(reg, disp)
        }
    }

    /// The register of the operand.
    pub open spec fn base_reg(self) -> X86Reg {
        match self {
            RegMem::Reg(r) => r,
            RegMem::Mem(r) => r,
            RegMem::MemDisp8(r, _) => r,
            RegMem::MemDisp32(r, _) => r,
        }
    }

    /// Whether one byte describes the operand. Memory at some registers needs a second one, and
    /// memory at others without a displacement means something else.
    pub open spec fn encodable(self) -> bool {
        match self {
            RegMem::Reg(_) => true,
            RegMem::Mem(r) => r != X86Reg::RBP && r != X86Reg::R13 && r != X86Reg::RSP && r
                != X86Reg::R12,
            RegMem::MemDisp8(r, _) => r != X86Reg::RSP && r != X86Reg::R12,
            RegMem::MemDisp32(r, _) => r != X86Reg::RSP && r != X86Reg::R12,
        }
    }

    /// The addressing mode.
    pub open spec fn spec_mode(self) -> u8 {
        match self {
            RegMem::Reg(_) => 3,
            RegMem::Mem(_) => 0,
            RegMem::MemDisp8(_, _) => 1,
            RegMem::MemDisp32(_, _) => 2,
        }
    }

    /// The bytes of the displacement.
    pub open spec fn displacement(self) -> Seq<u8> {
        match self {
            RegMem::Reg(_) => Seq::empty(),
            RegMem::Mem(_) => Seq::empty(),
            RegMem::MemDisp8(_, d) => seq![(d as int % 0x100) as u8],
            RegMem::MemDisp32(_, d) => le32(d as int % 0x1_0000_0000),
        }
    }

    /// The addressing mode.
    pub fn mode(&self) -> (r: u8)
        ensures
            r == self.spec_mode(),
            r < 4,
    {
        match *self {
            RegMem::Reg(_) => 3,
            RegMem::Mem(_) => 0,
            RegMem::MemDisp8(_, _) => 1,
            RegMem::MemDisp32(_, _) => 2,
        }
    }

    /// The register of the operand.
    pub fn reg(&self) -> (r: X86Reg)
        ensures
            r == self.base_reg(),
    {
        match *self {
            RegMem::Reg(r) => r,
            RegMem::Mem(r) => r,
            RegMem::MemDisp8(r, _) => r,
            RegMem::MemDisp32(r, _) => r,
        }
    }
}

/// An operand with a displacement means what was asked for: memory at a register, and a
/// displacement of the same value.
pub proof fn law_disp_is_kept(reg: X86Reg, disp: i32)
    ensures
        RegMem::of_disp(reg, disp).base_reg() == reg,
        match RegMem::of_disp(reg, disp) {
            RegMem::Reg(_) => false,
            RegMem::Mem(_) => disp == 0,
            RegMem::MemDisp8(_, d) => d == disp,
            RegMem::MemDisp32(_, d) => d == disp,
        },
        reg != X86Reg::RSP && reg != X86Reg::R12 ==> RegMem::of_disp(reg, disp).encodable(),
{
}

} // verus!
