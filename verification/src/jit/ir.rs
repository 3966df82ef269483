//! Straight-line code between guest and host, over registers that are written once.
use vstd::prelude::*;

pub mod ir_builder;

pub use ir_builder::IRBuilder;

verus! {

/// The number of an instruction, or of a register that an instruction defines.
pub type InstId = u32;

/// A numbered register.
pub trait IRReg: Sized {
    type IndexType;

    /// The number of the register.
    spec fn number(self) -> nat;

    /// The number of the register.
    fn index(self) -> (r: usize)
        ensures
            r == self.number(),
    ;
}

/// A register of the guest.
#[derive(Debug, Clone, Copy, PartialEq, Eq, Structural)]
pub struct GuestReg {
    pub idx: u8,
}

/// A register of the intermediate code. Exactly one instruction defines it.
#[derive(Debug, Clone, Copy, PartialEq, Eq, Structural)]
pub struct VReg {
    pub idx: InstId,
}

/// A register of the host.
#[derive(Debug, Clone, Copy, PartialEq, Eq, Structural)]
pub struct HostReg {
    pub idx: u8,
}

impl IRReg for GuestReg {
    type IndexType = u8;

    open spec fn number(self) -> nat {
        self.idx as nat
    }

    fn index(self) -> (r: usize) {
        self.idx as usize
    }
}

impl IRReg for VReg {
    type IndexType = InstId;

    open spec fn number(self) -> nat {
        self.idx as nat
    }

    fn index(self) -> (r: usize) {
        let r: usize = self.idx as usize;
        assert(r as nat == self.number());
        r
    }
}

impl IRReg for HostReg {
    type IndexType = u8;

    open spec fn number(self) -> nat {
        self.idx as nat
    }

    fn index(self) -> (r: usize) {
        self.idx as usize
    }
}

/// An operand that is known, or will be known when the code runs.
#[derive(Debug, Clone, Copy, PartialEq, Eq, Structural)]
pub enum Value {
    VReg(VReg),
    Imm(u64),
}

impl From<VReg> for Value {
    fn from(value: VReg) -> (r: Value) {
        Value::VReg(value)
    }
}

impl vstd::std_specs::convert::FromSpecImpl<VReg> for Value {
    open spec fn obeys_from_spec() -> bool {
        true
    }

    open spec fn from_spec(value: VReg) -> Value {
        Value::VReg(value)
    }
}

impl From<u64> for Value {
    fn from(value: u64) -> (r: Value) {
        Value::Imm(value)
    }
}

impl vstd::std_specs::convert::FromSpecImpl<u64> for Value {
    open spec fn obeys_from_spec() -> bool {
        true
    }

    open spec fn from_spec(value: u64) -> Value {
        Value::Imm(value)
    }
}

/// An operation on two words.
#[derive(Debug, Clone, Copy, PartialEq, Eq, Structural)]
pub enum ALUKind {
    Add,
    Sub,
    And,
    Or,
    Xor,
}

impl ALUKind {
    /// The result of the operation.
    pub open spec fn result(self, lhs: u64, rhs: u64) -> u64 {
        match self {
            ALUKind::Add => ((lhs + rhs) % 0x1_0000_0000_0000_0000) as u64,
            ALUKind::Sub => ((lhs - rhs) % 0x1_0000_0000_0000_0000) as u64,
            ALUKind::And => lhs & rhs,
            ALUKind::Or => lhs | rhs,
            ALUKind::Xor => lhs ^ rhs,
        }
    }

    /// The operand that changes no other operand.
    pub open spec fn neutral(self) -> u64 {
        match self {
            ALUKind::And => u64::MAX,
            _ => 0,
        }
    }

    /// The result of the operation.
    pub fn compute(self, lhs: u64, rhs: u64) -> (r: u64)
        ensures
            r == self.result(lhs, rhs),
    {
        match self {
            ALUKind::Add => lhs.wrapping_add(rhs),
            ALUKind::Sub => lhs.wrapping_sub(rhs),
            ALUKind::And => lhs & rhs,
            ALUKind::Or => lhs | rhs,
            ALUKind::Xor => lhs ^ rhs,
        }
    }

    /// Whether the operands can change places.
    pub fn commutative(self) -> (r: bool)
        ensures
            r == (self != ALUKind::Sub),
    {
        match self {
            ALUKind::Sub => false,
            _ => true,
        }
    }

    /// The first operand that changes no second one.
    pub fn left_identity(self) -> (r: Option<u64>)
        ensures
            r == if self == ALUKind::Sub {
                None
            } else {
                Some(self.neutral())
            },
    {
        match self {
            ALUKind::Add | ALUKind::Or | ALUKind::Xor => Some(0),
            ALUKind::And => Some(u64::MAX),
            ALUKind::Sub => None,
        }
    }

    /// The second operand that changes no first one.
    pub fn right_identity(self) -> (r: Option<u64>)
        ensures
            r == Some(self.neutral()),
    {
        match self {
            ALUKind::Add | ALUKind::Sub | ALUKind::Or | ALUKind::Xor => Some(0),
            ALUKind::And => Some(u64::MAX),
        }
    }
}

/// An operation gives back the operand beside its neutral one, and all but subtraction give the
/// same result whichever operand comes first.
pub proof fn law_alu_identities(kind: ALUKind, a: u64, b: u64)
    ensures
        kind.result(a, kind.neutral()) == a,
        kind != ALUKind::Sub ==> kind.result(kind.neutral(), a) == a,
        kind != ALUKind::Sub ==> kind.result(a, b) == kind.result(b, a),
{
    assert(a & 0xffff_ffff_ffff_ffff == a && a | 0 == a && a ^ 0 == a && a & b == b & a && a | b == b
        | a && a ^ b == b ^ a) by (bit_vector);
    assert(0xffff_ffff_ffff_ffff & a == a && 0 | a == a && 0 ^ a == a) by (bit_vector);
}

/// An instruction of the intermediate code.
#[derive(Debug)]
#[allow(inconsistent_fields)]
pub enum IRInst {
    Const { dst: VReg, src: u64 },
    GetReg { dst: VReg, src: GuestReg },
    SetReg { dst: GuestReg, src: VReg },
    Compute { kind: ALUKind, dst: VReg, src1: VReg, src2: VReg },
    ComputeImm { kind: ALUKind, dst: VReg, src1: VReg, src2: u64 },
    Call { can_trap: bool, func_ptr: usize, args: Vec<VReg>, ret: Option<VReg> },
    DirectJmp { target_pc: u64 },
    DynamicJmp { target_pc: VReg },
    Branch { cond_bool: VReg, then_pc: u64, else_pc: u64 },
}

/// Whether no two instructions define the same register.
pub open spec fn defined_once(insts: Seq<IRInst>) -> bool {
    forall|i: int, j: int|
        0 <= i < j < insts.len() && (#[trigger] insts[i]).defined() is Some ==> insts[i].defined()
            != (#[trigger] insts[j]).defined()
}

/// Whether every register that the instructions define or use is below a number.
pub open spec fn registers_below(insts: Seq<IRInst>, count: InstId) -> bool {
    forall|i: int|
        0 <= i < insts.len() ==> {
            &&& (#[trigger] insts[i]).defined() is Some ==> (insts[i].defined()->0).idx < count
            &&& forall|k: int|
                0 <= k < insts[i].uses().len() ==> (#[trigger] insts[i].uses()[k]).idx < count
        }
}

impl IRInst {
    /// Whether a block can end here.
    pub open spec fn ends_block(self) -> bool {
        match self {
            IRInst::DirectJmp { .. } | IRInst::DynamicJmp { .. } | IRInst::Branch { .. } => true,
            IRInst::Call { can_trap, .. } => can_trap,
            _ => false,
        }
    }

    /// Whether the instruction is a call.
    pub open spec fn is_call(self) -> bool {
        self is Call
    }

    /// The register that the instruction defines.
    pub open spec fn defined(self) -> Option<VReg> {
        match self {
            IRInst::GetReg { dst, .. } => Some(dst),
            IRInst::Compute { dst, .. } => Some(dst),
            IRInst::ComputeImm { dst, .. } => Some(dst),
            IRInst::Const { dst, .. } => Some(dst),
            IRInst::Call { ret, .. } => ret,
            _ => None,
        }
    }

    /// The registers that the instruction uses, in order.
    pub open spec fn uses(self) -> Seq<VReg> {
        match self {
            IRInst::SetReg { src, .. } => seq![src],
            IRInst::Compute { src1, src2, .. } => seq![src1, src2],
            IRInst::ComputeImm { src1, .. } => seq![src1],
            IRInst::Call { args, .. } => args@,
            IRInst::DynamicJmp { target_pc } => seq![target_pc],
            IRInst::Branch { cond_bool, .. } => seq![cond_bool],
            _ => Seq::empty(),
        }
    }

    /// Whether a block can end here.
    pub fn is_terminator(&self) -> (r: bool)
        ensures
            r == self.ends_block(),
    {
        match self {
            IRInst::DirectJmp { .. } | IRInst::DynamicJmp { .. } | IRInst::Branch { .. } => true,
            IRInst::Call { can_trap, .. } => *can_trap,
            _ => false,
        }
    }

    /// The register that the instruction defines.
    pub fn def(&self) -> (r: Option<VReg>)
        ensures
            r == self.defined(),
    {
        match self {
            IRInst::GetReg { dst, .. }
            | IRInst::Compute { dst, .. }
            | IRInst::ComputeImm { dst, .. }
            | IRInst::Const { dst, .. } => Some(*dst),
            IRInst::Call { ret, .. } => *ret,
            _ => None,
        }
    }

    /// Appends the registers that the instruction uses, in order.
    pub fn for_each_use(&self, out: &mut Vec<VReg>)
        ensures
            final(out)@ == old(out)@ + self.uses(),
    {
        match self {
            IRInst::SetReg { src, .. } => out.push(*src),
            IRInst::Compute { src1, src2, .. } => {
                out.push(*src1);
                out.push(*src2);
            },
            IRInst::ComputeImm { src1, .. } => out.push(*src1),
            IRInst::Call { args, .. } => {
                let mut i: usize = 0;
                while i < args.len()
                    invariant
                        i <= args.len(),
                        out@ =~= old(out)@ + args@.take(i as int),
                    decreases args.len() - i,
                {
                    assert(args@.take(i + 1) =~= args@.take(i as int).push(args@[i as int]));
                    out.push(args[i]);
                    i = i + 1;
                }
                assert(args@.take(args@.len() as int) =~= args@);
            },
            IRInst::DynamicJmp { target_pc } => out.push(*target_pc),
            IRInst::Branch { cond_bool, .. } => out.push(*cond_bool),
            _ => {},
        }
        assert(out@ =~= old(out)@ + self.uses());
    }
}

/// A block of intermediate code.
pub struct IRBlock {
    pub vreg_count: InstId,
    pub insts: Vec<IRInst>,
}

impl IRBlock {
    /// Whether the block names only registers that it counts.
    pub open spec fn wf(&self) -> bool {
        &&& forall|i: int, k: int|
            #![trigger self.insts@[i].uses()[k]]
            0 <= i < self.insts@.len() && 0 <= k < self.insts@[i].uses().len()
                ==> self.insts@[i].uses()[k].idx < self.vreg_count
        &&& forall|i: int|
            0 <= i < self.insts@.len() ==> match (#[trigger] self.insts@[i]).defined() {
                Some(v) => v.idx < self.vreg_count,
                None => true,
            }
    }

    /// How many registers the block defines.
    pub fn vreg_count(&self) -> (r: InstId)
        ensures
            r == self.vreg_count,
    {
        self.vreg_count
    }
}

} // verus!
