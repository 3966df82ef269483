//! The table entries for host registers, and where they are kept.
use vstd::prelude::*;

use crate::jit::backend::x86::code::HostInstr;
use crate::jit::backend::x86::{OperandSize, RegMem, X86Assembler, X86Reg};

verus! {

/// The host register that points to the guest registers.
pub const CPU_REG: X86Reg = X86Reg::RBP;

/// The memory of a guest register.
pub open spec fn guest_memory(guest: u8) -> RegMem {
    RegMem::of_disp(CPU_REG, (guest * 8) as i32)
}

/// The memory of a guest register.
pub fn reg_on_mem(guest: u8) -> (r: RegMem)
    ensures
        r == guest_memory(guest),
        r.encodable(),
{
    RegMem::from_disp(CPU_REG, guest as i32 * 8)
}

/// What a host register is used for.
#[derive(Debug, Clone, Copy, PartialEq, Eq, Structural)]
pub struct HostRegState {
    pub host: X86Reg,
    /// The guest register whose value it holds.
    pub guest: Option<u8>,
    /// Whether the value is newer than the one in memory.
    pub dirty: bool,
    /// How often it is in use. It can hold another guest register only when it is not.
    pub refcount: u8,
}

impl HostRegState {
    /// A host register that is used for nothing.
    pub open spec fn unused(host: X86Reg) -> HostRegState {
        HostRegState { host, guest: None, dirty: false, refcount: 0 }
    }

    /// The code that brings memory up to date.
    pub open spec fn write_back(self) -> Seq<HostInstr> {
        if self.dirty {
            seq![
                HostInstr::MovStore {
                    size: OperandSize::Qword,
                    dst: guest_memory(self.guest->0),
                    src: self.host,
                },
            ]
        } else {
            Seq::empty()
        }
    }

    pub fn new(host: X86Reg) -> (r: HostRegState)
        ensures
            r == HostRegState::unused(host),
    {
        HostRegState { host, guest: None, dirty: false, refcount: 0 }
    }

    /// Brings memory up to date.
    pub fn spill(&self, out: &mut X86Assembler)
        requires
            old(out).wf(),
            self.dirty ==> self.guest is Some,
        ensures
            final(out).wf(),
            final(out)@ == old(out)@ + self.write_back(),
    {
        if self.dirty {
            if let Some(guest) = self.guest {
                out.mov_rm64_r64(reg_on_mem(guest), self.host);
            }
        }
        assert(out@ =~= old(out)@ + self.write_back());
    }
}

/// A short vector of table entries.
#[verifier::external_body]
pub struct StateVec {
    entries: smallvec::SmallVec<[HostRegState; 16]>,
}

/// The entries of a vector, in order.
pub uninterp spec fn entries(v: StateVec) -> Seq<HostRegState>;

impl StateVec {
    /// `smallvec::SmallVec::new`: the vector has no entry.
    #[verifier::external_body]
    pub(crate) fn new() -> (r: StateVec)
        ensures
            entries(r) == Seq::<HostRegState>::empty(),
    {
        StateVec { entries: smallvec::SmallVec::new() }
    }

    /// `smallvec::SmallVec::push`: the entry comes behind the others. Up to the inline capacity
    /// of the vector nothing is allocated, so that the call cannot fail.
    #[verifier::external_body]
    pub(crate) fn push(&mut self, entry: HostRegState)
        requires
            entries(*old(self)).len() < 16,
        ensures
            entries(*final(self)) == entries(*old(self)).push(entry),
    {
        self.entries.push(entry);
    }

    /// Indexing of `smallvec::SmallVec`: the entry at a position.
    #[verifier::external_body]
    pub(crate) fn at(&self, i: usize) -> (r: HostRegState)
        requires
            i < entries(*self).len(),
        ensures
            r == entries(*self)[i as int],
    {
        self.entries[i]
    }

    /// Mutable indexing of `smallvec::SmallVec`: the entry at a position is replaced, and the
    /// others stay.
    #[verifier::external_body]
    pub(crate) fn put(&mut self, i: usize, entry: HostRegState)
        requires
            i < entries(*old(self)).len(),
        ensures
            entries(*final(self)) == entries(*old(self)).update(i as int, entry),
    {
        self.entries[i] = entry;
    }
}

} // verus!
