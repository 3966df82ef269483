//! Assignment of host registers and spill slots to the registers of a block.
use vstd::prelude::*;

use crate::jit::ir::{IRReg, InstId, VReg};

verus! {

/// Which host registers to try first.
#[derive(Debug, Clone, Copy, PartialEq, Eq, Structural)]
pub enum RegHint {
    PreferCallee,
    PreferCaller,
}

/// Where a register is.
#[derive(Debug, Clone, Copy, PartialEq, Eq, Structural)]
pub enum RegLocation {
    Nowhere,
    Reg(u8),
    Spill(u32),
}

/// Whether a mask holds a host register.
pub open spec fn in_mask(mask: u32, reg: int) -> bool {
    (mask >> (reg as u32)) & 1u32 == 1
}

/// The first host register from `from` on that is wanted.
pub open spec fn first_reg(wanted: spec_fn(int) -> bool, from: int) -> Option<u8>
    decreases 32 - from,
{
    if from >= 32 {
        None
    } else if wanted(from) {
        Some(from as u8)
    } else {
        first_reg(wanted, from + 1)
    }
}

/// A move that the assignment asks for.
pub enum RegMove {
    Mov { dst: u8, src: u8 },
    Store { slot: u32, src: u8 },
    Reload { dst: u8, slot: u32 },
}

/// The moves that an assignment asks for, in order.
pub type Moves = Seq<RegMove>;

/// An assignment as plain values.
#[verifier::ext_equal]
pub struct AllocModel {
    /// The register that each host register holds.
    pub hregs: Seq<Option<VReg>>,
    /// Where each register is.
    pub locs: Seq<RegLocation>,
    /// The host registers that may be assigned.
    pub allocatable: u32,
    /// The host registers that may not be assigned anew.
    pub pinned: u32,
    /// The slots that are free again.
    pub free_slots: Seq<u32>,
    /// How many slots there are.
    pub slots: u32,
}

impl AllocModel {
    /// Whether a host register can be assigned now.
    pub open spec fn is_free(self, mask: u32, reg: int) -> bool {
        in_mask(self.allocatable, reg) && self.hregs[reg] is None && !in_mask(self.pinned, reg)
            && in_mask(mask, reg)
    }

    /// Whether a host register can be emptied now.
    pub open spec fn is_spillable(self, reg: int) -> bool {
        self.hregs[reg] is Some && !in_mask(self.pinned, reg)
    }

    /// The first host register of a mask that can be assigned now.
    pub open spec fn free_in(self, mask: u32) -> Option<u8> {
        first_reg(|reg: int| self.is_free(mask, reg), 0)
    }

    /// The first host register that can be assigned now, one of a mask if there is one.
    pub open spec fn free_preferring(self, mask: u32) -> Option<u8> {
        match self.free_in(mask) {
            Some(reg) => Some(reg),
            None => self.free_in(u32::MAX),
        }
    }

    /// The host register that is emptied next.
    pub open spec fn victim(self) -> Option<u8> {
        first_reg(|reg: int| self.is_spillable(reg), 0)
    }

    /// The slot that is used next.
    pub open spec fn next_slot(self) -> u32 {
        if self.free_slots.len() > 0 {
            self.free_slots.last()
        } else {
            self.slots
        }
    }

    /// Whether there is a slot to use.
    pub open spec fn has_slot(self) -> bool {
        self.free_slots.len() > 0 || self.slots < u32::MAX
    }

    /// The assignment after the next slot is taken.
    pub open spec fn slot_taken(self) -> AllocModel {
        if self.free_slots.len() > 0 {
            AllocModel { free_slots: self.free_slots.drop_last(), ..self }
        } else {
            AllocModel { slots: (self.slots + 1) as u32, ..self }
        }
    }

    /// The assignment after a register is given up.
    pub open spec fn unbound(self, vreg: VReg) -> AllocModel {
        let nowhere = self.locs.update(vreg.idx as int, RegLocation::Nowhere);
        match self.locs[vreg.idx as int] {
            RegLocation::Reg(old) => AllocModel {
                hregs: self.hregs.update(old as int, None),
                locs: nowhere,
                ..self
            },
            RegLocation::Spill(slot) => AllocModel {
                free_slots: self.free_slots.push(slot),
                locs: nowhere,
                ..self
            },
            RegLocation::Nowhere => self,
        }
    }

    /// The assignment after a register is put in a host register that is empty.
    pub open spec fn bound(self, vreg: VReg, reg: u8) -> AllocModel {
        let m = self.unbound(vreg);
        AllocModel {
            hregs: m.hregs.update(reg as int, Some(vreg)),
            locs: m.locs.update(vreg.idx as int, RegLocation::Reg(reg)),
            ..m
        }
    }

    /// The assignment after a host register is emptied, and the slot that took what it held.
    pub open spec fn evicted(self, reg: u8) -> (AllocModel, Option<(VReg, u32)>) {
        match self.hregs[reg as int] {
            None => (self, None),
            Some(v) => {
                let m = self.slot_taken();
                (
                    AllocModel {
                        hregs: m.hregs.update(reg as int, None),
                        locs: m.locs.update(v.idx as int, RegLocation::Spill(self.next_slot())),
                        ..m
                    },
                    Some((v, self.next_slot())),
                )
            },
        }
    }

    /// The moves that emptying a host register takes.
    pub open spec fn eviction(self, reg: u8) -> Seq<RegMove> {
        match self.evicted(reg).1 {
            None => Seq::empty(),
            Some((_, slot)) => seq![RegMove::Store { slot, src: reg }],
        }
    }

    /// The assignment after a host register is pinned.
    pub open spec fn with_pinned(self, reg: u8) -> AllocModel {
        AllocModel { pinned: self.pinned | (1u32 << (reg as u32)), ..self }
    }

    /// The assignment after a host register is no longer pinned.
    pub open spec fn with_unpinned(self, reg: u8) -> AllocModel {
        AllocModel { pinned: self.pinned & !(1u32 << (reg as u32)), ..self }
    }

    /// Whether the maps agree with each other and no slot is used twice.
    pub open spec fn valid(self) -> bool {
        &&& self.hregs.len() == 32
        &&& forall|r: int|
            0 <= r < 32 ==> match #[trigger] self.hregs[r] {
                Some(v) => v.idx < self.locs.len() && self.locs[v.idx as int] == RegLocation::Reg(
                    r as u8,
                ),
                None => true,
            }
        &&& forall|v: int|
            0 <= v < self.locs.len() ==> match #[trigger] self.locs[v] {
                RegLocation::Reg(r) => r < 32 && self.hregs[r as int] == Some(
                    VReg { idx: v as u32 },
                ),
                RegLocation::Spill(s) => s < self.slots && !self.free_slots.contains(s),
                RegLocation::Nowhere => true,
            }
        &&& forall|v: int, w: int|
            0 <= v < self.locs.len() && 0 <= w < self.locs.len() && v != w && self.locs[v] is Spill
                ==> #[trigger] self.locs[v] != #[trigger] self.locs[w]
        &&& forall|i: int| 0 <= i < self.free_slots.len() ==> #[trigger] self.free_slots[i] < self.slots
        &&& self.free_slots.no_duplicates()
        &&& self.locs.len() <= 0x1_0000_0000
    }
}

/// Giving up a register keeps the maps in agreement and every slot in one place.
pub proof fn law_unbound_valid(m: AllocModel, vreg: VReg)
    requires
        m.valid(),
        vreg.idx < m.locs.len(),
    ensures
        m.unbound(vreg).valid(),
{
    let n = m.unbound(vreg);
    match m.locs[vreg.idx as int] {
        RegLocation::Reg(old) => {
            assert forall|r: int| 0 <= r < 32 implies match #[trigger] n.hregs[r] {
                Some(v) => v.idx < n.locs.len() && n.locs[v.idx as int] == RegLocation::Reg(
                    r as u8,
                ),
                None => true,
            } by {
                assert(r != old ==> n.hregs[r] == m.hregs[r]);
            }
        },
        RegLocation::Spill(slot) => {
            assert forall|v: int| 0 <= v < n.locs.len() implies match #[trigger] n.locs[v] {
                RegLocation::Reg(r) => r < 32 && n.hregs[r as int] == Some(VReg { idx: v as u32 }),
                RegLocation::Spill(s) => s < n.slots && !n.free_slots.contains(s),
                RegLocation::Nowhere => true,
            } by {
                if v != vreg.idx && m.locs[v] is Spill {
                    let s = m.locs[v]->Spill_0;
                    assert(m.locs[vreg.idx as int] != m.locs[v]);
                    assert forall|i: int| 0 <= i < n.free_slots.len() implies #[trigger] n.free_slots[i]
                        != s by {
                        if i < m.free_slots.len() {
                            assert(m.free_slots.contains(m.free_slots[i]));
                        }
                    }
                }
            }
            assert forall|i: int, j: int|
                0 <= i < n.free_slots.len() && 0 <= j < n.free_slots.len() && i
                    != j implies n.free_slots[i] != n.free_slots[j] by {
                if i < m.free_slots.len() {
                    assert(m.free_slots.contains(m.free_slots[i]));
                }
                if j < m.free_slots.len() {
                    assert(m.free_slots.contains(m.free_slots[j]));
                }
            }
        },
        RegLocation::Nowhere => {},
    }
}

/// Putting a register in an empty host register keeps the maps in agreement and every slot in one
/// place.
pub proof fn law_bound_valid(m: AllocModel, vreg: VReg, reg: u8)
    requires
        m.valid(),
        vreg.idx < m.locs.len(),
        reg < 32,
        m.unbound(vreg).hregs[reg as int] is None,
    ensures
        m.bound(vreg, reg).valid(),
{
    law_unbound_valid(m, vreg);
    let u = m.unbound(vreg);
    let n = m.bound(vreg, reg);
    assert(u.locs[vreg.idx as int] is Nowhere);
    assert forall|r: int| 0 <= r < 32 implies match #[trigger] n.hregs[r] {
        Some(v) => v.idx < n.locs.len() && n.locs[v.idx as int] == RegLocation::Reg(r as u8),
        None => true,
    } by {
        assert(r != reg ==> n.hregs[r] == u.hregs[r]);
    }
    assert forall|v: int| 0 <= v < n.locs.len() implies match #[trigger] n.locs[v] {
        RegLocation::Reg(r) => r < 32 && n.hregs[r as int] == Some(VReg { idx: v as u32 }),
        RegLocation::Spill(s) => s < n.slots && !n.free_slots.contains(s),
        RegLocation::Nowhere => true,
    } by {
        assert(v != vreg.idx ==> n.locs[v] == u.locs[v]);
    }
}

/// Emptying a host register keeps the maps in agreement and every slot in one place.
pub proof fn law_evicted_valid(m: AllocModel, reg: u8)
    requires
        m.valid(),
        reg < 32,
        m.hregs[reg as int] is Some ==> m.has_slot(),
    ensures
        m.evicted(reg).0.valid(),
        m.evicted(reg).0.hregs[reg as int] is None,
{
    let n = m.evicted(reg).0;
    if m.hregs[reg as int] is Some {
        let v0 = m.hregs[reg as int]->0;
        let slot = m.next_slot();
        assert(m.locs[v0.idx as int] == RegLocation::Reg(reg));
        if m.free_slots.len() > 0 {
            assert(m.free_slots.contains(slot));
            assert forall|i: int| 0 <= i < n.free_slots.len() implies #[trigger] n.free_slots[i]
                != slot && m.free_slots.contains(n.free_slots[i]) by {
                assert(n.free_slots[i] == m.free_slots[i]);
            }
        } else {
            assert(n.free_slots =~= m.free_slots);
        }
        assert forall|v: int| 0 <= v < n.locs.len() implies match #[trigger] n.locs[v] {
            RegLocation::Reg(r) => r < 32 && n.hregs[r as int] == Some(VReg { idx: v as u32 }),
            RegLocation::Spill(s) => s < n.slots && !n.free_slots.contains(s),
            RegLocation::Nowhere => true,
        } by {
            if v != v0.idx {
                assert(n.locs[v] == m.locs[v]);
                if let RegLocation::Spill(s) = m.locs[v] {
                    if n.free_slots.contains(s) {
                        let i = choose|i: int|
                            0 <= i < n.free_slots.len() && n.free_slots[i] == s;
                        assert(m.free_slots.contains(n.free_slots[i]));
                    }
                }
            }
        }
        assert forall|v: int, w: int|
            0 <= v < n.locs.len() && 0 <= w < n.locs.len() && v != w
                && n.locs[v] is Spill implies #[trigger] n.locs[v] != #[trigger] n.locs[w] by {
            assert(v != v0.idx ==> n.locs[v] == m.locs[v]);
            assert(w != v0.idx ==> n.locs[w] == m.locs[w]);
        }
        assert forall|r: int| 0 <= r < 32 implies match #[trigger] n.hregs[r] {
            Some(v) => v.idx < n.locs.len() && n.locs[v.idx as int] == RegLocation::Reg(r as u8),
            None => true,
        } by {
            assert(r != reg ==> n.hregs[r] == m.hregs[r]);
        }
    }
}

/// An assignment of host registers and slots.
pub struct RegAllocState {
    pub hreg_to_vreg: Vec<Option<VReg>>,
    pub vreg_to_loc: Vec<RegLocation>,
    pub allocatable_mask: u32,
    pub pinned_mask: u32,
    pub free_spill_slot: Vec<u32>,
    pub slot_count: u32,
}

impl View for RegAllocState {
    type V = AllocModel;

    open spec fn view(&self) -> AllocModel {
        AllocModel {
            hregs: self.hreg_to_vreg@,
            locs: self.vreg_to_loc@,
            allocatable: self.allocatable_mask,
            pinned: self.pinned_mask,
            free_slots: self.free_spill_slot@,
            slots: self.slot_count,
        }
    }
}

fn mask_has(mask: u32, reg: u8) -> (r: bool)
    requires
        reg < 32,
    ensures
        r == in_mask(mask, reg as int),
{
    (mask >> (reg as u32)) & 1u32 == 1
}

impl RegAllocState {
    /// Nothing is anywhere.
    pub fn new(vreg_cnt: InstId, allocatable_mask: u32) -> (r: RegAllocState)
        ensures
            r@ == (AllocModel {
                hregs: Seq::new(32, |i: int| None),
                locs: Seq::new(vreg_cnt as nat, |i: int| RegLocation::Nowhere),
                allocatable: allocatable_mask,
                pinned: 0,
                free_slots: Seq::empty(),
                slots: 0,
            }),
            r@.valid(),
    {
        let mut hreg_to_vreg: Vec<Option<VReg>> = Vec::new();
        let mut i: usize = 0;
        while i < 32
            invariant
                i <= 32,
                hreg_to_vreg@ =~= Seq::new(i as nat, |k: int| None),
            decreases 32 - i,
        {
            hreg_to_vreg.push(None);
            i = i + 1;
        }
        let mut vreg_to_loc: Vec<RegLocation> = Vec::new();
        let mut n: u32 = 0;
        while n < vreg_cnt
            invariant
                n <= vreg_cnt,
                vreg_to_loc@ =~= Seq::new(n as nat, |k: int| RegLocation::Nowhere),
            decreases vreg_cnt - n,
        {
            vreg_to_loc.push(RegLocation::Nowhere);
            n = n + 1;
        }
        RegAllocState {
            hreg_to_vreg,
            vreg_to_loc,
            allocatable_mask,
            pinned_mask: 0,
            free_spill_slot: Vec::new(),
            slot_count: 0,
        }
    }

    /// Gives a register up.
    pub fn unbind(&mut self, vreg: VReg)
        requires
            old(self)@.valid(),
            vreg.idx < old(self)@.locs.len(),
        ensures
            final(self)@ == old(self)@.unbound(vreg),
            final(self)@.valid(),
    {
        proof {
            law_unbound_valid(self@, vreg);
        }
        match self.vreg_to_loc[vreg.index()] {
            RegLocation::Reg(old_reg) => self.hreg_to_vreg.set(old_reg as usize, None),
            RegLocation::Spill(slot) => self.free_spill_slot.push(slot),
            RegLocation::Nowhere => {},
        }
        self.vreg_to_loc.set(vreg.index(), RegLocation::Nowhere);
        assert(self@ =~= old(self)@.unbound(vreg));
    }

    /// Puts a register in a host register that is empty.
    pub fn bind(&mut self, vreg: VReg, reg: u8)
        requires
            old(self)@.valid(),
            vreg.idx < old(self)@.locs.len(),
            reg < 32,
            old(self)@.unbound(vreg).hregs[reg as int] is None,
        ensures
            final(self)@ == old(self)@.bound(vreg, reg),
            final(self)@.valid(),
    {
        proof {
            law_bound_valid(self@, vreg, reg);
        }
        self.unbind(vreg);
        self.hreg_to_vreg.set(reg as usize, Some(vreg));
        self.vreg_to_loc.set(vreg.index(), RegLocation::Reg(reg));
        assert(self@ =~= old(self)@.bound(vreg, reg));
    }

    fn alloc_spill_slot(&mut self) -> (r: u32)
        requires
            old(self)@.has_slot(),
        ensures
            r == old(self)@.next_slot(),
            final(self)@ == old(self)@.slot_taken(),
    {
        match self.free_spill_slot.pop() {
            Some(slot) => slot,
            None => {
                let slot: u32 = self.slot_count;
                self.slot_count = self.slot_count + 1;
                slot
            },
        }
    }

    /// Keeps a host register from being assigned anew.
    pub fn pin(&mut self, reg: u8)
        requires
            reg < 32,
        ensures
            final(self)@ == old(self)@.with_pinned(reg),
    {
        self.pinned_mask = self.pinned_mask | (1u32 << (reg as u32));
    }

    /// Lets a host register be assigned anew.
    pub fn unpin(&mut self, reg: u8)
        requires
            reg < 32,
        ensures
            final(self)@ == old(self)@.with_unpinned(reg),
    {
        self.pinned_mask = self.pinned_mask & !(1u32 << (reg as u32));
    }

    /// Empties a host register that is not pinned. What it held goes to a slot.
    pub fn evict(&mut self, reg: u8) -> (r: Option<(VReg, u32)>)
        requires
            old(self)@.valid(),
            reg < 32,
            !in_mask(old(self)@.pinned, reg as int),
            old(self)@.hregs[reg as int] is Some ==> old(self)@.has_slot(),
        ensures
            final(self)@ == old(self)@.evicted(reg).0,
            r == old(self)@.evicted(reg).1,
            final(self)@.valid(),
    {
        proof {
            law_evicted_valid(self@, reg);
        }
        match self.hreg_to_vreg[reg as usize] {
            None => None,
            Some(occupant) => {
                let slot: u32 = self.alloc_spill_slot();
                self.hreg_to_vreg.set(reg as usize, None);
                self.vreg_to_loc.set(occupant.index(), RegLocation::Spill(slot));
                assert(self@ =~= old(self)@.evicted(reg).0);
                Some((occupant, slot))
            },
        }
    }

    /// A host register of a mask that can be assigned.
    pub fn pick_free_in(&self, mask: u32) -> (r: Option<u8>)
        requires
            self@.valid(),
        ensures
            r == self@.free_in(mask),
    {
        let ghost wanted = |reg: int| self@.is_free(mask, reg);
        let mut reg: u8 = 0;
        while reg < 32
            invariant
                reg <= 32,
                self@.valid(),
                wanted == (|reg: int| self@.is_free(mask, reg)),
                first_reg(wanted, 0) == first_reg(wanted, reg as int),
            decreases 32 - reg,
        {
            let empty = match self.hreg_to_vreg[reg as usize] {
                Some(_) => false,
                None => true,
            };
            if mask_has(self.allocatable_mask, reg) && empty && !mask_has(self.pinned_mask, reg)
                && mask_has(mask, reg) {
                return Some(reg);
            }
            reg = reg + 1;
        }
        None
    }

    /// A host register that can be assigned, one of a mask if there is one.
    pub fn pick_free_prefer(&self, prefer: u32) -> (r: Option<u8>)
        requires
            self@.valid(),
        ensures
            r == self@.free_preferring(prefer),
    {
        match self.pick_free_in(prefer) {
            Some(reg) => Some(reg),
            None => self.pick_free_in(u32::MAX),
        }
    }

    /// A host register that can be emptied. There is one.
    pub fn pick_victim(&self) -> (r: u8)
        requires
            self@.valid(),
            self@.victim() is Some,
        ensures
            r == self@.victim()->0,
            r < 32,
            self@.is_spillable(r as int),
    {
        let ghost wanted = |reg: int| self@.is_spillable(reg);
        let mut reg: u8 = 0;
        while reg < 32
            invariant
                reg <= 32,
                self@.valid(),
                wanted == (|reg: int| self@.is_spillable(reg)),
                first_reg(wanted, 0) is Some,
                first_reg(wanted, 0) == first_reg(wanted, reg as int),
            decreases 32 - reg,
        {
            let occupied = match self.hreg_to_vreg[reg as usize] {
                Some(_) => true,
                None => false,
            };
            if occupied && !mask_has(self.pinned_mask, reg) {
                return reg;
            }
            reg = reg + 1;
        }
        reg
    }
}

/// A register of a host, by its number.
pub trait TargetReg: Copy {
    /// The number of the register.
    spec fn number(self) -> u8;

    /// The registers that a called function may change.
    spec fn caller_saves() -> u32;

    /// The registers that a called function keeps.
    spec fn callee_saves() -> u32;

    /// The register of an argument of a call, if it has one.
    spec fn argument(idx: u8) -> Option<u8>;

    fn to_number(self) -> (r: u8)
        ensures
            r == self.number(),
            r < 32,
    ;

    /// The register of a number. It has to be one of the two masks.
    fn from_number(number: u8) -> (r: Self)
        requires
            number < 32,
            in_mask(Self::caller_saves(), number as int) || in_mask(
                Self::callee_saves(),
                number as int,
            ),
        ensures
            r.number() == number,
    ;

    fn caller_save_mask() -> (r: u32)
        ensures
            r == Self::caller_saves(),
    ;

    fn callee_save_mask() -> (r: u32)
        ensures
            r == Self::callee_saves(),
    ;

    /// The register of an argument of a call, if it has one.
    fn arg_reg(idx: u8) -> (r: Option<u8>)
        ensures
            r == Self::argument(idx),
    ;
}

/// Whether a host has a register of a number that can be assigned.
pub open spec fn target_has<R: TargetReg>(number: int) -> bool {
    in_mask(R::caller_saves(), number) || in_mask(R::callee_saves(), number)
}

/// What holds an assignment and emits the moves that it asks for.
pub trait RegAllocBase: Sized {
    type Reg: TargetReg;

    /// The assignment.
    spec fn held(&self) -> RegAllocState;

    /// The moves so far.
    spec fn moves(&self) -> Moves;

    fn state(&mut self) -> (r: &mut RegAllocState)
        ensures
            *r == old(self).held(),
            final(self).held() == *final(r),
            final(self).moves() == old(self).moves(),
    ;

    fn emit_mov(&mut self, dst: Self::Reg, src: Self::Reg)
        ensures
            final(self).held() == old(self).held(),
            final(self).moves() == old(self).moves().push(
                RegMove::Mov { dst: dst.number(), src: src.number() },
            ),
    ;

    fn emit_spill(&mut self, slot: u32, src: Self::Reg)
        ensures
            final(self).held() == old(self).held(),
            final(self).moves() == old(self).moves().push(
                RegMove::Store { slot, src: src.number() },
            ),
    ;

    fn emit_reload(&mut self, dst: Self::Reg, slot: u32)
        ensures
            final(self).held() == old(self).held(),
            final(self).moves() == old(self).moves().push(
                RegMove::Reload { dst: dst.number(), slot },
            ),
    ;
}

/// A host register that is pinned until it is released.
pub struct RegGuard<R: TargetReg> {
    pub reg: R,
}

impl<R: TargetReg> RegGuard<R> {
    /// The host register.
    pub fn reg(&self) -> (r: R)
        ensures
            r == self.reg,
    {
        self.reg
    }
}

/// The host registers to try first.
pub open spec fn preferred<R: TargetReg>(hint: RegHint) -> u32 {
    match hint {
        RegHint::PreferCallee => R::callee_saves(),
        RegHint::PreferCaller => R::caller_saves(),
    }
}

impl AllocModel {
    /// The host register for a register: where it is, or one that is free, or one that must be
    /// emptied.
    pub open spec fn host_for(self, vreg: VReg, prefer: u32) -> u8 {
        match self.locs[vreg.idx as int] {
            RegLocation::Reg(reg) => reg,
            _ => match self.free_preferring(prefer) {
                Some(reg) => reg,
                None => self.victim()->0,
            },
        }
    }

    /// Whether the host register for a register must be emptied.
    pub open spec fn must_evict(self, vreg: VReg, prefer: u32) -> bool {
        !(self.locs[vreg.idx as int] is Reg) && self.free_preferring(prefer) is None
    }

    /// The assignment after a host register is made ready for a register, and the moves.
    pub open spec fn prepared(self, vreg: VReg, prefer: u32) -> (AllocModel, Seq<RegMove>) {
        let host = self.host_for(vreg, prefer);
        if self.must_evict(vreg, prefer) {
            (self.evicted(host).0, self.eviction(host))
        } else {
            (self, Seq::empty())
        }
    }

    /// The assignment after a register is brought to a host register, and the moves.
    pub open spec fn fixed(self, vreg: VReg, host: u8) -> (AllocModel, Seq<RegMove>) {
        let m = self.evicted(host).0;
        (
            m.bound(vreg, host).with_pinned(host),
            self.eviction(host) + match m.locs[vreg.idx as int] {
                RegLocation::Reg(old) => seq![RegMove::Mov { dst: host, src: old }],
                RegLocation::Spill(slot) => seq![RegMove::Reload { dst: host, slot }],
                RegLocation::Nowhere => Seq::empty(),
            },
        )
    }

    /// Whether a host register can be made ready for a register.
    pub open spec fn can_prepare(self, vreg: VReg, prefer: u32) -> bool {
        &&& self.valid()
        &&& vreg.idx < self.locs.len()
        &&& self.must_evict(vreg, prefer) ==> self.victim() is Some && self.has_slot()
    }

    /// Whether a register can be brought to a host register.
    pub open spec fn can_fix(self, vreg: VReg, host: u8) -> bool {
        &&& self.valid()
        &&& vreg.idx < self.locs.len()
        &&& host < 32
        &&& !in_mask(self.pinned, host as int)
        &&& self.hregs[host as int] is Some ==> self.has_slot()
    }

    /// Whether the host has every register that may be assigned or is.
    pub open spec fn fits<R: TargetReg>(self) -> bool {
        &&& self.valid()
        &&& forall|r: int|
            #![trigger self.hregs[r]]
            0 <= r < 32 && (in_mask(self.allocatable, r) || self.hregs[r] is Some)
                ==> target_has::<R>(r)
    }

    /// The assignment after the host registers of a mask, from `from` on, are emptied one after the
    /// other, and the moves.
    pub open spec fn spilled(self, mask: u32, from: int) -> (AllocModel, Seq<RegMove>)
        decreases 32 - from,
    {
        if from >= 32 {
            (self, Seq::empty())
        } else if in_mask(mask, from) {
            let (m, code) = self.evicted(from as u8).0.spilled(mask, from + 1);
            (m, self.eviction(from as u8) + code)
        } else {
            self.spilled(mask, from + 1)
        }
    }

    /// Whether the host registers of a mask, from `from` on, can be emptied: none is pinned, and
    /// there is a slot for each that holds something.
    pub open spec fn can_spill(self, mask: u32, from: int) -> bool
        decreases 32 - from,
    {
        if from >= 32 {
            true
        } else if in_mask(mask, from) {
            &&& !in_mask(self.pinned, from)
            &&& self.hregs[from] is Some ==> self.has_slot()
            &&& self.evicted(from as u8).0.can_spill(mask, from + 1)
        } else {
            self.can_spill(mask, from + 1)
        }
    }
}

/// After the host registers of a mask are emptied, none of them holds anything, the others hold what
/// they held, and what was in an emptied one is in a slot.
pub proof fn law_spilled(m: AllocModel, mask: u32, from: int)
    requires
        m.valid(),
        0 <= from <= 32,
        m.can_spill(mask, from),
    ensures
        ({
            let n = m.spilled(mask, from).0;
            &&& n.valid()
            &&& n.locs.len() == m.locs.len()
            &&& n.allocatable == m.allocatable
            &&& n.pinned == m.pinned
            &&& forall|r: int|
                0 <= r < 32 ==> #[trigger] n.hregs[r] == if from <= r && in_mask(mask, r) {
                    None
                } else {
                    m.hregs[r]
                }
            &&& forall|r: int|
                from <= r < 32 && in_mask(mask, r) && (#[trigger] m.hregs[r]) is Some
                    ==> n.locs[(m.hregs[r]->0).idx as int] is Spill
            &&& forall|v: int|
                0 <= v < m.locs.len() && !(m.locs[v] is Reg) ==> #[trigger] n.locs[v] == m.locs[v]
        }),
    decreases 32 - from,
{
    if from < 32 {
        if in_mask(mask, from) {
            let e = m.evicted(from as u8).0;
            law_evicted_valid(m, from as u8);
            law_spilled(e, mask, from + 1);
            let n = m.spilled(mask, from).0;
            assert forall|r: int|
                from <= r < 32 && in_mask(mask, r) && (
                #[trigger] m.hregs[r]) is Some implies n.locs[(m.hregs[r]->0).idx as int] is Spill by {
                if r > from {
                    assert(e.hregs[r] == m.hregs[r]);
                } else {
                    assert(e.locs[(m.hregs[r]->0).idx as int] is Spill);
                }
            }
            assert forall|v: int|
                0 <= v < m.locs.len() && !(m.locs[v] is Reg) implies #[trigger] n.locs[v]
                == m.locs[v] by {
                assert(e.locs[v] == m.locs[v]);
            }
        } else {
            law_spilled(m, mask, from + 1);
        }
    }
}

proof fn lemma_first_reg(wanted: spec_fn(int) -> bool, from: int)
    requires
        0 <= from <= 32,
    ensures
        match first_reg(wanted, from) {
            Some(r) => from <= r < 32 && wanted(r as int),
            None => true,
        },
    decreases 32 - from,
{
    if from < 32 {
        lemma_first_reg(wanted, from + 1);
    }
}

/// The operations on an assignment.
pub trait RegAllocOps: RegAllocBase {
    /// Empties a host register.
    fn evict_host(&mut self, target: Self::Reg)
        requires
            old(self).held()@.valid(),
            target.number() < 32,
            !in_mask(old(self).held()@.pinned, target.number() as int),
            old(self).held()@.hregs[target.number() as int] is Some
                ==> old(self).held()@.has_slot(),
        ensures
            final(self).held()@ == old(self).held()@.evicted(target.number()).0,
            final(self).held()@.valid(),
            final(self).moves() == old(self).moves() + old(self).held()@.eviction(target.number()),
    {
        let evicted = self.state().evict(target.to_number());
        if let Some((_, slot)) = evicted {
            self.emit_spill(slot, target);
        }
        assert(self.moves() =~= old(self).moves() + old(self).held()@.eviction(target.number()));
    }

    /// Makes a host register ready for a register.
    fn prepare_host_reg(&mut self, vreg: VReg, hint: RegHint) -> (r: Self::Reg)
        requires
            old(self).held()@.fits::<Self::Reg>(),
            old(self).held()@.can_prepare(vreg, preferred::<Self::Reg>(hint)),
        ensures
            r.number() == old(self).held()@.host_for(vreg, preferred::<Self::Reg>(hint)),
            r.number() < 32,
            final(self).held()@ == old(self).held()@.prepared(
                vreg,
                preferred::<Self::Reg>(hint),
            ).0,
            final(self).held()@.fits::<Self::Reg>(),
            target_has::<Self::Reg>(r.number() as int),
            final(self).moves() == old(self).moves() + old(self).held()@.prepared(
                vreg,
                preferred::<Self::Reg>(hint),
            ).1,
    {
        let ghost before = self.held()@;
        let state = self.state();
        let loc = state.vreg_to_loc[vreg.index()];
        if let RegLocation::Reg(reg) = loc {
            assert(before.locs[vreg.idx as int] == RegLocation::Reg(reg));
            assert(before.hregs[reg as int] is Some);
            assert(self.moves() =~= old(self).moves() + Seq::<RegMove>::empty());
            return Self::Reg::from_number(reg);
        }
        let prefer: u32 = match hint {
            RegHint::PreferCallee => Self::Reg::callee_save_mask(),
            RegHint::PreferCaller => Self::Reg::caller_save_mask(),
        };
        proof {
            lemma_first_reg(|reg: int| before.is_free(prefer, reg), 0);
            lemma_first_reg(|reg: int| before.is_free(u32::MAX, reg), 0);
        }
        let picked = self.state().pick_free_prefer(prefer);
        match picked {
            Some(reg) => {
                assert(before.hregs[reg as int] is None && in_mask(before.allocatable, reg as int));
                assert(self.moves() =~= old(self).moves() + Seq::<RegMove>::empty());
                Self::Reg::from_number(reg)
            },
            None => {
                let number: u8 = self.state().pick_victim();
                assert(before.hregs[number as int] is Some);
                let victim = Self::Reg::from_number(number);
                self.evict_host(victim);
                proof {
                    let m = self.held()@;
                    assert forall|r: int|
                        #![trigger m.hregs[r]]
                        0 <= r < 32 && (in_mask(m.allocatable, r)
                            || m.hregs[r] is Some) implies target_has::<Self::Reg>(r) by {
                        assert(r != number ==> m.hregs[r] == before.hregs[r]);
                    }
                }
                victim
            },
        }
    }

    /// Pins the host register in which a register will be defined.
    fn def_vreg(&mut self, vreg: VReg, hint: RegHint) -> (r: RegGuard<Self::Reg>)
        requires
            old(self).held()@.fits::<Self::Reg>(),
            old(self).held()@.can_prepare(vreg, preferred::<Self::Reg>(hint)),
        ensures
            r.reg.number() == old(self).held()@.host_for(vreg, preferred::<Self::Reg>(hint)),
            final(self).held()@ == old(self).held()@.prepared(
                vreg,
                preferred::<Self::Reg>(hint),
            ).0.with_pinned(r.reg.number()),
            final(self).held()@.fits::<Self::Reg>(),
            final(self).moves() == old(self).moves() + old(self).held()@.prepared(
                vreg,
                preferred::<Self::Reg>(hint),
            ).1,
    {
        let reg = self.prepare_host_reg(vreg, hint);
        self.state().pin(reg.to_number());
        RegGuard { reg }
    }

    /// Gives a register up.
    fn unuse_vreg(&mut self, vreg: VReg)
        requires
            old(self).held()@.valid(),
            vreg.idx < old(self).held()@.locs.len(),
        ensures
            final(self).held()@ == old(self).held()@.unbound(vreg),
            final(self).held()@.valid(),
            old(self).held()@.fits::<Self::Reg>() ==> final(self).held()@.fits::<Self::Reg>(),
            final(self).moves() == old(self).moves(),
    {
        self.state().unbind(vreg);
    }

    /// Brings a register to a host register and pins it there.
    fn use_vreg_fixed(&mut self, vreg: VReg, hreg: Self::Reg) -> (r: RegGuard<Self::Reg>)
        requires
            old(self).held()@.fits::<Self::Reg>(),
            target_has::<Self::Reg>(hreg.number() as int),
            old(self).held()@.can_fix(vreg, hreg.number()),
        ensures
            r.reg == hreg,
            final(self).held()@.fits::<Self::Reg>(),
            final(self).held()@ == old(self).held()@.fixed(vreg, hreg.number()).0,
            final(self).moves() == old(self).moves() + old(self).held()@.fixed(
                vreg,
                hreg.number(),
            ).1,
    {
        let ghost before = self.held()@;
        proof {
            law_evicted_valid(before, hreg.number());
        }
        self.evict_host(hreg);
        let ghost emptied = self.held()@;
        let ghost stored = self.moves();
        let number: u8 = hreg.to_number();
        let state = self.state();
        let loc = state.vreg_to_loc[vreg.index()];
        match loc {
            RegLocation::Reg(old_reg) => {
                assert(emptied.hregs[old_reg as int] is Some);
                if old_reg != number {
                    assert(before.hregs[old_reg as int] is Some);
                    let src = Self::Reg::from_number(old_reg);
                    self.emit_mov(hreg, src);
                }
            },
            RegLocation::Spill(slot) => {
                self.emit_reload(hreg, slot);
            },
            RegLocation::Nowhere => {},
        }
        assert(self.moves() =~= old(self).moves() + before.fixed(vreg, hreg.number()).1);
        self.state().bind(vreg, number);
        self.state().pin(number);
        proof {
            let m = self.held()@;
            assert forall|r: int|
                #![trigger m.hregs[r]]
                0 <= r < 32 && (in_mask(m.allocatable, r)
                    || m.hregs[r] is Some) implies target_has::<Self::Reg>(r) by {
                if r != number && m.hregs[r] is Some {
                    assert(emptied.hregs[r] is Some);
                    assert(before.hregs[r] is Some);
                } else {
                    assert(before.hregs[r] is Some || before.hregs[r] is None);
                }
            }
        }
        RegGuard { reg: hreg }
    }

    /// Brings a register to a host register and pins it there.
    fn use_vreg(&mut self, vreg: VReg, hint: RegHint) -> (r: RegGuard<Self::Reg>)
        requires
            old(self).held()@.fits::<Self::Reg>(),
            old(self).held()@.can_prepare(vreg, preferred::<Self::Reg>(hint)),
            old(self).held()@.prepared(vreg, preferred::<Self::Reg>(hint)).0.can_fix(
                vreg,
                old(self).held()@.host_for(vreg, preferred::<Self::Reg>(hint)),
            ),
        ensures
            r.reg.number() == old(self).held()@.host_for(vreg, preferred::<Self::Reg>(hint)),
            ({
                let (m, code) = old(self).held()@.prepared(vreg, preferred::<Self::Reg>(hint));
                &&& final(self).held()@ == m.fixed(vreg, r.reg.number()).0
                &&& final(self).moves() == old(self).moves() + code + m.fixed(
                    vreg,
                    r.reg.number(),
                ).1
            }),
    {
        let hreg = self.prepare_host_reg(vreg, hint);
        self.use_vreg_fixed(vreg, hreg)
    }

    /// Lets the host register of a guard be assigned anew.
    fn release(&mut self, guard: RegGuard<Self::Reg>)
        requires
            guard.reg.number() < 32,
        ensures
            final(self).held()@ == old(self).held()@.with_unpinned(guard.reg.number()),
            final(self).moves() == old(self).moves(),
    {
        let number: u8 = guard.reg.to_number();
        self.state().unpin(number);
    }

    /// Empties the host registers of a mask, the lowest number first.
    fn spill_given(&mut self, mask: u32)
        requires
            old(self).held()@.fits::<Self::Reg>(),
            old(self).held()@.can_spill(mask, 0),
        ensures
            final(self).held()@ == old(self).held()@.spilled(mask, 0).0,
            final(self).held()@.fits::<Self::Reg>(),
            final(self).moves() == old(self).moves() + old(self).held()@.spilled(mask, 0).1,
    {
        let mut reg: u8 = 0;
        proof {
            assert(self.moves() + self.held()@.spilled(mask, 0).1 =~= old(self).moves()
                + old(self).held()@.spilled(mask, 0).1);
        }
        while reg < 32
            invariant
                reg <= 32,
                self.held()@.fits::<Self::Reg>(),
                self.held()@.can_spill(mask, reg as int),
                self.held()@.spilled(mask, reg as int).0 == old(self).held()@.spilled(mask, 0).0,
                self.moves() + self.held()@.spilled(mask, reg as int).1 =~= old(self).moves()
                    + old(self).held()@.spilled(mask, 0).1,
            decreases 32 - reg,
        {
            if mask_has(mask, reg) {
                let ghost before = self.held()@;
                let ghost emitted = self.moves();
                proof {
                    law_evicted_valid(before, reg);
                }
                let evicted = self.state().evict(reg);
                if let Some((_, slot)) = evicted {
                    assert(before.hregs[reg as int] is Some);
                    let target = Self::Reg::from_number(reg);
                    self.emit_spill(slot, target);
                }
                proof {
                    let m = self.held()@;
                    assert forall|r: int|
                        #![trigger m.hregs[r]]
                        0 <= r < 32 && (in_mask(m.allocatable, r)
                            || m.hregs[r] is Some) implies target_has::<Self::Reg>(r) by {
                        assert(m.hregs[r] is Some ==> before.hregs[r] is Some);
                        assert(before.hregs[r] is Some || before.hregs[r] is None);
                    }
                    assert(self.moves() =~= emitted + before.eviction(reg));
                    assert(m.spilled(mask, reg + 1).0 == before.spilled(mask, reg as int).0);
                    assert(self.moves() + m.spilled(mask, reg + 1).1 =~= emitted + before.spilled(
                        mask,
                        reg as int,
                    ).1);
                }
            }
            reg = reg + 1;
        }
        assert(self.moves() + Seq::<RegMove>::empty() =~= self.moves());
    }

    /// Empties the host registers that a called function may change.
    fn spill_caller_saved(&mut self)
        requires
            old(self).held()@.fits::<Self::Reg>(),
            old(self).held()@.can_spill(Self::Reg::caller_saves(), 0),
        ensures
            final(self).held()@ == old(self).held()@.spilled(Self::Reg::caller_saves(), 0).0,
            final(self).held()@.fits::<Self::Reg>(),
            final(self).moves() == old(self).moves() + old(self).held()@.spilled(
                Self::Reg::caller_saves(),
                0,
            ).1,
    {
        self.spill_given(Self::Reg::caller_save_mask());
    }

    /// Empties all host registers.
    fn spill_all(&mut self)
        requires
            old(self).held()@.fits::<Self::Reg>(),
            old(self).held()@.can_spill(u32::MAX, 0),
        ensures
            final(self).held()@ == old(self).held()@.spilled(u32::MAX, 0).0,
            final(self).held()@.fits::<Self::Reg>(),
            final(self).moves() == old(self).moves() + old(self).held()@.spilled(u32::MAX, 0).1,
    {
        self.spill_given(u32::MAX);
    }
}

impl<R: RegAllocBase> RegAllocOps for R {

}

} // verus!
