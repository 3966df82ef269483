//! What the atomic instructions are for, as relations between the hart before and after.
use vstd::prelude::*;

use crate::config::BASE_ADDR;
use crate::device;
use crate::device::{MemError, PhysState};
use crate::isa::riscv::executor::CpuState;
use crate::isa::riscv::mmu::manager::{AccessPolicy, AccessType, AmoOp, VmState};
use crate::isa::riscv::mmu::page_table;
use crate::isa::riscv::mmu::page_table::VirtualMemoryMode;
use crate::isa::riscv::mmu::policy;
use crate::isa::riscv::trap::Exception;
use crate::ram;
use crate::utils;
use crate::utils::Width;

use super::alu;
use super::alu_laws;
use super::dispatch;
use super::exec_mapping;
use super::exec_mapping::ExecFn;
use super::info::RVInstrInfo;
use super::instr_table::RiscvInstr;

verus! {

/// The width of the memory operand of an atomic operation.
pub open spec fn amo_width(instr: RiscvInstr) -> Option<Width> {
    match instr {
        RiscvInstr::AMOADD_W
        | RiscvInstr::AMOAND_W
        | RiscvInstr::AMOOR_W
        | RiscvInstr::AMOXOR_W
        | RiscvInstr::AMOSWAP_W
        | RiscvInstr::AMOMAX_W
        | RiscvInstr::AMOMIN_W
        | RiscvInstr::AMOMAXU_W
        | RiscvInstr::AMOMINU_W => Some(Width::W32),
        RiscvInstr::AMOADD_D
        | RiscvInstr::AMOAND_D
        | RiscvInstr::AMOOR_D
        | RiscvInstr::AMOXOR_D
        | RiscvInstr::AMOSWAP_D
        | RiscvInstr::AMOMAX_D
        | RiscvInstr::AMOMIN_D
        | RiscvInstr::AMOMAXU_D
        | RiscvInstr::AMOMINU_D => Some(Width::W64),
        _ => None,
    }
}

/// Whether an access of width `w` at the virtual address `addr` meets the page-table entry that
/// maps it. Without translation there is no such entry.
pub open spec fn meets_its_entry(s: CpuState, addr: u64, w: Width) -> bool {
    let walker = s.vm.walker;
    policy::data_policy(s.csr, AccessType::ReadWrite, true) is Translated && walker.mode
        != VirtualMemoryMode::Bare && match page_table::walk(
        s.vm.phys.ram.bytes,
        walker.root_addr as int,
        addr,
        walker.mode.spec_top(),
    ) {
        Ok((at, pte, level)) => {
            let paddr = page_table::target_of(pte) + addr as int % page_table::page_size(level);
            paddr < at + 8 && at < paddr + w.spec_bytes()
        },
        Err(_) => false,
    }
}

/// The handler of an atomic operation is one of the kind, of the width of the instruction.
proof fn lemma_amo_handler(instr: RiscvInstr)
    requires
        amo_width(instr) is Some,
    ensures
        ({
            let f = exec_mapping::exec_func_of(instr);
            f is Amo && f->Amo_1 == amo_width(instr)->0
        }),
{
}

/// An atomic operation without exception leaves in the destination the sign extension of what a
/// load of the same width at the same address would have given in the state before, whatever the
/// other operand is; the load would have had no exception either. The one operand left out is a
/// page-table entry that maps itself: marking it dirty changes it.
#[verifier::rlimit(60)]
pub proof fn law_amo_gives_old_value(
    instr: RiscvInstr,
    s: CpuState,
    rs1: u8,
    rs2: u8,
    rd: u8,
    rl: bool,
    aq: bool,
)
    requires
        amo_width(instr) is Some,
        s.regs.len() == 32,
        s.vm.phys.ram.bytes.len() == crate::config::RAM_SIZE,
        rd < 32,
        dispatch::executed(instr, s, RVInstrInfo::A { rs1, rs2, rd, rl, aq }).1 is Ok,
        !meets_its_entry(s, s.reg(rs1), amo_width(instr)->0),
    ensures
        ({
            let w = amo_width(instr)->0;
            let t = dispatch::executed(instr, s, RVInstrInfo::A { rs1, rs2, rd, rl, aq }).0;
            let before = s.data_read(s.reg(rs1), w).1;
            &&& before is Ok
            &&& w.holds(before->Ok_0)
            &&& Width::W64.signed(t.reg(rd)) == w.signed(before->Ok_0)
            &&& forall|k: u8| k < 32 && k != rd ==> t.reg(k) == s.reg(k)
            &&& t.pc == (s.pc + 4) % 0x1_0000_0000_0000_0000
        }),
{
    lemma_amo_handler(instr);
    reveal(ExecFn::base_step);
    let w = amo_width(instr)->0;
    let addr = s.reg(rs1);
    lemma_load_like_amo(s, addr, w);
    let v = s.data_read(addr, w).1->Ok_0;
    alu_laws::law_widened(w, v);
}

/// Where an atomic operation finds its operand, a load finds the same.
proof fn lemma_load_like_amo(s: CpuState, addr: u64, w: Width)
    requires
        !meets_its_entry(s, addr, w),
        s.vm.phys.ram.bytes.len() == crate::config::RAM_SIZE,
        ({
            let rw = policy::data_policy(s.csr, AccessType::ReadWrite, true);
            let (vm, r) = s.vm.translated_with(addr, rw);
            r is Ok && utils::aligned(w, r->Ok_0) && device::in_ram(r->Ok_0)
        }),
    ensures
        ({
            let rw = policy::data_policy(s.csr, AccessType::ReadWrite, true);
            let (vm, r) = s.vm.translated_with(addr, rw);
            let v = ram::load_le(vm.phys.ram.bytes, r->Ok_0 - BASE_ADDR, w);
            s.data_read(addr, w).1 == Ok::<u64, Exception>(v) && w.holds(v)
        }),
{
    let rw = policy::data_policy(s.csr, AccessType::ReadWrite, true);
    let ro = policy::data_policy(s.csr, AccessType::Read, true);
    let (wvm, wr) = s.vm.translated_with(addr, rw);
    let (rvm, rr) = s.vm.translated_with(addr, ro);
    let walker = s.vm.walker;
    lemma_load_holds(wvm.phys.ram.bytes, wr->Ok_0 - BASE_ADDR, w);
    if rw is Translated && walker.mode != VirtualMemoryMode::Bare {
        let leaf = page_table::walk(
            s.vm.phys.ram.bytes,
            walker.root_addr as int,
            addr,
            walker.mode.spec_top(),
        )->Ok_0;
        let (at, pte, level) = leaf;
        policy::law_data_policy_permits(s.csr, AccessType::ReadWrite, pte & 0xff);
        policy::law_data_policy_permits(s.csr, AccessType::Read, pte & 0xff);
        assert(pte & 0xc0 == 0xc0 ==> pte & 0x40 == 0x40) by (bit_vector);
        page_table::lemma_leaf_in_ram(
            s.vm.phys.ram.bytes,
            walker.root_addr as int,
            addr,
            walker.mode.spec_top(),
        );
        page_table::lemma_leaf_address(pte, addr, level);
        let bytes = s.vm.phys.ram.bytes;
        let place = wr->Ok_0 - BASE_ADDR;
        device::lemma_aligned_fits(wr->Ok_0, w);
        ram::law_store_frame(bytes, at - BASE_ADDR, Width::W64, pte | 0xc0, place, w);
        ram::law_store_frame(bytes, at - BASE_ADDR, Width::W64, pte | 0x40, place, w);
    }
}

/// How the value `new` that an atomic operation leaves in memory is made of the value `old` that
/// memory held and the operand `b`.
#[verifier::opaque]
pub open spec fn combined(instr: RiscvInstr, w: Width, old_value: u64, b: u64, new: u64) -> bool {
    let (x, y, z) = (w.signed(old_value), w.signed(b), w.signed(new));
    match instr {
        RiscvInstr::AMOSWAP_W | RiscvInstr::AMOSWAP_D => new == b,
        RiscvInstr::AMOADD_W | RiscvInstr::AMOADD_D => new == old_value + b || new == old_value + b
            - w.modulus(),
        RiscvInstr::AMOAND_W | RiscvInstr::AMOAND_D => forall|i: u64|
            i < w.spec_bits() ==> #[trigger] alu_laws::bit(new, i) == (alu_laws::bit(old_value, i)
                && alu_laws::bit(b, i)),
        RiscvInstr::AMOOR_W | RiscvInstr::AMOOR_D => forall|i: u64|
            i < w.spec_bits() ==> #[trigger] alu_laws::bit(new, i) == (alu_laws::bit(old_value, i)
                || alu_laws::bit(b, i)),
        RiscvInstr::AMOXOR_W | RiscvInstr::AMOXOR_D => forall|i: u64|
            i < w.spec_bits() ==> #[trigger] alu_laws::bit(new, i) == (alu_laws::bit(old_value, i)
                != alu_laws::bit(b, i)),
        RiscvInstr::AMOMAX_W | RiscvInstr::AMOMAX_D => (new == old_value || new == b) && z >= x && z
            >= y,
        RiscvInstr::AMOMIN_W | RiscvInstr::AMOMIN_D => (new == old_value || new == b) && z <= x && z
            <= y,
        RiscvInstr::AMOMAXU_W | RiscvInstr::AMOMAXU_D => (new == old_value || new == b) && new
            >= old_value && new >= b,
        RiscvInstr::AMOMINU_W | RiscvInstr::AMOMINU_D => (new == old_value || new == b) && new
            <= old_value && new <= b,
        _ => false,
    }
}

/// An atomic operation without exception leaves in memory, where its address leads, its operand
/// combined with the value that it gave to the destination, and changes no other byte than the
/// walk to that place did.
#[verifier::rlimit(60)]
pub proof fn law_amo_combines(
    instr: RiscvInstr,
    s: CpuState,
    rs1: u8,
    rs2: u8,
    rd: u8,
    rl: bool,
    aq: bool,
)
    requires
        amo_width(instr) is Some,
        s.regs.len() == 32,
        s.vm.phys.ram.bytes.len() == crate::config::RAM_SIZE,
        rd < 32,
        dispatch::executed(instr, s, RVInstrInfo::A { rs1, rs2, rd, rl, aq }).1 is Ok,
    ensures
        ({
            let w = amo_width(instr)->0;
            let t = dispatch::executed(instr, s, RVInstrInfo::A { rs1, rs2, rd, rl, aq }).0;
            let (walked, place) = s.vm.translated_with(
                s.reg(rs1),
                policy::data_policy(s.csr, AccessType::ReadWrite, true),
            );
            let new = t.vm.phys.read(place->Ok_0, w);
            &&& place is Ok
            &&& new is Ok
            &&& w.holds(new->Ok_0)
            &&& combined(
                instr,
                w,
                w.wrap(t.reg(rd) as int),
                w.wrap(s.reg(rs2) as int),
                new->Ok_0,
            )
            &&& forall|k: int|
                0 <= k < t.vm.phys.ram.bytes.len() && !(place->Ok_0 - BASE_ADDR <= k
                    < place->Ok_0 - BASE_ADDR + w.spec_bytes())
                    ==> #[trigger] t.vm.phys.ram.bytes[k] == walked.phys.ram.bytes[k]
            &&& t.vm.phys.windows == s.vm.phys.windows
        }),
{
    lemma_amo_handler(instr);
    reveal(ExecFn::base_step);
    let f = exec_mapping::exec_func_of(instr);
    let w = amo_width(instr)->0;
    let (walked, place) = s.vm.translated_with(
        s.reg(rs1),
        policy::data_policy(s.csr, AccessType::ReadWrite, true),
    );
    let b = w.wrap(s.reg(rs2) as int);
    let at = place->Ok_0 - BASE_ADDR;
    let old_value = ram::load_le(walked.phys.ram.bytes, at, w);
    let new = f->Amo_0.updated(w, old_value, b);
    lemma_load_holds(walked.phys.ram.bytes, at, w);
    lemma_updated(instr, w, old_value, b);
    lemma_amo_effect(s.vm, f->Amo_0, s.reg(rs1), w, b, policy::data_policy(
        s.csr,
        AccessType::ReadWrite,
        true,
    ));
    alu_laws::law_widened(w, old_value);
}

/// What an atomic operation does to memory.
proof fn lemma_amo_effect(
    vm: VmState,
    op: AmoOp,
    addr: u64,
    w: Width,
    b: u64,
    policy: AccessPolicy,
)
    requires
        vm.amo_with(op, addr, w, b, policy).1 is Ok,
        vm.phys.ram.bytes.len() == crate::config::RAM_SIZE,
        w.holds(b),
        ({
            let (walked, place) = vm.translated_with(addr, policy);
            w.holds(op.updated(w, ram::load_le(walked.phys.ram.bytes, place->Ok_0 - BASE_ADDR, w), b))
        }),
    ensures
        ({
            let (walked, place) = vm.translated_with(addr, policy);
            let (after, r) = vm.amo_with(op, addr, w, b, policy);
            let at = place->Ok_0 - BASE_ADDR;
            &&& place is Ok
            &&& r->Ok_0 == ram::load_le(walked.phys.ram.bytes, at, w)
            &&& after.phys.read(place->Ok_0, w) == Ok::<u64, MemError>(
                op.updated(w, r->Ok_0, b),
            )
            &&& after.phys.ram.bytes.len() == vm.phys.ram.bytes.len()
            &&& forall|k: int|
                0 <= k < after.phys.ram.bytes.len() && !(at <= k < at + w.spec_bytes())
                    ==> #[trigger] after.phys.ram.bytes[k] == walked.phys.ram.bytes[k]
            &&& after.phys.windows == vm.phys.windows
        }),
{
    let (walked, place) = vm.translated_with(addr, policy);
    let at = place->Ok_0 - BASE_ADDR;
    let new = op.updated(w, ram::load_le(walked.phys.ram.bytes, at, w), b);
    device::lemma_aligned_fits(place->Ok_0, w);
    ram::law_load_after_store(walked.phys.ram.bytes, at, w, new);
    alu_laws::law_width(w, new, new as int);
}

/// What memory holds after an operation is the combination that the instruction stands for.
proof fn lemma_updated(instr: RiscvInstr, w: Width, a: u64, b: u64)
    requires
        amo_width(instr) is Some,
        w.holds(a),
        w.holds(b),
    ensures
        ({
            let new = exec_mapping::exec_func_of(instr)->Amo_0.updated(w, a, b);
            combined(instr, w, a, b, new) && w.holds(new)
        }),
{
    reveal(combined);
    alu_laws::law_sum_and_difference(w, a, b);
    alu_laws::law_extremes(w, a, b);
    alu::lemma_bitwise_narrow(w, a, b);
    assert forall|i: u64| i < w.spec_bits() implies {
        &&& #[trigger] alu_laws::bit(a & b, i) == (alu_laws::bit(a, i) && alu_laws::bit(b, i))
    } by {
        alu_laws::law_bitwise(w, a, b, i);
    }
    assert forall|i: u64| i < w.spec_bits() implies {
        &&& #[trigger] alu_laws::bit(a | b, i) == (alu_laws::bit(a, i) || alu_laws::bit(b, i))
    } by {
        alu_laws::law_bitwise(w, a, b, i);
    }
    assert forall|i: u64| i < w.spec_bits() implies {
        &&& #[trigger] alu_laws::bit(a ^ b, i) == (alu_laws::bit(a, i) != alu_laws::bit(b, i))
    } by {
        alu_laws::law_bitwise(w, a, b, i);
    }
}

/// Where addresses are physical, an atomic operation works on any aligned operand in RAM; one that is
/// not aligned, or that lies elsewhere, raises the exception of a store and changes nothing but the
/// trap value.
#[verifier::rlimit(60)]
pub proof fn law_amo_faults(
    instr: RiscvInstr,
    s: CpuState,
    rs1: u8,
    rs2: u8,
    rd: u8,
    rl: bool,
    aq: bool,
)
    requires
        amo_width(instr) is Some,
        policy::data_policy(s.csr, AccessType::ReadWrite, true) is Direct,
    ensures
        ({
            let w = amo_width(instr)->0;
            let addr = s.reg(rs1);
            let (t, r) = dispatch::executed(instr, s, RVInstrInfo::A { rs1, rs2, rd, rl, aq });
            if addr as int % w.spec_bytes() != 0 {
                r == Err::<(), Exception>(Exception::StoreMisaligned) && t == (CpuState {
                    pending_tval: Some(addr),
                    ..s
                })
            } else if addr < BASE_ADDR || addr >= BASE_ADDR + crate::config::RAM_SIZE {
                r == Err::<(), Exception>(Exception::StoreFault) && t == (CpuState {
                    pending_tval: Some(addr),
                    ..s
                })
            } else {
                r is Ok
            }
        }),
{
    lemma_amo_handler(instr);
    reveal(ExecFn::base_step);
}

/// The width of the memory operand of a load-reserved or a store-conditional.
pub open spec fn reserving_width(instr: RiscvInstr) -> Option<Width> {
    match instr {
        RiscvInstr::LR_W | RiscvInstr::SC_W => Some(Width::W32),
        RiscvInstr::LR_D | RiscvInstr::SC_D => Some(Width::W64),
        _ => None,
    }
}

/// A load-reserved without exception gives, sign-extended, what a plain load at the same address
/// gives, leaves memory as that load does, and reserves the place where its address leads.
#[verifier::rlimit(60)]
pub proof fn law_load_reserved(
    instr: RiscvInstr,
    s: CpuState,
    rs1: u8,
    rs2: u8,
    rd: u8,
    rl: bool,
    aq: bool,
)
    requires
        instr == RiscvInstr::LR_W || instr == RiscvInstr::LR_D,
        s.regs.len() == 32,
        rd < 32,
        dispatch::executed(instr, s, RVInstrInfo::A { rs1, rs2, rd, rl, aq }).1 is Ok,
    ensures
        ({
            let w = reserving_width(instr)->0;
            let t = dispatch::executed(instr, s, RVInstrInfo::A { rs1, rs2, rd, rl, aq }).0;
            let (loaded, before) = s.data_read(s.reg(rs1), w);
            let place = s.vm.translated_with(
                s.reg(rs1),
                policy::data_policy(s.csr, AccessType::Read, true),
            ).1;
            &&& before is Ok
            &&& Width::W64.signed(t.reg(rd)) == w.signed(before->Ok_0)
            &&& t.vm.phys.ram.bytes == loaded.vm.phys.ram.bytes
            &&& place is Ok
            &&& t.vm.phys.ram.reservation == Some((place->Ok_0 - BASE_ADDR) as u64)
            &&& forall|k: u8| k < 32 && k != rd ==> t.reg(k) == s.reg(k)
            &&& t.pc == (s.pc + 4) % 0x1_0000_0000_0000_0000
        }),
{
    reveal(ExecFn::base_step);
    let w = reserving_width(instr)->0;
    let (walked, place) = s.vm.translated_with(
        s.reg(rs1),
        policy::data_policy(s.csr, AccessType::Read, true),
    );
    lemma_load_holds(walked.phys.ram.bytes, place->Ok_0 - BASE_ADDR, w);
    let v = ram::load_le(walked.phys.ram.bytes, place->Ok_0 - BASE_ADDR, w);
    alu_laws::law_widened(w, v);
}

/// A store-conditional without exception says 0 where the place that its address leads to is the
/// reserved one, and memory then holds the operand there; elsewhere it says 1 and memory is as the
/// walk left it. Either way no reservation is left.
#[verifier::rlimit(60)]
pub proof fn law_store_conditional(
    instr: RiscvInstr,
    s: CpuState,
    rs1: u8,
    rs2: u8,
    rd: u8,
    rl: bool,
    aq: bool,
)
    requires
        instr == RiscvInstr::SC_W || instr == RiscvInstr::SC_D,
        s.regs.len() == 32,
        s.vm.phys.ram.bytes.len() == crate::config::RAM_SIZE,
        rd < 32,
        dispatch::executed(instr, s, RVInstrInfo::A { rs1, rs2, rd, rl, aq }).1 is Ok,
    ensures
        ({
            let w = reserving_width(instr)->0;
            let t = dispatch::executed(instr, s, RVInstrInfo::A { rs1, rs2, rd, rl, aq }).0;
            let (walked, place) = s.vm.translated_with(
                s.reg(rs1),
                policy::data_policy(s.csr, AccessType::Write, true),
            );
            let at = place->Ok_0 - BASE_ADDR;
            let done = walked.phys.ram.reservation == Some(at as u64);
            &&& place is Ok
            &&& t.reg(rd) == if done { 0u64 } else { 1 }
            &&& t.vm.phys.ram.reservation is None
            &&& !done ==> t.vm.phys.ram.bytes == walked.phys.ram.bytes
            &&& done ==> t.vm.phys.read(place->Ok_0, w) == Ok::<u64, MemError>(
                w.wrap(s.reg(rs2) as int),
            )
            &&& forall|k: int|
                0 <= k < t.vm.phys.ram.bytes.len() && !(at <= k < at + w.spec_bytes())
                    ==> #[trigger] t.vm.phys.ram.bytes[k] == walked.phys.ram.bytes[k]
            &&& forall|k: u8| k < 32 && k != rd ==> t.reg(k) == s.reg(k)
            &&& t.pc == (s.pc + 4) % 0x1_0000_0000_0000_0000
        }),
{
    reveal(ExecFn::base_step);
    let w = reserving_width(instr)->0;
    let (walked, place) = s.vm.translated_with(
        s.reg(rs1),
        policy::data_policy(s.csr, AccessType::Write, true),
    );
    let at = place->Ok_0 - BASE_ADDR;
    let b = w.wrap(s.reg(rs2) as int);
    device::lemma_aligned_fits(place->Ok_0, w);
    ram::law_load_after_store(walked.phys.ram.bytes, at, w, b);
    alu_laws::law_width(w, b, b as int);
}

/// A store to RAM ends a reservation in the doubleword that it starts in, and leaves one elsewhere
/// standing; a store to a device leaves it too.
pub proof fn law_store_ends_reservation(
    phys: PhysState,
    addr: u64,
    w: Width,
    v: u64,
    reserved: u64,
)
    requires
        device::in_ram(reserved),
        phys.ram.reservation == Some((reserved - BASE_ADDR) as u64),
        phys.write_result(addr, w) is Ok,
    ensures
        phys.written(addr, w, v).ram.reservation == if device::in_ram(addr) && addr / 8 == reserved
            / 8 {
            None
        } else {
            phys.ram.reservation
        },
{
}

/// What is loaded fits the width.
proof fn lemma_load_holds(bytes: Seq<u8>, at: int, w: Width)
    ensures
        w.holds(ram::load_le(bytes, at, w)),
{
}

} // verus!
