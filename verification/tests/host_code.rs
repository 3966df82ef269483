//! Host code: its encoding, its registers and where it is placed.
use here::isa::riscv::instruction::instr_table::RiscvInstr;
use here::isa::riscv::trap::Exception;
use here::isa::riscv::vector::types::Vsew;
use here::jit::backend::reg_alloc::{
    Moves, RegAllocBase, RegAllocOps, RegAllocState, RegHint, RegLocation, TargetReg,
};
use here::jit::backend::x86::{
    AluOp, CallArg, ConditionCode, OperandSize, RegMem, ShiftOp, X86Assembler, X86Reg,
};
use here::jit::ir::{ALUKind, GuestReg, IRBlock, IRBuilder, IRInst, IRReg, VReg, Value};
use here::jit::jit_buffer::{CodeLocation, JitBuffer, JIT_BUFFER_SIZE};
use here::jit::pass::liveness::{Liveness, LivenessPass};
use here::jit::stats::{ranked, Stats, TranslationStop};
use here::jit::translator::reg_assign::{GuestAccess, RegAssign};
use here::jit::translator::state_vec::reg_on_mem;

fn emitted_bytes(emit: impl FnOnce(&mut X86Assembler)) -> Vec<u8> {
    let mut out = X86Assembler::new();
    emit(&mut out);
    out.build()
}

#[test]
fn selects_signed_displacement_width_at_boundaries() {
    assert!(matches!(
        RegMem::from_disp(X86Reg::RDI, -129),
        RegMem::MemDisp32(X86Reg::RDI, -129)
    ));
    assert!(matches!(
        RegMem::from_disp(X86Reg::RDI, -128),
        RegMem::MemDisp8(X86Reg::RDI, -128)
    ));
    assert!(matches!(
        RegMem::from_disp(X86Reg::RDI, -1),
        RegMem::MemDisp8(X86Reg::RDI, -1)
    ));
    assert!(matches!(RegMem::from_disp(X86Reg::RDI, 0), RegMem::Mem(X86Reg::RDI)));
    assert!(matches!(
        RegMem::from_disp(X86Reg::RDI, 127),
        RegMem::MemDisp8(X86Reg::RDI, 127)
    ));
    assert!(matches!(
        RegMem::from_disp(X86Reg::RDI, 128),
        RegMem::MemDisp32(X86Reg::RDI, 128)
    ));
}

#[test]
fn encodes_rex_modrm_alu_and_shift_variants() {
    let alu_cases = [
        (AluOp::Add, 0x01, 0xc0),
        (AluOp::Or, 0x09, 0xc8),
        (AluOp::Adc, 0x11, 0xd0),
        (AluOp::Sbb, 0x19, 0xd8),
        (AluOp::And, 0x21, 0xe0),
        (AluOp::Sub, 0x29, 0xe8),
        (AluOp::Xor, 0x31, 0xf0),
        (AluOp::Cmp, 0x39, 0xf8),
    ];
    for (operation, register_opcode, immediate_modrm) in alu_cases {
        assert_eq!(
            emitted_bytes(|out| out.alu_rm32_r32(operation, X86Reg::R8.into(), X86Reg::R9)),
            [0x45, register_opcode, 0xc8]
        );
        assert_eq!(
            emitted_bytes(|out| out.alu_rm64_r64(operation, X86Reg::R8.into(), X86Reg::R9)),
            [0x4d, register_opcode, 0xc8]
        );
        assert_eq!(
            emitted_bytes(|out| out.alu_rm64_imm32(operation, X86Reg::R8.into(), 0x89ab_cdef)),
            [0x49, 0x81, immediate_modrm, 0xef, 0xcd, 0xab, 0x89]
        );
    }

    let shifts = [
        (ShiftOp::SHL, 0xe0),
        (ShiftOp::SHR, 0xe8),
        (ShiftOp::SAR, 0xf8),
    ];
    for (operation, modrm) in shifts {
        assert_eq!(
            emitted_bytes(|out| {
                out.shift_rm_imm8(OperandSize::Dword, operation, X86Reg::R8.into(), 31)
            }),
            [0x41, 0xc1, modrm, 0x1f]
        );
        assert_eq!(
            emitted_bytes(|out| {
                out.shift_rm_imm8(OperandSize::Qword, operation, X86Reg::R8.into(), 63)
            }),
            [0x49, 0xc1, modrm, 0x3f]
        );
    }

    assert_eq!(
        emitted_bytes(|out| out.mov_r64_rm64(X86Reg::R8, RegMem::from_disp(X86Reg::RDI, -129))),
        [0x4c, 0x8b, 0x87, 0x7f, 0xff, 0xff, 0xff]
    );
    assert_eq!(
        emitted_bytes(|out| out.mov_rm64_r64(RegMem::from_disp(X86Reg::RBP, -8), X86Reg::R9)),
        [0x4c, 0x89, 0x4d, 0xf8]
    );
    assert_eq!(
        emitted_bytes(|out| out.movsxd_r64_rm32(X86Reg::R9, X86Reg::R8.into())),
        [0x4d, 0x63, 0xc8]
    );
    assert_eq!(
        emitted_bytes(|out| out.setcc_r8(ConditionCode::Below, X86Reg::R8)),
        [0x41, 0x0f, 0x92, 0xc0]
    );
    assert_eq!(
        emitted_bytes(|out| out.movzx_r32_r8(X86Reg::R8, X86Reg::R8)),
        [0x45, 0x0f, 0xb6, 0xc0]
    );
    assert_eq!(
        emitted_bytes(|out| out.cmovcc_r64_rm64(ConditionCode::NotEqual, X86Reg::R8, X86Reg::R9.into())),
        [0x4d, 0x0f, 0x45, 0xc1]
    );
    assert_eq!(emitted_bytes(|out| out.call_rm64(X86Reg::R11)), [0x41, 0xff, 0xd3]);
    assert_eq!(
        emitted_bytes(|out| out.mov_rsp_disp64_r64(32, X86Reg::R10)),
        [0x4c, 0x89, 0x54, 0x24, 0x20]
    );
    assert_eq!(
        emitted_bytes(|out| out.movsx_r64_rm8(X86Reg::RAX, X86Reg::RAX.into())),
        [0x48, 0x0f, 0xbe, 0xc0]
    );
    assert_eq!(
        emitted_bytes(|out| out.movsx_r64_rm16(X86Reg::RAX, X86Reg::RAX.into())),
        [0x48, 0x0f, 0xbf, 0xc0]
    );
    assert_eq!(
        emitted_bytes(|out| out.movzx_r32_rm16(X86Reg::RAX, X86Reg::RAX.into())),
        [0x40, 0x0f, 0xb7, 0xc0]
    );
}

fn build_guest_access(access: GuestAccess) -> (Vec<u8>, X86Reg) {
    let mut regs = RegAssign::new();
    let mut out = X86Assembler::new();
    let guest = match access {
        GuestAccess::ReadOnly => regs.guest_read(1, &mut out),
        GuestAccess::WriteOnly => regs.guest_write(1, &mut out),
        GuestAccess::ReadWrite => regs.guest_read_write(1, &mut out),
    };
    let host = guest.reg();
    regs.release(guest);
    regs.flush(&mut out);
    (out.build(), host)
}

#[test]
fn guest_access_controls_load_and_writeback() {
    let mut readonly = X86Assembler::new();
    let (code, host) = build_guest_access(GuestAccess::ReadOnly);
    readonly.mov_r64_rm64(host, reg_on_mem(1));
    assert_eq!(code, readonly.build());

    let mut writeonly = X86Assembler::new();
    let (code, host) = build_guest_access(GuestAccess::WriteOnly);
    writeonly.mov_rm64_r64(reg_on_mem(1), host);
    assert_eq!(code, writeonly.build());

    let mut readwrite = X86Assembler::new();
    let (code, host) = build_guest_access(GuestAccess::ReadWrite);
    readwrite.mov_r64_rm64(host, reg_on_mem(1));
    readwrite.mov_rm64_r64(reg_on_mem(1), host);
    assert_eq!(code, readwrite.build());
}

#[test]
fn flush_writes_back_and_retains_cached_guest() {
    let mut regs = RegAssign::new();
    let mut out = X86Assembler::new();
    let guest = regs.guest_write(1, &mut out);
    let host = guest.reg();
    regs.release(guest);

    regs.flush(&mut out);
    let guest = regs.guest_read(1, &mut out);
    regs.release(guest);
    regs.flush(&mut out);

    let mut expected = X86Assembler::new();
    expected.mov_rm64_r64(reg_on_mem(1), host);
    assert_eq!(out.build(), expected.build());
}

#[test]
fn callee_access_moves_a_caller_guest() {
    let mut regs = RegAssign::new();
    let mut out = X86Assembler::new();

    let guest = regs.guest_write(1, &mut out);
    let caller_host = guest.reg();
    regs.release(guest);
    let guest = regs.guest_write_callee(1, &mut out);
    let callee_host = guest.reg();
    regs.release(guest);

    let state = regs.guest_state(1).unwrap();
    assert_eq!(state.host, callee_host);
    assert_ne!(caller_host, callee_host);

    let mut expected = X86Assembler::new();
    expected.mov_rm64_r64(reg_on_mem(1), caller_host);
    assert_eq!(out.build(), expected.build());

    regs.flush_for_call(&mut X86Assembler::new());
    assert_eq!(regs.guest_state(1).unwrap().host, callee_host);
}

#[test]
fn flush_for_call_discards_only_caller_saved_mappings() {
    let mut regs = RegAssign::new();
    let mut out = X86Assembler::new();

    let caller = regs.guest_write(1, &mut out);
    regs.release(caller);
    let callee = regs.guest_write_callee(2, &mut out);
    regs.release(callee);

    regs.flush_for_call(&mut out);

    assert!(regs.guest_state(1).is_none());
    assert_eq!(regs.guest_state(2).unwrap().guest, Some(2));
}

#[test]
fn allocates_the_initial_fixed_size_chunk() {
    let buffer = JitBuffer::new();

    assert_eq!(buffer.chunk_count(), 1);
    assert_eq!(buffer.allocated_bytes(), JIT_BUFFER_SIZE);
    assert_eq!(buffer.used_bytes(), 0);
}

#[test]
fn reset_reuses_the_code_buffer() {
    let mut buffer = JitBuffer::new();
    let first = buffer.emit_code(&[0xc3]);

    buffer.reset();

    let second = buffer.emit_code(&[0xc3]);
    assert_eq!(second, first);
}

#[test]
fn allocates_additional_chunks_when_the_current_chunk_is_full() {
    let mut buffer = JitBuffer::new();
    let first = vec![0xcc; JIT_BUFFER_SIZE];
    let second = [0xc3];

    let first_address = buffer.emit_code(&first);
    let second_address = buffer.emit_code(&second);

    assert_eq!(buffer.chunk_count(), 2);
    assert_eq!(buffer.used_bytes(), JIT_BUFFER_SIZE + second.len());
    assert_eq!(buffer.allocated_bytes(), JIT_BUFFER_SIZE * 2);
    assert_ne!(second_address, first_address);
}

#[test]
fn keeps_the_peak_after_reset() {
    let mut buffer = JitBuffer::new();
    let code = vec![0xcc; JIT_BUFFER_SIZE];

    buffer.emit_code(&code);
    buffer.reset();
    buffer.emit_code(&[0xcc]);

    assert_eq!(buffer.used_bytes(), 1);
    assert_eq!(buffer.peak_used_bytes(), JIT_BUFFER_SIZE);
}

#[test]
fn records_translation_and_exception_aggregates() {
    let mut stats = Stats::new();

    stats.record_translation(4, TranslationStop::InstructionLimit);
    stats.record_translation(2, TranslationStop::DecodeFailure);
    stats.record_translation(1, TranslationStop::ControlFlow);
    stats.record_exception_exit(2, Exception::LoadFault);
    stats.record_exception_exit(0, Exception::LoadFault);

    assert_eq!(stats.detailed.translated_blocks, 3);
    assert_eq!(stats.detailed.translated_instrs, 7);
    assert_eq!(stats.detailed.instruction_limit_blocks, 1);
    assert_eq!(stats.detailed.fetch_decode_failures, 1);
    assert_eq!(stats.detailed.control_flow_blocks, 1);
    assert_eq!(stats.detailed.exception_exits, 2);
    assert_eq!(stats.detailed.exception_retired_instrs, 2);
    assert_eq!(stats.detailed.exception_causes, vec![(Exception::LoadFault, 2)]);
}

#[test]
fn each_unsupported_instruction_has_its_own_count() {
    let mut stats = Stats::new();
    stats.record_translation(1, TranslationStop::UnsupportedInstruction(RiscvInstr::MUL));
    stats.record_translation(1, TranslationStop::UnsupportedInstruction(RiscvInstr::DIV));
    stats.record_translation(1, TranslationStop::UnsupportedInstruction(RiscvInstr::MUL));
    stats.record_compiled_cache_hit();
    stats.record_execution(5);
    assert_eq!(
        stats.detailed.unsupported_instrs,
        vec![(RiscvInstr::MUL, 2), (RiscvInstr::DIV, 1)]
    );
    assert_eq!(stats.detailed.compiled_cache_hits, 1);
    assert_eq!((stats.executed_blocks, stats.retired_instrs), (1, 5));
}

#[test]
fn code_is_placed_one_after_the_other() {
    let mut buffer = JitBuffer::new();
    assert_eq!(buffer.emit_code(&[1, 2, 3]), CodeLocation { chunk: 0, offset: 0 });
    assert_eq!(buffer.emit_code(&[4, 5]), CodeLocation { chunk: 0, offset: 3 });
    let large = vec![0; JIT_BUFFER_SIZE - 4];
    assert_eq!(buffer.emit_code(&large), CodeLocation { chunk: 1, offset: 0 });
    assert_eq!(buffer.emit_code(&[6]), CodeLocation { chunk: 1, offset: JIT_BUFFER_SIZE - 4 });
}

#[test]
fn a_call_moves_its_arguments_and_its_target() {
    let code = emitted_bytes(|out| {
        out.call_helper(0x1122, &[CallArg::from(X86Reg::RBX), CallArg::from(7_u64)])
    });
    let expected = emitted_bytes(|out| {
        out.mov_r64_rm64(X86Reg::RDI, X86Reg::RBX.into());
        out.mov_r64_imm64(X86Reg::RSI, 7);
        out.mov_r64_imm64(X86Reg::R11, 0x1122);
        out.call_rm64(X86Reg::R11);
    });
    assert_eq!(code, expected);
    assert_eq!(emitted_bytes(|out| out.ret()), [0xc3]);
    assert_eq!(
        emitted_bytes(|out| out.mov_r64_imm64(X86Reg::R9, 0x0102_0304_0506_0708)),
        [0x49, 0xb9, 8, 7, 6, 5, 4, 3, 2, 1]
    );
}

#[test]
fn registers_have_numbers_and_owners() {
    assert_eq!((X86Reg::R13.base(), X86Reg::R13.rex_bit()), (5, 1));
    assert!(X86Reg::R11.caller_save());
    assert!(X86Reg::RBX.callee_save());
}

#[test]
fn what_is_known_is_computed_at_once() {
    let mut builder = IRBuilder::new();
    let guest = builder.get_reg(GuestReg { idx: 5 });
    assert_eq!(guest, Value::VReg(VReg { idx: 0 }));
    assert_eq!(builder.get_reg(GuestReg { idx: 0 }), Value::Imm(0));
    let known = builder.compute(ALUKind::Sub, Value::Imm(3), Value::Imm(5));
    assert_eq!(known, Value::Imm(u64::MAX - 1));
    assert_eq!(builder.compute(ALUKind::And, guest, Value::Imm(u64::MAX)), guest);
    assert_eq!(builder.compute(ALUKind::Add, Value::Imm(0), guest), guest);
    assert_eq!(builder.insts.len(), 1);
    let sum = builder.compute(ALUKind::Add, Value::Imm(4), guest);
    assert_eq!(sum, Value::VReg(VReg { idx: 1 }));
    let difference = builder.compute(ALUKind::Sub, Value::Imm(4), sum);
    assert_eq!(difference, Value::VReg(VReg { idx: 3 }));
    builder.set_reg(GuestReg { idx: 6 }, sum);
    assert_eq!(builder.get_reg(GuestReg { idx: 6 }), sum);
    builder.set_reg(GuestReg { idx: 0 }, sum);
    assert_eq!(builder.get_reg(GuestReg { idx: 0 }), Value::Imm(0));
    builder.insts.push(IRInst::DirectJmp { target_pc: 8 });
    let block = builder.build();
    assert_eq!(block.vreg_count(), 4);
    assert_eq!(block.insts.len(), 5);
    assert!(matches!(
        block.insts[1],
        IRInst::ComputeImm { kind: ALUKind::Add, dst: VReg { idx: 1 }, src1: VReg { idx: 0 }, src2: 4 }
    ));
}

#[test]
fn a_register_lives_from_its_definition_to_its_last_use() {
    let (a, b) = (VReg { idx: 0 }, VReg { idx: 1 });
    let block = IRBlock {
        vreg_count: 2,
        insts: vec![
            IRInst::Const { dst: a, src: 1 },
            IRInst::Call { can_trap: false, func_ptr: 0, args: vec![a], ret: Some(b) },
            IRInst::Compute { kind: ALUKind::Xor, dst: b, src1: a, src2: b },
            IRInst::DynamicJmp { target_pc: b },
        ],
    };
    assert_eq!(
        LivenessPass::analyze(&block),
        vec![
            Liveness { def: 0, last_use: Some(2), cross_call: true },
            Liveness { def: 2, last_use: Some(3), cross_call: false },
        ]
    );
    let mut uses = Vec::new();
    block.insts[2].for_each_use(&mut uses);
    assert_eq!(uses, vec![a, b]);
    assert_eq!(block.insts[1].def(), Some(b));
    assert!(block.insts[3].is_terminator());
    assert!(!block.insts[1].is_terminator());
    assert_eq!(b.index(), 1);
}

#[derive(Clone, Copy, Debug, PartialEq)]
struct TestReg(u8);

impl TargetReg for TestReg {
    fn number(self) -> u8 {
        unreachable!()
    }

    fn caller_saves() -> u32 {
        unreachable!()
    }

    fn callee_saves() -> u32 {
        unreachable!()
    }

    fn argument(_idx: u8) -> Option<u8> {
        unreachable!()
    }

    fn to_number(self) -> u8 {
        self.0
    }

    fn from_number(number: u8) -> TestReg {
        TestReg(number)
    }

    fn caller_save_mask() -> u32 {
        0b0011
    }

    fn callee_save_mask() -> u32 {
        0b1100
    }

    fn arg_reg(idx: u8) -> Option<u8> {
        if idx < 2 {
            Some(idx)
        } else {
            None
        }
    }
}

struct TestAlloc {
    state: RegAllocState,
    moves: Vec<String>,
}

impl RegAllocBase for TestAlloc {
    type Reg = TestReg;

    fn held(&self) -> RegAllocState {
        unreachable!()
    }

    fn moves(&self) -> Moves {
        unreachable!()
    }

    fn state(&mut self) -> &mut RegAllocState {
        &mut self.state
    }

    fn emit_mov(&mut self, dst: TestReg, src: TestReg) {
        self.moves.push(format!("r{} = r{}", dst.0, src.0));
    }

    fn emit_spill(&mut self, slot: u32, src: TestReg) {
        self.moves.push(format!("s{} = r{}", slot, src.0));
    }

    fn emit_reload(&mut self, dst: TestReg, slot: u32) {
        self.moves.push(format!("r{} = s{}", dst.0, slot));
    }
}

#[test]
fn registers_are_assigned_spilled_and_reloaded() {
    let mut alloc = TestAlloc { state: RegAllocState::new(3, 0b0110), moves: Vec::new() };
    let (a, b, c) = (VReg { idx: 0 }, VReg { idx: 1 }, VReg { idx: 2 });

    let guard = alloc.use_vreg(a, RegHint::PreferCallee);
    assert_eq!(guard.reg(), TestReg(2));
    alloc.release(guard);
    let guard = alloc.use_vreg(b, RegHint::PreferCallee);
    assert_eq!(guard.reg(), TestReg(1));
    alloc.release(guard);

    // Both are taken, so that the first one makes room.
    let guard = alloc.use_vreg(c, RegHint::PreferCaller);
    assert_eq!(guard.reg(), TestReg(1));
    alloc.release(guard);
    assert_eq!(alloc.moves, vec!["s0 = r1"]);
    assert_eq!(alloc.state.vreg_to_loc[1], RegLocation::Spill(0));

    let guard = alloc.use_vreg_fixed(b, TestReg(2));
    alloc.release(guard);
    assert_eq!(alloc.moves, vec!["s0 = r1", "s1 = r2", "r2 = s0"]);
    assert_eq!(alloc.state.vreg_to_loc[0], RegLocation::Spill(1));

    alloc.unuse_vreg(b);
    assert_eq!(alloc.state.vreg_to_loc[1], RegLocation::Nowhere);
    let guard = alloc.def_vreg(a, RegHint::PreferCallee);
    assert_eq!(guard.reg(), TestReg(2));
    alloc.release(guard);
    assert_eq!(alloc.state.vreg_to_loc[2], RegLocation::Reg(1));
    alloc.spill_caller_saved();
    assert_eq!(alloc.moves[3..], ["s0 = r1"]);
    assert_eq!(alloc.state.vreg_to_loc[2], RegLocation::Spill(0));
    alloc.spill_all();
    assert_eq!(alloc.moves.len(), 4);
    assert_eq!(TestReg::arg_reg(2), None);
}

#[test]
fn the_registers_of_a_mask_are_spilled_and_no_others() {
    let mut alloc = TestAlloc { state: RegAllocState::new(3, 0b1110), moves: Vec::new() };
    for idx in 0..3 {
        let guard = alloc.use_vreg(VReg { idx }, RegHint::PreferCallee);
        alloc.release(guard);
    }
    assert_eq!(
        alloc.state.vreg_to_loc,
        vec![RegLocation::Reg(2), RegLocation::Reg(3), RegLocation::Reg(1)]
    );
    alloc.spill_given(0b1010);
    assert_eq!(alloc.moves, vec!["s0 = r1", "s1 = r3"]);
    assert_eq!(
        alloc.state.vreg_to_loc,
        vec![RegLocation::Reg(2), RegLocation::Spill(1), RegLocation::Spill(0)]
    );
    alloc.spill_given(0);
    assert_eq!(alloc.moves.len(), 2);
    alloc.spill_all();
    assert_eq!(alloc.moves[2..], ["s2 = r2"]);
}

#[test]
fn rows_are_ranked_by_count_and_then_by_key() {
    let causes = vec![
        (Exception::StoreFault, 2),
        (Exception::LoadFault, 5),
        (Exception::IllegalInstruction, 2),
        (Exception::Breakpoint, 2),
    ];
    assert_eq!(
        ranked(&causes),
        vec![
            (Exception::LoadFault, 5),
            (Exception::IllegalInstruction, 2),
            (Exception::Breakpoint, 2),
            (Exception::StoreFault, 2),
        ]
    );
    let instrs = vec![
        (RiscvInstr::VSR_V, 1),
        (RiscvInstr::VLE_V(Vsew::E64), 1),
        (RiscvInstr::VLE_V(Vsew::E8), 1),
        (RiscvInstr::ADDI, 1),
        (RiscvInstr::ADD, 1),
        (RiscvInstr::C_ADD, 3),
    ];
    assert_eq!(
        ranked(&instrs),
        vec![
            (RiscvInstr::C_ADD, 3),
            (RiscvInstr::ADD, 1),
            (RiscvInstr::ADDI, 1),
            (RiscvInstr::VLE_V(Vsew::E8), 1),
            (RiscvInstr::VLE_V(Vsew::E64), 1),
            (RiscvInstr::VSR_V, 1),
        ]
    );
    assert!(ranked::<RiscvInstr>(&Vec::new()).is_empty());
}
