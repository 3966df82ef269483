//! The hart: its instructions, interpreted and translated.
use here::config::{BASE_ADDR, REGFILE_CNT, VLEN, VLEN_BYTE, WordType};
use here::cpu::RegFile;
use here::device::MemoryMapIO;
use here::fpu::bits::FloatFormat;
use here::isa::riscv::csr_reg::field::CsrField;
use here::isa::riscv::csr_reg::{csr_index, NamedCsrReg, PrivilegeLevel};
use here::isa::riscv::decoder::{DecodeInstr, Decoder, RawInstr};
use here::isa::riscv::executor::batch::{BatchResult, ExecutionHook};
use here::isa::riscv::executor::{CpuContext, CpuState, RVCPU};
use here::isa::riscv::instruction::exec_mapping::VectorConfigForm;
use here::isa::riscv::instruction::exec_vector_function::{
    exec_vector_config, vec_whole_register_move_op_v, vector_constant_stride_load,
    vector_constant_stride_store, vector_indexed_ordered_load, vector_indexed_ordered_store,
    vector_unit_stride_load, vector_unit_stride_store,
};
use here::isa::riscv::instruction::instr_table::RiscvInstr;
use here::isa::riscv::instruction::RVInstrInfo;
use here::isa::riscv::mmu::{Address, VirtAddrManager};
use here::isa::riscv::trap::trap_controller::TrapController;
use here::isa::riscv::trap::Exception;
use here::isa::riscv::vector::types::{vlmax, VectorConfig, Vlmul, Vsew};
use here::jit::backend::x86::{
    AluOp, CallArg, ConditionCode, OperandSize, RegMem, ShiftOp, X86Assembler, X86Reg,
};
use here::jit::engine::RvJitEngine;
use here::jit::helpers::{
    helper_check_instruction_alignment, helper_load, helper_store, Helpers,
};
use here::jit::jit_buffer::CodeLocation;
use here::jit::jit_function::{JitContext, JitInfo};
use here::jit::translator::{Surroundings, TranslateResult, X86CodeGen};
use here::ram::Ram;
use here::utils::{extract_range, negative_of, sign_extend, Width};
use rand::{Rng, SeedableRng};
use rand_chacha::ChaCha12Rng;

/// An unsigned integer that stands for a word of memory or an element of a vector.
trait Word: Copy {
    const WIDTH: Width;

    fn bits(self) -> u64;
}

impl Word for u8 {
    const WIDTH: Width = Width::W8;

    fn bits(self) -> u64 {
        self as u64
    }
}

impl Word for u16 {
    const WIDTH: Width = Width::W16;

    fn bits(self) -> u64 {
        self as u64
    }
}

impl Word for u32 {
    const WIDTH: Width = Width::W32;

    fn bits(self) -> u64 {
        self as u64
    }
}

impl Word for u64 {
    const WIDTH: Width = Width::W64;

    fn bits(self) -> u64 {
        self
    }
}

/// A hart that has memory and no devices.
struct TestCPUBuilder {
    cpu: Box<RVCPU>,
}

fn memory() -> VirtAddrManager {
    VirtAddrManager::from_ram_and_mmio(MemoryMapIO::from_ram(Ram::new()))
}

impl TestCPUBuilder {
    fn new() -> Self {
        let decoder = Decoder::from_isa_str("RV64GCV").expect("the extensions are known");
        let mut cpu = Box::new(RVCPU::from_decoder(decoder, memory()));
        cpu.csr.set_field(CsrField::Mstatus_fs, 1);
        cpu.csr.set_field_directly(CsrField::Mstatus_vs, 1);
        Self { cpu }
    }

    fn reg(mut self, idx: u8, value: WordType) -> Self {
        self.cpu.context.reg_file.write(idx, value);
        self
    }

    fn reg_f32(mut self, idx: u8, value: f32) -> Self {
        self.cpu.fpu.store_raw(FloatFormat::Single, idx, value.to_bits() as u64);
        self
    }

    fn reg_f64(mut self, idx: u8, value: f64) -> Self {
        self.cpu.fpu.store_raw(FloatFormat::Double, idx, value.to_bits());
        self
    }

    fn reg_vec<T: Word>(mut self, _lmul: u8, idx: u8, value: &[T]) -> Self {
        let values: Vec<u64> = value.iter().map(|v| v.bits()).collect();
        self.cpu.vector.write_as_type(idx, T::WIDTH, &values);
        self
    }

    fn vector_status(
        mut self,
        vlmul: Vlmul,
        vsew: Vsew,
        tail_agnostic: bool,
        mask_agnostic: bool,
    ) -> Self {
        let new_vtype = vlmul_bits(vlmul)
            | vsew_bits(vsew) << 3
            | (tail_agnostic as WordType) << 6
            | (mask_agnostic as WordType) << 7;
        let config = VectorConfig::from_vtype(new_vtype).unwrap();
        self.cpu.csr.write_directly(csr_index::vtype, new_vtype);
        self.cpu.csr.write_directly(csr_index::vl, vlmax(vlmul, vsew.width()));
        self.cpu.vector.set_config(VectorConfig { vl: vlmax(vlmul, vsew.width()) as u16, ..config });
        self
    }

    fn pc(mut self, value: WordType) -> Self {
        self.cpu.context.pc = value;
        self
    }

    fn mem<T: Word>(mut self, addr: WordType, value: T) -> Self {
        self.cpu.write(addr, T::WIDTH, value.bits()).unwrap();
        self
    }

    fn mem_range<T: Word>(
        mut self,
        indexs: std::ops::Range<usize>,
        f: fn(usize) -> (WordType, T),
    ) -> Self {
        for i in indexs {
            let (addr, data) = f(i);
            self.cpu.write(addr, T::WIDTH, data.bits()).unwrap();
        }
        self
    }

    fn mem_base<T: Word>(mut self, addr: WordType, value: T) -> Self {
        self.cpu.write(BASE_ADDR + addr, T::WIDTH, value.bits()).unwrap();
        self
    }

    fn program(mut self, instrs: &[u32]) -> Self {
        let mut addr = BASE_ADDR;
        for instr in instrs {
            self.cpu.write(addr, Width::W32, *instr as u64).unwrap();
            addr += 4;
        }
        self
    }

    fn csr(mut self, csr_addr: WordType, value: WordType) -> Self {
        self.cpu.csr.write_uncheck_privilege(csr_addr, value);
        self
    }

    fn build(self) -> Box<RVCPU> {
        self.cpu
    }
}

fn vlmul_bits(vlmul: Vlmul) -> u64 {
    match vlmul {
        Vlmul::M1 => 0,
        Vlmul::M2 => 1,
        Vlmul::M4 => 2,
        Vlmul::M8 => 3,
        Vlmul::MF8 => 5,
        Vlmul::MF4 => 6,
        Vlmul::MF2 => 7,
    }
}

fn vsew_bits(vsew: Vsew) -> u64 {
    match vsew {
        Vsew::E8 => 0,
        Vsew::E16 => 1,
        Vsew::E32 => 2,
        Vsew::E64 => 3,
    }
}

struct CPUChecker<'a> {
    cpu: &'a mut RVCPU,
}

impl<'a> CPUChecker<'a> {
    fn new(cpu: &'a mut RVCPU) -> Self {
        Self { cpu }.reg(0, 0)
    }

    fn reg(self, idx: u8, value: WordType) -> Self {
        assert_eq!(self.cpu.read_reg(idx), value, "register {} is wrong", idx);
        self
    }

    fn reg_f32(self, idx: u8, value: f32) -> Self {
        let bits = self.cpu.fpu.load(FloatFormat::Single, idx) as u32;
        assert_eq!(f32::from_bits(bits), value, "float register {} is wrong", idx);
        self
    }

    fn reg_f64(self, idx: u8, value: f64) -> Self {
        let bits = self.cpu.fpu.load(FloatFormat::Double, idx);
        assert_eq!(f64::from_bits(bits), value, "float register {} is wrong", idx);
        self
    }

    fn reg_vec<T: Word>(self, idx: u8, value: &[T]) -> Self {
        let reg_val = self.cpu.vector.read_as_type(idx, T::WIDTH).unwrap();
        let expected: Vec<u64> = value.iter().map(|v| v.bits()).collect();
        assert_eq!(reg_val, expected, "vector register {} is wrong", idx);
        self
    }

    fn pc(self, value: WordType) -> Self {
        assert_eq!(self.cpu.context.pc, value, "the program counter is wrong");
        self
    }

    fn mem<T: Word>(self, addr: WordType, value: WordType) -> Self {
        assert_eq!(
            self.cpu.read(addr, T::WIDTH).unwrap(),
            value,
            "memory at {:#x} is wrong",
            addr
        );
        self
    }

    fn mem_base<T: Word>(self, addr: WordType, value: WordType) -> Self {
        self.mem::<T>(BASE_ADDR + addr, value)
    }

    fn csr(self, addr: WordType, value: WordType) -> Self {
        assert_eq!(
            self.cpu.csr.read_uncheck_privilege(addr).unwrap(),
            value,
            "register {:#x} is wrong",
            addr
        );
        self
    }
}

/// The functions that generated code calls, numbered.
const HELPERS: Helpers = Helpers {
    load_u8: 1,
    load_u16: 2,
    load_u32: 3,
    load_u64: 4,
    store_u8: 5,
    store_u16: 6,
    store_u32: 7,
    store_u64: 8,
    check_alignment: 9,
};

const JIT_CONTEXT: u64 = 0x1234_5678_9abc;

const FRAME: u64 = 0x7fff_0000;

const AROUND: Surroundings = Surroundings { jit_context: JIT_CONTEXT, helpers: HELPERS };

/// A machine that runs the bytes of generated code.
struct Host {
    regs: [u64; 16],
    /// The memory round the guest registers, which start at a word of it.
    memory: Vec<u64>,
    origin: usize,
    compared: (u64, u64),
}

#[derive(Clone, Copy)]
enum Place {
    Reg(usize),
    Memory(usize),
}

impl Host {
    fn new(cpu: &RVCPU) -> Host {
        Host::bare((0..32).map(|i| cpu.read_reg(i)).collect(), 0)
    }

    fn bare(memory: Vec<u64>, origin: usize) -> Host {
        let mut regs = [0xdead_beef_dead_beef; 16];
        regs[5] = FRAME;
        Host { regs, memory, origin, compared: (0, 0) }
    }

    fn get(&self, place: Place) -> u64 {
        match place {
            Place::Reg(r) => self.regs[r],
            Place::Memory(i) => self.memory[i],
        }
    }

    fn set(&mut self, place: Place, value: u64) {
        match place {
            Place::Reg(r) => self.regs[r] = value,
            Place::Memory(i) => self.memory[i] = value,
        }
    }

    fn holds(&self, condition: u8) -> bool {
        let (a, b) = self.compared;
        match condition {
            0x2 => a < b,
            0x3 => a >= b,
            0x4 => a == b,
            0x5 => a != b,
            0xc => (a as i64) < b as i64,
            0xd => a as i64 >= b as i64,
            _ => panic!("unknown condition {condition}"),
        }
    }

    fn alu(&mut self, op: u8, wide: bool, a: u64, b: u64) -> Option<u64> {
        let r = match op {
            0 => a.wrapping_add(b),
            1 => a | b,
            4 => a & b,
            5 => a.wrapping_sub(b),
            6 => a ^ b,
            7 => {
                self.compared = (a, b);
                return None;
            }
            _ => panic!("unknown operation {op}"),
        };
        Some(if wide { r } else { r as u32 as u64 })
    }

    fn shift(op: u8, wide: bool, a: u64, count: u64) -> u64 {
        if wide {
            let n = count & 63;
            match op {
                4 => a << n,
                5 => a >> n,
                _ => ((a as i64) >> n) as u64,
            }
        } else {
            let n = count & 31;
            let a = a as u32;
            (match op {
                4 => a << n,
                5 => a >> n,
                _ => ((a as i32) >> n) as u32,
            }) as u64
        }
    }

    /// Calls a function. Returns `false` if it leaves the block.
    fn call(&mut self, target: u64, cpu: &mut RVCPU, context: &mut JitContext) -> bool {
        let (rdi, rsi, rdx, rcx, r8, r9) = (
            self.regs[7],
            self.regs[6],
            self.regs[2],
            self.regs[1],
            self.regs[8],
            self.regs[9],
        );
        for i in [0, 1, 2, 6, 7, 8, 9, 10, 11] {
            self.regs[i] = 0x5555_5555_5555_5555;
        }
        let widths = [Width::W8, Width::W16, Width::W32, Width::W64];
        match target {
            1..=4 => {
                assert_eq!((rdi, rdx), (FRAME, JIT_CONTEXT));
                let width = widths[target as usize - 1];
                match helper_load(cpu, width, rsi, context, rcx, r8) {
                    Some(value) => {
                        self.regs[0] = value | garbage_above(width);
                        true
                    }
                    None => false,
                }
            }
            5..=8 => {
                assert_eq!((rdi, rcx), (FRAME, JIT_CONTEXT));
                helper_store(cpu, widths[target as usize - 5], rsi, rdx, context, r8, r9)
            }
            9 => {
                assert_eq!(rsi, JIT_CONTEXT);
                match helper_check_instruction_alignment(rdi, context, rdx, rcx) {
                    Some(value) => {
                        self.regs[0] = value;
                        true
                    }
                    None => false,
                }
            }
            100 => {
                self.regs[0] =
                    rdi + rsi * 10 + rdx * 100 + rcx * 1_000 + r8 * 10_000 + r9 * 100_000;
                true
            }
            _ => panic!("unknown function {target}"),
        }
    }

    /// Runs code to its end. Returns the next address, or nothing if an exception left the code.
    fn run(&mut self, code: &[u8], cpu: &mut RVCPU, context: &mut JitContext) -> Option<u64> {
        let mut at = 0;
        loop {
            if code[at] == 0xc3 {
                assert_eq!(at + 1, code.len());
                return Some(self.regs[0]);
            }
            let rex = code[at];
            assert_eq!(rex >> 4, 4);
            let wide = rex & 8 != 0;
            let (rex_r, rex_b) = ((rex as usize >> 2 & 1) * 8, (rex as usize & 1) * 8);
            let mut opcode = code[at + 1] as u16;
            at += 2;
            if opcode & 0xf8 == 0xb8 {
                let mut bytes = [0; 8];
                bytes.copy_from_slice(&code[at..at + 8]);
                self.regs[(opcode as usize & 7) + rex_b] = u64::from_le_bytes(bytes);
                at += 8;
                continue;
            }
            if opcode == 0x0f {
                opcode = 0x0f00 | code[at] as u16;
                at += 1;
            }
            let modrm = code[at] as usize;
            at += 1;
            let reg = (modrm >> 3 & 7) + rex_r;
            let base = (modrm & 7) + rex_b;
            let place = match modrm >> 6 {
                3 => Place::Reg(base),
                mode => {
                    assert_eq!(self.regs[base], FRAME);
                    let disp = match mode {
                        1 => {
                            at += 1;
                            code[at - 1] as i8 as i64
                        }
                        2 => {
                            at += 4;
                            let mut bytes = [0; 4];
                            bytes.copy_from_slice(&code[at - 4..at]);
                            i32::from_le_bytes(bytes) as i64
                        }
                        _ => 0,
                    };
                    Place::Memory((self.origin as i64 + disp / 8) as usize)
                }
            };
            match opcode {
                0x63 => self.regs[reg] = self.get(place) as i32 as i64 as u64,
                0x8b if wide => self.regs[reg] = self.get(place),
                0x8b => self.regs[reg] = self.get(place) as u32 as u64,
                0x89 => {
                    assert!(wide);
                    self.set(place, self.regs[reg]);
                }
                0xff => {
                    let target = self.get(place);
                    if !self.call(target, cpu, context) {
                        return None;
                    }
                }
                0xd3 | 0xc1 => {
                    let count = if opcode == 0xd3 {
                        self.regs[1] & 0xff
                    } else {
                        at += 1;
                        code[at - 1] as u64
                    };
                    let value = Host::shift((modrm >> 3 & 7) as u8, wide, self.get(place), count);
                    self.set(place, value);
                }
                0x81 => {
                    let mut bytes = [0; 4];
                    bytes.copy_from_slice(&code[at..at + 4]);
                    at += 4;
                    let imm = i32::from_le_bytes(bytes) as i64 as u64;
                    let a = self.get(place);
                    if let Some(value) = self.alu((modrm >> 3 & 7) as u8, wide, a, imm) {
                        self.set(place, value);
                    }
                }
                0x0fb6 => self.regs[reg] = self.get(place) & 0xff,
                0x0fb7 => self.regs[reg] = self.get(place) & 0xffff,
                0x0fbe => self.regs[reg] = self.get(place) as i8 as i64 as u64,
                0x0fbf => self.regs[reg] = self.get(place) as i16 as i64 as u64,
                _ if opcode & 0xfff0 == 0x0f90 => {
                    let value = self.get(place) & !0xff | self.holds(opcode as u8 & 15) as u64;
                    self.set(place, value);
                }
                _ if opcode & 0xfff0 == 0x0f40 => {
                    if self.holds(opcode as u8 & 15) {
                        self.regs[reg] = self.get(place);
                    }
                }
                _ if opcode & 0xffc7 == 0x01 => {
                    let (a, b) = (self.get(place), self.regs[reg]);
                    if let Some(value) = self.alu((opcode >> 3) as u8, wide, a, b) {
                        self.set(place, value);
                    }
                }
                _ => panic!("unknown opcode {opcode:#x}"),
            }
        }
    }

    fn leave(&self, cpu: &mut RVCPU) {
        for i in 0..32 {
            cpu.write_reg(i as u8, self.memory[i]);
        }
    }
}

/// What a function may leave above the value that it returns.
fn garbage_above(width: Width) -> u64 {
    match width {
        Width::W8 => 0x7777_7777_7777_7700,
        Width::W16 => 0x7777_7777_7777_0000,
        Width::W32 => 0x7777_7777_0000_0000,
        Width::W64 => 0,
    }
}

/// Runs a hart on generated code.
struct Jit {
    engine: RvJitEngine,
    code: Vec<(CodeLocation, Vec<u8>)>,
}

impl Jit {
    fn new() -> Jit {
        Jit { engine: RvJitEngine::new(), code: Vec::new() }
    }

    fn step_batch(&mut self, cpu: &mut RVCPU, cycles: u64) {
        self.engine.begin(cpu, cycles);
        loop {
            let (block, code) = self.engine.next(cpu, AROUND);
            if let Some((at, bytes)) = code {
                self.code.retain(|(location, _)| *location != at);
                self.code.push((at, bytes));
            }
            let Some(block) = block else {
                break;
            };
            let code = self.code.iter().find(|(location, _)| *location == block.func).unwrap();
            let mut host = Host::new(cpu);
            let next_pc = host.run(&code.1, cpu, &mut self.engine.context);
            host.leave(cpu);
            match next_pc {
                Some(next_pc) => self.engine.finish_block(cpu, block, next_pc),
                None => self.engine.handle_exception_exit(cpu),
            }
        }
        assert_eq!(self.engine.context.remaining_cycles, 0);
    }
}

/// Executes one instruction with generated code, if it can be translated.
fn try_execute_instruction_for_test(
    cpu: &mut RVCPU,
    instr: RiscvInstr,
    info: RVInstrInfo,
) -> bool {
    let context = JitInfo {
        instr_pc: cpu.context.pc,
        instr_cnt: 0,
        instr_len: instr.len(),
        ialign: cpu.instruction_alignment(),
    };
    let mut codegen = X86CodeGen::new(JIT_CONTEXT, HELPERS);
    let next_pc = match codegen.translate_instruction(instr, info, context) {
        TranslateResult::Continue => Some(context.instr_pc.wrapping_add(context.instr_len)),
        TranslateResult::ControlFlow => None,
        TranslateResult::Unsupported => return false,
    };
    let code = codegen.build(next_pc);
    let mut left = JitContext::new();
    let mut host = Host::new(cpu);
    let next_pc = host.run(&code, cpu, &mut left);
    host.leave(cpu);
    match next_pc {
        Some(next_pc) => cpu.finish_jit_block(next_pc, 1, None),
        None => cpu.finish_jit_block(left.guest_pc, left.icount, left.exception),
    }
    true
}

fn assert_register_state_eq(label: &str, expected: &RVCPU, actual: &RVCPU) {
    for register in 0..32 {
        assert_eq!(
            actual.read_reg(register),
            expected.read_reg(register),
            "{label}: x{register} differs"
        );
    }
}

fn run_codegen_if_supported<F>(instr: RiscvInstr, info: RVInstrInfo, build: &F, interpreter: &RVCPU)
where
    F: Fn(TestCPUBuilder) -> TestCPUBuilder,
{
    let mut jit_cpu = build(TestCPUBuilder::new()).build();
    if !try_execute_instruction_for_test(&mut jit_cpu, instr, info) {
        return;
    }
    assert_register_state_eq("generated code", interpreter, &jit_cpu);
    assert_eq!(jit_cpu.context.pc, interpreter.context.pc);
}

fn run_test_exec<F, G>(instr: RiscvInstr, info: RVInstrInfo, build: F, check: G)
where
    F: Fn(TestCPUBuilder) -> TestCPUBuilder,
    G: Fn(CPUChecker) -> CPUChecker,
{
    let mut cpu = build(TestCPUBuilder::new()).build();
    cpu.execute(instr, info).unwrap();
    check(CPUChecker::new(&mut cpu));
    run_codegen_if_supported(instr, info, &build, &cpu);
}

fn run_test_exec_decode<F, G>(raw_instr: u32, build: F, check: G)
where
    F: Fn(TestCPUBuilder) -> TestCPUBuilder,
    G: Fn(CPUChecker) -> CPUChecker,
{
    let mut cpu = build(TestCPUBuilder::new()).build();
    let decoded = cpu.decoder.decode(RawInstr::new(raw_instr)).unwrap();
    cpu.execute(decoded.instr, decoded.info).unwrap();
    check(CPUChecker::new(&mut cpu));
    run_codegen_if_supported(decoded.instr, decoded.info, &build, &cpu);
}

struct ExecTester {
    rng: ChaCha12Rng,
}

impl ExecTester {
    fn new() -> Self {
        Self { rng: ChaCha12Rng::seed_from_u64(0721) }
    }

    fn rand_imm12(&mut self) -> WordType {
        self.rng.random_range(0..=4095) as WordType
    }

    fn rand_word(&mut self) -> WordType {
        self.rng.random_range(0..=WordType::MAX)
    }

    fn rand_word2(&mut self) -> (WordType, WordType) {
        (self.rand_word(), self.rand_word())
    }

    fn rand_reg_idx(&mut self) -> u8 {
        self.rng.random_range(1..REGFILE_CNT) as u8
    }

    fn rand_reg_idx2(&mut self) -> (u8, u8) {
        (self.rand_reg_idx(), self.rand_reg_idx())
    }

    fn rand_unique_reg_idx2(&mut self) -> (u8, u8) {
        let idx1 = self.rand_reg_idx();
        let mut idx2 = self.rand_reg_idx();
        while idx1 == idx2 {
            idx2 = self.rand_reg_idx();
        }
        (idx1, idx2)
    }

    fn test_rand_r_with(
        &mut self,
        instr: RiscvInstr,
        lhs: WordType,
        rhs: WordType,
        expected: WordType,
    ) {
        let rd = self.rand_reg_idx();
        let (rs1, rs2) = self.rand_unique_reg_idx2();
        let info = RVInstrInfo::R { rd, rs1, rs2 };
        run_test_exec(
            instr,
            info,
            |builder| builder.reg(rs1, lhs).reg(rs2, rhs).pc(0x1000),
            |checker| checker.reg(rd, expected).pc(0x1004),
        );
    }

    fn test_rand_r<F>(&mut self, instr: RiscvInstr, calc: F)
    where
        F: FnOnce(WordType, WordType) -> WordType,
    {
        let (val1, val2) = self.rand_word2();
        self.test_rand_r_with(instr, val1, val2, calc(val1, val2));
    }

    fn test_rand_i_with(
        &mut self,
        instr: RiscvInstr,
        lhs: WordType,
        imm: WordType,
        expected: WordType,
    ) {
        let (rd, rs1) = self.rand_reg_idx2();
        let info = RVInstrInfo::I { rd, rs1, imm };
        run_test_exec(
            instr,
            info,
            |builder| builder.reg(rs1, lhs).pc(0x1000),
            |checker| checker.reg(rd, expected).pc(0x1004),
        );
    }

    fn test_rand_i<F>(&mut self, instr: RiscvInstr, calc: F)
    where
        F: FnOnce(WordType, WordType) -> WordType,
    {
        let val = self.rand_word();
        let imm = self.rand_imm12();
        self.test_rand_i_with(instr, val, sign_extend(imm, 12), calc(val, sign_extend(imm, 12)));
    }
}

fn shift_amount(value: u64) -> u32 {
    (value & 63) as u32
}

fn as_signed_i128(value: u64) -> i128 {
    value as i64 as i128
}

fn from_signed_i128(value: i128) -> u64 {
    value as u64
}

#[test]
fn test_step_batch_executes_requested_cycles() {
    let mut cpu = TestCPUBuilder::new()
        .mem_base(0, 0x0000_0013_u32)
        .mem_base(4, 0x0000_0013_u32)
        .mem_base(8, 0x0000_0013_u32)
        .build();

    cpu.step_batch(3);

    assert_eq!(cpu.context.pc, BASE_ADDR + 12);
    assert_eq!(cpu.csr.get_by_type_existing(NamedCsrReg::Mcycle).value(), 3);
    assert_eq!(cpu.csr.get_by_type_existing(NamedCsrReg::Minstret).value(), 3);
}

#[test]
fn test_step_batch_debug_stops_without_affecting_normal_execution() {
    struct StopAfterTwo(Vec<(WordType, Option<RawInstr>, Option<DecodeInstr>)>);

    impl ExecutionHook for StopAfterTwo {
        type CycleContext = (WordType, Option<RawInstr>, Option<DecodeInstr>);

        type Model = ();

        fn model(&self) {
            unreachable!()
        }

        fn before(_model: (), _state: CpuState) -> ((), CpuState, Self::CycleContext) {
            unreachable!()
        }

        fn interrupted(_model: (), _pc: u64) -> ((), Self::CycleContext) {
            unreachable!()
        }

        fn after(
            _model: (),
            _context: Self::CycleContext,
            _state: CpuState,
        ) -> ((), CpuState, bool) {
            unreachable!()
        }

        fn before_step(&mut self, cpu: &mut RVCPU) -> Self::CycleContext {
            let pc = cpu.context.pc;
            let raw = cpu
                .read_for_debug_ifetch(pc, Width::W32)
                .ok()
                .map(|bits| RawInstr::new(bits as u32));
            (pc, raw, raw.and_then(|raw| cpu.decoder.decode(raw)))
        }

        fn on_interrupt_taken(&mut self, pc: WordType) -> Self::CycleContext {
            (pc, None, None)
        }

        fn after_step(&mut self, context: Self::CycleContext, _cpu: &mut RVCPU) -> bool {
            self.0.push(context);
            self.0.len() == 2
        }
    }

    let build_cpu = || {
        TestCPUBuilder::new()
            .mem_base(0, 0x0010_8093_u32) // addi x1, x1, 1
            .mem_base(4, 0x0010_8093_u32)
            .mem_base(8, 0x0010_8093_u32)
            .build()
    };
    let mut normal = build_cpu();
    let mut debug = build_cpu();

    normal.step_batch(2);
    let mut hook = StopAfterTwo(Vec::new());
    let result: BatchResult = debug.step_batch_with_hook(3, &mut hook);

    assert_eq!(result.cycles, 2);
    assert!(result.hook_stopped);
    assert_eq!(debug.context.pc, normal.context.pc);
    assert_eq!(debug.read_reg(1), normal.read_reg(1));
    assert_eq!(debug.csr.get_by_type_existing(NamedCsrReg::Mcycle).value(), 2);
    assert_eq!(hook.0[0].0, BASE_ADDR);
    assert_eq!(hook.0[1].0, BASE_ADDR + 4);
    assert!(hook.0.iter().all(|step| step.1.is_some()));
    assert!(hook.0.iter().all(|step| step.2.is_some()));
}

#[test]
fn test_step_batch_zero_is_noop() {
    let mut cpu = TestCPUBuilder::new().build();
    let pc = cpu.context.pc;

    cpu.step_batch(0);

    assert_eq!(cpu.context.pc, pc);
    assert_eq!(cpu.csr.get_by_type_existing(NamedCsrReg::Mcycle).value(), 0);
}

#[test]
fn test_step_batch_continues_after_exception() {
    let handler = BASE_ADDR + 0x100;
    let mut cpu = TestCPUBuilder::new()
        .mem_base(0, 0xffff_ffff_u32)
        .mem_base(0x100, 0x0010_8093_u32) // addi x1, x1, 1
        .mem_base(0x104, 0x0010_8093_u32)
        .csr(NamedCsrReg::Mtvec.get_index(), handler)
        .build();

    cpu.step_batch(3);

    assert_eq!(cpu.read_reg(1), 2);
    assert_eq!(cpu.context.pc, handler + 8);
    assert_eq!(
        cpu.csr.get_by_type_existing(NamedCsrReg::Mcause).value(),
        Exception::IllegalInstruction.code()
    );
    assert_eq!(
        cpu.csr.get_by_type_existing(NamedCsrReg::Mepc).value(),
        BASE_ADDR
    );
}

#[test]
fn test_decode_at_and_step_share_icache() {
    let mut cpu = TestCPUBuilder::new().program(&[0x0010_8093]).build();
    let pc = cpu.context.pc;

    assert!(cpu.decode_at(pc).is_some());
    assert_eq!(cpu.icache.access_count(), 1);
    assert_eq!(cpu.icache.hit_count(), 0);

    assert!(cpu.decode_at(pc).is_some());
    assert_eq!(cpu.icache.access_count(), 2);
    assert_eq!(cpu.icache.hit_count(), 1);

    cpu.step_batch_no_interrupt(1);
    assert_eq!(cpu.icache.access_count(), 3);
    assert_eq!(cpu.icache.hit_count(), 2);
}

#[test]
fn test_icache_epoch_tracks_explicit_invalidations() {
    let mut fence_i = TestCPUBuilder::new().program(&[0x0000_100f]).build();
    fence_i.step_batch_no_interrupt(1);
    assert_eq!(fence_i.icache_epoch(), 1);

    let mut sfence_vma = TestCPUBuilder::new().program(&[0x1200_0073]).build();
    sfence_vma.step_batch_no_interrupt(1);
    assert_eq!(sfence_vma.icache_epoch(), 1);

    let mut satp_write = TestCPUBuilder::new().build();
    satp_write.write_csr(NamedCsrReg::Satp.get_index(), 1).unwrap();
    assert_eq!(satp_write.icache_epoch(), 1);
}

#[test]
fn test_privilege_returns_do_not_advance_icache_epoch() {
    let mut cpu = TestCPUBuilder::new().build();
    cpu.csr
        .write_uncheck_privilege(NamedCsrReg::Mepc.get_index(), BASE_ADDR + 4);
    cpu.csr.set_field(CsrField::Mstatus_mpp, PrivilegeLevel::S.rank());

    TrapController::mret(&mut cpu);
    assert_eq!(cpu.icache_epoch(), 0);

    cpu.csr
        .write_uncheck_privilege(NamedCsrReg::Sepc.get_index(), BASE_ADDR + 8);
    cpu.csr.set_field(CsrField::Mstatus_spp, PrivilegeLevel::U.rank());

    TrapController::sret(&mut cpu);
    assert_eq!(cpu.icache_epoch(), 0);
}

#[test]
fn test_exec_arith() {
    let mut tester = ExecTester::new();

    run_test_exec(
        RiscvInstr::ADDI,
        RVInstrInfo::I {
            rd: 2,
            rs1: 3,
            imm: negative_of(5),
        },
        |builder| builder.reg(3, 10).pc(0x2000),
        |checker| checker.reg(2, 5).pc(0x2004),
    );

    for _ in 1..=100 {
        tester.test_rand_r(RiscvInstr::ADD, |lhs, rhs| lhs.wrapping_add(rhs));
        tester.test_rand_r(RiscvInstr::SUB, |lhs, rhs| lhs.wrapping_sub(rhs));
        tester.test_rand_i(RiscvInstr::ADDI, |lhs, imm| lhs.wrapping_add(imm));

        tester.test_rand_r(RiscvInstr::AND, |lhs, rhs| lhs & rhs);
        tester.test_rand_r(RiscvInstr::OR, |lhs, rhs| lhs | rhs);
        tester.test_rand_r(RiscvInstr::XOR, |lhs, rhs| lhs ^ rhs);
        tester.test_rand_i(RiscvInstr::ANDI, |lhs, imm| lhs & imm);
        tester.test_rand_i(RiscvInstr::ORI, |lhs, imm| lhs | imm);
        tester.test_rand_i(RiscvInstr::XORI, |lhs, imm| lhs ^ imm);

        tester.test_rand_r(RiscvInstr::SLT, |lhs, rhs| {
            ((lhs as i64) < rhs as i64) as WordType
        });
        tester.test_rand_r(RiscvInstr::SLTU, |lhs, rhs| (lhs < rhs) as WordType);

        tester.test_rand_r(RiscvInstr::ADDW, |lhs, rhs| {
            sign_extend(lhs.wrapping_add(rhs), 32)
        });
        tester.test_rand_r(RiscvInstr::SUBW, |lhs, rhs| {
            sign_extend(lhs.wrapping_sub(rhs), 32)
        });
        tester.test_rand_i(RiscvInstr::ADDIW, |lhs, imm| {
            sign_extend(lhs.wrapping_add(imm), 32)
        });

        tester.test_rand_r(RiscvInstr::SLL, |lhs, rhs| lhs << shift_amount(rhs));
        tester.test_rand_r(RiscvInstr::SRL, |lhs, rhs| lhs >> shift_amount(rhs));
        tester.test_rand_r(RiscvInstr::SRA, |lhs, rhs| {
            from_signed_i128(as_signed_i128(lhs) >> shift_amount(rhs))
        });

        let value = tester.rand_word();
        let shamt = tester.rand_word() & ((WordType::BITS - 1) as WordType);
        tester.test_rand_i_with(RiscvInstr::SLLI, value, shamt, value << shift_amount(shamt));

        let value = tester.rand_word();
        let shamt = tester.rand_word() & ((WordType::BITS - 1) as WordType);
        tester.test_rand_i_with(RiscvInstr::SRLI, value, shamt, value >> shift_amount(shamt));

        let value = tester.rand_word();
        let shamt = tester.rand_word() & ((WordType::BITS - 1) as WordType);
        tester.test_rand_i_with(
            RiscvInstr::SRAI,
            value,
            shamt,
            from_signed_i128(as_signed_i128(value) >> shift_amount(shamt)),
        );

        let (value, shamt) = tester.rand_word2();
        let shamt = (shamt & 31) as u32;
        tester.test_rand_r_with(
            RiscvInstr::SLLW,
            value,
            shamt as WordType,
            sign_extend(((value as u32) << shamt) as WordType, 32),
        );

        let (value, shamt) = tester.rand_word2();
        let shamt = (shamt & 31) as u32;
        tester.test_rand_r_with(
            RiscvInstr::SRLW,
            value,
            shamt as WordType,
            sign_extend(((value as u32) >> shamt) as WordType, 32),
        );

        let (value, shamt) = tester.rand_word2();
        let shamt = (shamt & 31) as u32;
        tester.test_rand_r_with(
            RiscvInstr::SRAW,
            value,
            shamt as WordType,
            sign_extend(((value as u32 as i32) >> shamt) as u32 as WordType, 32),
        );

        let value = tester.rand_word();
        let shamt = (tester.rand_word() & 31) as u32;
        tester.test_rand_i_with(
            RiscvInstr::SLLIW,
            value,
            shamt as WordType,
            sign_extend(((value as u32) << shamt) as WordType, 32),
        );

        let value = tester.rand_word();
        let shamt = (tester.rand_word() & 31) as u32;
        tester.test_rand_i_with(
            RiscvInstr::SRLIW,
            value,
            shamt as WordType,
            sign_extend(((value as u32) >> shamt) as WordType, 32),
        );

        let value = tester.rand_word();
        let shamt = (tester.rand_word() & 31) as u32;
        tester.test_rand_i_with(
            RiscvInstr::SRAIW,
            value,
            shamt as WordType,
            sign_extend(((value as u32 as i32) >> shamt) as u32 as WordType, 32),
        );

        tester.test_rand_i(RiscvInstr::SLTI, |lhs, imm| {
            ((lhs as i64) < sign_extend(imm, 12) as i64) as WordType
        });
        tester.test_rand_i(RiscvInstr::SLTIU, |lhs, imm| {
            ((lhs) < (sign_extend(imm, 12))) as WordType
        });
    }

    run_test_exec(
        RiscvInstr::SUB,
        RVInstrInfo::R {
            rd: 2,
            rs1: 3,
            rs2: 2,
        },
        |builder| builder.reg(2, 7).reg(3, 19).pc(0x1000),
        |checker| checker.reg(2, 12).pc(0x1004),
    );

    run_test_exec_decode(
        0x02520333, // mul x6, x4, x5
        |builder| builder.reg(4, 5).reg(5, 10).pc(0x1000),
        |checker| checker.reg(6, 50).pc(0x1004),
    );
}

#[test]
fn test_load_store_decode() {
    run_test_exec_decode(
        0x00812183, // lw x3, 8(x2)
        |builder| {
            builder
                .reg(2, BASE_ADDR)
                .mem_base::<u32>(8, 123)
                .pc(0x1000)
        },
        |checker| checker.reg(3, 123).pc(0x1004),
    );

    run_test_exec_decode(
        0xfec42783, // lw a5,-20(s0)
        |builder| {
            builder
                .reg(8, BASE_ADDR + 36)
                .mem_base(16, 123 as u32)
                .pc(0x1000)
        },
        |checker| checker.reg(15, 123).pc(0x1004),
    );

    run_test_exec_decode(
        0xfe112c23, // sw x1, -8(x2)
        |builder| builder.reg(2, BASE_ADDR + 16).reg(1, 123),
        |checker| checker.mem_base::<u32>(8, 123),
    );

    run_test_exec_decode(
        0xfcf42e23, // sw a5,-36(s0)
        |builder| builder.reg(15, 123).reg(8, BASE_ADDR + 72),
        |checker| checker.mem_base::<u32>(36, 123),
    );

    run_test_exec_decode(
        0xfef43423, // sd a5,-24(s0)
        |builder| builder.reg(15, 123).reg(8, BASE_ADDR + 24),
        |checker| checker.mem_base::<u32>(0, 123),
    );
}

#[test]
fn test_u_types_decode() {
    run_test_exec_decode(
        0x12233097, // auipc x1, 0x112233
        |builder| builder.reg(1, 3).pc(0x1000),
        |checker| checker.reg(1, 0x12234000).pc(0x1004),
    );

    run_test_exec_decode(
        0x80000097, // auipc x1, 0x80000
        |builder| builder.pc(0x1000),
        |checker| checker.reg(1, 0xffffffff80001000).pc(0x1004),
    );

    run_test_exec_decode(
        0x123451b7, //lui x3, 0x12345
        |builder| builder.reg(3, 0x54321).pc(0x1000),
        |checker| checker.reg(3, 0x12345000).pc(0x1004),
    );
}

#[test]
fn test_branch_decode() {
    run_test_exec_decode(
        0xf8c318e3, // bne x6, x12, -112
        |builder| builder.reg(6, 5).reg(12, 10).pc(0x2000),
        |checker| checker.pc(0x2000 - 112),
    );
}

#[test]
fn test_jump_decode() {
    run_test_exec_decode(
        0xf81ff06f, // jal x0, -128
        |builder| builder.reg(0, 0).pc(0x1234),
        |checker| checker.pc(0x1234 - 128),
    );

    run_test_exec_decode(
        0x00078067, // jr a5
        |builder| builder.reg(15, 0x2468).pc(0x1234),
        |checker| checker.pc(0x2468),
    );
}

#[test]
fn test_csr() {
    // 2) CSRRS x12, mtvec(0x305), x6
    run_test_exec_decode(
        0x30532673,
        |builder| builder.reg(6, 0x00F0).csr(0x305, 0x0F00).pc(0x1000),
        |checker| checker.reg(12, 0x0F00).csr(0x305, 0x0FF0).pc(0x1004),
    );

    // 3) CSRRC x13, mepc(0x341), x7
    run_test_exec_decode(
        0x3413b6f3,
        |builder| builder.reg(7, 0x0FF0).csr(0x341, 0x0FFF).pc(0x1000),
        |checker| checker.reg(13, 0x0FFF).csr(0x341, 0x000F).pc(0x1004),
    );

    // 4) CSRRWI x11, mcause(0x342), imm=5
    run_test_exec_decode(
        0x3422d5f3,
        |builder| builder.csr(0x342, 0xABCD).pc(0x1000),
        |checker| checker.reg(11, 0xABCD).csr(0x342, 5).pc(0x1004),
    );

    // 5) CSRRSI x12, mip(0x344), imm=6
    run_test_exec_decode(
        0x34436673,
        |builder| builder.csr(0x344, 0x00F0).pc(0x1000),
        |checker| checker.reg(12, 0x00F0).csr(0x344, 0x00F6).pc(0x1004),
    );

    // 6) CSRRCI x13, mie(0x304), imm=7
    run_test_exec_decode(
        0x3043f6f3,
        |builder| builder.csr(0x304, 0x00FF).pc(0x1000),
        |checker| checker.reg(13, 0x00FF).csr(0x304, 0x00F8).pc(0x1004),
    );
}

#[test]
fn test_rv_m() {
    run_test_exec_decode(
        0x02c59733, // mulh a4,a1,a2
        |builder| builder.reg(11, 0xffffffffffff8000).reg(12, 0),
        |checker| checker.reg(14, 0),
    );

    run_test_exec_decode(
        0x02c59733, // mulh a4,a1,a2
        |builder| {
            builder
                .reg(11, 0xffffffff80000000)
                .reg(12, 0xffffffffffff8000)
        },
        |checker| checker.reg(14, 0),
    );
}

#[test]
fn test_rv32_f() {
    run_test_exec_decode(
        0x001015f3, // fsflags a1,zero => csrrw a1, fflags, zero
        |builder| builder.reg(1, 0).csr(3, 0b11011111),
        |checker| {
            checker
                .reg(1, 0)
                .reg(11, 0b11111)
                .csr(1, 0)
                .csr(2, 0b110)
                .csr(3, 0b11000000)
        },
    );

    run_test_exec_decode(
        0xe0068553, // fmv.x.w a0,fa3
        |builder| builder.reg_f32(13, 3.5),
        |checker| checker.reg(10, 0x40600000),
    );

    run_test_exec_decode(
        0x00b576d3, // fadd.s fa3,fa0,fa1
        |builder| builder.reg_f32(10, 3.14159265).reg_f32(11, 0.00000001),
        |checker| checker.reg_f32(13, 3.14159265).csr(3, 0b00001),
    );

    run_test_exec_decode(
        0x08b576d3, // fsub.s fa3,fa0,fa1
        |builder| {
            builder
                .reg_f32(10, f32::INFINITY)
                .reg_f32(11, f32::INFINITY)
        },
        |checker| checker.csr(3, 0b10000),
    );

    run_test_exec_decode(
        0x00102573, // frflags a0 => csrrs a0, fflags, x0
        |builder| builder.csr(csr_index::fcsr, 0b11011011),
        |checker| checker.reg(10, 0b11011),
    );

    run_test_exec_decode(
        0xd0057553, // fcvt.s.w fa0,a0
        |builder| builder.reg(10, negative_of(2)),
        |checker| checker.reg_f32(10, -2.0),
    );

    run_test_exec_decode(
        0xd0357553, // fcvt.s.lu fa0,a0
        |builder| builder.reg(10, 2),
        |checker| checker.reg_f32(10, 2.0),
    );

    run_test_exec_decode(
        0xc0051553, // fcvt.w.s a0,fa0,rtz
        |builder| builder.reg_f32(10, -1.1),
        |checker| checker.reg(10, negative_of(1)).csr(csr_index::fflags, 1),
    );

    run_test_exec_decode(
        0xc0051553, // fcvt.w.s a0,fa0,rtz
        |builder| builder.reg_f32(10, -1.0),
        |checker| checker.reg(10, negative_of(1)).csr(csr_index::fflags, 0),
    );

    // Cannot represent in dest format.
    run_test_exec_decode(
        0xc0051553, // fcvt.w.s a0,fa0,rtz
        |builder| builder.reg_f32(10, -3e9),
        |checker| {
            checker
                .reg(10, negative_of(1).wrapping_shl(31))
                .csr(csr_index::fflags, 0x10)
        },
    );

    // fcvt.w.s `-NAN`, should give i32::MAX
    run_test_exec_decode(
        0xc0051553, // fcvt.w.s a0,fa0,rtz
        |builder| builder.reg_f32(10, f32::from_bits(0xffffffff)),
        |checker| checker.reg(10, i32::MAX as WordType),
    );
}

#[test]
fn test_rv64_f() {
    run_test_exec_decode(
        0xe2068553, // fmv.x.d a0,fa3
        |builder| builder.reg_f64(13, 3.5),
        |checker| checker.reg(10, 3.5f64.to_bits()),
    );
}

#[test]
fn test_rv_c_arith() {
    run_test_exec(
        RiscvInstr::C_ADD,
        RVInstrInfo::CR { rd_rs1: 5, rs2: 6 },
        |builder| builder.reg(5, 10).reg(6, 20).pc(0x2000),
        |checker| checker.reg(5, 30).pc(0x2002), // compressed -> pc += 2
    );

    run_test_exec(
        RiscvInstr::C_ADDI,
        RVInstrInfo::CI {
            rd_rs1: 5,
            imm: negative_of(3),
        },
        |builder| builder.reg(5, 10).pc(0x2000),
        |checker| checker.reg(5, 7).pc(0x2002),
    );

    run_test_exec(
        RiscvInstr::C_SUB,
        RVInstrInfo::CA { rd_rs1: 8, rs2: 9 },
        |builder| builder.reg(8, 30).reg(9, 12).pc(0x2000),
        |checker| checker.reg(8, 18).pc(0x2002),
    );

    run_test_exec(
        RiscvInstr::C_AND,
        RVInstrInfo::CA { rd_rs1: 8, rs2: 9 },
        |builder| builder.reg(8, 0b1100).reg(9, 0b1010).pc(0x2000),
        |checker| checker.reg(8, 0b1000).pc(0x2002),
    );
    run_test_exec(
        RiscvInstr::C_OR,
        RVInstrInfo::CA { rd_rs1: 8, rs2: 9 },
        |builder| builder.reg(8, 0b1100).reg(9, 0b1010).pc(0x2000),
        |checker| checker.reg(8, 0b1110).pc(0x2002),
    );
    run_test_exec(
        RiscvInstr::C_XOR,
        RVInstrInfo::CA { rd_rs1: 8, rs2: 9 },
        |builder| builder.reg(8, 0b1100).reg(9, 0b1010).pc(0x2000),
        |checker| checker.reg(8, 0b0110).pc(0x2002),
    );

    run_test_exec(
        RiscvInstr::C_ANDI,
        RVInstrInfo::CB {
            rd_rs1: 8,
            imm: 0b110,
        },
        |builder| builder.reg(8, 0b1011).pc(0x2000),
        |checker| checker.reg(8, 0b0010).pc(0x2002),
    );

    run_test_exec(
        RiscvInstr::C_SLLI,
        RVInstrInfo::CI { rd_rs1: 5, imm: 4 },
        |builder| builder.reg(5, 1).pc(0x2000),
        |checker| checker.reg(5, 16).pc(0x2002),
    );
    run_test_exec(
        RiscvInstr::C_SRLI,
        RVInstrInfo::CB { rd_rs1: 8, imm: 1 },
        |builder| builder.reg(8, 0x10).pc(0x2000),
        |checker| checker.reg(8, 0x8).pc(0x2002),
    );
    run_test_exec(
        RiscvInstr::C_SRAI,
        RVInstrInfo::CB { rd_rs1: 8, imm: 1 },
        |builder| builder.reg(8, negative_of(16)).pc(0x2000),
        |checker| checker.reg(8, negative_of(8)).pc(0x2002),
    );

    run_test_exec(
        RiscvInstr::C_ADDW,
        RVInstrInfo::CA { rd_rs1: 8, rs2: 9 },
        |builder| builder.reg(8, 0x7fff_ffff).reg(9, 1).pc(0x2000),
        |checker| checker.reg(8, 0xffff_ffff_8000_0000).pc(0x2002),
    );
    run_test_exec(
        RiscvInstr::C_ADDIW,
        RVInstrInfo::CI { rd_rs1: 8, imm: 1 },
        |builder| builder.reg(8, 0x7fff_ffff).pc(0x2000),
        |checker| checker.reg(8, 0xffff_ffff_8000_0000).pc(0x2002),
    );
    run_test_exec(
        RiscvInstr::C_SUBW,
        RVInstrInfo::CA { rd_rs1: 8, rs2: 9 },
        |builder| builder.reg(8, 20).reg(9, 5).pc(0x2000),
        |checker| checker.reg(8, 15).pc(0x2002),
    );

    run_test_exec(
        RiscvInstr::C_ADDI16SP,
        RVInstrInfo::CI {
            rd_rs1: 2,
            imm: negative_of(16),
        },
        |builder| builder.reg(2, 0x100).pc(0x2000),
        |checker| checker.reg(2, 0xf0).pc(0x2002),
    );
    run_test_exec(
        RiscvInstr::C_ADDI4SPN,
        RVInstrInfo::CIW { rd: 8, imm: 16 },
        |builder| builder.reg(2, 0x100).pc(0x2000),
        |checker| checker.reg(8, 0x110).pc(0x2002),
    );

    run_test_exec(
        RiscvInstr::C_MV,
        RVInstrInfo::CR { rd_rs1: 5, rs2: 6 },
        |builder| builder.reg(6, 0xabc).pc(0x2000),
        |checker| checker.reg(5, 0xabc).pc(0x2002),
    );

    run_test_exec(
        RiscvInstr::C_LI,
        RVInstrInfo::CI {
            rd_rs1: 5,
            imm: negative_of(7),
        },
        |builder| builder.reg(5, 0xdead).pc(0x2000),
        |checker| checker.reg(5, negative_of(7)).pc(0x2002),
    );
    run_test_exec(
        RiscvInstr::C_LUI,
        RVInstrInfo::CI {
            rd_rs1: 5,
            imm: 0x12345 << 12,
        },
        |builder| builder.reg(5, 0).pc(0x2000),
        |checker| checker.reg(5, 0x12345000).pc(0x2002),
    );

    run_test_exec(
        RiscvInstr::C_NOP,
        RVInstrInfo::NoOperands,
        |builder| builder.reg(5, 0x1234).pc(0x2000),
        |checker| checker.reg(5, 0x1234).pc(0x2002),
    );
}

#[test]
fn test_rv_c_load_store() {
    run_test_exec(
        RiscvInstr::C_LW,
        RVInstrInfo::CL {
            rd: 8,
            rs1: 9,
            imm: 8,
        },
        |builder| {
            builder
                .reg(9, BASE_ADDR)
                .mem_base::<u32>(8, 0x8000_0001)
                .pc(0x2000)
        },
        |checker| checker.reg(8, 0xffff_ffff_8000_0001).pc(0x2002),
    );
    run_test_exec(
        RiscvInstr::C_LD,
        RVInstrInfo::CL {
            rd: 8,
            rs1: 9,
            imm: 8,
        },
        |builder| {
            builder
                .reg(9, BASE_ADDR)
                .mem_base::<u64>(8, 0x1122_3344_5566)
                .pc(0x2000)
        },
        |checker| checker.reg(8, 0x1122_3344_5566).pc(0x2002),
    );

    run_test_exec(
        RiscvInstr::C_SW,
        RVInstrInfo::CS {
            rs1: 9,
            rs2: 8,
            imm: 8,
        },
        |builder| {
            builder
                .reg(9, BASE_ADDR)
                .reg(8, 0xdead)
                .pc(0x2000)
        },
        |checker| checker.mem_base::<u32>(8, 0xdead).pc(0x2002),
    );
    run_test_exec(
        RiscvInstr::C_SD,
        RVInstrInfo::CS {
            rs1: 9,
            rs2: 8,
            imm: 8,
        },
        |builder| {
            builder
                .reg(9, BASE_ADDR)
                .reg(8, 0x1122_3344_5566)
                .pc(0x2000)
        },
        |checker| checker.mem_base::<u64>(8, 0x1122_3344_5566).pc(0x2002),
    );

    run_test_exec(
        RiscvInstr::C_LWSP,
        RVInstrInfo::CI { rd_rs1: 8, imm: 8 },
        |builder| {
            builder
                .reg(2, BASE_ADDR)
                .mem_base::<u32>(8, 0x55)
                .pc(0x2000)
        },
        |checker| checker.reg(8, 0x55).pc(0x2002),
    );
    run_test_exec(
        RiscvInstr::C_LDSP,
        RVInstrInfo::CI { rd_rs1: 8, imm: 8 },
        |builder| {
            builder
                .reg(2, BASE_ADDR)
                .mem_base::<u64>(8, 0x99)
                .pc(0x2000)
        },
        |checker| checker.reg(8, 0x99).pc(0x2002),
    );
    run_test_exec(
        RiscvInstr::C_SWSP,
        RVInstrInfo::CSS { rs2: 8, imm: 8 },
        |builder| {
            builder
                .reg(2, BASE_ADDR)
                .reg(8, 0xbeef)
                .pc(0x2000)
        },
        |checker| checker.mem_base::<u32>(8, 0xbeef).pc(0x2002),
    );
    run_test_exec(
        RiscvInstr::C_SDSP,
        RVInstrInfo::CSS { rs2: 8, imm: 8 },
        |builder| {
            builder
                .reg(2, BASE_ADDR)
                .reg(8, 0xc0ff_ee00)
                .pc(0x2000)
        },
        |checker| checker.mem_base::<u64>(8, 0xc0ff_ee00).pc(0x2002),
    );
}

#[test]
fn test_rv_c_branch_jump() {
    run_test_exec(
        RiscvInstr::C_BEQZ,
        RVInstrInfo::CB {
            rd_rs1: 8,
            imm: negative_of(4),
        },
        |builder| builder.reg(8, 0).pc(0x2000),
        |checker| checker.pc(0x2000 - 4),
    );
    run_test_exec(
        RiscvInstr::C_BEQZ,
        RVInstrInfo::CB { rd_rs1: 8, imm: 16 },
        |builder| builder.reg(8, 1).pc(0x2000),
        |checker| checker.pc(0x2002),
    );
    run_test_exec(
        RiscvInstr::C_BNEZ,
        RVInstrInfo::CB { rd_rs1: 8, imm: 8 },
        |builder| builder.reg(8, 5).pc(0x2000),
        |checker| checker.pc(0x2008),
    );
    run_test_exec(
        RiscvInstr::C_BNEZ,
        RVInstrInfo::CB { rd_rs1: 8, imm: 8 },
        |builder| builder.reg(8, 0).pc(0x2000),
        |checker| checker.pc(0x2002),
    );

    run_test_exec(
        RiscvInstr::C_J,
        RVInstrInfo::CJ {
            target: negative_of(0x10),
        },
        |builder| builder.pc(0x2000),
        |checker| checker.pc(0x2000 - 0x10),
    );
    run_test_exec(
        RiscvInstr::C_JAL,
        RVInstrInfo::CJ { target: 0x20 },
        |builder| builder.pc(0x2000),
        |checker| checker.reg(1, 0x2002).pc(0x2020),
    );
    run_test_exec(
        RiscvInstr::C_JALR,
        RVInstrInfo::CR { rd_rs1: 5, rs2: 0 },
        |builder| builder.reg(5, 0x3000).pc(0x2000),
        |checker| checker.reg(1, 0x2002).pc(0x3000),
    );
    run_test_exec(
        RiscvInstr::C_JR,
        RVInstrInfo::CR { rd_rs1: 5, rs2: 0 },
        |builder| builder.reg(5, 0x3000).pc(0x2000),
        |checker| checker.pc(0x3000),
    );
}

#[test]
fn test_rv_c_float() {
    run_test_exec(
        RiscvInstr::C_FLD,
        RVInstrInfo::CL {
            rd: 8,
            rs1: 9,
            imm: 8,
        },
        |builder| {
            builder
                .reg(9, BASE_ADDR)
                .mem_base::<u64>(8, 3.5f64.to_bits())
                .pc(0x2000)
        },
        |checker| checker.reg_f64(8, 3.5).pc(0x2002),
    );
    run_test_exec(
        RiscvInstr::C_FSD,
        RVInstrInfo::CS {
            rs1: 9,
            rs2: 8,
            imm: 8,
        },
        |builder| {
            builder
                .reg(9, BASE_ADDR)
                .reg_f64(8, 2.5)
                .pc(0x2000)
        },
        |checker| checker.mem_base::<u64>(8, 2.5f64.to_bits()).pc(0x2002),
    );

    run_test_exec(
        RiscvInstr::C_FLDSP,
        RVInstrInfo::CI { rd_rs1: 8, imm: 8 },
        |builder| {
            builder
                .reg(2, BASE_ADDR)
                .mem_base::<u64>(8, 1.25f64.to_bits())
                .pc(0x2000)
        },
        |checker| checker.reg_f64(8, 1.25).pc(0x2002),
    );
    run_test_exec(
        RiscvInstr::C_FSDSP,
        RVInstrInfo::CSS { rs2: 8, imm: 8 },
        |builder| {
            builder
                .reg(2, BASE_ADDR)
                .reg_f64(8, 6.0)
                .pc(0x2000)
        },
        |checker| checker.mem_base::<u64>(8, 6.0f64.to_bits()).pc(0x2002),
    );
}

#[test]
fn test_default_csr_value() {
    let cpu = TestCPUBuilder::new().build();

    let mstatus = cpu.csr.read_uncheck_privilege(csr_index::mstatus).unwrap();
    assert_eq!(extract_range(mstatus, 32, 33), 2);
}

#[test]
fn test_cpu_test_builder_enables_vector_isa() {
    let cpu = TestCPUBuilder::new().build();
    let misa = cpu.csr.read_uncheck_privilege(csr_index::misa).unwrap();
    let v_bit = 1 << (b'V' - b'A');
    assert_ne!(misa & v_bit, 0);
}

#[test]
fn test_vector_config() {
    run_test_exec(
        RiscvInstr::VSETVL,
        RVInstrInfo::V {
            rs1: 1,
            rs2: 2,
            rd: 3,
            vm: false,
            func6: 0b100000,
        },
        |builder| builder.reg(1, 100).reg(2, 0b00_010_001).pc(0x2000), // sew = 32, lmul = 2
        |checker| {
            checker
                .reg(3, VLEN as WordType * 2 / 32)
                .csr(NamedCsrReg::Vtype.get_index(), 0b00_010_001)
                .pc(0x2004)
        },
    );

    run_test_exec(
        RiscvInstr::VSETVLI,
        RVInstrInfo::V {
            rs1: 1,
            rs2: 0b10_001,
            rd: 3,
            vm: false,
            func6: 0b000000,
        },
        |builder| builder.reg(1, 100).reg(2, 0).pc(0x2000), // sew = 32, lmul = 2
        |checker| {
            checker
                .reg(3, VLEN as WordType * 2 / 32)
                .csr(NamedCsrReg::Vtype.get_index(), 0b00_010_001)
                .pc(0x2004)
        },
    );

    run_test_exec(
        RiscvInstr::VSETIVLI,
        RVInstrInfo::V {
            rs1: 0b11111,
            rs2: 0b11_001,
            rd: 3,
            vm: false,
            func6: 0b110000,
        },
        |builder| builder.pc(0x2000), // sew = 32, lmul = 2
        |checker| {
            checker
                .reg(3, VLEN as WordType * 2 / 64)
                .csr(NamedCsrReg::Vtype.get_index(), 0b00_011_001)
                .pc(0x2004)
        },
    );

    run_test_exec_decode(
        0b1000000_00010_00001_111_00011_1010111, // vsetvl x3, x1, x2
        |builder| builder.reg(1, 100).reg(2, 0b00_010_001).pc(0x2000),
        |checker| {
            checker
                .reg(3, VLEN as WordType * 2 / 32)
                .csr(NamedCsrReg::Vtype.get_index(), 0b00_010_001)
                .pc(0x2004)
        },
    );

    run_test_exec_decode(
        0b000000_010_001_00001_111_00011_1010111, // vsetvli x3, x1, e32, m2, ta, ma
        |builder| builder.reg(1, 100).pc(0x2000),
        |checker| {
            checker
                .reg(3, VLEN as WordType * 2 / 32)
                .csr(NamedCsrReg::Vtype.get_index(), 0b00_010_001)
                .pc(0x2004)
        },
    );

    run_test_exec_decode(
        0b110000_010_001_10000_111_00011_1010111, // vsetivli x3, 32, e32, m2, ta, ma
        |builder| builder.pc(0x2000),
        |checker| {
            checker
                .reg(3, VLEN as WordType * 2 / 32)
                .csr(NamedCsrReg::Vtype.get_index(), 0b00_010_001)
                .pc(0x2004)
        },
    );

    // maxvl > vl
    run_test_exec_decode(
        0b110000_010_001_00010_111_00011_1010111, // vsetivli x3, 32, e32, m2, ta, ma
        |builder| builder.pc(0x2000),
        |checker| {
            checker
                .reg(3, 2)
                .csr(NamedCsrReg::Vtype.get_index(), 0b00_010_001)
                .pc(0x2004)
        },
    );
}

#[test]
fn cpu_context_layout_is_stable_for_codegen() {
    let context = CpuContext { reg_file: RegFile::new(), pc: 0 };
    let start = std::ptr::from_ref(&context).addr();
    assert_eq!(std::ptr::from_ref(&context.reg_file).addr() - start, 0);
    assert_eq!(std::ptr::from_ref(&context.pc).addr() - start, size_of::<RegFile>());
    assert_eq!(size_of::<CpuContext>(), size_of::<RegFile>() + size_of::<WordType>());
}

const TEST_DATA_ADDR_OFFSET: WordType = 0x1000;

const TEST_DATA_BASE: WordType = BASE_ADDR + TEST_DATA_ADDR_OFFSET;

fn bits_of<T: Word>(values: &[T]) -> Vec<u64> {
    values.iter().map(|v| v.bits()).collect()
}

fn u32_vec_to_bytes(data: &[u32]) -> Vec<u8> {
    data.iter().flat_map(|x| x.to_le_bytes()).collect()
}

#[test]
fn vector_add_vv_test_cpu() {
    let vs1 = [1_u32, 2, 3, u32::MAX];
    let vs2 = [10_u32, 20, 30, 1];
    let expected = [11_u32, 22, 33, 0];

    run_test_exec(
        RiscvInstr::VADD_VV,
        RVInstrInfo::V {
            rs1: 1,
            rs2: 2,
            rd: 3,
            vm: true,
            func6: 0,
        },
        |builder| {
            builder
                .vector_status(Vlmul::M1, Vsew::E32, false, false)
                .reg_vec(1, 1, &u32_vec_to_bytes(&vs1))
                .reg_vec(1, 2, &u32_vec_to_bytes(&vs2))
                .pc(0x2000)
        },
        |checker| checker.reg_vec(3, &expected).pc(0x2004),
    );
}

#[test]
fn vector_arithmetic_respects_vstart_and_clears_it() {
    let vs1 = [1_u32, 2, 3, 4];
    let vs2 = [10_u32, 20, 30, 40];
    let old_vd = [0xaaaa_0001_u32, 0xaaaa_0002, 0xaaaa_0003, 0xaaaa_0004];
    let expected = [old_vd[0], old_vd[1], 33, 44];

    run_test_exec(
        RiscvInstr::VADD_VV,
        RVInstrInfo::V {
            rs1: 1,
            rs2: 2,
            rd: 3,
            vm: true,
            func6: 0,
        },
        |builder| {
            builder
                .vector_status(Vlmul::M1, Vsew::E32, false, false)
                .csr(NamedCsrReg::Vstart.get_index(), 2)
                .reg_vec(1, 1, &u32_vec_to_bytes(&vs1))
                .reg_vec(1, 2, &u32_vec_to_bytes(&vs2))
                .reg_vec(1, 3, &u32_vec_to_bytes(&old_vd))
                .pc(0x2000)
        },
        |checker| {
            checker
                .reg_vec(3, &expected)
                .csr(NamedCsrReg::Vstart.get_index(), 0)
                .pc(0x2004)
        },
    );
}

#[test]
fn vector_add_vx_test_cpu() {
    let vs2 = [10_u32, 20, 30, u32::MAX];
    let expected = [15_u32, 25, 35, 4];

    run_test_exec(
        RiscvInstr::VADD_VX,
        RVInstrInfo::V {
            rs1: 5,
            rs2: 2,
            rd: 3,
            vm: true,
            func6: 0,
        },
        |builder| {
            builder
                .vector_status(Vlmul::M1, Vsew::E32, false, false)
                .reg(5, 5)
                .reg_vec(1, 2, &u32_vec_to_bytes(&vs2))
                .pc(0x2000)
        },
        |checker| checker.reg_vec(3, &expected).pc(0x2004),
    );
}

#[test]
fn vector_add_vi_test_cpu() {
    let vs2 = [10_u32, 20, 30, 0];
    let expected = [9_u32, 19, 29, u32::MAX];

    run_test_exec(
        RiscvInstr::VADD_VI,
        RVInstrInfo::V {
            rs1: 0b11111,
            rs2: 2,
            rd: 3,
            vm: true,
            func6: 0,
        },
        |builder| {
            builder
                .vector_status(Vlmul::M1, Vsew::E32, false, false)
                .reg_vec(1, 2, &u32_vec_to_bytes(&vs2))
                .pc(0x2000)
        },
        |checker| checker.reg_vec(3, &expected).pc(0x2004),
    );
}

#[test]
fn whole_register_move_rejects_bad_rs1_encoding() {
    let mut cpu = TestCPUBuilder::new()
        .vector_status(Vlmul::M1, Vsew::E8, false, false)
        .pc(0x2000)
        .build();

    let err = vec_whole_register_move_op_v(
        2,
        RVInstrInfo::V {
            rs1: 0,
            rs2: 8,
            rd: 16,
            vm: true,
            func6: 0,
        },
        &mut cpu,
    )
    .unwrap_err();

    assert_eq!(err, Exception::IllegalInstruction);
    assert_eq!(cpu.context.pc, 0x2000);
}

#[test]
fn vsetvli_preserves_tail_policy_in_vector_config() {
    let vs1 = [1_u32, 2, 3, 4];
    let vs2 = [10_u32, 20, 30, 40];
    let old_vd = [0xdead_beefu32; 4];
    let expected = [11_u32, 0xdead_beef, 0xdead_beef, 0xdead_beef];
    let mut cpu = TestCPUBuilder::new()
        .reg(1, 1)
        .reg_vec(1, 1, &u32_vec_to_bytes(&vs1))
        .reg_vec(1, 2, &u32_vec_to_bytes(&vs2))
        .reg_vec(1, 3, &u32_vec_to_bytes(&old_vd))
        .pc(0x2000)
        .build();

    exec_vector_config(
        VectorConfigForm::Vsetvli,
        RVInstrInfo::V {
            rs1: 1,
            rs2: (vsew_bits(Vsew::E32) as u8) << 3,
            rd: 5,
            vm: false,
            func6: vlmul_bits(Vlmul::M1) as u8,
        },
        &mut cpu,
    )
    .unwrap();

    cpu.execute(
        RiscvInstr::VADD_VV,
        RVInstrInfo::V {
            rs1: 1,
            rs2: 2,
            rd: 3,
            vm: true,
            func6: 0,
        },
    )
    .unwrap();

    CPUChecker::new(&mut cpu)
        .reg(5, 1)
        .reg_vec(3, &expected)
        .pc(0x2008);
}

#[test]
fn unit_stride_load_test() {
    const TOTAL_DATA_LEN: WordType = 128;
    const TEST_VSEW: Vsew = Vsew::E32;
    const TEST_VLMUL: Vlmul = Vlmul::M8;
    type ElemType = u32;
    let mut ram = Ram::new();
    for i in 0..TOTAL_DATA_LEN {
        let addr = TEST_DATA_ADDR_OFFSET + i * size_of::<ElemType>() as WordType;
        ram.write(addr, Width::W32, (i as ElemType + 1) as u64);
    }
    let mmio = MemoryMapIO::from_ram(ram);
    let mut cpu = RVCPU::from_vaddr_manager(VirtAddrManager::from_ram_and_mmio(mmio));
    cpu.csr.set_field(CsrField::Mstatus_fs, 1);
    cpu.csr.set_field_directly(CsrField::Mstatus_vs, 1);
    cpu.vector.set_config(VectorConfig {
        vlmul: TEST_VLMUL,
        vsew: TEST_VSEW,
        vta: false,
        vma: false,
        vl: VLEN_BYTE as u16 * TEST_VLMUL.get_lmul() as u16 / TEST_VSEW.into_byte_width() as u16,
    });

    let instr_info = RVInstrInfo::V {
        rs1: 1,
        rs2: 0, // lumop
        rd: 0,
        vm: !false, // disable mask
        func6: 0b000000,
    };
    cpu.write_reg(1, TEST_DATA_BASE);
    vector_unit_stride_load(Vsew::E32, instr_info, &mut cpu).unwrap();
    let vreg = cpu.vector.read_as_type(0, <ElemType as Word>::WIDTH).unwrap();
    assert_eq!(
        vreg.len(),
        VLEN_BYTE * TEST_VLMUL.get_lmul() as usize / size_of::<ElemType>()
    );
    for i in 0..vreg.len() {
        assert_eq!(vreg[i], i as u64 + 1);
    }
}

#[test]
fn unit_stride_load_test_cpu() {
    let data: Vec<u16> = (0..(VLEN_BYTE / size_of::<u16>()))
        .map(|i| (i + 1000) as u16)
        .collect();
    run_test_exec_decode(
        0b000_0_00_1_00000_00001_101_00000_0000111,
        |builder| {
            builder
                .vector_status(Vlmul::M1, Vsew::E16, false, false)
                .reg(1, TEST_DATA_BASE)
                .mem_range(0..128, |i| {
                    (
                        TEST_DATA_BASE + (i * size_of::<u16>()) as WordType,
                        (i + 1000) as u16,
                    )
                })
                .pc(0x2000)
        },
        |checker| checker.reg_vec(0, data.as_slice()).pc(0x2004),
    );
}

#[test]
fn mask_load_uses_ceil_vl_over_8_bytes_and_restores_config() {
    let base_addr = TEST_DATA_BASE + 0x500;
    let initial = vec![0xffu8; VLEN_BYTE * Vlmul::M4.get_lmul() as usize];
    let mut ram = Ram::new();
    for (i, value) in [0b1010_0101u8, 0b0001_0011u8, 0xeeu8]
        .into_iter()
        .enumerate()
    {
        ram.write(TEST_DATA_ADDR_OFFSET + 0x500 + i as WordType, Width::W8, (value) as u64);
    }
    let mmio = MemoryMapIO::from_ram(ram);
    let mut cpu = RVCPU::from_vaddr_manager(VirtAddrManager::from_ram_and_mmio(mmio));
    cpu.csr.set_field(CsrField::Mstatus_fs, 1);
    cpu.csr.set_field_directly(CsrField::Mstatus_vs, 1);
    cpu.vector
        .set_config(VectorConfig { vlmul: Vlmul::M4, vsew: Vsew::E32, vta: false, vma: false, vl: 13 });
    cpu.vector
        .write_as_type(8, <u8 as Word>::WIDTH, &bits_of(&initial));

    cpu.vector
        .mask_load(8, 0, base_addr, &mut cpu.memory.mmio)
        .unwrap();

    let got = cpu.vector.read_as_type(8, <u8 as Word>::WIDTH).unwrap();
    assert_eq!(got.len(), VLEN_BYTE * Vlmul::M4.get_lmul() as usize);
    assert_eq!(&got[..3], &[0b1010_0101, 0b0001_0011, 0xff]);
    assert_eq!(got[3], 0xff);
    assert_eq!(
        cpu.vector.read_as_type(8, <u32 as Word>::WIDTH).unwrap().len(),
        VLEN_BYTE * 4 / 4
    );
}

#[test]
fn vector_load_fault_records_vstart_and_stops() {
    let mut cpu = TestCPUBuilder::new()
        .vector_status(Vlmul::M1, Vsew::E32, false, false)
        .reg(1, TEST_DATA_BASE)
        .reg(2, 1)
        .mem::<u32>(TEST_DATA_BASE, 0x1234_5678)
        .pc(0x2000)
        .build();
    cpu.vector
        .write_as_type(4, Width::W32, &vec![0xaaaa_aaaa; VLEN_BYTE / 4]);

    let result = vector_constant_stride_load(
        Vsew::E32,
        RVInstrInfo::V {
            rs1: 1,
            rs2: 2,
            rd: 4,
            vm: true,
            func6: 0b000010,
        },
        &mut cpu,
    );

    assert_eq!(result, Err(Exception::LoadMisaligned));
    CPUChecker::new(&mut cpu)
        .csr(NamedCsrReg::Vstart.get_index(), 1)
        .reg_vec(4, &[0x1234_5678u32, 0xaaaa_aaaa, 0xaaaa_aaaa, 0xaaaa_aaaa])
        .pc(0x2000);
}

#[test]
fn vector_load_resumes_from_vstart_and_clears_it() {
    let data: Vec<u32> = (0..(VLEN_BYTE / size_of::<u32>()))
        .map(|i| (i + 0x40) as u32)
        .collect();
    let mut builder = TestCPUBuilder::new()
        .vector_status(Vlmul::M1, Vsew::E32, false, false)
        .csr(NamedCsrReg::Vstart.get_index(), 2)
        .reg(1, TEST_DATA_BASE);
    for (index, value) in data.iter().enumerate() {
        builder = builder.mem(
            TEST_DATA_BASE + (index * size_of::<u32>()) as WordType,
            *value,
        );
    }
    let mut cpu = builder.pc(0x2000).build();
    cpu.vector
        .write_as_type(4, Width::W32, &vec![0xaaaa_aaaa; VLEN_BYTE / 4]);

    vector_unit_stride_load(
        Vsew::E32,
        RVInstrInfo::V {
            rs1: 1,
            rs2: 0,
            rd: 4,
            vm: true,
            func6: 0,
        },
        &mut cpu,
    )
    .unwrap();

    let mut expected = data;
    expected[0] = 0xaaaa_aaaa;
    expected[1] = 0xaaaa_aaaa;
    CPUChecker::new(&mut cpu)
        .csr(NamedCsrReg::Vstart.get_index(), 0)
        .reg_vec(4, &expected)
        .pc(0x2004);
}

#[test]
fn slide1up_vx_decode_execute() {
    const VS2: u8 = 16;
    const VD: u8 = 24;
    const RS1: u8 = 5;
    let elem_count = VLEN_BYTE / size_of::<u16>();
    let vs2: Vec<u16> = (0..elem_count).map(|i| 0x100 + i as u16).collect();
    let old_vd: Vec<u16> = (0..elem_count).map(|i| 0x900 + i as u16).collect();
    let vs2_bytes: Vec<u8> = vs2.iter().flat_map(|value| value.to_le_bytes()).collect();
    let old_vd_bytes: Vec<u8> = old_vd
        .iter()
        .flat_map(|value| value.to_le_bytes())
        .collect();
    let mut expected = old_vd.clone();
    expected[0] = 0x2345;
    expected[1..elem_count].copy_from_slice(&vs2[..elem_count - 1]);
    let raw_instr = 0x3800_6057
        | (1 << 25)
        | ((VS2 as u32) << 20)
        | ((RS1 as u32) << 15)
        | ((VD as u32) << 7);

    run_test_exec_decode(
        raw_instr,
        |builder| {
            builder
                .vector_status(Vlmul::M1, Vsew::E16, false, false)
                .reg(RS1, 0x12345)
                .reg_vec(1, VS2, &vs2_bytes)
                .reg_vec(1, VD, &old_vd_bytes)
                .pc(0x2000)
        },
        |checker| checker.reg_vec(VD, &expected).pc(0x2004),
    );
}

#[test]
fn slide1down_vx_decode_execute() {
    const VS2: u8 = 16;
    const VD: u8 = 24;
    const RS1: u8 = 5;
    let elem_count = VLEN_BYTE / size_of::<u16>();
    let vs2: Vec<u16> = (0..elem_count).map(|i| 0x100 + i as u16).collect();
    let old_vd: Vec<u16> = (0..elem_count).map(|i| 0x900 + i as u16).collect();
    let vs2_bytes: Vec<u8> = vs2.iter().flat_map(|value| value.to_le_bytes()).collect();
    let old_vd_bytes: Vec<u8> = old_vd
        .iter()
        .flat_map(|value| value.to_le_bytes())
        .collect();
    let mut expected = old_vd.clone();
    expected[..elem_count - 1].copy_from_slice(&vs2[1..elem_count]);
    expected[elem_count - 1] = 0x2345;
    let raw_instr = 0x3c00_6057
        | (1 << 25)
        | ((VS2 as u32) << 20)
        | ((RS1 as u32) << 15)
        | ((VD as u32) << 7);

    run_test_exec_decode(
        raw_instr,
        |builder| {
            builder
                .vector_status(Vlmul::M1, Vsew::E16, false, false)
                .reg(RS1, 0x12345)
                .reg_vec(1, VS2, &vs2_bytes)
                .reg_vec(1, VD, &old_vd_bytes)
                .pc(0x2000)
        },
        |checker| checker.reg_vec(VD, &expected).pc(0x2004),
    );
}

#[test]
fn const_stride_load_test() {
    const TOTAL_DATA_LEN: WordType = 128;
    const TEST_VSEW: Vsew = Vsew::E32;
    const TEST_VLMUL: Vlmul = Vlmul::M8;
    const STRIDE: WordType = (size_of::<u32>() as WordType) * 2;
    type ElemType = u32;
    let mut ram = Ram::new();
    for i in 0..TOTAL_DATA_LEN {
        let addr = TEST_DATA_ADDR_OFFSET + i * STRIDE;
        ram.write(addr, Width::W32, (i as ElemType + 1) as u64);
    }
    let mmio = MemoryMapIO::from_ram(ram);
    let mut cpu = RVCPU::from_vaddr_manager(VirtAddrManager::from_ram_and_mmio(mmio));
    cpu.csr.set_field(CsrField::Mstatus_fs, 1);
    cpu.csr.set_field_directly(CsrField::Mstatus_vs, 1);
    cpu.vector.set_config(VectorConfig {
        vlmul: TEST_VLMUL,
        vsew: TEST_VSEW,
        vta: false,
        vma: false,
        vl: VLEN_BYTE as u16 * TEST_VLMUL.get_lmul() as u16 / TEST_VSEW.into_byte_width() as u16,
    });

    let instr_info = RVInstrInfo::V {
        rs1: 1,
        rs2: 2,
        rd: 0,
        vm: !false, // disable mask
        func6: 0b000010,
    };
    cpu.write_reg(1, TEST_DATA_BASE);
    cpu.write_reg(2, STRIDE);
    vector_constant_stride_load(Vsew::E32, instr_info, &mut cpu).unwrap();
    let vreg = cpu.vector.read_as_type(0, <ElemType as Word>::WIDTH).unwrap();
    assert_eq!(
        vreg.len(),
        VLEN_BYTE * TEST_VLMUL.get_lmul() as usize / size_of::<ElemType>()
    );
    for i in 0..vreg.len() {
        assert_eq!(vreg[i], i as u64 + 1);
    }
}

#[test]
fn indexed_ordered_load_test() {
    const TEST_VSEW: Vsew = Vsew::E32;
    const TEST_VLMUL: Vlmul = Vlmul::M4;
    const TEST_SEG: usize = 2;
    type ElemType = u32;

    let ram = Ram::new();
    let index_base = TEST_DATA_BASE;
    let data_base = TEST_DATA_BASE + 0x4000;

    let mmio = MemoryMapIO::from_ram(ram);
    let mut cpu = RVCPU::from_vaddr_manager(VirtAddrManager::from_ram_and_mmio(mmio));
    cpu.csr.set_field(CsrField::Mstatus_fs, 1);
    cpu.csr.set_field_directly(CsrField::Mstatus_vs, 1);
    cpu.vector.set_config(VectorConfig {
        vlmul: TEST_VLMUL,
        vsew: TEST_VSEW,
        vta: false,
        vma: false,
        vl: VLEN_BYTE as u16 * TEST_VLMUL.get_lmul() as u16 / TEST_VSEW.into_byte_width() as u16,
    });

    let vl = VLEN_BYTE * TEST_VLMUL.get_lmul() as usize / size_of::<ElemType>();
    let elem_cnt = vl * TEST_SEG;
    let mut expected = vec![0 as ElemType; elem_cnt];

    // The indices are in no order.
    for i in 0..elem_cnt {
        let idx_addr = index_base + (i * size_of::<ElemType>()) as WordType;
        let data_index = ((i * 5 + 3) % elem_cnt) as WordType;
        let data_off = data_index * size_of::<ElemType>() as WordType;
        let data_addr = data_base + data_off;
        let val = ((i as ElemType) * 17 + 101) ^ 0x5A5A_1234;

        cpu.write(idx_addr, <ElemType as Word>::WIDTH, (data_off as ElemType) as u64)
            .unwrap();
        cpu.write(data_addr, <ElemType as Word>::WIDTH, (val) as u64).unwrap();
        expected[i] = val;
    }

    let instr_info = RVInstrInfo::V {
        rs1: 1,
        rs2: 2,
        rd: 0,
        vm: !false, // disable mask
        // nf=1(seg=2), mop=0b11(indexed ordered), mew=0
        func6: 0b001011,
    };
    cpu.write_reg(1, data_base);
    cpu.write_reg(2, index_base);
    vector_indexed_ordered_load(Vsew::E32, instr_info, &mut cpu).unwrap();

    let vreg = cpu
        .vector
        .read_with_seg(0, Width::W32, TEST_SEG as u8)
        .unwrap();
    let actual: Vec<ElemType> = vreg.iter().map(|e| *e as ElemType).collect();
    assert_eq!(actual.len(), elem_cnt, "vreg len mismatch for seg=2");
    for i in 0..elem_cnt {
        assert_eq!(
            actual[i], expected[i],
            "Load mismatch at flattened index {}",
            i
        );
    }
}

#[test]
fn unit_stride_store_test() {
    const TOTAL_DATA_LEN: WordType = 128;
    const TEST_VSEW: Vsew = Vsew::E32;
    const TEST_VLMUL: Vlmul = Vlmul::M8;
    type ElemType = u32;
    let ram = Ram::new();
    let mmio = MemoryMapIO::from_ram(ram);
    let mut cpu = RVCPU::from_vaddr_manager(VirtAddrManager::from_ram_and_mmio(mmio));
    cpu.csr.set_field(CsrField::Mstatus_fs, 1);
    cpu.csr.set_field_directly(CsrField::Mstatus_vs, 1);
    cpu.vector.set_config(VectorConfig {
        vlmul: TEST_VLMUL,
        vsew: TEST_VSEW,
        vta: false,
        vma: false,
        vl: VLEN_BYTE as u16 * TEST_VLMUL.get_lmul() as u16 / TEST_VSEW.into_byte_width() as u16,
    });

    let vreg_len = VLEN_BYTE * TEST_VLMUL.get_lmul() as usize / size_of::<ElemType>();
    let data: Vec<ElemType> = (0..vreg_len).map(|i| (i * 7 + 13) as ElemType).collect();
    cpu.vector
        .write_as_type(0, <ElemType as Word>::WIDTH, &bits_of(&data));

    let instr_info = RVInstrInfo::V {
        rs1: 1,
        rs2: 0,
        rd: 0,
        vm: !false, // disable mask
        func6: 0b000000,
    };
    cpu.write_reg(1, TEST_DATA_BASE);
    vector_unit_stride_store(Vsew::E32, instr_info, &mut cpu).unwrap();

    for i in 0..vreg_len {
        let addr = TEST_DATA_BASE + (i * size_of::<ElemType>()) as WordType;
        let expected = data[i];
        let read = cpu.read(addr, <ElemType as Word>::WIDTH).unwrap() as ElemType;
        assert_eq!(read, expected, "Memory mismatch at index {}", i);
    }
}

#[test]
fn unit_stride_store_test_cpu() {
    let data: Vec<u16> = (0..(VLEN_BYTE / size_of::<u16>()))
        .map(|i| (i + 2000) as u16)
        .collect();
    let byte_data: Vec<u8> = data.iter().flat_map(|x| x.to_le_bytes()).collect();

    let raw_instr = 0b000_0_00_1_00000_00001_101_00000_0100111;
    run_test_exec_decode(
        raw_instr,
        |builder| {
            builder
                .vector_status(Vlmul::M1, Vsew::E16, false, false)
                .reg(1, TEST_DATA_BASE)
                .reg_vec(1, 0, byte_data.as_slice())
                .pc(0x2000)
        },
        |mut checker| {
            let stride = size_of::<u16>() as WordType;
            for (i, &val) in data.iter().enumerate() {
                let addr = TEST_DATA_BASE + (i as WordType) * stride;
                checker = checker.mem::<u16>(addr, val as WordType);
            }
            checker.pc(0x2004)
        },
    );
}

#[test]
fn mask_store_uses_ceil_vl_over_8_bytes_and_restores_config() {
    let base_addr = TEST_DATA_BASE + 0x700;
    let mut ram = Ram::new();
    for i in 0..3 {
        ram.write(TEST_DATA_ADDR_OFFSET + 0x700 + i as WordType, Width::W8, (0xeeu8) as u64);
    }
    let mmio = MemoryMapIO::from_ram(ram);
    let mut cpu = RVCPU::from_vaddr_manager(VirtAddrManager::from_ram_and_mmio(mmio));
    cpu.csr.set_field(CsrField::Mstatus_fs, 1);
    cpu.csr.set_field_directly(CsrField::Mstatus_vs, 1);
    cpu.vector
        .set_config(VectorConfig { vlmul: Vlmul::M4, vsew: Vsew::E32, vta: false, vma: false, vl: 13 });
    let mut source = vec![0u8; VLEN_BYTE * Vlmul::M4.get_lmul() as usize];
    source[..3].copy_from_slice(&[0b1010_0101, 0b0001_0011, 0x77]);
    cpu.vector
        .write_as_type(8, <u8 as Word>::WIDTH, &bits_of(&source));

    cpu.vector
        .mask_store(8, 0, base_addr, &mut cpu.memory.mmio)
        .unwrap();

    assert_eq!(cpu.read(base_addr, <u8 as Word>::WIDTH).unwrap(), 0b1010_0101);
    assert_eq!(cpu.read(base_addr + 1, <u8 as Word>::WIDTH).unwrap(), 0b0001_0011);
    assert_eq!(cpu.read(base_addr + 2, <u8 as Word>::WIDTH).unwrap(), 0xee);
    assert_eq!(
        cpu.vector.read_as_type(8, <u32 as Word>::WIDTH).unwrap().len(),
        VLEN_BYTE * 4 / 4
    );
}

#[test]
fn mask_load_and_store_decode_execute() {
    let source_mask = [0b1010_0101u8, 0b0101_1010u8];
    let mut source_reg = vec![0u8; VLEN_BYTE];
    source_reg[..source_mask.len()].copy_from_slice(&source_mask);
    run_test_exec_decode(
        0x02b0_8407, // vlm.v v8, (x1)
        |builder| {
            builder
                .vector_status(Vlmul::M1, Vsew::E8, false, false)
                .reg(1, TEST_DATA_BASE)
                .mem::<u8>(TEST_DATA_BASE, source_mask[0])
                .mem::<u8>(TEST_DATA_BASE + 1, source_mask[1])
                .pc(0x2000)
        },
        |checker| {
            let mut expected = vec![0u8; VLEN_BYTE];
            expected[..source_mask.len()].copy_from_slice(&source_mask);
            checker.reg_vec(8, expected.as_slice()).pc(0x2004)
        },
    );

    run_test_exec_decode(
        0x02b0_8427, // vsm.v v8, (x1)
        |builder| {
            builder
                .vector_status(Vlmul::M1, Vsew::E8, false, false)
                .reg(1, TEST_DATA_BASE)
                .reg_vec(1, 8, &source_reg)
                .pc(0x2000)
        },
        |checker| {
            checker
                .mem::<u8>(TEST_DATA_BASE, source_mask[0] as WordType)
                .mem::<u8>(TEST_DATA_BASE + 1, source_mask[1] as WordType)
                .pc(0x2004)
        },
    );
}

#[test]
fn const_stride_store_test() {
    const TEST_VSEW: Vsew = Vsew::E32;
    const TEST_VLMUL: Vlmul = Vlmul::M8;
    const STRIDE: WordType = (size_of::<u32>() as WordType) * 2;
    type ElemType = u32;
    let ram = Ram::new();
    let mmio = MemoryMapIO::from_ram(ram);
    let mut cpu = RVCPU::from_vaddr_manager(VirtAddrManager::from_ram_and_mmio(mmio));
    cpu.csr.set_field(CsrField::Mstatus_fs, 1);
    cpu.csr.set_field_directly(CsrField::Mstatus_vs, 1);
    cpu.vector.set_config(VectorConfig {
        vlmul: TEST_VLMUL,
        vsew: TEST_VSEW,
        vta: false,
        vma: false,
        vl: VLEN_BYTE as u16 * TEST_VLMUL.get_lmul() as u16 / TEST_VSEW.into_byte_width() as u16,
    });

    let vreg_len = VLEN_BYTE * TEST_VLMUL.get_lmul() as usize / size_of::<ElemType>();
    let data: Vec<ElemType> = (0..vreg_len).map(|i| (i * 7 + 13) as ElemType).collect();
    cpu.vector
        .write_as_type(0, <ElemType as Word>::WIDTH, &bits_of(&data));

    let instr_info = RVInstrInfo::V {
        rs1: 1,
        rs2: 2,
        rd: 0,
        vm: !false, // disable mask
        func6: 0b000010,
    };
    cpu.write_reg(1, TEST_DATA_BASE);
    cpu.write_reg(2, STRIDE);
    vector_constant_stride_store(Vsew::E32, instr_info, &mut cpu).unwrap();

    for i in 0..vreg_len {
        let addr = TEST_DATA_BASE + (i as WordType) * STRIDE;
        let expected = data[i];
        let read = cpu.read(addr, <ElemType as Word>::WIDTH).unwrap() as ElemType;
        assert_eq!(read, expected, "Memory mismatch at index {}", i);
    }
}

#[test]
fn indexed_ordered_store_test() {
    const TEST_VSEW: Vsew = Vsew::E32;
    const TEST_VLMUL: Vlmul = Vlmul::M1;
    type ElemType = u32;

    let ram = Ram::new();
    let index_base = TEST_DATA_BASE;
    let data_base = TEST_DATA_BASE + 0x1000;

    let mmio = MemoryMapIO::from_ram(ram);
    let mut cpu = RVCPU::from_vaddr_manager(VirtAddrManager::from_ram_and_mmio(mmio));
    cpu.csr.set_field(CsrField::Mstatus_fs, 1);
    cpu.csr.set_field_directly(CsrField::Mstatus_vs, 1);
    cpu.vector.set_config(VectorConfig {
        vlmul: TEST_VLMUL,
        vsew: TEST_VSEW,
        vta: false,
        vma: false,
        vl: VLEN_BYTE as u16 * TEST_VLMUL.get_lmul() as u16 / TEST_VSEW.into_byte_width() as u16,
    });

    let elem_cnt = VLEN_BYTE * TEST_VLMUL.get_lmul() as usize / size_of::<ElemType>();
    let data: Vec<ElemType> = (0..elem_cnt).map(|i| (i as ElemType) * 3 + 7).collect();
    cpu.vector
        .write_as_type(0, <ElemType as Word>::WIDTH, &bits_of(&data));

    for i in 0..elem_cnt {
        let idx_addr = index_base + (i * size_of::<ElemType>()) as WordType;
        let data_off = (i * size_of::<ElemType>()) as WordType;
        cpu.write(idx_addr, <ElemType as Word>::WIDTH, (data_off as u32) as u64).unwrap();
    }

    let instr_info = RVInstrInfo::V {
        rs1: 1,
        rs2: 2,
        rd: 0,
        vm: !false, // disable mask
        func6: 0b000011,
    };
    cpu.write_reg(1, data_base);
    cpu.write_reg(2, index_base);
    vector_indexed_ordered_store(Vsew::E32, instr_info, &mut cpu).unwrap();

    for (i, expected) in data.iter().enumerate() {
        let addr = data_base + (i * size_of::<ElemType>()) as WordType;
        let read = cpu.read(addr, <ElemType as Word>::WIDTH).unwrap() as ElemType;
        assert_eq!(read, *expected, "Store mismatch at index {}", i);
    }
}

fn cpu_with_instructions(raw_instrs: &[u32]) -> RVCPU {
    cpu_with_isa_instructions("RV64GC", raw_instrs)
}

fn cpu_with_isa_instructions(isa: &str, raw_instrs: &[u32]) -> RVCPU {
    let decoder = Decoder::from_isa_str(isa).expect("the extensions are known");
    let mut cpu = RVCPU::from_decoder(decoder, memory());
    let pc = cpu.context.pc;
    for (index, raw_instr) in raw_instrs.iter().enumerate() {
        let addr = Address::Virt(pc + (index * 4) as WordType);
        cpu.write_memory(addr, Width::W32, *raw_instr as u64).unwrap();
    }
    cpu
}

#[test]
fn the_low_bits_of_a_word_tell_its_length() {
    let decoder = Decoder::from_isa_str("RV64GC").unwrap();
    for (raw, len) in [(0x0000_0013, 4), (0x0001, 2), (0x4501, 2), (0xffe5_0513, 4), (0x8082, 2)] {
        let d = decoder.decode(RawInstr::new(raw)).unwrap();
        assert_eq!(d.len, len);
        assert_eq!(d.instr.len(), len);
    }
}

#[test]
fn decoded_immediates_are_sign_extended() {
    let decoder = Decoder::from_isa_str("RV64GC").unwrap();
    let addi = decoder.decode(RawInstr::new(0xffe5_0513)).unwrap();
    assert_eq!(addi.info, RVInstrInfo::I { rs1: 10, rd: 10, imm: 0xffff_ffff_ffff_fffe });
    let lui = decoder.decode(RawInstr::new(0x8000_0537)).unwrap();
    assert_eq!(lui.info, RVInstrInfo::U { rd: 10, imm: 0xffff_ffff_8000_0000 });
}

/// What a hart shows of itself.
fn shown(cpu: &mut RVCPU) -> (Vec<u64>, u64, Vec<u64>, Option<u64>) {
    let regs = (0..32).map(|i| cpu.read_reg(i)).collect();
    let csrs = [
        NamedCsrReg::Mcause,
        NamedCsrReg::Mepc,
        NamedCsrReg::Mtval,
        NamedCsrReg::Mcycle,
        NamedCsrReg::Minstret,
    ]
    .iter()
    .map(|csr| cpu.read_csr(csr.get_index()).unwrap())
    .collect();
    (regs, cpu.context.pc, csrs, cpu.pending_tval)
}

#[test]
fn a_block_does_what_its_instructions_do() {
    let program = [
        0x0070_0093, // addi x1, x0, 7
        0x4020_8133, // sub x2, x1, x2
        0x0020_f1b3, // and x3, x1, x2
        0x4021_5213, // srai x4, x2, 2
        0x0020_a2b3, // slt x5, x1, x2
        0x0020_b333, // sltu x6, x1, x2
        0x4020_83bb, // subw x7, x1, x2
        0x0011_1433, // sll x8, x2, x1
        0x0000_0497, // auipc x9, 0
        0x1024_b023, // sd x2, 256(x9)
        0x1004_9503, // lh x10, 256(x9)
        0x0015_0513, // addi x10, x10, 1
        0x0000_3583, // ld x11, 0(x0)
    ];
    let mut interpreted = cpu_with_instructions(&program);
    let mut translated = cpu_with_instructions(&program);
    interpreted.write_reg(2, 0x8000_0000_1234_5678);
    translated.write_reg(2, 0x8000_0000_1234_5678);
    interpreted.step_batch_no_interrupt(13);
    let mut jit = Jit::new();
    jit.step_batch(&mut translated, 13);
    assert_eq!(jit.engine.stats.executed_blocks, 1);
    assert_eq!(jit.engine.stats.detailed.exception_exits, 1);
    let expected = shown(&mut interpreted);
    assert_eq!(expected.0[10], 0x5679 - 0x5678 + (7u64.wrapping_sub(0x5678) as i16 as i64 as u64));
    assert_eq!(expected.3, None);
    assert_eq!(shown(&mut translated), expected);
}

#[test]
fn a_block_longer_than_the_batch_runs_in_a_later_batch() {
    // addi x1, x1, 1; addi x1, x1, 2; jal x0, -8
    let mut cpu = cpu_with_instructions(&[0x0010_8093, 0x0020_8093, 0xff9f_f06f]);
    let pc = cpu.context.pc;
    let mut jit = Jit::new();

    jit.step_batch(&mut cpu, 2);
    assert_eq!(cpu.read_reg(1), 3);
    assert_eq!(cpu.context.pc, pc + 8);
    assert_eq!(jit.engine.stats.executed_blocks, 0);
    assert_eq!(jit.code.len(), 1);

    jit.step_batch(&mut cpu, 4);
    assert_eq!(cpu.read_reg(1), 6);
    assert_eq!(cpu.context.pc, pc);
    assert_eq!(jit.engine.stats.executed_blocks, 2);
    assert_eq!(jit.engine.stats.retired_instrs, 4);
}

#[test]
fn caches_interpreter_only_pcs_until_icache_invalidation() {
    let mut cpu = cpu_with_instructions(&[0x0220_80b3]); // mul x1, x1, x2
    let mut engine = RvJitEngine::new();

    assert!(engine
        .basic_blocks
        .get_or_translate(&mut cpu, AROUND, &mut engine.stats)
        .0
        .is_none());
    assert_eq!(engine.basic_blocks.access_count(), 1);
    assert_eq!(engine.basic_blocks.hit_count(), 0);

    assert!(engine
        .basic_blocks
        .get_or_translate(&mut cpu, AROUND, &mut engine.stats)
        .0
        .is_none());
    assert_eq!(engine.basic_blocks.access_count(), 2);
    assert_eq!(engine.basic_blocks.hit_count(), 1);

    cpu.flush_icache();
    engine.sync_icache_epoch(&cpu);
    assert!(engine
        .basic_blocks
        .get_or_translate(&mut cpu, AROUND, &mut engine.stats)
        .0
        .is_none());
    assert_eq!(engine.basic_blocks.access_count(), 3);
    assert_eq!(engine.basic_blocks.hit_count(), 1);
}

#[test]
fn engine_commits_successful_memory_block_counters() {
    // addi x5, x0, 7; sd x5, 0(x1); ld x6, 0(x1); mul (block terminator)
    let mut cpu = cpu_with_instructions(&[0x0070_0293, 0x0050_b023, 0x0000_b303, 0x0220_80b3]);
    let target = BASE_ADDR + 0x380;
    cpu.write_reg(1, target);
    let mut engine = Jit::new();

    engine.step_batch(&mut cpu, 3);

    assert_eq!(cpu.context.pc, BASE_ADDR + 12);
    assert_eq!(cpu.read_reg(5), 7);
    assert_eq!(cpu.read_reg(6), 7);
    assert_eq!(cpu.read(target, Width::W64).unwrap(), 7);
    assert_eq!(cpu.read_csr(NamedCsrReg::Mcycle.get_index()).unwrap(), 3);
    assert_eq!(cpu.read_csr(NamedCsrReg::Minstret.get_index()).unwrap(), 3);
}

#[test]
fn engine_debits_the_faulting_instruction_cycle() {
    // addi x5, x0, 7; ld x6, 1(x1); mul (block terminator)
    let mut cpu = cpu_with_instructions(&[0x0070_0293, 0x0010_b303, 0x0220_80b3]);
    cpu.write_reg(1, BASE_ADDR);
    let fault_pc = BASE_ADDR + 4;
    let mut engine = Jit::new();

    engine.step_batch(&mut cpu, 2);

    assert_eq!(cpu.read_reg(5), 7);
    assert_eq!(cpu.read_csr(NamedCsrReg::Mepc.get_index()).unwrap(), fault_pc);
    assert_eq!(cpu.read_csr(NamedCsrReg::Mcause.get_index()).unwrap(), 4);
    assert_eq!(cpu.read_csr(NamedCsrReg::Mtval.get_index()).unwrap(), BASE_ADDR + 1);
    assert_eq!(cpu.read_csr(NamedCsrReg::Mcycle.get_index()).unwrap(), 2);
    assert_eq!(cpu.read_csr(NamedCsrReg::Minstret.get_index()).unwrap(), 1);
}

#[test]
fn jit_control_flow_ends_a_block_and_uses_the_dynamic_pc() {
    // addi x1, x0, 1; bne x1, x0, 8; addi x2, x0, 2; addi x3, x0, 3
    let mut cpu = cpu_with_instructions(&[0x0010_0093, 0x0000_9463, 0x0020_0113, 0x0030_0193]);
    let start = cpu.context.pc;
    let mut engine = Jit::new();

    engine.step_batch(&mut cpu, 3);

    assert_eq!(cpu.context.pc, start + 16);
    assert_eq!(cpu.read_reg(1), 1);
    assert_eq!(cpu.read_reg(2), 0);
    assert_eq!(cpu.read_reg(3), 3);
    assert_eq!(cpu.read_csr(NamedCsrReg::Minstret.get_index()).unwrap(), 3);
}

#[test]
fn jit_jalr_preserves_the_target_when_rd_equals_rs1() {
    // jalr x1, 0(x1)
    let mut cpu = cpu_with_instructions(&[0x0000_80e7]);
    let start = cpu.context.pc;
    cpu.write_reg(1, start + 0x11);
    let mut engine = Jit::new();

    engine.step_batch(&mut cpu, 1);

    assert_eq!(cpu.context.pc, start + 0x10);
    assert_eq!(cpu.read_reg(1), start + 4);
}

#[test]
fn jit_jal_returns_its_target_and_writes_the_link() {
    // jal x5, 8
    let mut cpu = cpu_with_instructions(&[0x0080_02ef]);
    let start = cpu.context.pc;
    let mut engine = Jit::new();

    engine.step_batch(&mut cpu, 1);

    assert_eq!(cpu.context.pc, start + 8);
    assert_eq!(cpu.read_reg(5), start + 4);
    assert_eq!(cpu.read_csr(NamedCsrReg::Mcycle.get_index()).unwrap(), 1);
    assert_eq!(cpu.read_csr(NamedCsrReg::Minstret.get_index()).unwrap(), 1);
}

#[test]
fn jit_compressed_control_flow_uses_two_byte_fallthrough_and_link() {
    let mut branch = cpu_with_instructions(&[]);
    let start = branch.context.pc;
    branch.write_reg(8, 1);
    assert!(try_execute_instruction_for_test(
        &mut branch,
        RiscvInstr::C_BEQZ,
        RVInstrInfo::CB { rd_rs1: 8, imm: 8 },
    ));
    assert_eq!(branch.context.pc, start + 2);

    branch.context.pc = start;
    branch.write_reg(8, 0);
    assert!(try_execute_instruction_for_test(
        &mut branch,
        RiscvInstr::C_BEQZ,
        RVInstrInfo::CB { rd_rs1: 8, imm: 8 },
    ));
    assert_eq!(branch.context.pc, start + 8);

    let mut jump = cpu_with_instructions(&[]);
    assert!(try_execute_instruction_for_test(
        &mut jump,
        RiscvInstr::C_J,
        RVInstrInfo::CJ { target: 10 },
    ));
    assert_eq!(jump.context.pc, start + 10);

    let mut jump_reg = cpu_with_instructions(&[]);
    jump_reg.write_reg(8, start + 0x21);
    assert!(try_execute_instruction_for_test(
        &mut jump_reg,
        RiscvInstr::C_JALR,
        RVInstrInfo::CR { rd_rs1: 8, rs2: 0 },
    ));
    assert_eq!(jump_reg.context.pc, start + 0x20);
    assert_eq!(jump_reg.read_reg(1), start + 2);
}

#[test]
fn test_instruction_runner_finishes_the_jit_block() {
    let mut cpu = cpu_with_instructions(&[]);
    let start = cpu.context.pc;

    assert!(try_execute_instruction_for_test(
        &mut cpu,
        RiscvInstr::ADDI,
        RVInstrInfo::I {
            rd: 1,
            rs1: 0,
            imm: 7,
        },
    ));

    assert_eq!(cpu.context.pc, start + 4);
    assert_eq!(cpu.read_reg(1), 7);
    assert_eq!(cpu.read_csr(NamedCsrReg::Mcycle.get_index()).unwrap(), 1);
    assert_eq!(cpu.read_csr(NamedCsrReg::Minstret.get_index()).unwrap(), 1);
}

#[test]
fn jit_checks_alignment_only_for_taken_branches_without_c() {
    // beq x1, x0, 2: target is misaligned for IALIGN=32.
    let raw = [0x0000_8163];
    let mut not_taken = cpu_with_isa_instructions("RV64G", &raw);
    let start = not_taken.context.pc;
    not_taken.write_reg(1, 1);
    Jit::new().step_batch(&mut not_taken, 1);
    assert_eq!(not_taken.context.pc, start + 4);
    assert_eq!(not_taken.read_csr(NamedCsrReg::Minstret.get_index()).unwrap(), 1);
    assert_eq!(not_taken.read_csr(NamedCsrReg::Mcycle.get_index()).unwrap(), 1);
    assert_eq!(not_taken.read_csr(NamedCsrReg::Mcause.get_index()).unwrap(), 0);

    let mut taken = cpu_with_isa_instructions("RV64G", &raw);
    let start = taken.context.pc;
    let mut engine = Jit::new();
    engine.step_batch(&mut taken, 1);
    assert_eq!(taken.read_csr(NamedCsrReg::Mepc.get_index()).unwrap(), start);
    assert_eq!(taken.read_csr(NamedCsrReg::Mcause.get_index()).unwrap(), 0);
    assert_eq!(taken.read_csr(NamedCsrReg::Mtval.get_index()).unwrap(), start + 2);
    assert_eq!(taken.read_csr(NamedCsrReg::Minstret.get_index()).unwrap(), 0);
    assert_eq!(taken.read_csr(NamedCsrReg::Mcycle.get_index()).unwrap(), 1);
}

#[test]
fn jit_supports_all_integer_branch_conditions() {
    let cases = [
        (RiscvInstr::BEQ, 5, 5, true),
        (RiscvInstr::BEQ, 5, 6, false),
        (RiscvInstr::BNE, 5, 6, true),
        (RiscvInstr::BNE, 5, 5, false),
        (RiscvInstr::BLT, WordType::MAX, 1, true),
        (RiscvInstr::BLT, 1, WordType::MAX, false),
        (RiscvInstr::BGE, 1, WordType::MAX, true),
        (RiscvInstr::BGE, WordType::MAX, 1, false),
        (RiscvInstr::BLTU, 1, WordType::MAX, true),
        (RiscvInstr::BLTU, WordType::MAX, 1, false),
        (RiscvInstr::BGEU, WordType::MAX, 1, true),
        (RiscvInstr::BGEU, 1, WordType::MAX, false),
    ];

    for (instr, lhs, rhs, taken) in cases {
        let mut cpu = cpu_with_instructions(&[]);
        let start = cpu.context.pc;
        cpu.write_reg(1, lhs);
        cpu.write_reg(2, rhs);
        assert!(try_execute_instruction_for_test(
            &mut cpu,
            instr,
            RVInstrInfo::B {
                rs1: 1,
                rs2: 2,
                imm: 8,
            },
        ));
        assert_eq!(cpu.context.pc, start + if taken { 8 } else { 4 }, "{instr:?}");
    }
}

#[test]
fn jit_checks_static_jump_alignment_without_c() {
    // jal x1, 2: an aligned JAL instruction with a misaligned target.
    let mut cpu = cpu_with_isa_instructions("RV64G", &[0x0020_00ef]);
    let start = cpu.context.pc;
    Jit::new().step_batch(&mut cpu, 1);

    assert_eq!(cpu.read_csr(NamedCsrReg::Mepc.get_index()).unwrap(), start);
    assert_eq!(cpu.read_csr(NamedCsrReg::Mcause.get_index()).unwrap(), 0);
    assert_eq!(cpu.read_csr(NamedCsrReg::Mtval.get_index()).unwrap(), start + 2);
    assert_eq!(cpu.read_reg(1), 0);
    assert_eq!(cpu.read_csr(NamedCsrReg::Mcycle.get_index()).unwrap(), 1);
    assert_eq!(cpu.read_csr(NamedCsrReg::Minstret.get_index()).unwrap(), 0);
}

#[test]
fn jit_checks_dynamic_jalr_alignment_without_c() {
    // jalr x1, 0(x2); JALR clears bit 0, leaving an IALIGN=32 violation.
    let mut cpu = cpu_with_isa_instructions("RV64G", &[0x0001_00e7]);
    let start = cpu.context.pc;
    cpu.write_reg(2, start + 3);
    Jit::new().step_batch(&mut cpu, 1);

    assert_eq!(cpu.read_csr(NamedCsrReg::Mepc.get_index()).unwrap(), start);
    assert_eq!(cpu.read_csr(NamedCsrReg::Mcause.get_index()).unwrap(), 0);
    assert_eq!(cpu.read_csr(NamedCsrReg::Mtval.get_index()).unwrap(), start + 2);
    assert_eq!(cpu.read_reg(1), 0);
    assert_eq!(cpu.read_csr(NamedCsrReg::Mcycle.get_index()).unwrap(), 1);
    assert_eq!(cpu.read_csr(NamedCsrReg::Minstret.get_index()).unwrap(), 0);
}

#[test]
fn jit_aligned_jalr_without_c_returns_from_the_alignment_helper() {
    // jalr x1, 0(x2)
    let mut cpu = cpu_with_isa_instructions("RV64G", &[0x0001_00e7]);
    let start = cpu.context.pc;
    cpu.write_reg(2, start + 8);
    Jit::new().step_batch(&mut cpu, 1);

    assert_eq!(cpu.context.pc, start + 8);
    assert_eq!(cpu.read_reg(1), start + 4);
    assert_eq!(cpu.read_csr(NamedCsrReg::Mcycle.get_index()).unwrap(), 1);
    assert_eq!(cpu.read_csr(NamedCsrReg::Minstret.get_index()).unwrap(), 1);
}

fn execute(out: X86Assembler, host: &mut Host) -> u64 {
    let mut out = out;
    out.ret();
    let mut cpu = TestCPUBuilder::new().build();
    host.run(&out.build(), &mut cpu, &mut JitContext::new()).unwrap()
}

fn execute_returning_u64(out: X86Assembler) -> u64 {
    execute(out, &mut Host::bare(Vec::new(), 0))
}

#[test]
fn executes_register_arithmetic_and_shifts() {
    let mut out = X86Assembler::new();
    out.mov_r64_imm64(X86Reg::R8, 1000);
    out.mov_r64_imm64(X86Reg::R9, 23);
    out.alu_rm64_r64(AluOp::Sub, X86Reg::R8.into(), X86Reg::R9);
    out.alu_rm64_imm32(AluOp::Add, X86Reg::R8.into(), 7);
    out.shift_rm_imm8(OperandSize::Qword, ShiftOp::SHL, X86Reg::R8.into(), 2);
    out.mov_r64_imm64(X86Reg::RCX, 1);
    out.shift_rm_cl(OperandSize::Qword, ShiftOp::SHR, X86Reg::R8.into());
    out.mov_r64_rm64(X86Reg::RAX, X86Reg::R8.into());

    assert_eq!(execute_returning_u64(out), 1968);

    let mut out = X86Assembler::new();
    out.mov_r64_imm64(X86Reg::R8, 0x8000_0000_0000_0001);
    out.shift_rm_imm8(OperandSize::Qword, ShiftOp::SAR, X86Reg::R8.into(), 1);
    out.mov_r64_rm64(X86Reg::RAX, X86Reg::R8.into());
    assert_eq!(execute_returning_u64(out), 0xc000_0000_0000_0000);

    let mut out = X86Assembler::new();
    out.mov_r64_imm64(X86Reg::R8, u64::MAX);
    out.alu_rm32_imm32(AluOp::Add, X86Reg::R8.into(), 1);
    out.mov_r64_rm64(X86Reg::RAX, X86Reg::R8.into());
    assert_eq!(execute_returning_u64(out), 0);
}

#[test]
fn jit_function_returns_the_rax_value() {
    let mut out = X86Assembler::new();
    out.mov_r64_imm64(X86Reg::RAX, 0x0123_4567_89ab_cdef);

    assert_eq!(execute_returning_u64(out), 0x0123_4567_89ab_cdef);
}

#[test]
fn calls_helper_with_mixed_register_and_immediate_arguments() {
    let mut out = X86Assembler::new();
    out.mov_r64_imm64(X86Reg::RBX, 2);
    out.mov_r64_imm64(X86Reg::R12, 4);
    out.mov_r64_imm64(X86Reg::R13, 6);
    out.call_helper(
        100,
        &[
            CallArg::Imm(1),
            CallArg::Reg(X86Reg::RBX),
            CallArg::Imm(3),
            CallArg::Reg(X86Reg::R12),
            CallArg::Imm(5),
            CallArg::Reg(X86Reg::R13),
        ],
    );

    assert_eq!(execute_returning_u64(out), 654_321);
}

#[test]
fn executes_signed_and_unsigned_comparisons() {
    let mut out = X86Assembler::new();
    out.mov_r64_imm64(X86Reg::R8, u64::MAX);
    out.mov_r64_imm64(X86Reg::R9, 1);
    out.alu_rm64_r64(AluOp::Cmp, X86Reg::R8.into(), X86Reg::R9);
    out.setcc_r8(ConditionCode::Less, X86Reg::R8);
    out.movzx_r32_r8(X86Reg::R8, X86Reg::R8);
    out.mov_r64_rm64(X86Reg::RAX, X86Reg::R8.into());
    assert_eq!(execute_returning_u64(out), 1);

    let mut out = X86Assembler::new();
    out.mov_r64_imm64(X86Reg::R8, u64::MAX);
    out.alu_rm64_imm32(AluOp::Cmp, X86Reg::R8.into(), 1);
    out.setcc_r8(ConditionCode::Below, X86Reg::R8);
    out.movzx_r32_r8(X86Reg::R8, X86Reg::R8);
    out.mov_r64_rm64(X86Reg::RAX, X86Reg::R8.into());
    assert_eq!(execute_returning_u64(out), 0);
}

#[test]
fn executes_disp8_and_disp32_memory_operands() {
    let mut words = vec![0_u64; 64];
    words[15] = 1000;
    words[31] = 23;

    let mut out = X86Assembler::new();
    out.mov_r64_rm64(X86Reg::R8, RegMem::from_disp(X86Reg::RBP, -136));
    out.mov_r64_rm64(X86Reg::R9, RegMem::from_disp(X86Reg::RBP, -8));
    out.alu_rm64_r64(AluOp::Sub, X86Reg::R8.into(), X86Reg::R9);
    out.mov_rm64_r64(RegMem::from_disp(X86Reg::RBP, 128), X86Reg::R8);

    let mut host = Host::bare(words, 32);
    let _ = execute(out, &mut host);

    assert_eq!(host.memory[48], 977);
}

#[test]
fn an_atomic_add_is_decoded_and_executed() {
    const TARGET_ADDR: WordType = BASE_ADDR + 1024;
    let mut cpu = TestCPUBuilder::new()
        .reg(12, TARGET_ADDR)
        .reg(11, 1)
        .program(&[0x00b6302f, 0xffdff06f]) // label: amoadd.d x0, a1, (a2); j label
        .build();
    // The target address increases every 2 steps.
    for _ in 0..4 {
        cpu.step();
    }
    assert_eq!(cpu.memory.read_by_paddr(TARGET_ADDR, Width::W64), Ok(2));
}

#[test]
fn moving_an_element_to_a_register_sign_extends_it() {
    run_test_exec_decode(
        0b010000_1_00010_00000_010_00011_1010111, // vmv.x.s x3, v2
        |builder| {
            builder
                .vector_status(Vlmul::M1, Vsew::E32, false, false)
                .reg_vec(1, 2, &u32_vec_to_bytes(&[0xffff_fff0, 1, 2, 3]))
                .reg(3, 7)
                .pc(0x2000)
        },
        |checker| checker.reg(3, 0xffff_ffff_ffff_fff0).pc(0x2004),
    );
}

#[test]
fn moving_an_element_from_behind_the_last_one_leaves_the_register() {
    run_test_exec_decode(
        0b010000_1_00010_00000_010_00011_1010111, // vmv.x.s x3, v2
        |builder| {
            builder
                .vector_status(Vlmul::M1, Vsew::E32, false, false)
                .csr(NamedCsrReg::Vstart.get_index(), 4)
                .reg_vec(1, 2, &u32_vec_to_bytes(&[0xffff_fff0, 1, 2, 3]))
                .reg(3, 7)
                .pc(0x2000)
        },
        |checker| checker.reg(3, 7).csr(NamedCsrReg::Vstart.get_index(), 0).pc(0x2004),
    );
    let mut cpu = TestCPUBuilder::new().build();
    let vector = &mut cpu.vector;
    vector.set_config(VectorConfig {
        vlmul: Vlmul::M1,
        vsew: Vsew::E8,
        vta: false,
        vma: false,
        vl: 2,
    });
    assert_eq!(vector.exec_move_element_to_scalar(0, 1), Ok(Some(0)));
    assert_eq!(vector.exec_move_element_to_scalar(0, 2), Ok(None));
    assert_eq!(
        vector.exec_move_element_to_scalar(32, 0),
        Err(Exception::IllegalInstruction)
    );
}

#[test]
fn there_are_no_registers_beyond_twelve_bits_of_address() {
    let mut cpu = TestCPUBuilder::new().build();
    assert_eq!(cpu.read_csr(0x1000), Err(Exception::IllegalInstruction));
    assert_eq!(cpu.read_csr(u64::MAX), Err(Exception::IllegalInstruction));
    assert_eq!(cpu.write_csr(0x1000, 1), Err(Exception::IllegalInstruction));
}

#[test]
fn writes_obey_the_rules_of_the_register() {
    let mut cpu = TestCPUBuilder::new().build();
    cpu.write_csr(NamedCsrReg::Mtvec.get_index(), u64::MAX).unwrap();
    assert_eq!(cpu.read_csr(NamedCsrReg::Mtvec.get_index()), Ok(0xffff_ffff_ffff_fffd));
    cpu.write_csr(NamedCsrReg::Vcsr.get_index(), u64::MAX).unwrap();
    assert_eq!(cpu.read_csr(NamedCsrReg::Vcsr.get_index()), Ok(7));
    let misa = cpu.read_csr(NamedCsrReg::Misa.get_index());
    cpu.write_csr(NamedCsrReg::Misa.get_index(), 0).unwrap();
    assert_eq!(cpu.read_csr(NamedCsrReg::Misa.get_index()), misa);
}

#[test]
fn float_flags_leave_the_rounding_direction_alone() {
    run_test_exec_decode(
        0b0001100_00010_00001_000_00011_1010011, // fdiv.s f3, f1, f2
        |builder| {
            builder
                .reg_f32(1, 1.0)
                .reg_f32(2, 3.0)
                .csr(NamedCsrReg::Fcsr.get_index(), 0x5e)
                .pc(0x2000)
        },
        |checker| checker.csr(NamedCsrReg::Fcsr.get_index(), 0x41).pc(0x2004),
    );
}
