//! Breakpoints and the function trace.
use here::board::{Board, BoardStatus, HookedBoard};
use here::config::BASE_ADDR;
use here::device::MemoryMapIO;
use here::isa::riscv::debugger::ftrace::{
    FtraceStatsSnapshot, FuncTrace, FuncTraceStatEntry, MAX_FTRACE,
};
use here::isa::riscv::debugger::{
    DebugError, DebugEvent, Debugger, DebuggerExecutionHook, HookModel, MAX_HISTORY,
};
use here::isa::riscv::decoder::{Decoder, RawInstr};
use here::isa::riscv::executor::batch::{BatchResult, SeenCycles};
use here::isa::riscv::executor::{CpuState, RVCPU};
use here::isa::riscv::mmu::{Address, VirtAddrManager};
use here::isa::riscv::vector::types::{VectorConfig, Vlmul, Vsew};
use here::load::{SymTab, Symbols};
use here::ram::Ram;
use here::utils::Width;

/// A hart that has memory and no devices.
struct TestCPUBuilder {
    cpu: RVCPU,
}

impl TestCPUBuilder {
    fn new() -> Self {
        let decoder = Decoder::from_isa_str("RV64GCV").expect("the extensions are known");
        let mmio = MemoryMapIO::from_ram(Ram::new());
        let memory = VirtAddrManager::from_ram_and_mmio(mmio);
        Self { cpu: RVCPU::from_decoder(decoder, memory) }
    }

    fn program(mut self, instrs: &[u32]) -> Self {
        let mut addr = BASE_ADDR;
        for instr in instrs {
            self.cpu.write(addr, Width::W32, *instr as u64).unwrap();
            addr += 4;
        }
        self
    }

    fn build(self) -> RVCPU {
        self.cpu
    }
}

fn create_debugger(cpu: RVCPU) -> Debugger<RVCPU> {
    Debugger::new(cpu)
}

#[test]
fn test_breakpoint_riscv() {
    // Test that a breakpoint can be hit
    let cpu = TestCPUBuilder::new()
        .program(&[
            0x02520333, // mul x6, x4, x5
            0x02520333, // mul x6, x4, x5
            0x02520333, // mul x6, x4, x5
            0x02520333, // mul x6, x4, x5
            0x02520333, // mul x6, x4, x5
        ])
        .build();

    let mut debugger = create_debugger(cpu);

    debugger
        .set_breakpoint(Address::Phys(BASE_ADDR + 4))
        .unwrap();
    debugger.continue_run().unwrap();

    assert_eq!(debugger.read_pc(), BASE_ADDR + 4);
    assert_eq!(
        debugger
            .read_memory(Address::Phys(BASE_ADDR + 4), Width::W32)
            .unwrap(),
        0x02520333
    );

    debugger.step().unwrap();
    assert_eq!(debugger.read_pc(), BASE_ADDR + 8);

    debugger
        .set_breakpoint(Address::Phys(BASE_ADDR + 12))
        .unwrap();

    debugger.continue_until_step(2).unwrap();
    assert_eq!(debugger.read_pc(), BASE_ADDR + 12);
    assert_eq!(
        debugger
            .read_memory(Address::Phys(BASE_ADDR + 12), Width::W32)
            .unwrap(),
        0x02520333
    );
}

#[test]
fn test_breakpoint_riscv_on_current() {
    let cpu = TestCPUBuilder::new()
        .program(&[
            0x02520333, // mul x6, x4, x5
            0x02520333, // mul x6, x4, x5
        ])
        .build();

    let mut debugger = create_debugger(cpu);
    debugger.set_breakpoint(Address::Phys(BASE_ADDR)).unwrap();

    debugger.step().unwrap();

    assert_eq!(debugger.read_pc(), BASE_ADDR + 4);
}

#[test]
fn test_ftrace_jal_call_and_ret_with_symbols() {
    let cpu = TestCPUBuilder::new()
        .program(&[
            0x008000ef, // jal ra, 8
            0x00000013, // nop
            0x00008067, // ret
        ])
        .build();

    let mut debugger = create_debugger(cpu);
    debugger.set_symbol_table(SymTab::from(&[
        ("caller".to_string(), BASE_ADDR),
        ("callee".to_string(), BASE_ADDR + 8),
    ]));
    debugger.ftrace_start();

    debugger.step().unwrap();
    assert_eq!(debugger.read_pc(), BASE_ADDR + 8);
    assert_eq!(
        debugger.ftrace_show(),
        vec![FuncTrace::Call {
            name: Some("callee".to_string()),
            addr: BASE_ADDR + 8,
        }]
    );

    debugger.step().unwrap();
    assert_eq!(debugger.read_pc(), BASE_ADDR + 4);
    assert_eq!(
        debugger.ftrace_show(),
        vec![
            FuncTrace::Call {
                name: Some("callee".to_string()),
                addr: BASE_ADDR + 8,
            },
            FuncTrace::Return {
                name: Some("caller".to_string()),
                addr: BASE_ADDR + 4,
            },
        ]
    );
}

#[test]
fn test_ftrace_tail_call_uses_symbol_range() {
    let mut cpu = TestCPUBuilder::new()
        .program(&[
            0x00030067, // jalr zero, 0(x6)
            0x00000013, // nop
            0x00000013, // nop
        ])
        .build();
    cpu.write_reg(6, BASE_ADDR + 8);

    let mut debugger = create_debugger(cpu);
    debugger.set_symbol_table(SymTab::from(&[("tail_target".to_string(), BASE_ADDR + 8)]));
    debugger.ftrace_start();

    debugger.step().unwrap();

    assert_eq!(debugger.read_pc(), BASE_ADDR + 8);
    assert_eq!(
        debugger.ftrace_show(),
        vec![FuncTrace::Call {
            name: Some("tail_target".to_string()),
            addr: BASE_ADDR + 8,
        }]
    );
}

#[test]
fn test_ftrace_keeps_latest_entries() {
    let cpu = TestCPUBuilder::new()
        .program(&[
            0x008000ef, // jal ra, 8
            0xffdff06f, // jal zero, -4
            0x00008067, // ret
        ])
        .build();

    let mut debugger = create_debugger(cpu);
    debugger.set_symbol_table(SymTab::from(&[
        ("caller".to_string(), BASE_ADDR),
        ("callee".to_string(), BASE_ADDR + 8),
    ]));
    debugger.ftrace_start();

    debugger
        .continue_until_step((MAX_FTRACE as u64 + 1) * 3)
        .unwrap();

    let traces = debugger.ftrace_show();
    assert_eq!(traces.len(), MAX_FTRACE);
    assert_eq!(
        traces.first(),
        Some(&FuncTrace::Call {
            name: Some("callee".to_string()),
            addr: BASE_ADDR + 8,
        })
    );
    assert_eq!(
        traces.last(),
        Some(&FuncTrace::Return {
            name: Some("caller".to_string()),
            addr: BASE_ADDR + 4,
        })
    );
}

#[test]
fn test_ftrace_disabled_until_started() {
    let cpu = TestCPUBuilder::new()
        .program(&[
            0x008000ef, // jal ra, 8
            0x00000013, // nop
            0x00008067, // ret
        ])
        .build();

    let mut debugger = create_debugger(cpu);
    debugger.set_symbol_table(SymTab::from(&[("callee".to_string(), BASE_ADDR + 8)]));

    debugger.continue_until_step(2).unwrap();

    assert!(!debugger.ftrace_enabled());
    assert!(debugger.ftrace_show().is_empty());
    assert_eq!(
        debugger.ftrace_stat(),
        FtraceStatsSnapshot {
            enabled: false,
            queue_len: 0,
            call_count: 0,
            return_count: 0,
            unknown_calls: 0,
            unknown_returns: 0,
            per_func: Vec::new(),
        }
    );
}

#[test]
fn test_ftrace_start_clears_queue_and_stats() {
    let cpu = TestCPUBuilder::new()
        .program(&[
            0x008000ef, // jal ra, 8
            0x00000013, // nop
            0x00008067, // ret
        ])
        .build();

    let mut debugger = create_debugger(cpu);
    debugger.set_symbol_table(SymTab::from(&[
        ("caller".to_string(), BASE_ADDR),
        ("callee".to_string(), BASE_ADDR + 8),
    ]));

    debugger.ftrace_start();
    debugger.continue_until_step(2).unwrap();
    assert_eq!(debugger.ftrace_stat().call_count, 1);
    assert_eq!(debugger.ftrace_stat().return_count, 1);

    debugger.ftrace_start();

    assert!(debugger.ftrace_enabled());
    assert!(debugger.ftrace_show().is_empty());
    assert_eq!(
        debugger.ftrace_stat(),
        FtraceStatsSnapshot {
            enabled: true,
            queue_len: 0,
            call_count: 0,
            return_count: 0,
            unknown_calls: 0,
            unknown_returns: 0,
            per_func: Vec::new(),
        }
    );
}

#[test]
fn test_ftrace_stop_preserves_data_and_halts_recording() {
    let cpu = TestCPUBuilder::new()
        .program(&[
            0x008000ef, // jal ra, 8
            0x00000013, // nop
            0x00008067, // ret
        ])
        .build();

    let mut debugger = create_debugger(cpu);
    debugger.set_symbol_table(SymTab::from(&[
        ("caller".to_string(), BASE_ADDR),
        ("callee".to_string(), BASE_ADDR + 8),
    ]));

    debugger.ftrace_start();
    debugger.step().unwrap();
    debugger.ftrace_stop();

    let before = debugger.ftrace_stat();
    debugger.step().unwrap();

    assert!(!debugger.ftrace_enabled());
    assert_eq!(debugger.ftrace_stat(), before);
    assert_eq!(
        debugger.ftrace_show(),
        vec![FuncTrace::Call {
            name: Some("callee".to_string()),
            addr: BASE_ADDR + 8,
        }]
    );
}

#[test]
fn test_ftrace_stats_keep_full_window_after_queue_truncation() {
    let cpu = TestCPUBuilder::new()
        .program(&[
            0x008000ef, // jal ra, 8
            0xffdff06f, // jal zero, -4
            0x00008067, // ret
        ])
        .build();

    let mut debugger = create_debugger(cpu);
    debugger.set_symbol_table(SymTab::from(&[
        ("caller".to_string(), BASE_ADDR),
        ("callee".to_string(), BASE_ADDR + 8),
    ]));
    debugger.ftrace_start();

    let loops = MAX_FTRACE as u64 + 1;
    debugger.continue_until_step(loops * 3).unwrap();

    let stats = debugger.ftrace_stat();
    assert_eq!(stats.queue_len, MAX_FTRACE);
    assert_eq!(stats.call_count, loops);
    assert_eq!(stats.return_count, loops);
    assert_eq!(
        stats.per_func,
        vec![
            (
                "callee".to_string(),
                FuncTraceStatEntry {
                    calls: loops,
                    returns: 0,
                },
            ),
            (
                "caller".to_string(),
                FuncTraceStatEntry {
                    calls: 0,
                    returns: loops,
                },
            ),
        ]
    );
}

#[test]
fn test_ftrace_unknown_stats_without_symbols() {
    let cpu = TestCPUBuilder::new()
        .program(&[
            0x008000ef, // jal ra, 8
            0x00000013, // nop
            0x00008067, // ret
        ])
        .build();

    let mut debugger = create_debugger(cpu);
    debugger.ftrace_start();
    debugger.continue_until_step(2).unwrap();

    assert_eq!(
        debugger.ftrace_stat(),
        FtraceStatsSnapshot {
            enabled: true,
            queue_len: 2,
            call_count: 1,
            return_count: 1,
            unknown_calls: 1,
            unknown_returns: 1,
            per_func: Vec::new(),
        }
    );
}

const NOP: u32 = 0x0000_0013;

#[test]
fn the_history_shows_the_latest_steps() {
    let cpu = TestCPUBuilder::new().program(&[NOP, NOP, 0x0000_006f]).build();
    let mut debugger = create_debugger(cpu);
    assert!(debugger.pc_history(5).is_empty());
    assert_eq!(debugger.continue_until_step(3).unwrap(), (DebugEvent::StepCompleted, 3));
    let entry = |offset: u64, word: u32| (BASE_ADDR + offset, Some(RawInstr::new(word)));
    assert_eq!(
        debugger.pc_history(5),
        vec![entry(0, NOP), entry(4, NOP), entry(8, 0x0000_006f)]
    );
    assert_eq!(debugger.pc_history(2), vec![entry(4, NOP), entry(8, 0x0000_006f)]);
    assert!(debugger.pc_history(0).is_empty());

    debugger.continue_until_step(MAX_HISTORY as u64 - 2).unwrap();
    let all = debugger.pc_history(2 * MAX_HISTORY);
    assert_eq!(all.len(), MAX_HISTORY);
    assert_eq!(all[0], entry(4, NOP));
    assert_eq!(all[MAX_HISTORY - 1], entry(8, 0x0000_006f));
}

#[test]
fn interrupts_and_unreadable_words_have_no_word_in_the_history() {
    let cpu = TestCPUBuilder::new().program(&[NOP, NOP, NOP]).build();
    let mut debugger = create_debugger(cpu);
    debugger.write_csr(0x305, BASE_ADDR + 8).unwrap(); // mtvec
    debugger.write_csr(0x304, 0x80).unwrap(); // mie
    debugger.write_csr(0x344, 0x80).unwrap(); // mip
    debugger.write_csr(0x300, 0x8).unwrap(); // mstatus
    debugger.step().unwrap();
    assert_eq!(debugger.read_pc(), BASE_ADDR + 8);
    assert_eq!(debugger.pc_history(1), vec![(BASE_ADDR, None)]);
    debugger.write_pc(0x10);
    debugger.step().unwrap();
    assert_eq!(debugger.pc_history(1), vec![(0x10, None)]);
    // Both cycles were counted.
    assert_eq!(debugger.cycle(), 2);
}

#[test]
fn every_step_counts_a_cycle() {
    let cpu = TestCPUBuilder::new()
        .program(&[
            NOP, 0x0000_0000, // illegal
            NOP,
        ])
        .build();
    let mut debugger = create_debugger(cpu);
    debugger.write_csr(0x305, BASE_ADDR).unwrap(); // mtvec
    assert_eq!(debugger.cycle(), 0);
    assert_eq!(debugger.continue_until_step(7).unwrap(), (DebugEvent::StepCompleted, 7));
    assert_eq!(debugger.cycle(), 7);
    debugger.set_breakpoint(Address::Virt(BASE_ADDR + 4)).unwrap();
    debugger.step().unwrap();
    let (event, steps) = debugger.continue_until_step(100).unwrap();
    assert_eq!((event, steps), (DebugEvent::BreakpointHit, 1));
    assert_eq!(debugger.cycle(), 9);
    debugger.write_csr(0xb00, u64::MAX).unwrap(); // mcycle
    debugger.step().unwrap();
    assert_eq!(debugger.cycle(), 0);
}

#[test]
fn a_stopped_trace_stays_and_its_counts_add_up() {
    let cpu = TestCPUBuilder::new()
        .program(&[
            0x008000ef, // jal ra, 8
            0xffdff06f, // jal zero, -4
            0x00008067, // ret
        ])
        .build();
    let mut debugger = create_debugger(cpu);
    debugger.set_symbol_table(SymTab::from(&[("main".to_string(), BASE_ADDR)]));
    debugger.ftrace_start();
    debugger.continue_until_step(4).unwrap();
    debugger.ftrace_stop();
    let (shown, stats) = (debugger.ftrace_show(), debugger.ftrace_stat());
    assert!(!stats.enabled);
    assert_eq!((stats.call_count, stats.return_count, stats.queue_len), (2, 1, 3));
    assert_eq!(stats.unknown_calls, 2);
    assert_eq!(
        stats.per_func,
        vec![("main".to_string(), FuncTraceStatEntry { calls: 0, returns: 1 })]
    );
    debugger.step().unwrap();
    debugger.continue_until_step(50).unwrap();
    assert_eq!(debugger.ftrace_show(), shown);
    assert_eq!(debugger.ftrace_stat(), stats);
}

#[test]
fn a_debugger_has_the_symbols_of_its_board() {
    let debugger = create_debugger(TestCPUBuilder::new().build());
    assert!(debugger.symbol_table().is_none());
    assert!(debugger.breakpoints().is_empty());
    assert!(matches!(debugger.symbol_by_addr(0), Err(DebugError::NoSymbolTable)));
}

#[test]
fn a_vector_register_is_read_as_the_whole_group() {
    let mut cpu = TestCPUBuilder::new().build();
    let bytes: Vec<u64> = (0..64).collect();
    cpu.vector.write_as_type(8, Width::W8, &bytes);
    let after_reset = create_debugger(cpu);
    assert_eq!(after_reset.read_vector_reg(8, Width::W8), Some(bytes[..16].to_vec()));
    assert_eq!(after_reset.read_vector_reg(9, Width::W64).map(|v| v.len()), Some(2));

    let mut cpu = after_reset.into_board();
    cpu.vector.set_config(VectorConfig {
        vlmul: Vlmul::M4,
        vsew: Vsew::E32,
        vta: false,
        vma: false,
        vl: 13,
    });
    let debugger = create_debugger(cpu);
    assert_eq!(debugger.read_vector_reg(8, Width::W8), Some(bytes));
    let words = debugger.read_vector_reg(8, Width::W32).unwrap();
    assert_eq!(words.len(), 16);
    assert_eq!(words[0], 0x0302_0100);
    assert_eq!(words[15], 0x3f3e_3d3c);
    assert_eq!(debugger.read_vector_reg(8, Width::W64).unwrap().len(), 8);
    assert_eq!(debugger.read_vector_reg(10, Width::W8), None);
}

/// A board that halts after some cycles.
struct TestBoard {
    cpu: RVCPU,
    left: u64,
}

impl Board for TestBoard {
    fn wf(&self) -> bool {
        unreachable!()
    }

    fn hart(&self) -> CpuState {
        unreachable!()
    }

    fn halted(&self) -> bool {
        unreachable!()
    }

    fn symbols(&self) -> Option<Symbols> {
        unreachable!()
    }

    fn status(&self) -> BoardStatus {
        if self.left == 0 {
            BoardStatus::Halt
        } else {
            BoardStatus::Running
        }
    }

    fn cpu(&self) -> &RVCPU {
        &self.cpu
    }

    fn cpu_mut(&mut self) -> &mut RVCPU {
        &mut self.cpu
    }

    fn symbol_table(&self) -> Option<SymTab> {
        Some(SymTab::from(&[("main".to_string(), BASE_ADDR)]))
    }
}

impl HookedBoard<DebuggerExecutionHook> for TestBoard {
    fn may_run(
        _before: Self,
        _hook: HookModel,
        _cycles: u64,
        _after: Self,
        _hook_after: HookModel,
        _r: BatchResult,
        _seen: SeenCycles,
    ) -> bool {
        unreachable!()
    }

    fn run_cycles_hooked(&mut self, cycles: u64, hook: &mut DebuggerExecutionHook) -> BatchResult {
        let r = self.cpu.step_batch_with_hook(cycles.min(self.left), hook);
        self.left -= r.cycles;
        r
    }
}

#[test]
fn a_board_that_halts_ends_the_run_and_counts_its_steps() {
    let cpu = TestCPUBuilder::new().program(&[NOP, 0xffdff06f]).build(); // label: nop; j label
    let mut debugger = Debugger::new(TestBoard { cpu, left: 9 });
    assert_eq!(debugger.symbol_by_addr(BASE_ADDR).unwrap(), "main");
    assert_eq!(debugger.continue_until_step(4).unwrap(), (DebugEvent::StepCompleted, 4));
    debugger.set_breakpoint(Address::Virt(BASE_ADDR + 4)).unwrap();
    assert_eq!(debugger.continue_until_step(4).unwrap(), (DebugEvent::BreakpointHit, 1));
    assert_eq!(debugger.read_pc(), BASE_ADDR + 4);
    assert_eq!(debugger.cycle(), 5);
    debugger.clear_breakpoint(Address::Virt(BASE_ADDR + 4)).unwrap();
    assert_eq!(debugger.continue_run().unwrap(), (DebugEvent::BoardHalted, 4));
    assert_eq!(debugger.cycle(), 9);
    assert_eq!(debugger.continue_until_step(4).unwrap(), (DebugEvent::BoardHalted, 0));
    assert_eq!(debugger.continue_until_step(0).unwrap(), (DebugEvent::StepCompleted, 0));
    assert_eq!(debugger.cycle(), 9);
    assert_eq!(debugger.pc_history(100).len(), 9);
}
