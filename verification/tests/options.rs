//! The version string, device options, symbols and instruction patterns.
use here::device_config::{DeviceConfig, VirtIODeviceEnum};
use here::isa::utils::create_decode_mask;
use here::load::SymTab;
use here::isa::riscv::debugger::DebugEvent;
use here::rvdb::nostd_repl::{
    after_chunk, next_chunk, resolve_line, trim_line, ChunkEnd, ContinueStep, RvdbChannelRx, RvdbChannelTx,
    RvdbChannels,
};
use here::version::compute_version;

#[test]
fn stable_release() {
    assert_eq!(compute_version("0.2.0", true, "a1b2c3d4"), "0.2.0");
}

#[test]
fn prerelease() {
    assert_eq!(compute_version("0.2.0-alpha", true, "a1b2c3d4"), "0.2.0-alpha (a1b2c3d4)");
}

#[test]
fn dev() {
    assert_eq!(compute_version("0.2.0", false, "a1b2c3d4"), "0.2.0 WIP (a1b2c3d4)");
}

#[test]
fn dev_prerelease() {
    assert_eq!(compute_version("0.2.0-alpha", false, "a1b2c3d4"), "0.2.0-alpha WIP (a1b2c3d4)");
}

#[test]
fn a_device_has_a_kind_and_a_path() {
    let config = DeviceConfig::from_str("virtio-block:disk.img").unwrap();
    assert_eq!(config.dev_type, VirtIODeviceEnum::VirtIOBlock);
    assert_eq!(config.path, "disk.img");
    let config = DeviceConfig::from_str("virtio-network:tap0:rest").unwrap();
    assert_eq!(config.dev_type, VirtIODeviceEnum::VirtIONet);
    assert_eq!(config.path, "tap0");
    assert_eq!(
        DeviceConfig::from_str("floppy:a").unwrap_err(),
        "Unknown device type: floppy"
    );
    assert_eq!(
        DeviceConfig::from_str("virtio-block").unwrap_err(),
        "Need input a device path."
    );
}

#[test]
fn symbols_are_found_by_name_and_address() {
    let table = SymTab::from(&[
        ("start".to_string(), 0x100),
        ("body".to_string(), 0x180),
        ("end".to_string(), 0x200),
    ]);
    assert_eq!(table.func_name_by_addr(0x180).map(|s| s.as_str()), Some("body"));
    assert_eq!(table.func_name_by_addr(0x184), None);
    assert_eq!(table.func_name_in_addr_range(0x1ff).map(|s| s.as_str()), Some("body"));
    assert_eq!(table.func_name_in_addr_range(0xff), None);
    assert_eq!(table.func_addr_by_name("end"), Some(0x200));
    assert_eq!(table.func_addr_by_name("nowhere"), None);
}

#[test]
fn a_pattern_matches_the_words_with_its_bits() {
    let mask = create_decode_mask("1?0-11000101????");
    assert_eq!(mask.mask, 0b1010_1111_1111_0000);
    assert_eq!(mask.key, 0b1000_1100_0101_0000);
    assert!(mask.matches(0b1101_1100_0101_1010));
    assert!(!mask.matches(0b0101_1100_0101_1010));
}

#[test]
fn the_channel_keeps_what_goes_through_it_in_order() {
    let mut state = RvdbChannels::new();
    assert_eq!(RvdbChannelRx::read(&mut state, 4), None);
    RvdbChannelTx::push_input(&mut state, b"step");
    RvdbChannelTx::push_input(&mut state, b" 3");
    assert_eq!(RvdbChannelRx::read(&mut state, 4), Some(b"step".to_vec()));
    assert_eq!(RvdbChannelRx::read(&mut state, 4), Some(b" 3".to_vec()));
    assert_eq!(RvdbChannelRx::write(&mut state, b"done"), 4);
    assert_eq!(RvdbChannelTx::take_output(&mut state), b"done".to_vec());
    assert!(RvdbChannelTx::take_output(&mut state).is_empty());
}

#[test]
fn a_continue_command_runs_in_chunks_until_it_is_canceled() {
    let mut state = RvdbChannels::new();
    assert_eq!(next_chunk(&mut state, 250_000), ContinueStep::Run(100_000));
    assert_eq!(
        after_chunk(DebugEvent::StepCompleted, 100_000, 250_000),
        ChunkEnd::GoOn(150_000)
    );
    assert_eq!(next_chunk(&mut state, 50_000), ContinueStep::Run(50_000));
    assert_eq!(after_chunk(DebugEvent::StepCompleted, 50_000, 50_000), ChunkEnd::Done);
    assert_eq!(
        after_chunk(DebugEvent::BreakpointHit, 10, 50),
        ChunkEnd::Stopped(DebugEvent::BreakpointHit, 40)
    );
    RvdbChannelTx::cancel_continue(&mut state);
    assert!(RvdbChannelRx::is_canceled(&state));
    assert_eq!(next_chunk(&mut state, 5), ContinueStep::Canceled);
    assert!(!RvdbChannelRx::is_canceled(&state));
    assert_eq!(resolve_line(&"si".to_string(), &None), Some("si".to_string()));
    assert_eq!(resolve_line(&String::new(), &Some("c".to_string())), Some("c".to_string()));
    assert_eq!(resolve_line(&String::new(), &None), None);
    assert_eq!(resolve_line(" \t\u{2003}c 10\u{3000}\r\n", &None), Some("c 10".to_string()));
    assert_eq!(resolve_line(" \n", &Some("si".to_string())), Some("si".to_string()));
    assert_eq!(resolve_line(" \n", &None), None);
    for text in ["", " ", "a", " a", "a ", "\u{85}x y\u{a0}", "\u{200b}z", "é \u{205f}"] {
        assert_eq!(trim_line(text), text.trim());
    }
}
