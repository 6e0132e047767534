use fairnes::cpu::cpu::CPUState;
use fairnes::emulator::Emulator;

/// An iNES image: header, then 32 KiB of program ROM holding `program` at
/// 0x8000 and the reset vector pointing there.
fn cartridge(program: &[u8]) -> Vec<u8> {
    let mut bytes = vec![0x4E, 0x45, 0x53, 0x1A, 2, 0, 0, 0, 0, 0, 0, 0, 0, 0, 0, 0];
    let mut rom = vec![0u8; 0x8000];
    rom[..program.len()].copy_from_slice(program);
    rom[0x7FFC] = 0x00;
    rom[0x7FFD] = 0x80;
    bytes.extend_from_slice(&rom);
    bytes
}

fn loaded(program: &[u8]) -> Emulator {
    let mut e = Emulator::default();
    e.load_cartridge(cartridge(program));
    e
}

#[test]
fn default_emulator_is_halted_with_clear_ram() {
    let mut e = Emulator::default();
    assert_eq!(e.cpu.state, CPUState::Halted);
    assert_eq!(e.last_text, "");
    assert!(e.chrdata.is_empty());
    for a in [0x0000u16, 0x0001, 0x07FF, 0x1FFF] {
        assert_eq!(e.mem_read(a), 0);
    }
}

#[test]
fn ram_is_mirrored_every_two_kilobytes() {
    let mut e = Emulator::default();
    e.mem_write(0x0805, 7);
    assert_eq!(e.mem_read(0x0005), 7);
    assert_eq!(e.mem_read(0x1005), 7);
    assert_eq!(e.mem_read(0x1805), 7);
    assert_eq!(e.mem_read(0x0006), 0);
}

#[test]
fn open_bus_returns_last_value() {
    let mut e = Emulator::default();
    e.mem_write(0x0010, 0x5A);
    assert_eq!(e.mem_read(0x3000), 0x5A);
    e.mem_write(0x4000, 0x66);
    assert_eq!(e.mem_read(0x6000), 0x66);
    assert_eq!(e.mem_read(0x0010), 0x5A);
    assert_eq!(e.mem_read(0x2000), 0x5A);
}

#[test]
fn writes_above_ram_do_not_reach_ram_or_rom() {
    let mut e = loaded(&[0xEA]);
    e.mem_write(0x2005, 9);
    e.mem_write(0x8000, 9);
    assert_eq!(e.mem_read(0x0005), 0);
    assert_eq!(e.mem_read(0x8000), 0xEA);
}

#[test]
fn too_small_cartridge_is_refused() {
    let mut e = Emulator::default();
    e.load_cartridge(vec![0x4E, 0x45, 0x53, 0x1A]);
    assert_eq!(e.last_text, "ROM too small, corruption occurred.");
    assert_eq!(e.cpu.state, CPUState::Halted);
    assert_eq!(e.cpu.pc, 0);
    let mut e = Emulator::default();
    e.load_cartridge(vec![0x4E, 0x45, 0x53, 0x1A].into_iter().chain(std::iter::repeat(0).take(16395)).collect());
    assert_eq!(e.last_text, "ROM too small, corruption occurred.");
}

#[test]
fn cartridge_without_magic_is_refused() {
    let mut bytes = cartridge(&[]);
    bytes[3] = 0x1B;
    let mut e = Emulator::default();
    e.load_cartridge(bytes);
    assert_eq!(e.last_text, "Missing magic number, not a .nes file?");
    assert_eq!(e.cpu.state, CPUState::Halted);
    assert!(!e.readable(0x8000));
}

#[test]
fn loading_resets_through_the_vector() {
    let e = loaded(&[0xEA]);
    assert_eq!(e.cpu.pc, 0x8000);
    assert_eq!(e.cpu.state, CPUState::NeedInstruction);
    assert_eq!(e.cpu.sp, 0xFD);
    assert!(e.cpu.p.interrupt_disable);
    assert_eq!(e.last_text, "Resetting PC to 8000");
}

#[test]
fn loaded_rom_starts_after_the_header() {
    let mut e = loaded(&[0x11, 0x22, 0x33]);
    assert_eq!(e.mem_read(0x8000), 0x11);
    assert_eq!(e.mem_read(0x8002), 0x33);
    assert_eq!(e.mem_read(0xFFFD), 0x80);
}

#[test]
fn reset_message_is_lowercase_hex_without_leading_zeros() {
    let mut bytes = cartridge(&[]);
    bytes[16 + 0x7FFC] = 0xCD;
    bytes[16 + 0x7FFD] = 0xAB;
    let mut e = Emulator::default();
    e.load_cartridge(bytes);
    assert_eq!(e.cpu.pc, 0xABCD);
    assert_eq!(e.last_text, "Resetting PC to abcd");
    let mut bytes = cartridge(&[]);
    bytes[16 + 0x7FFC] = 0x0F;
    bytes[16 + 0x7FFD] = 0x00;
    let mut e = Emulator::default();
    e.load_cartridge(bytes);
    assert_eq!(e.last_text, "Resetting PC to f");
}

#[test]
fn run_frame_on_halted_cpu_changes_nothing() {
    let mut e = Emulator::default();
    e.run_frame();
    assert_eq!(e.cpu.state, CPUState::Halted);
    assert_eq!(e.cpu.pc, 0);
    assert!(e.run_frame_checked());
    assert!(e.master_cycle_checked());
    assert_eq!(e.cpu.pc, 0);
}

#[test]
fn program_runs_until_halt() {
    // LDA #$05; STA $10; ADC #$03; HTL
    let mut e = loaded(&[0xA9, 0x05, 0x85, 0x10, 0x69, 0x03, 0x02]);
    e.run_frame();
    assert_eq!(e.cpu.state, CPUState::Halted);
    assert_eq!(e.cpu.a, 0x08);
    assert_eq!(e.cpu.pc, 0x8007);
    assert_eq!(e.mem_read(0x0010), 0x05);
}

#[test]
fn cycles_of_a_load_immediate() {
    let mut e = loaded(&[0xA9, 0x80]);
    e.master_cycle();
    assert_eq!(e.cpu.state, CPUState::NeedOperand);
    assert_eq!(e.cpu.instruction.name, "LDA");
    assert_eq!(e.cpu.pc, 0x8001);
    e.master_cycle();
    assert_eq!(e.cpu.state, CPUState::NeedInstruction);
    assert_eq!(e.cpu.a, 0x80);
    assert!(e.cpu.p.negative);
    assert_eq!(e.cpu.pc, 0x8002);
}

#[test]
fn stack_push_and_pull() {
    // LDA #$42; PHA; LDA #$00; PLA; HTL
    let mut e = loaded(&[0xA9, 0x42, 0x48, 0xA9, 0x00, 0x68, 0x02]);
    e.run_frame();
    assert_eq!(e.cpu.state, CPUState::Halted);
    assert_eq!(e.cpu.a, 0x42);
    assert_eq!(e.cpu.sp, 0xFD);
    assert_eq!(e.mem_read(0x01FD), 0x42);
}

#[test]
fn branch_loop_counts_down() {
    // LDX #$03; DEX; BNE -3; HTL
    let mut e = loaded(&[0xA2, 0x03, 0xCA, 0xD0, 0xFD, 0x02]);
    e.run_frame();
    assert_eq!(e.cpu.state, CPUState::Halted);
    assert_eq!(e.cpu.x, 0);
    assert!(e.cpu.p.zero);
    assert_eq!(e.cpu.pc, 0x8006);
}

#[test]
fn read_modify_write_writes_original_then_result() {
    // LDA #$7F; STA $20; INC $20; HTL
    let mut e = loaded(&[0xA9, 0x7F, 0x85, 0x20, 0xE6, 0x20, 0x02]);
    e.run_frame();
    assert_eq!(e.cpu.state, CPUState::Halted);
    assert_eq!(e.mem_read(0x0020), 0x80);
    assert!(e.cpu.p.negative);
}

#[test]
fn absolute_store_and_jump() {
    // LDA #$99; STA $0234; JMP $8010; ... at $8010: HTL
    let mut program = vec![0xA9, 0x99, 0x8D, 0x34, 0x02, 0x4C, 0x10, 0x80];
    program.resize(0x10, 0xEA);
    program.push(0x02);
    let mut e = loaded(&program);
    e.run_frame();
    assert_eq!(e.cpu.state, CPUState::Halted);
    assert_eq!(e.mem_read(0x0234), 0x99);
    assert_eq!(e.cpu.pc, 0x8011);
}

#[test]
fn frame_without_halt_runs_all_its_cycles() {
    // JMP $8000, forever.
    let mut e = loaded(&[0x4C, 0x00, 0x80]);
    e.run_frame();
    // 29780 cycles: 9926 jumps of three cycles, then the opcode and the low
    // address byte of the next one.
    assert_eq!(e.cpu.state, CPUState::NeedOperand);
    assert_eq!(e.cpu.pc, 0x8002);
    assert!(e.cpu.lo_set);
    assert_eq!(e.cpu.instruction.name, "JMP");
}

#[test]
fn checked_frame_stops_before_an_unsafe_cycle() {
    // JSR $8010: the jump target's shift by 8 + 0x10 bits does not fit.
    let mut e = loaded(&[0x20, 0x10, 0x80]);
    assert!(!e.run_frame_checked());
    assert_eq!(e.cpu.state, CPUState::Pushing { value: 0x02 });
    assert_eq!(e.cpu.sp, 0xFC);
    assert!(!e.cycle_is_safe());
    assert!(!e.master_cycle_checked());
    assert_eq!(e.cpu.state, CPUState::Pushing { value: 0x02 });
}

#[test]
fn checked_frame_matches_frame_when_safe() {
    let program = [0xA2, 0x03, 0xCA, 0xD0, 0xFD, 0x02];
    let mut a = loaded(&program);
    let mut b = loaded(&program);
    a.run_frame();
    assert!(b.run_frame_checked());
    assert_eq!((a.cpu.pc, a.cpu.x, a.cpu.state), (b.cpu.pc, b.cpu.x, b.cpu.state));
}

#[test]
fn readable_covers_ram_open_bus_and_loaded_rom() {
    let e = Emulator::default();
    assert!(e.readable(0x0000));
    assert!(e.readable(0x7FFF));
    assert!(!e.readable(0x8000));
    let e = loaded(&[]);
    assert!(e.readable(0xFFFF));
}

#[test]
fn cycles_write_only_their_target() {
    // LDA #$42; PHA; STA $0123; HTL
    let mut e = loaded(&[0xA9, 0x42, 0x48, 0x8D, 0x23, 0x01, 0x02]);
    e.run_frame();
    assert_eq!(e.cpu.state, CPUState::Halted);
    for a in 0..0x0800u16 {
        let expected = if a == 0x01FD || a == 0x0123 { 0x42 } else { 0 };
        assert_eq!(e.mem_read(a), expected, "{:x}", a);
    }
    assert_eq!(e.mem_read(0x8000), 0xA9);
    assert_eq!(e.message(), "Resetting PC to 8000");
}
