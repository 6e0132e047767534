use fairnes::cpu::cpu::CPUState;
use fairnes::ui::UiApp;

fn cartridge(program: &[u8]) -> Vec<u8> {
    let mut bytes = vec![0x4E, 0x45, 0x53, 0x1A, 2, 0, 0, 0, 0, 0, 0, 0, 0, 0, 0, 0];
    let mut rom = vec![0u8; 0x8000];
    rom[..program.len()].copy_from_slice(program);
    rom[0x7FFC] = 0x00;
    rom[0x7FFD] = 0x80;
    bytes.extend_from_slice(&rom);
    bytes
}

#[test]
fn default_app_is_empty() {
    let app = UiApp::default();
    assert_eq!(app.emulator.cpu.state, CPUState::Halted);
    assert!(app.memory_inspect_target.is_empty());
    assert!(app.memory_inspect_value.is_empty());
    assert!(app.rom_filepath.is_empty());
    assert!(app.tracelogger_text.is_empty());
    assert!(!app.tracelogger_view && !app.pattern_table_view);
    assert!(app.pattern_table.is_empty());
}

#[test]
fn default_app_holds_a_power_on_emulator() {
    let mut app = UiApp::default();
    assert!(app.emulator.message().is_empty());
    assert!(app.emulator.chr().is_empty());
    let cpu = app.emulator.processor();
    assert_eq!((cpu.pc, cpu.a, cpu.x, cpu.y, cpu.sp, cpu.p.get()), (0, 0, 0, 0, 0, 0x20));
    for a in [0x0000u16, 0x0400, 0x07FF] {
        assert_eq!(app.emulator.mem_read(a), 0);
    }
    assert_eq!(app.emulator.mem_read(0x4000), 0);
    assert!(!app.emulator.readable(0x8000));
}

#[test]
fn pattern_table_of_blank_data_is_black() {
    let mut app = UiApp::default();
    app.emulator.chrdata = vec![0; 8192];
    app.load_pattern_table();
    assert_eq!(app.pattern_table.len(), 256 * 128 * 3);
    assert!(app.pattern_table.iter().all(|b| *b == 0));
}

#[test]
fn pattern_table_shades_from_both_bit_planes() {
    let mut app = UiApp::default();
    let mut chr = vec![0u8; 8192];
    chr[0] = 0x80; // table 0, tile 0, row 0, low plane: leftmost pixel
    chr[8] = 0x80; // same pixel, high plane
    chr[1] = 0x01; // tile 0, row 1, low plane: rightmost pixel
    chr[4096] = 0x80; // table 1, tile 0, row 0: pixel (128, 0)
    chr[16 + 2 + 8] = 0x40; // tile 1, row 2, high plane: pixel (9, 2)
    chr[256] = 0x80; // tile row 1: pixel (0, 8)
    app.emulator.chrdata = chr;
    app.load_pattern_table();
    let px = |x: usize, y: usize| -> [u8; 3] {
        let i = (x + 256 * y) * 3;
        [app.pattern_table[i], app.pattern_table[i + 1], app.pattern_table[i + 2]]
    };
    assert_eq!(px(0, 0), [170, 170, 170]);
    assert_eq!(px(7, 1), [85, 85, 85]);
    assert_eq!(px(128, 0), [85, 85, 85]);
    assert_eq!(px(9, 2), [85, 85, 85]);
    assert_eq!(px(0, 8), [85, 85, 85]);
    assert_eq!(px(1, 0), [0, 0, 0]);
    let lit = app.pattern_table.iter().filter(|b| **b != 0).count();
    assert_eq!(lit, 5 * 3);
}

#[test]
fn pattern_table_is_grey_in_four_shades() {
    let mut app = UiApp::default();
    app.emulator.chrdata = (0..8192u32).map(|i| (i * 37 % 251) as u8).collect();
    app.load_pattern_table();
    for pixel in app.pattern_table.chunks(3) {
        assert_eq!(pixel[0], pixel[1]);
        assert_eq!(pixel[1], pixel[2]);
        assert!(pixel[0] == 0 || pixel[0] == 85 || pixel[0] == 170);
    }
}

#[test]
fn probe_shows_memory_in_hex() {
    let mut app = UiApp::default();
    app.emulator.mem_write(16, 0xAB);
    app.memory_inspect_target = "16".to_string();
    assert!(app.probe_memory());
    assert_eq!(app.memory_inspect_value, "ab");
    app.memory_inspect_target = "+2064".to_string();
    assert!(app.probe_memory());
    assert_eq!(app.memory_inspect_value, "ab");
    app.memory_inspect_target = "17".to_string();
    assert!(app.probe_memory());
    assert_eq!(app.memory_inspect_value, "0");
}

#[test]
fn probe_refuses_what_is_no_number() {
    let mut app = UiApp::default();
    for text in ["", "abc", "-1", "65536", " 5", "5 ", "1_0", "0x10", "+"] {
        app.memory_inspect_target = text.to_string();
        assert!(app.probe_memory());
        assert_eq!(app.memory_inspect_value, "Invalid number", "{:?}", text);
    }
}

#[test]
fn probe_of_rom_beyond_the_cartridge_is_refused() {
    let mut app = UiApp::default();
    app.memory_inspect_value = "before".to_string();
    app.memory_inspect_target = "32768".to_string();
    assert!(!app.probe_memory());
    assert_eq!(app.memory_inspect_value, "before");
    app.emulator.load_cartridge(cartridge(&[0x5C]));
    assert!(app.probe_memory());
    assert_eq!(app.memory_inspect_value, "5c");
    app.memory_inspect_target = "65533".to_string();
    assert!(app.probe_memory());
    assert_eq!(app.memory_inspect_value, "80");
}

#[test]
fn advance_runs_a_frame_or_one_cycle() {
    let mut app = UiApp::default();
    assert!(app.advance());
    assert_eq!(app.emulator.cpu.state, CPUState::Halted);
    app.emulator.load_cartridge(cartridge(&[0xA9, 0x07, 0x02]));
    app.tracelogger_view = true;
    assert!(app.advance());
    assert_eq!(app.emulator.cpu.state, CPUState::NeedOperand);
    app.tracelogger_view = false;
    assert!(app.advance());
    assert_eq!(app.emulator.cpu.state, CPUState::Halted);
    assert_eq!(app.emulator.cpu.a, 7);
}
