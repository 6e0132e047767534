use fairnes::cpu::cpu::{CPUState, CPU};
use fairnes::cpu::instruction::{AddressingMode, Instruction};
use fairnes::cpu::instruction_implementation::execute_instruction;
use fairnes::cpu::instruction_table::parse_instruction;

fn ins(name: &str, mode: AddressingMode, value: u8) -> Instruction {
    let mut i = Instruction::new(0, name, mode, false);
    i.value = value;
    i
}

fn exec(cpu: &mut CPU, name: &str, mode: AddressingMode, value: u8) {
    execute_instruction(ins(name, mode, value), cpu);
}

fn flags(cpu: &CPU) -> (bool, bool, bool, bool) {
    (cpu.p.negative, cpu.p.overflow, cpu.p.zero, cpu.p.carry)
}

#[test]
fn new_cpu_is_powered_off_state() {
    let cpu = CPU::new();
    assert_eq!((cpu.pc, cpu.a, cpu.x, cpu.y, cpu.sp, cpu.lo, cpu.lo_set), (0, 0, 0, 0, 0, 0, false));
    assert_eq!(cpu.state, CPUState::Halted);
    assert_eq!(cpu.p.get(), 0x20);
    assert_eq!(cpu.instruction.name, "");
    assert_eq!(cpu.instruction.mode, AddressingMode::Implied);
}

#[test]
fn instruction_new_has_no_operand() {
    let i = Instruction::new(0x8D, "STA", AddressingMode::Absolute, true);
    assert_eq!(i.opcode, 0x8D);
    assert_eq!(i.name, "STA");
    assert_eq!(i.mode, AddressingMode::Absolute);
    assert_eq!((i.value, i.address, i.does_write), (0, 0, true));
}

#[test]
fn parse_decodes_documented_opcodes() {
    let i = parse_instruction(0xA9);
    assert_eq!((i.opcode, i.name.as_str(), i.mode, i.value, i.address, i.does_write), (0xA9, "LDA", AddressingMode::Immediate, 0, 0, false));
    let i = parse_instruction(0x8D);
    assert_eq!((i.name.as_str(), i.mode, i.does_write), ("STA", AddressingMode::Absolute, true));
    let i = parse_instruction(0x96);
    assert_eq!((i.name.as_str(), i.mode, i.does_write), ("STX", AddressingMode::ZeroPageY, true));
    let i = parse_instruction(0xD0);
    assert_eq!((i.name.as_str(), i.mode), ("BNE", AddressingMode::Relative));
    let i = parse_instruction(0x6C);
    assert_eq!((i.name.as_str(), i.mode), ("JMP", AddressingMode::Indirect));
    let i = parse_instruction(0x0A);
    assert_eq!((i.name.as_str(), i.mode), ("ASL", AddressingMode::Implied));
    let i = parse_instruction(0xB1);
    assert_eq!((i.name.as_str(), i.mode), ("LDA", AddressingMode::IndirectY));
    let i = parse_instruction(0x61);
    assert_eq!((i.name.as_str(), i.mode), ("ADC", AddressingMode::XIndirect));
}

#[test]
fn parse_decodes_jams_as_halt_and_others_as_unknown() {
    for op in [0x02u8, 0x12, 0x22, 0x32, 0x42, 0x52, 0x62, 0x72, 0x92, 0xB2, 0xD2, 0xF2] {
        let i = parse_instruction(op);
        assert_eq!((i.name.as_str(), i.mode), ("HTL", AddressingMode::Implied));
    }
    let i = parse_instruction(0xFF);
    assert_eq!((i.opcode, i.name.as_str(), i.mode, i.does_write), (0xFF, "???", AddressingMode::Implied, false));
}

#[test]
fn parse_counts_documented_opcodes() {
    let known = (0..=255u8).filter(|op| {
        let n = parse_instruction(*op).name;
        n != "???" && n != "HTL"
    }).count();
    assert_eq!(known, 151);
}

#[test]
fn halt_stops_the_cpu() {
    let mut cpu = CPU::new();
    cpu.state = CPUState::Ready;
    exec(&mut cpu, "HTL", AddressingMode::Implied, 0);
    assert_eq!(cpu.state, CPUState::Halted);
}

#[test]
fn unknown_name_does_nothing() {
    let mut cpu = CPU::new();
    cpu.a = 9;
    cpu.state = CPUState::Ready;
    exec(&mut cpu, "???", AddressingMode::Implied, 0x55);
    assert_eq!((cpu.a, cpu.state), (9, CPUState::Ready));
    assert_eq!(cpu.p.get(), 0x20);
}

#[test]
fn adc_signed_overflow() {
    let mut cpu = CPU::new();
    cpu.a = 0x50;
    exec(&mut cpu, "ADC", AddressingMode::Immediate, 0x50);
    assert_eq!(cpu.a, 0xA0);
    assert_eq!(flags(&cpu), (true, true, false, false));
}

#[test]
fn adc_carry_out_and_zero() {
    let mut cpu = CPU::new();
    cpu.a = 0xFF;
    exec(&mut cpu, "ADC", AddressingMode::Immediate, 0x01);
    assert_eq!(cpu.a, 0x00);
    assert_eq!(flags(&cpu), (false, false, true, true));
}

#[test]
fn adc_adds_carry_in() {
    let mut cpu = CPU::new();
    cpu.a = 0x10;
    cpu.p.carry = true;
    exec(&mut cpu, "ADC", AddressingMode::Immediate, 0x20);
    assert_eq!(cpu.a, 0x31);
    assert_eq!(flags(&cpu), (false, false, false, false));
}

#[test]
fn sbc_without_borrow() {
    let mut cpu = CPU::new();
    cpu.a = 0x50;
    cpu.p.carry = true;
    exec(&mut cpu, "SBC", AddressingMode::Immediate, 0xF0);
    assert_eq!(cpu.a, 0x60);
    assert_eq!(flags(&cpu), (false, false, false, false));
}

#[test]
fn sbc_signed_overflow() {
    let mut cpu = CPU::new();
    cpu.a = 0x50;
    cpu.p.carry = true;
    exec(&mut cpu, "SBC", AddressingMode::Immediate, 0xB0);
    assert_eq!(cpu.a, 0xA0);
    assert_eq!(flags(&cpu), (true, true, false, false));
}

#[test]
fn sbc_with_borrow_in() {
    let mut cpu = CPU::new();
    cpu.a = 5;
    exec(&mut cpu, "SBC", AddressingMode::Immediate, 3);
    assert_eq!(cpu.a, 1);
    assert_eq!(flags(&cpu), (false, false, false, true));
}

#[test]
fn sbc_equals_adc_of_complement() {
    for a in [0u8, 1, 0x40, 0x7F, 0x80, 0xC3, 0xFF] {
        for v in [0u8, 1, 0x3F, 0x80, 0x90, 0xFE, 0xFF] {
            for carry in [false, true] {
                let mut s = CPU::new();
                s.a = a;
                s.p.carry = carry;
                let mut d = CPU::new();
                d.a = a;
                d.p.carry = carry;
                exec(&mut s, "SBC", AddressingMode::Immediate, v);
                exec(&mut d, "ADC", AddressingMode::Immediate, !v);
                assert_eq!(s.a, d.a);
                assert_eq!(s.p.get(), d.p.get());
            }
        }
    }
}

#[test]
fn logic_operations() {
    let mut cpu = CPU::new();
    cpu.a = 0xF0;
    exec(&mut cpu, "AND", AddressingMode::Immediate, 0x0F);
    assert_eq!(cpu.a, 0);
    assert!(cpu.p.zero);
    exec(&mut cpu, "ORA", AddressingMode::Immediate, 0x81);
    assert_eq!(cpu.a, 0x81);
    assert!(cpu.p.negative && !cpu.p.zero);
    exec(&mut cpu, "EOR", AddressingMode::Immediate, 0xFF);
    assert_eq!(cpu.a, 0x7E);
    assert!(!cpu.p.negative && !cpu.p.zero);
}

#[test]
fn asl_on_accumulator() {
    let mut cpu = CPU::new();
    cpu.a = 0x81;
    exec(&mut cpu, "ASL", AddressingMode::Implied, 0);
    assert_eq!(cpu.a, 0x02);
    assert_eq!(flags(&cpu), (false, false, false, true));
}

#[test]
fn asl_on_memory_modifies() {
    let mut cpu = CPU::new();
    let mut i = ins("ASL", AddressingMode::ZeroPage, 0xC0);
    i.address = 0x0042;
    execute_instruction(i, &mut cpu);
    assert_eq!(cpu.state, CPUState::PendingModify { address: 0x0042, original: 0xC0, value: 0x80 });
    assert_eq!(flags(&cpu), (true, false, false, true));
}

#[test]
fn lsr_on_accumulator_and_memory() {
    let mut cpu = CPU::new();
    cpu.a = 0x01;
    exec(&mut cpu, "LSR", AddressingMode::Implied, 0);
    assert_eq!(cpu.a, 0);
    assert_eq!(flags(&cpu), (false, false, true, true));
    let mut i = ins("LSR", AddressingMode::Absolute, 0x84);
    i.address = 0x0300;
    execute_instruction(i, &mut cpu);
    assert_eq!(cpu.state, CPUState::PendingModify { address: 0x0300, original: 0x84, value: 0x42 });
    assert_eq!(flags(&cpu), (false, false, false, false));
}

#[test]
fn rol_and_ror_rotate_through_carry() {
    let mut cpu = CPU::new();
    cpu.a = 0x80;
    cpu.p.carry = true;
    exec(&mut cpu, "ROL", AddressingMode::Implied, 0);
    assert_eq!(cpu.a, 0x01);
    assert!(cpu.p.carry);
    exec(&mut cpu, "ROR", AddressingMode::Implied, 0);
    assert_eq!(cpu.a, 0x80);
    assert!(cpu.p.carry);
    assert!(cpu.p.negative);
}

#[test]
fn ror_undoes_rol_for_every_value() {
    for a in 0..=255u8 {
        for carry in [false, true] {
            let mut cpu = CPU::new();
            cpu.a = a;
            cpu.p.carry = carry;
            exec(&mut cpu, "ROL", AddressingMode::Implied, 0);
            exec(&mut cpu, "ROR", AddressingMode::Implied, 0);
            assert_eq!((cpu.a, cpu.p.carry), (a, carry));
        }
    }
}

#[test]
fn rol_and_ror_on_memory_modify() {
    let mut cpu = CPU::new();
    cpu.p.carry = true;
    let mut i = ins("ROL", AddressingMode::ZeroPage, 0x40);
    i.address = 0x10;
    execute_instruction(i, &mut cpu);
    assert_eq!(cpu.state, CPUState::PendingModify { address: 0x10, original: 0x40, value: 0x81 });
    assert!(!cpu.p.carry && cpu.p.negative);
    let mut i = ins("ROR", AddressingMode::ZeroPage, 0x03);
    i.address = 0x11;
    execute_instruction(i, &mut cpu);
    assert_eq!(cpu.state, CPUState::PendingModify { address: 0x11, original: 0x03, value: 0x01 });
    assert!(cpu.p.carry);
}

#[test]
fn bit_test() {
    let mut cpu = CPU::new();
    cpu.a = 0x01;
    exec(&mut cpu, "BIT", AddressingMode::ZeroPage, 0xC0);
    assert_eq!(flags(&cpu), (true, true, true, false));
    assert_eq!(cpu.a, 0x01);
    exec(&mut cpu, "BIT", AddressingMode::ZeroPage, 0x01);
    assert_eq!(flags(&cpu), (false, false, false, false));
}

#[test]
fn branches_follow_their_flag() {
    let cases: [(&str, fn(&mut CPU, bool)); 8] = [
        ("BPL", |c, f| c.p.negative = !f),
        ("BMI", |c, f| c.p.negative = f),
        ("BVC", |c, f| c.p.overflow = !f),
        ("BVS", |c, f| c.p.overflow = f),
        ("BCC", |c, f| c.p.carry = !f),
        ("BCS", |c, f| c.p.carry = f),
        ("BNE", |c, f| c.p.zero = !f),
        ("BEQ", |c, f| c.p.zero = f),
    ];
    for (name, set) in cases {
        let mut cpu = CPU::new();
        cpu.pc = 0x8010;
        cpu.state = CPUState::Ready;
        set(&mut cpu, true);
        exec(&mut cpu, name, AddressingMode::Relative, 0x05);
        assert_eq!(cpu.state, CPUState::Jumping { address: 0x8015, penalty: false }, "{}", name);
        let mut cpu = CPU::new();
        cpu.pc = 0x8010;
        cpu.state = CPUState::Ready;
        set(&mut cpu, false);
        exec(&mut cpu, name, AddressingMode::Relative, 0x05);
        assert_eq!(cpu.state, CPUState::Ready, "{}", name);
    }
}

#[test]
fn branch_backward_wraps_around() {
    let mut cpu = CPU::new();
    cpu.pc = 0x0001;
    exec(&mut cpu, "BEQ", AddressingMode::Relative, 0xFE);
    assert_eq!(cpu.state, CPUState::Halted);
    cpu.p.zero = true;
    exec(&mut cpu, "BEQ", AddressingMode::Relative, 0xFE);
    assert_eq!(cpu.state, CPUState::Jumping { address: 0xFFFF, penalty: false });
    cpu.pc = 0x8005;
    exec(&mut cpu, "BEQ", AddressingMode::Relative, 0x80);
    assert_eq!(cpu.state, CPUState::Jumping { address: 0x7F85, penalty: false });
}

#[test]
fn compares() {
    let mut cpu = CPU::new();
    cpu.a = 0x40;
    cpu.x = 0x10;
    cpu.y = 0x80;
    exec(&mut cpu, "CMP", AddressingMode::Immediate, 0x40);
    assert_eq!(flags(&cpu), (false, false, true, true));
    exec(&mut cpu, "CPX", AddressingMode::Immediate, 0x20);
    assert_eq!(flags(&cpu), (true, false, false, false));
    exec(&mut cpu, "CPY", AddressingMode::Immediate, 0x01);
    assert_eq!(flags(&cpu), (false, false, false, true));
    assert_eq!((cpu.a, cpu.x, cpu.y), (0x40, 0x10, 0x80));
}

#[test]
fn flag_instructions() {
    let mut cpu = CPU::new();
    exec(&mut cpu, "SEC", AddressingMode::Implied, 0);
    exec(&mut cpu, "SED", AddressingMode::Implied, 0);
    exec(&mut cpu, "SEI", AddressingMode::Implied, 0);
    cpu.p.overflow = true;
    assert_eq!(cpu.p.get(), 0x6D);
    exec(&mut cpu, "CLC", AddressingMode::Implied, 0);
    exec(&mut cpu, "CLD", AddressingMode::Implied, 0);
    exec(&mut cpu, "CLI", AddressingMode::Implied, 0);
    exec(&mut cpu, "CLV", AddressingMode::Implied, 0);
    assert_eq!(cpu.p.get(), 0x20);
}

#[test]
fn inc_and_dec_on_memory_wrap() {
    let mut cpu = CPU::new();
    let mut i = ins("INC", AddressingMode::ZeroPage, 0xFF);
    i.address = 0x20;
    execute_instruction(i, &mut cpu);
    assert_eq!(cpu.state, CPUState::PendingModify { address: 0x20, original: 0xFF, value: 0x00 });
    assert!(cpu.p.zero && !cpu.p.negative);
    let mut i = ins("DEC", AddressingMode::ZeroPage, 0x00);
    i.address = 0x21;
    execute_instruction(i, &mut cpu);
    assert_eq!(cpu.state, CPUState::PendingModify { address: 0x21, original: 0x00, value: 0xFF });
    assert!(!cpu.p.zero && cpu.p.negative);
}

#[test]
fn register_increments_and_decrements_wrap() {
    let mut cpu = CPU::new();
    cpu.x = 0xFF;
    exec(&mut cpu, "INX", AddressingMode::Implied, 0);
    assert_eq!(cpu.x, 0);
    assert!(cpu.p.zero);
    exec(&mut cpu, "DEX", AddressingMode::Implied, 0);
    assert_eq!(cpu.x, 0xFF);
    assert!(cpu.p.negative);
    exec(&mut cpu, "DEY", AddressingMode::Implied, 0);
    assert_eq!(cpu.y, 0xFF);
    exec(&mut cpu, "INY", AddressingMode::Implied, 0);
    assert_eq!(cpu.y, 0);
    assert!(cpu.p.zero && !cpu.p.negative);
}

#[test]
fn loads_and_transfers() {
    let mut cpu = CPU::new();
    exec(&mut cpu, "LDA", AddressingMode::Immediate, 0x80);
    assert_eq!(cpu.a, 0x80);
    assert!(cpu.p.negative);
    exec(&mut cpu, "LDX", AddressingMode::Immediate, 0x00);
    assert!(cpu.p.zero && !cpu.p.negative);
    exec(&mut cpu, "LDY", AddressingMode::Immediate, 0x05);
    assert_eq!(cpu.y, 5);
    exec(&mut cpu, "TAX", AddressingMode::Implied, 0);
    assert_eq!(cpu.x, 0x80);
    assert!(cpu.p.negative);
    exec(&mut cpu, "TYA", AddressingMode::Implied, 0);
    assert_eq!(cpu.a, 5);
    assert!(!cpu.p.negative);
    exec(&mut cpu, "TAY", AddressingMode::Implied, 0);
    assert_eq!(cpu.y, 5);
    exec(&mut cpu, "TXA", AddressingMode::Implied, 0);
    assert_eq!(cpu.a, 0x80);
    cpu.sp = 0;
    exec(&mut cpu, "TSX", AddressingMode::Implied, 0);
    assert_eq!(cpu.x, 0);
    assert!(cpu.p.zero);
    cpu.x = 0xFD;
    cpu.p.zero = false;
    exec(&mut cpu, "TXS", AddressingMode::Implied, 0);
    assert_eq!(cpu.sp, 0xFD);
    assert!(!cpu.p.zero && !cpu.p.negative);
}

#[test]
fn jumps() {
    let mut cpu = CPU::new();
    cpu.pc = 0x8003;
    let mut i = ins("JMP", AddressingMode::Absolute, 0x90);
    i.address = 0x9000;
    execute_instruction(i, &mut cpu);
    assert_eq!(cpu.pc, 0x9000);
    exec(&mut cpu, "JSR", AddressingMode::Absolute, 0);
    assert_eq!(cpu.state, CPUState::Pushing16 { value: 0x8FFF });
}

#[test]
fn stack_instructions() {
    let mut cpu = CPU::new();
    cpu.a = 0x33;
    exec(&mut cpu, "PHA", AddressingMode::Implied, 0);
    assert_eq!(cpu.state, CPUState::Pushing { value: 0x33 });
    cpu.p.carry = true;
    exec(&mut cpu, "PHP", AddressingMode::Implied, 0);
    assert_eq!(cpu.state, CPUState::Pushing { value: 0x31 });
    exec(&mut cpu, "PLA", AddressingMode::Implied, 0x00);
    assert_eq!(cpu.a, 0);
    assert!(cpu.p.zero);
    exec(&mut cpu, "PLP", AddressingMode::Implied, 0xC3);
    assert_eq!(cpu.p.get(), 0xE3);
}

#[test]
fn plp_restores_what_php_pushed() {
    for bits in 0..64u8 {
        let mut cpu = CPU::new();
        cpu.p.set(((bits & 0x30) << 2) | (bits & 0x0F));
        let before = cpu.p.get();
        exec(&mut cpu, "PHP", AddressingMode::Implied, 0);
        let pushed = match cpu.state {
            CPUState::Pushing { value } => value,
            _ => panic!("PHP did not push"),
        };
        let mut other = CPU::new();
        exec(&mut other, "PLP", AddressingMode::Implied, pushed);
        assert_eq!(other.p.get(), before);
    }
}

#[test]
fn brk_steps() {
    let mut cpu = CPU::new();
    cpu.pc = 0x8001;
    cpu.instruction = ins("BRK", AddressingMode::Implied, 0);
    execute_instruction(cpu.instruction.clone(), &mut cpu);
    assert_eq!(cpu.pc, 0x8002);
    assert_eq!(cpu.state, CPUState::Pushing16 { value: 0x8002 });
    assert_eq!(cpu.instruction.value, 1);
    cpu.p.negative = true;
    execute_instruction(cpu.instruction.clone(), &mut cpu);
    assert_eq!(cpu.state, CPUState::Pushing { value: 0xB0 });
    assert_eq!(cpu.instruction.value, 2);
    execute_instruction(cpu.instruction.clone(), &mut cpu);
    assert_eq!(cpu.state, CPUState::PendingRead16 { address: 0xFFFE });
}

#[test]
fn rts_pulls_then_returns() {
    let mut cpu = CPU::new();
    exec(&mut cpu, "RTS", AddressingMode::Implied, 0);
    assert_eq!(cpu.state, CPUState::Pulling16);
    assert!(cpu.lo_set);
    cpu.lo = 0x34;
    cpu.state = CPUState::Ready;
    exec(&mut cpu, "RTS", AddressingMode::Implied, 0x12);
    assert_eq!(cpu.pc, 0x1235);
    assert!(!cpu.lo_set);
    assert_eq!(cpu.state, CPUState::Ready);
}

#[test]
fn rti_pulls_first() {
    let mut cpu = CPU::new();
    cpu.state = CPUState::Ready;
    exec(&mut cpu, "RTI", AddressingMode::Implied, 0);
    assert_eq!(cpu.state, CPUState::Pulling);
    cpu.state = CPUState::Ready;
    exec(&mut cpu, "RTI", AddressingMode::Implied, 7);
    assert_eq!(cpu.state, CPUState::Ready);
}

#[test]
fn stores_write_to_their_address() {
    let mut cpu = CPU::new();
    cpu.a = 1;
    cpu.x = 2;
    cpu.y = 3;
    cpu.lo = 0x34;
    exec(&mut cpu, "STA", AddressingMode::Absolute, 0x12);
    assert_eq!(cpu.state, CPUState::PendingWrite { address: 0x1234, value: 1 });
    exec(&mut cpu, "STX", AddressingMode::ZeroPage, 0x44);
    assert_eq!(cpu.state, CPUState::PendingWrite { address: 0x0044, value: 2 });
    let mut i = ins("STY", AddressingMode::ZeroPageX, 0x44);
    i.address = 0x0050;
    execute_instruction(i, &mut cpu);
    assert_eq!(cpu.state, CPUState::PendingWrite { address: 0x0050, value: 3 });
    let mut i = ins("STA", AddressingMode::IndirectY, 0x44);
    i.address = 0x0777;
    execute_instruction(i, &mut cpu);
    assert_eq!(cpu.state, CPUState::PendingWrite { address: 0x0777, value: 1 });
}

#[test]
fn nop_does_nothing() {
    let mut cpu = CPU::new();
    cpu.a = 7;
    cpu.state = CPUState::Ready;
    exec(&mut cpu, "NOP", AddressingMode::Implied, 0x99);
    assert_eq!((cpu.a, cpu.state, cpu.pc), (7, CPUState::Ready, 0));
}

#[test]
fn only_jumps_move_pc_and_only_txs_moves_sp() {
    for op in 0..=255u8 {
        let decoded = parse_instruction(op);
        let mut cpu = CPU::new();
        cpu.pc = 0x8123;
        cpu.sp = 0xF0;
        cpu.x = 0x11;
        cpu.lo = 0x22;
        let mut i = decoded.clone();
        i.value = 0x05;
        i.address = 0x0456;
        execute_instruction(i, &mut cpu);
        let name = decoded.name.as_str();
        if name != "JMP" && name != "RTS" && name != "BRK" {
            assert_eq!(cpu.pc, 0x8123, "{}", name);
        }
        if name != "TXS" {
            assert_eq!(cpu.sp, 0xF0, "{}", name);
        }
    }
}
