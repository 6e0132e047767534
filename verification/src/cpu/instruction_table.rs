use vstd::prelude::*;
use crate::cpu::instruction::{AddressingMode, Instruction, Mnemonic, spec_mnemonic};

verus! {

/// The operation and addressing mode that each opcode decodes to: the 151
/// documented 6502 opcodes, the twelve opcodes that jam the processor (which
/// halt it), and `Other` with implied addressing for the rest.
pub open spec fn opcode_operation(op: u8) -> (Mnemonic, AddressingMode) {
    match op {
        0x00u8 => (Mnemonic::BRK, AddressingMode::Implied),
        0x01u8 => (Mnemonic::ORA, AddressingMode::XIndirect),
        0x02u8 => (Mnemonic::HTL, AddressingMode::Implied),
        0x05u8 => (Mnemonic::ORA, AddressingMode::ZeroPage),
        0x06u8 => (Mnemonic::ASL, AddressingMode::ZeroPage),
        0x08u8 => (Mnemonic::PHP, AddressingMode::Implied),
        0x09u8 => (Mnemonic::ORA, AddressingMode::Immediate),
        0x0Au8 => (Mnemonic::ASL, AddressingMode::Implied),
        0x0Du8 => (Mnemonic::ORA, AddressingMode::Absolute),
        0x0Eu8 => (Mnemonic::ASL, AddressingMode::Absolute),
        0x10u8 => (Mnemonic::BPL, AddressingMode::Relative),
        0x11u8 => (Mnemonic::ORA, AddressingMode::IndirectY),
        0x12u8 => (Mnemonic::HTL, AddressingMode::Implied),
        0x15u8 => (Mnemonic::ORA, AddressingMode::ZeroPageX),
        0x16u8 => (Mnemonic::ASL, AddressingMode::ZeroPageX),
        0x18u8 => (Mnemonic::CLC, AddressingMode::Implied),
        0x19u8 => (Mnemonic::ORA, AddressingMode::AbsoluteY),
        0x1Du8 => (Mnemonic::ORA, AddressingMode::AbsoluteX),
        0x1Eu8 => (Mnemonic::ASL, AddressingMode::AbsoluteX),
        0x20u8 => (Mnemonic::JSR, AddressingMode::Absolute),
        0x21u8 => (Mnemonic::AND, AddressingMode::XIndirect),
        0x22u8 => (Mnemonic::HTL, AddressingMode::Implied),
        0x24u8 => (Mnemonic::BIT, AddressingMode::ZeroPage),
        0x25u8 => (Mnemonic::AND, AddressingMode::ZeroPage),
        0x26u8 => (Mnemonic::ROL, AddressingMode::ZeroPage),
        0x28u8 => (Mnemonic::PLP, AddressingMode::Implied),
        0x29u8 => (Mnemonic::AND, AddressingMode::Immediate),
        0x2Au8 => (Mnemonic::ROL, AddressingMode::Implied),
        0x2Cu8 => (Mnemonic::BIT, AddressingMode::Absolute),
        0x2Du8 => (Mnemonic::AND, AddressingMode::Absolute),
        0x2Eu8 => (Mnemonic::ROL, AddressingMode::Absolute),
        0x30u8 => (Mnemonic::BMI, AddressingMode::Relative),
        0x31u8 => (Mnemonic::AND, AddressingMode::IndirectY),
        0x32u8 => (Mnemonic::HTL, AddressingMode::Implied),
        0x35u8 => (Mnemonic::AND, AddressingMode::ZeroPageX),
        0x36u8 => (Mnemonic::ROL, AddressingMode::ZeroPageX),
        0x38u8 => (Mnemonic::SEC, AddressingMode::Implied),
        0x39u8 => (Mnemonic::AND, AddressingMode::AbsoluteY),
        0x3Du8 => (Mnemonic::AND, AddressingMode::AbsoluteX),
        0x3Eu8 => (Mnemonic::ROL, AddressingMode::AbsoluteX),
        0x40u8 => (Mnemonic::RTI, AddressingMode::Implied),
        0x41u8 => (Mnemonic::EOR, AddressingMode::XIndirect),
        0x42u8 => (Mnemonic::HTL, AddressingMode::Implied),
        0x45u8 => (Mnemonic::EOR, AddressingMode::ZeroPage),
        0x46u8 => (Mnemonic::LSR, AddressingMode::ZeroPage),
        0x48u8 => (Mnemonic::PHA, AddressingMode::Implied),
        0x49u8 => (Mnemonic::EOR, AddressingMode::Immediate),
        0x4Au8 => (Mnemonic::LSR, AddressingMode::Implied),
        0x4Cu8 => (Mnemonic::JMP, AddressingMode::Absolute),
        0x4Du8 => (Mnemonic::EOR, AddressingMode::Absolute),
        0x4Eu8 => (Mnemonic::LSR, AddressingMode::Absolute),
        0x50u8 => (Mnemonic::BVC, AddressingMode::Relative),
        0x51u8 => (Mnemonic::EOR, AddressingMode::IndirectY),
        0x52u8 => (Mnemonic::HTL, AddressingMode::Implied),
        0x55u8 => (Mnemonic::EOR, AddressingMode::ZeroPageX),
        0x56u8 => (Mnemonic::LSR, AddressingMode::ZeroPageX),
        0x58u8 => (Mnemonic::CLI, AddressingMode::Implied),
        0x59u8 => (Mnemonic::EOR, AddressingMode::AbsoluteY),
        0x5Du8 => (Mnemonic::EOR, AddressingMode::AbsoluteX),
        0x5Eu8 => (Mnemonic::LSR, AddressingMode::AbsoluteX),
        0x60u8 => (Mnemonic::RTS, AddressingMode::Implied),
        0x61u8 => (Mnemonic::ADC, AddressingMode::XIndirect),
        0x62u8 => (Mnemonic::HTL, AddressingMode::Implied),
        0x65u8 => (Mnemonic::ADC, AddressingMode::ZeroPage),
        0x66u8 => (Mnemonic::ROR, AddressingMode::ZeroPage),
        0x68u8 => (Mnemonic::PLA, AddressingMode::Implied),
        0x69u8 => (Mnemonic::ADC, AddressingMode::Immediate),
        0x6Au8 => (Mnemonic::ROR, AddressingMode::Implied),
        0x6Cu8 => (Mnemonic::JMP, AddressingMode::Indirect),
        0x6Du8 => (Mnemonic::ADC, AddressingMode::Absolute),
        0x6Eu8 => (Mnemonic::ROR, AddressingMode::Absolute),
        0x70u8 => (Mnemonic::BVS, AddressingMode::Relative),
        0x71u8 => (Mnemonic::ADC, AddressingMode::IndirectY),
        0x72u8 => (Mnemonic::HTL, AddressingMode::Implied),
        0x75u8 => (Mnemonic::ADC, AddressingMode::ZeroPageX),
        0x76u8 => (Mnemonic::ROR, AddressingMode::ZeroPageX),
        0x78u8 => (Mnemonic::SEI, AddressingMode::Implied),
        0x79u8 => (Mnemonic::ADC, AddressingMode::AbsoluteY),
        0x7Du8 => (Mnemonic::ADC, AddressingMode::AbsoluteX),
        0x7Eu8 => (Mnemonic::ROR, AddressingMode::AbsoluteX),
        0x81u8 => (Mnemonic::STA, AddressingMode::XIndirect),
        0x84u8 => (Mnemonic::STY, AddressingMode::ZeroPage),
        0x85u8 => (Mnemonic::STA, AddressingMode::ZeroPage),
        0x86u8 => (Mnemonic::STX, AddressingMode::ZeroPage),
        0x88u8 => (Mnemonic::DEY, AddressingMode::Implied),
        0x8Au8 => (Mnemonic::TXA, AddressingMode::Implied),
        0x8Cu8 => (Mnemonic::STY, AddressingMode::Absolute),
        0x8Du8 => (Mnemonic::STA, AddressingMode::Absolute),
        0x8Eu8 => (Mnemonic::STX, AddressingMode::Absolute),
        0x90u8 => (Mnemonic::BCC, AddressingMode::Relative),
        0x91u8 => (Mnemonic::STA, AddressingMode::IndirectY),
        0x92u8 => (Mnemonic::HTL, AddressingMode::Implied),
        0x94u8 => (Mnemonic::STY, AddressingMode::ZeroPageX),
        0x95u8 => (Mnemonic::STA, AddressingMode::ZeroPageX),
        0x96u8 => (Mnemonic::STX, AddressingMode::ZeroPageY),
        0x98u8 => (Mnemonic::TYA, AddressingMode::Implied),
        0x99u8 => (Mnemonic::STA, AddressingMode::AbsoluteY),
        0x9Au8 => (Mnemonic::TXS, AddressingMode::Implied),
        0x9Du8 => (Mnemonic::STA, AddressingMode::AbsoluteX),
        0xA0u8 => (Mnemonic::LDY, AddressingMode::Immediate),
        0xA1u8 => (Mnemonic::LDA, AddressingMode::XIndirect),
        0xA2u8 => (Mnemonic::LDX, AddressingMode::Immediate),
        0xA4u8 => (Mnemonic::LDY, AddressingMode::ZeroPage),
        0xA5u8 => (Mnemonic::LDA, AddressingMode::ZeroPage),
        0xA6u8 => (Mnemonic::LDX, AddressingMode::ZeroPage),
        0xA8u8 => (Mnemonic::TAY, AddressingMode::Implied),
        0xA9u8 => (Mnemonic::LDA, AddressingMode::Immediate),
        0xAAu8 => (Mnemonic::TAX, AddressingMode::Implied),
        0xACu8 => (Mnemonic::LDY, AddressingMode::Absolute),
        0xADu8 => (Mnemonic::LDA, AddressingMode::Absolute),
        0xAEu8 => (Mnemonic::LDX, AddressingMode::Absolute),
        0xB0u8 => (Mnemonic::BCS, AddressingMode::Relative),
        0xB1u8 => (Mnemonic::LDA, AddressingMode::IndirectY),
        0xB2u8 => (Mnemonic::HTL, AddressingMode::Implied),
        0xB4u8 => (Mnemonic::LDY, AddressingMode::ZeroPageX),
        0xB5u8 => (Mnemonic::LDA, AddressingMode::ZeroPageX),
        0xB6u8 => (Mnemonic::LDX, AddressingMode::ZeroPageY),
        0xB8u8 => (Mnemonic::CLV, AddressingMode::Implied),
        0xB9u8 => (Mnemonic::LDA, AddressingMode::AbsoluteY),
        0xBAu8 => (Mnemonic::TSX, AddressingMode::Implied),
        0xBCu8 => (Mnemonic::LDY, AddressingMode::AbsoluteX),
        0xBDu8 => (Mnemonic::LDA, AddressingMode::AbsoluteX),
        0xBEu8 => (Mnemonic::LDX, AddressingMode::AbsoluteY),
        0xC0u8 => (Mnemonic::CPY, AddressingMode::Immediate),
        0xC1u8 => (Mnemonic::CMP, AddressingMode::XIndirect),
        0xC4u8 => (Mnemonic::CPY, AddressingMode::ZeroPage),
        0xC5u8 => (Mnemonic::CMP, AddressingMode::ZeroPage),
        0xC6u8 => (Mnemonic::DEC, AddressingMode::ZeroPage),
        0xC8u8 => (Mnemonic::INY, AddressingMode::Implied),
        0xC9u8 => (Mnemonic::CMP, AddressingMode::Immediate),
        0xCAu8 => (Mnemonic::DEX, AddressingMode::Implied),
        0xCCu8 => (Mnemonic::CPY, AddressingMode::Absolute),
        0xCDu8 => (Mnemonic::CMP, AddressingMode::Absolute),
        0xCEu8 => (Mnemonic::DEC, AddressingMode::Absolute),
        0xD0u8 => (Mnemonic::BNE, AddressingMode::Relative),
        0xD1u8 => (Mnemonic::CMP, AddressingMode::IndirectY),
        0xD2u8 => (Mnemonic::HTL, AddressingMode::Implied),
        0xD5u8 => (Mnemonic::CMP, AddressingMode::ZeroPageX),
        0xD6u8 => (Mnemonic::DEC, AddressingMode::ZeroPageX),
        0xD8u8 => (Mnemonic::CLD, AddressingMode::Implied),
        0xD9u8 => (Mnemonic::CMP, AddressingMode::AbsoluteY),
        0xDDu8 => (Mnemonic::CMP, AddressingMode::AbsoluteX),
        0xDEu8 => (Mnemonic::DEC, AddressingMode::AbsoluteX),
        0xE0u8 => (Mnemonic::CPX, AddressingMode::Immediate),
        0xE1u8 => (Mnemonic::SBC, AddressingMode::XIndirect),
        0xE4u8 => (Mnemonic::CPX, AddressingMode::ZeroPage),
        0xE5u8 => (Mnemonic::SBC, AddressingMode::ZeroPage),
        0xE6u8 => (Mnemonic::INC, AddressingMode::ZeroPage),
        0xE8u8 => (Mnemonic::INX, AddressingMode::Implied),
        0xE9u8 => (Mnemonic::SBC, AddressingMode::Immediate),
        0xEAu8 => (Mnemonic::NOP, AddressingMode::Implied),
        0xECu8 => (Mnemonic::CPX, AddressingMode::Absolute),
        0xEDu8 => (Mnemonic::SBC, AddressingMode::Absolute),
        0xEEu8 => (Mnemonic::INC, AddressingMode::Absolute),
        0xF0u8 => (Mnemonic::BEQ, AddressingMode::Relative),
        0xF1u8 => (Mnemonic::SBC, AddressingMode::IndirectY),
        0xF2u8 => (Mnemonic::HTL, AddressingMode::Implied),
        0xF5u8 => (Mnemonic::SBC, AddressingMode::ZeroPageX),
        0xF6u8 => (Mnemonic::INC, AddressingMode::ZeroPageX),
        0xF8u8 => (Mnemonic::SED, AddressingMode::Implied),
        0xF9u8 => (Mnemonic::SBC, AddressingMode::AbsoluteY),
        0xFDu8 => (Mnemonic::SBC, AddressingMode::AbsoluteX),
        0xFEu8 => (Mnemonic::INC, AddressingMode::AbsoluteX),
        _ => (Mnemonic::Other, AddressingMode::Implied),
    }
}

/// The operation of the arithmetic and logic group (opcodes whose low two bits
/// are 01), by bits 5-7 of the opcode.
pub open spec fn alu_group_operation(op: u8) -> Mnemonic {
    let g = op / 32;
    if g == 0 {
        Mnemonic::ORA
    } else if g == 1 {
        Mnemonic::AND
    } else if g == 2 {
        Mnemonic::EOR
    } else if g == 3 {
        Mnemonic::ADC
    } else if g == 4 {
        Mnemonic::STA
    } else if g == 5 {
        Mnemonic::LDA
    } else if g == 6 {
        Mnemonic::CMP
    } else {
        Mnemonic::SBC
    }
}

/// The addressing mode of the arithmetic and logic group, by bits 2-4 of the
/// opcode.
pub open spec fn alu_group_mode(op: u8) -> AddressingMode {
    let b = (op / 4) % 8;
    if b == 0 {
        AddressingMode::XIndirect
    } else if b == 1 {
        AddressingMode::ZeroPage
    } else if b == 2 {
        AddressingMode::Immediate
    } else if b == 3 {
        AddressingMode::Absolute
    } else if b == 4 {
        AddressingMode::IndirectY
    } else if b == 5 {
        AddressingMode::ZeroPageX
    } else if b == 6 {
        AddressingMode::AbsoluteY
    } else {
        AddressingMode::AbsoluteX
    }
}

/// Whether opcode `op` decodes as the 6502's encoding of the arithmetic and
/// logic group says.
pub open spec fn alu_encoding_holds(op: u8) -> bool {
    opcode_operation(op) == (alu_group_operation(op), alu_group_mode(op))
}

/// The arithmetic and logic group decodes by the 6502's encoding: for an
/// opcode whose low two bits are 01 (but the undefined store immediate 0x89),
/// bits 5-7 choose ORA, AND, EOR, ADC, STA, LDA, CMP or SBC and bits 2-4 the
/// mode: (zero page, X), zero page, immediate, absolute, (zero page), Y, zero
/// page X, absolute Y, absolute X.
#[verifier::spinoff_prover]
pub proof fn lemma_alu_group_encoding(op: u8)
    requires
        op % 4 == 1,
        op != 0x89,
    ensures
        opcode_operation(op) == (alu_group_operation(op), alu_group_mode(op)),
{
    assert(alu_encoding_holds(0x01u8));
    assert(alu_encoding_holds(0x05u8));
    assert(alu_encoding_holds(0x09u8));
    assert(alu_encoding_holds(0x0Du8));
    assert(alu_encoding_holds(0x11u8));
    assert(alu_encoding_holds(0x15u8));
    assert(alu_encoding_holds(0x19u8));
    assert(alu_encoding_holds(0x1Du8));
    assert(alu_encoding_holds(0x21u8));
    assert(alu_encoding_holds(0x25u8));
    assert(alu_encoding_holds(0x29u8));
    assert(alu_encoding_holds(0x2Du8));
    assert(alu_encoding_holds(0x31u8));
    assert(alu_encoding_holds(0x35u8));
    assert(alu_encoding_holds(0x39u8));
    assert(alu_encoding_holds(0x3Du8));
    assert(alu_encoding_holds(0x41u8));
    assert(alu_encoding_holds(0x45u8));
    assert(alu_encoding_holds(0x49u8));
    assert(alu_encoding_holds(0x4Du8));
    assert(alu_encoding_holds(0x51u8));
    assert(alu_encoding_holds(0x55u8));
    assert(alu_encoding_holds(0x59u8));
    assert(alu_encoding_holds(0x5Du8));
    assert(alu_encoding_holds(0x61u8));
    assert(alu_encoding_holds(0x65u8));
    assert(alu_encoding_holds(0x69u8));
    assert(alu_encoding_holds(0x6Du8));
    assert(alu_encoding_holds(0x71u8));
    assert(alu_encoding_holds(0x75u8));
    assert(alu_encoding_holds(0x79u8));
    assert(alu_encoding_holds(0x7Du8));
    assert(alu_encoding_holds(0x81u8));
    assert(alu_encoding_holds(0x85u8));
    assert(alu_encoding_holds(0x8Du8));
    assert(alu_encoding_holds(0x91u8));
    assert(alu_encoding_holds(0x95u8));
    assert(alu_encoding_holds(0x99u8));
    assert(alu_encoding_holds(0x9Du8));
    assert(alu_encoding_holds(0xA1u8));
    assert(alu_encoding_holds(0xA5u8));
    assert(alu_encoding_holds(0xA9u8));
    assert(alu_encoding_holds(0xADu8));
    assert(alu_encoding_holds(0xB1u8));
    assert(alu_encoding_holds(0xB5u8));
    assert(alu_encoding_holds(0xB9u8));
    assert(alu_encoding_holds(0xBDu8));
    assert(alu_encoding_holds(0xC1u8));
    assert(alu_encoding_holds(0xC5u8));
    assert(alu_encoding_holds(0xC9u8));
    assert(alu_encoding_holds(0xCDu8));
    assert(alu_encoding_holds(0xD1u8));
    assert(alu_encoding_holds(0xD5u8));
    assert(alu_encoding_holds(0xD9u8));
    assert(alu_encoding_holds(0xDDu8));
    assert(alu_encoding_holds(0xE1u8));
    assert(alu_encoding_holds(0xE5u8));
    assert(alu_encoding_holds(0xE9u8));
    assert(alu_encoding_holds(0xEDu8));
    assert(alu_encoding_holds(0xF1u8));
    assert(alu_encoding_holds(0xF5u8));
    assert(alu_encoding_holds(0xF9u8));
    assert(alu_encoding_holds(0xFDu8));
    assert(op == 0x01 || op == 0x05 || op == 0x09 || op == 0x0D || op == 0x11 || op == 0x15 || op == 0x19 || op == 0x1D || op == 0x21 || op == 0x25 || op == 0x29 || op == 0x2D || op == 0x31 || op == 0x35 || op == 0x39 || op == 0x3D || op == 0x41 || op == 0x45 || op == 0x49 || op == 0x4D || op == 0x51 || op == 0x55 || op == 0x59 || op == 0x5D || op == 0x61 || op == 0x65 || op == 0x69 || op == 0x6D || op == 0x71 || op == 0x75 || op == 0x79 || op == 0x7D || op == 0x81 || op == 0x85 || op == 0x8D || op == 0x91 || op == 0x95 || op == 0x99 || op == 0x9D || op == 0xA1 || op == 0xA5 || op == 0xA9 || op == 0xAD || op == 0xB1 || op == 0xB5 || op == 0xB9 || op == 0xBD || op == 0xC1 || op == 0xC5 || op == 0xC9 || op == 0xCD || op == 0xD1 || op == 0xD5 || op == 0xD9 || op == 0xDD || op == 0xE1 || op == 0xE5 || op == 0xE9 || op == 0xED || op == 0xF1 || op == 0xF5 || op == 0xF9 || op == 0xFD);
}

/// The operation of a shift or rotate opcode, by bits 5-6.
pub open spec fn shift_group_operation(op: u8) -> Mnemonic {
    let g = op / 32;
    if g == 0 {
        Mnemonic::ASL
    } else if g == 1 {
        Mnemonic::ROL
    } else if g == 2 {
        Mnemonic::LSR
    } else {
        Mnemonic::ROR
    }
}

/// The addressing mode of a shift or rotate opcode, by bits 2-4: zero page,
/// the accumulator (implied), absolute, zero page X, absolute X.
pub open spec fn shift_group_mode(op: u8) -> AddressingMode {
    let b = (op / 4) % 8;
    if b == 1 {
        AddressingMode::ZeroPage
    } else if b == 2 {
        AddressingMode::Implied
    } else if b == 3 {
        AddressingMode::Absolute
    } else if b == 5 {
        AddressingMode::ZeroPageX
    } else {
        AddressingMode::AbsoluteX
    }
}

/// The shift and rotate opcodes decode by the 6502's encoding: below 0x80,
/// with low two bits 10 and bits 2-4 one of 1, 2, 3, 5, 7, bits 5-6 choose ASL,
/// ROL, LSR or ROR, and bits 2-4 the mode.
#[verifier::spinoff_prover]
pub proof fn lemma_shift_group_encoding(op: u8)
    requires
        op < 0x80,
        op % 4 == 2,
        (op / 4) % 8 == 1 || (op / 4) % 8 == 2 || (op / 4) % 8 == 3 || (op / 4) % 8 == 5 || (op / 4)
            % 8 == 7,
    ensures
        opcode_operation(op) == (shift_group_operation(op), shift_group_mode(op)),
{
    assert(op == 0x06 || op == 0x0A || op == 0x0E || op == 0x16 || op == 0x1E || op == 0x26 || op == 0x2A || op == 0x2E || op == 0x36 || op == 0x3E || op == 0x46 || op == 0x4A || op == 0x4E || op == 0x56 || op == 0x5E || op == 0x66 || op == 0x6A || op == 0x6E || op == 0x76 || op == 0x7E);
}

/// The operation of a branch opcode, by bits 5-7: the flag tested (negative,
/// overflow, carry, zero by bits 6-7) and whether it must be set (bit 5).
pub open spec fn branch_group_operation(op: u8) -> Mnemonic {
    let g = op / 32;
    if g == 0 {
        Mnemonic::BPL
    } else if g == 1 {
        Mnemonic::BMI
    } else if g == 2 {
        Mnemonic::BVC
    } else if g == 3 {
        Mnemonic::BVS
    } else if g == 4 {
        Mnemonic::BCC
    } else if g == 5 {
        Mnemonic::BCS
    } else if g == 6 {
        Mnemonic::BNE
    } else {
        Mnemonic::BEQ
    }
}

/// The branch opcodes decode by the 6502's encoding: an opcode whose low five
/// bits are 10000 is a relative branch chosen by bits 5-7.
#[verifier::spinoff_prover]
pub proof fn lemma_branch_group_encoding(op: u8)
    requires
        op % 32 == 0x10,
    ensures
        opcode_operation(op) == (branch_group_operation(op), AddressingMode::Relative),
{
    assert(op == 0x10 || op == 0x30 || op == 0x50 || op == 0x70 || op == 0x90 || op == 0xB0 || op == 0xD0 || op == 0xF0);
}

/// The name that an instruction of operation `m` carries.
pub open spec fn mnemonic_name(m: Mnemonic) -> Seq<char> {
    match m {
        Mnemonic::HTL => "HTL"@,
        Mnemonic::ADC => "ADC"@,
        Mnemonic::AND => "AND"@,
        Mnemonic::ASL => "ASL"@,
        Mnemonic::BIT => "BIT"@,
        Mnemonic::BPL => "BPL"@,
        Mnemonic::BMI => "BMI"@,
        Mnemonic::BRK => "BRK"@,
        Mnemonic::BVC => "BVC"@,
        Mnemonic::BVS => "BVS"@,
        Mnemonic::BCC => "BCC"@,
        Mnemonic::BCS => "BCS"@,
        Mnemonic::BNE => "BNE"@,
        Mnemonic::BEQ => "BEQ"@,
        Mnemonic::CMP => "CMP"@,
        Mnemonic::CPX => "CPX"@,
        Mnemonic::CPY => "CPY"@,
        Mnemonic::CLC => "CLC"@,
        Mnemonic::CLD => "CLD"@,
        Mnemonic::CLI => "CLI"@,
        Mnemonic::CLV => "CLV"@,
        Mnemonic::DEC => "DEC"@,
        Mnemonic::DEX => "DEX"@,
        Mnemonic::DEY => "DEY"@,
        Mnemonic::EOR => "EOR"@,
        Mnemonic::INC => "INC"@,
        Mnemonic::INX => "INX"@,
        Mnemonic::INY => "INY"@,
        Mnemonic::JMP => "JMP"@,
        Mnemonic::JSR => "JSR"@,
        Mnemonic::LDA => "LDA"@,
        Mnemonic::LDX => "LDX"@,
        Mnemonic::LDY => "LDY"@,
        Mnemonic::LSR => "LSR"@,
        Mnemonic::NOP => "NOP"@,
        Mnemonic::ORA => "ORA"@,
        Mnemonic::PHA => "PHA"@,
        Mnemonic::PHP => "PHP"@,
        Mnemonic::PLA => "PLA"@,
        Mnemonic::PLP => "PLP"@,
        Mnemonic::ROL => "ROL"@,
        Mnemonic::ROR => "ROR"@,
        Mnemonic::RTI => "RTI"@,
        Mnemonic::RTS => "RTS"@,
        Mnemonic::SBC => "SBC"@,
        Mnemonic::SEC => "SEC"@,
        Mnemonic::SED => "SED"@,
        Mnemonic::SEI => "SEI"@,
        Mnemonic::STA => "STA"@,
        Mnemonic::STX => "STX"@,
        Mnemonic::STY => "STY"@,
        Mnemonic::TAX => "TAX"@,
        Mnemonic::TAY => "TAY"@,
        Mnemonic::TSX => "TSX"@,
        Mnemonic::TXA => "TXA"@,
        Mnemonic::TXS => "TXS"@,
        Mnemonic::TYA => "TYA"@,
        Mnemonic::Other => "???"@,
    }
}

/// Whether the operation `m` stores a register to memory (and so needs no
/// read of its operand).
pub open spec fn is_store(m: Mnemonic) -> bool {
    m == Mnemonic::STA || m == Mnemonic::STX || m == Mnemonic::STY
}

/// The name of the operation `m`.
fn mnemonic_text(m: Mnemonic) -> (s: &'static str)
    ensures
        s@ == mnemonic_name(m),
{
    match m {
        Mnemonic::HTL => "HTL",
        Mnemonic::ADC => "ADC",
        Mnemonic::AND => "AND",
        Mnemonic::ASL => "ASL",
        Mnemonic::BIT => "BIT",
        Mnemonic::BPL => "BPL",
        Mnemonic::BMI => "BMI",
        Mnemonic::BRK => "BRK",
        Mnemonic::BVC => "BVC",
        Mnemonic::BVS => "BVS",
        Mnemonic::BCC => "BCC",
        Mnemonic::BCS => "BCS",
        Mnemonic::BNE => "BNE",
        Mnemonic::BEQ => "BEQ",
        Mnemonic::CMP => "CMP",
        Mnemonic::CPX => "CPX",
        Mnemonic::CPY => "CPY",
        Mnemonic::CLC => "CLC",
        Mnemonic::CLD => "CLD",
        Mnemonic::CLI => "CLI",
        Mnemonic::CLV => "CLV",
        Mnemonic::DEC => "DEC",
        Mnemonic::DEX => "DEX",
        Mnemonic::DEY => "DEY",
        Mnemonic::EOR => "EOR",
        Mnemonic::INC => "INC",
        Mnemonic::INX => "INX",
        Mnemonic::INY => "INY",
        Mnemonic::JMP => "JMP",
        Mnemonic::JSR => "JSR",
        Mnemonic::LDA => "LDA",
        Mnemonic::LDX => "LDX",
        Mnemonic::LDY => "LDY",
        Mnemonic::LSR => "LSR",
        Mnemonic::NOP => "NOP",
        Mnemonic::ORA => "ORA",
        Mnemonic::PHA => "PHA",
        Mnemonic::PHP => "PHP",
        Mnemonic::PLA => "PLA",
        Mnemonic::PLP => "PLP",
        Mnemonic::ROL => "ROL",
        Mnemonic::ROR => "ROR",
        Mnemonic::RTI => "RTI",
        Mnemonic::RTS => "RTS",
        Mnemonic::SBC => "SBC",
        Mnemonic::SEC => "SEC",
        Mnemonic::SED => "SED",
        Mnemonic::SEI => "SEI",
        Mnemonic::STA => "STA",
        Mnemonic::STX => "STX",
        Mnemonic::STY => "STY",
        Mnemonic::TAX => "TAX",
        Mnemonic::TAY => "TAY",
        Mnemonic::TSX => "TSX",
        Mnemonic::TXA => "TXA",
        Mnemonic::TXS => "TXS",
        Mnemonic::TYA => "TYA",
        Mnemonic::Other => "???",
    }
}

/// The operation and addressing mode of the opcode `op`.
fn operation_of(op: u8) -> (r: (Mnemonic, AddressingMode))
    ensures
        r == opcode_operation(op),
{
    match op {
        0x00 => (Mnemonic::BRK, AddressingMode::Implied),
        0x01 => (Mnemonic::ORA, AddressingMode::XIndirect),
        0x02 => (Mnemonic::HTL, AddressingMode::Implied),
        0x05 => (Mnemonic::ORA, AddressingMode::ZeroPage),
        0x06 => (Mnemonic::ASL, AddressingMode::ZeroPage),
        0x08 => (Mnemonic::PHP, AddressingMode::Implied),
        0x09 => (Mnemonic::ORA, AddressingMode::Immediate),
        0x0A => (Mnemonic::ASL, AddressingMode::Implied),
        0x0D => (Mnemonic::ORA, AddressingMode::Absolute),
        0x0E => (Mnemonic::ASL, AddressingMode::Absolute),
        0x10 => (Mnemonic::BPL, AddressingMode::Relative),
        0x11 => (Mnemonic::ORA, AddressingMode::IndirectY),
        0x12 => (Mnemonic::HTL, AddressingMode::Implied),
        0x15 => (Mnemonic::ORA, AddressingMode::ZeroPageX),
        0x16 => (Mnemonic::ASL, AddressingMode::ZeroPageX),
        0x18 => (Mnemonic::CLC, AddressingMode::Implied),
        0x19 => (Mnemonic::ORA, AddressingMode::AbsoluteY),
        0x1D => (Mnemonic::ORA, AddressingMode::AbsoluteX),
        0x1E => (Mnemonic::ASL, AddressingMode::AbsoluteX),
        0x20 => (Mnemonic::JSR, AddressingMode::Absolute),
        0x21 => (Mnemonic::AND, AddressingMode::XIndirect),
        0x22 => (Mnemonic::HTL, AddressingMode::Implied),
        0x24 => (Mnemonic::BIT, AddressingMode::ZeroPage),
        0x25 => (Mnemonic::AND, AddressingMode::ZeroPage),
        0x26 => (Mnemonic::ROL, AddressingMode::ZeroPage),
        0x28 => (Mnemonic::PLP, AddressingMode::Implied),
        0x29 => (Mnemonic::AND, AddressingMode::Immediate),
        0x2A => (Mnemonic::ROL, AddressingMode::Implied),
        0x2C => (Mnemonic::BIT, AddressingMode::Absolute),
        0x2D => (Mnemonic::AND, AddressingMode::Absolute),
        0x2E => (Mnemonic::ROL, AddressingMode::Absolute),
        0x30 => (Mnemonic::BMI, AddressingMode::Relative),
        0x31 => (Mnemonic::AND, AddressingMode::IndirectY),
        0x32 => (Mnemonic::HTL, AddressingMode::Implied),
        0x35 => (Mnemonic::AND, AddressingMode::ZeroPageX),
        0x36 => (Mnemonic::ROL, AddressingMode::ZeroPageX),
        0x38 => (Mnemonic::SEC, AddressingMode::Implied),
        0x39 => (Mnemonic::AND, AddressingMode::AbsoluteY),
        0x3D => (Mnemonic::AND, AddressingMode::AbsoluteX),
        0x3E => (Mnemonic::ROL, AddressingMode::AbsoluteX),
        0x40 => (Mnemonic::RTI, AddressingMode::Implied),
        0x41 => (Mnemonic::EOR, AddressingMode::XIndirect),
        0x42 => (Mnemonic::HTL, AddressingMode::Implied),
        0x45 => (Mnemonic::EOR, AddressingMode::ZeroPage),
        0x46 => (Mnemonic::LSR, AddressingMode::ZeroPage),
        0x48 => (Mnemonic::PHA, AddressingMode::Implied),
        0x49 => (Mnemonic::EOR, AddressingMode::Immediate),
        0x4A => (Mnemonic::LSR, AddressingMode::Implied),
        0x4C => (Mnemonic::JMP, AddressingMode::Absolute),
        0x4D => (Mnemonic::EOR, AddressingMode::Absolute),
        0x4E => (Mnemonic::LSR, AddressingMode::Absolute),
        0x50 => (Mnemonic::BVC, AddressingMode::Relative),
        0x51 => (Mnemonic::EOR, AddressingMode::IndirectY),
        0x52 => (Mnemonic::HTL, AddressingMode::Implied),
        0x55 => (Mnemonic::EOR, AddressingMode::ZeroPageX),
        0x56 => (Mnemonic::LSR, AddressingMode::ZeroPageX),
        0x58 => (Mnemonic::CLI, AddressingMode::Implied),
        0x59 => (Mnemonic::EOR, AddressingMode::AbsoluteY),
        0x5D => (Mnemonic::EOR, AddressingMode::AbsoluteX),
        0x5E => (Mnemonic::LSR, AddressingMode::AbsoluteX),
        0x60 => (Mnemonic::RTS, AddressingMode::Implied),
        0x61 => (Mnemonic::ADC, AddressingMode::XIndirect),
        0x62 => (Mnemonic::HTL, AddressingMode::Implied),
        0x65 => (Mnemonic::ADC, AddressingMode::ZeroPage),
        0x66 => (Mnemonic::ROR, AddressingMode::ZeroPage),
        0x68 => (Mnemonic::PLA, AddressingMode::Implied),
        0x69 => (Mnemonic::ADC, AddressingMode::Immediate),
        0x6A => (Mnemonic::ROR, AddressingMode::Implied),
        0x6C => (Mnemonic::JMP, AddressingMode::Indirect),
        0x6D => (Mnemonic::ADC, AddressingMode::Absolute),
        0x6E => (Mnemonic::ROR, AddressingMode::Absolute),
        0x70 => (Mnemonic::BVS, AddressingMode::Relative),
        0x71 => (Mnemonic::ADC, AddressingMode::IndirectY),
        0x72 => (Mnemonic::HTL, AddressingMode::Implied),
        0x75 => (Mnemonic::ADC, AddressingMode::ZeroPageX),
        0x76 => (Mnemonic::ROR, AddressingMode::ZeroPageX),
        0x78 => (Mnemonic::SEI, AddressingMode::Implied),
        0x79 => (Mnemonic::ADC, AddressingMode::AbsoluteY),
        0x7D => (Mnemonic::ADC, AddressingMode::AbsoluteX),
        0x7E => (Mnemonic::ROR, AddressingMode::AbsoluteX),
        0x81 => (Mnemonic::STA, AddressingMode::XIndirect),
        0x84 => (Mnemonic::STY, AddressingMode::ZeroPage),
        0x85 => (Mnemonic::STA, AddressingMode::ZeroPage),
        0x86 => (Mnemonic::STX, AddressingMode::ZeroPage),
        0x88 => (Mnemonic::DEY, AddressingMode::Implied),
        0x8A => (Mnemonic::TXA, AddressingMode::Implied),
        0x8C => (Mnemonic::STY, AddressingMode::Absolute),
        0x8D => (Mnemonic::STA, AddressingMode::Absolute),
        0x8E => (Mnemonic::STX, AddressingMode::Absolute),
        0x90 => (Mnemonic::BCC, AddressingMode::Relative),
        0x91 => (Mnemonic::STA, AddressingMode::IndirectY),
        0x92 => (Mnemonic::HTL, AddressingMode::Implied),
        0x94 => (Mnemonic::STY, AddressingMode::ZeroPageX),
        0x95 => (Mnemonic::STA, AddressingMode::ZeroPageX),
        0x96 => (Mnemonic::STX, AddressingMode::ZeroPageY),
        0x98 => (Mnemonic::TYA, AddressingMode::Implied),
        0x99 => (Mnemonic::STA, AddressingMode::AbsoluteY),
        0x9A => (Mnemonic::TXS, AddressingMode::Implied),
        0x9D => (Mnemonic::STA, AddressingMode::AbsoluteX),
        0xA0 => (Mnemonic::LDY, AddressingMode::Immediate),
        0xA1 => (Mnemonic::LDA, AddressingMode::XIndirect),
        0xA2 => (Mnemonic::LDX, AddressingMode::Immediate),
        0xA4 => (Mnemonic::LDY, AddressingMode::ZeroPage),
        0xA5 => (Mnemonic::LDA, AddressingMode::ZeroPage),
        0xA6 => (Mnemonic::LDX, AddressingMode::ZeroPage),
        0xA8 => (Mnemonic::TAY, AddressingMode::Implied),
        0xA9 => (Mnemonic::LDA, AddressingMode::Immediate),
        0xAA => (Mnemonic::TAX, AddressingMode::Implied),
        0xAC => (Mnemonic::LDY, AddressingMode::Absolute),
        0xAD => (Mnemonic::LDA, AddressingMode::Absolute),
        0xAE => (Mnemonic::LDX, AddressingMode::Absolute),
        0xB0 => (Mnemonic::BCS, AddressingMode::Relative),
        0xB1 => (Mnemonic::LDA, AddressingMode::IndirectY),
        0xB2 => (Mnemonic::HTL, AddressingMode::Implied),
        0xB4 => (Mnemonic::LDY, AddressingMode::ZeroPageX),
        0xB5 => (Mnemonic::LDA, AddressingMode::ZeroPageX),
        0xB6 => (Mnemonic::LDX, AddressingMode::ZeroPageY),
        0xB8 => (Mnemonic::CLV, AddressingMode::Implied),
        0xB9 => (Mnemonic::LDA, AddressingMode::AbsoluteY),
        0xBA => (Mnemonic::TSX, AddressingMode::Implied),
        0xBC => (Mnemonic::LDY, AddressingMode::AbsoluteX),
        0xBD => (Mnemonic::LDA, AddressingMode::AbsoluteX),
        0xBE => (Mnemonic::LDX, AddressingMode::AbsoluteY),
        0xC0 => (Mnemonic::CPY, AddressingMode::Immediate),
        0xC1 => (Mnemonic::CMP, AddressingMode::XIndirect),
        0xC4 => (Mnemonic::CPY, AddressingMode::ZeroPage),
        0xC5 => (Mnemonic::CMP, AddressingMode::ZeroPage),
        0xC6 => (Mnemonic::DEC, AddressingMode::ZeroPage),
        0xC8 => (Mnemonic::INY, AddressingMode::Implied),
        0xC9 => (Mnemonic::CMP, AddressingMode::Immediate),
        0xCA => (Mnemonic::DEX, AddressingMode::Implied),
        0xCC => (Mnemonic::CPY, AddressingMode::Absolute),
        0xCD => (Mnemonic::CMP, AddressingMode::Absolute),
        0xCE => (Mnemonic::DEC, AddressingMode::Absolute),
        0xD0 => (Mnemonic::BNE, AddressingMode::Relative),
        0xD1 => (Mnemonic::CMP, AddressingMode::IndirectY),
        0xD2 => (Mnemonic::HTL, AddressingMode::Implied),
        0xD5 => (Mnemonic::CMP, AddressingMode::ZeroPageX),
        0xD6 => (Mnemonic::DEC, AddressingMode::ZeroPageX),
        0xD8 => (Mnemonic::CLD, AddressingMode::Implied),
        0xD9 => (Mnemonic::CMP, AddressingMode::AbsoluteY),
        0xDD => (Mnemonic::CMP, AddressingMode::AbsoluteX),
        0xDE => (Mnemonic::DEC, AddressingMode::AbsoluteX),
        0xE0 => (Mnemonic::CPX, AddressingMode::Immediate),
        0xE1 => (Mnemonic::SBC, AddressingMode::XIndirect),
        0xE4 => (Mnemonic::CPX, AddressingMode::ZeroPage),
        0xE5 => (Mnemonic::SBC, AddressingMode::ZeroPage),
        0xE6 => (Mnemonic::INC, AddressingMode::ZeroPage),
        0xE8 => (Mnemonic::INX, AddressingMode::Implied),
        0xE9 => (Mnemonic::SBC, AddressingMode::Immediate),
        0xEA => (Mnemonic::NOP, AddressingMode::Implied),
        0xEC => (Mnemonic::CPX, AddressingMode::Absolute),
        0xED => (Mnemonic::SBC, AddressingMode::Absolute),
        0xEE => (Mnemonic::INC, AddressingMode::Absolute),
        0xF0 => (Mnemonic::BEQ, AddressingMode::Relative),
        0xF1 => (Mnemonic::SBC, AddressingMode::IndirectY),
        0xF2 => (Mnemonic::HTL, AddressingMode::Implied),
        0xF5 => (Mnemonic::SBC, AddressingMode::ZeroPageX),
        0xF6 => (Mnemonic::INC, AddressingMode::ZeroPageX),
        0xF8 => (Mnemonic::SED, AddressingMode::Implied),
        0xF9 => (Mnemonic::SBC, AddressingMode::AbsoluteY),
        0xFD => (Mnemonic::SBC, AddressingMode::AbsoluteX),
        0xFE => (Mnemonic::INC, AddressingMode::AbsoluteX),
        _ => (Mnemonic::Other, AddressingMode::Implied),
    }
}

/// The name that an instruction is decoded with stands for the operation it
/// was decoded as; the names of different operations differ.
#[verifier::spinoff_prover]
pub proof fn lemma_name_stands_for_operation(m: Mnemonic)
    ensures
        spec_mnemonic(mnemonic_name(m)) == m,
{
    reveal(spec_mnemonic);
    reveal_strlit("HTL");
    reveal_strlit("ADC");
    reveal_strlit("AND");
    reveal_strlit("ASL");
    reveal_strlit("BIT");
    reveal_strlit("BPL");
    reveal_strlit("BMI");
    reveal_strlit("BRK");
    reveal_strlit("BVC");
    reveal_strlit("BVS");
    reveal_strlit("BCC");
    reveal_strlit("BCS");
    reveal_strlit("BNE");
    reveal_strlit("BEQ");
    reveal_strlit("CMP");
    reveal_strlit("CPX");
    reveal_strlit("CPY");
    reveal_strlit("CLC");
    reveal_strlit("CLD");
    reveal_strlit("CLI");
    reveal_strlit("CLV");
    reveal_strlit("DEC");
    reveal_strlit("DEX");
    reveal_strlit("DEY");
    reveal_strlit("EOR");
    reveal_strlit("INC");
    reveal_strlit("INX");
    reveal_strlit("INY");
    reveal_strlit("JMP");
    reveal_strlit("JSR");
    reveal_strlit("LDA");
    reveal_strlit("LDX");
    reveal_strlit("LDY");
    reveal_strlit("LSR");
    reveal_strlit("NOP");
    reveal_strlit("ORA");
    reveal_strlit("PHA");
    reveal_strlit("PHP");
    reveal_strlit("PLA");
    reveal_strlit("PLP");
    reveal_strlit("ROL");
    reveal_strlit("ROR");
    reveal_strlit("RTI");
    reveal_strlit("RTS");
    reveal_strlit("SBC");
    reveal_strlit("SEC");
    reveal_strlit("SED");
    reveal_strlit("SEI");
    reveal_strlit("STA");
    reveal_strlit("STX");
    reveal_strlit("STY");
    reveal_strlit("TAX");
    reveal_strlit("TAY");
    reveal_strlit("TSX");
    reveal_strlit("TXA");
    reveal_strlit("TXS");
    reveal_strlit("TYA");
    reveal_strlit("???");
    assert("HTL"@[0] == 'H' && "HTL"@[1] == 'T' && "HTL"@[2] == 'L');
    assert("ADC"@[0] == 'A' && "ADC"@[1] == 'D' && "ADC"@[2] == 'C');
    assert("AND"@[0] == 'A' && "AND"@[1] == 'N' && "AND"@[2] == 'D');
    assert("ASL"@[0] == 'A' && "ASL"@[1] == 'S' && "ASL"@[2] == 'L');
    assert("BIT"@[0] == 'B' && "BIT"@[1] == 'I' && "BIT"@[2] == 'T');
    assert("BPL"@[0] == 'B' && "BPL"@[1] == 'P' && "BPL"@[2] == 'L');
    assert("BMI"@[0] == 'B' && "BMI"@[1] == 'M' && "BMI"@[2] == 'I');
    assert("BRK"@[0] == 'B' && "BRK"@[1] == 'R' && "BRK"@[2] == 'K');
    assert("BVC"@[0] == 'B' && "BVC"@[1] == 'V' && "BVC"@[2] == 'C');
    assert("BVS"@[0] == 'B' && "BVS"@[1] == 'V' && "BVS"@[2] == 'S');
    assert("BCC"@[0] == 'B' && "BCC"@[1] == 'C' && "BCC"@[2] == 'C');
    assert("BCS"@[0] == 'B' && "BCS"@[1] == 'C' && "BCS"@[2] == 'S');
    assert("BNE"@[0] == 'B' && "BNE"@[1] == 'N' && "BNE"@[2] == 'E');
    assert("BEQ"@[0] == 'B' && "BEQ"@[1] == 'E' && "BEQ"@[2] == 'Q');
    assert("CMP"@[0] == 'C' && "CMP"@[1] == 'M' && "CMP"@[2] == 'P');
    assert("CPX"@[0] == 'C' && "CPX"@[1] == 'P' && "CPX"@[2] == 'X');
    assert("CPY"@[0] == 'C' && "CPY"@[1] == 'P' && "CPY"@[2] == 'Y');
    assert("CLC"@[0] == 'C' && "CLC"@[1] == 'L' && "CLC"@[2] == 'C');
    assert("CLD"@[0] == 'C' && "CLD"@[1] == 'L' && "CLD"@[2] == 'D');
    assert("CLI"@[0] == 'C' && "CLI"@[1] == 'L' && "CLI"@[2] == 'I');
    assert("CLV"@[0] == 'C' && "CLV"@[1] == 'L' && "CLV"@[2] == 'V');
    assert("DEC"@[0] == 'D' && "DEC"@[1] == 'E' && "DEC"@[2] == 'C');
    assert("DEX"@[0] == 'D' && "DEX"@[1] == 'E' && "DEX"@[2] == 'X');
    assert("DEY"@[0] == 'D' && "DEY"@[1] == 'E' && "DEY"@[2] == 'Y');
    assert("EOR"@[0] == 'E' && "EOR"@[1] == 'O' && "EOR"@[2] == 'R');
    assert("INC"@[0] == 'I' && "INC"@[1] == 'N' && "INC"@[2] == 'C');
    assert("INX"@[0] == 'I' && "INX"@[1] == 'N' && "INX"@[2] == 'X');
    assert("INY"@[0] == 'I' && "INY"@[1] == 'N' && "INY"@[2] == 'Y');
    assert("JMP"@[0] == 'J' && "JMP"@[1] == 'M' && "JMP"@[2] == 'P');
    assert("JSR"@[0] == 'J' && "JSR"@[1] == 'S' && "JSR"@[2] == 'R');
    assert("LDA"@[0] == 'L' && "LDA"@[1] == 'D' && "LDA"@[2] == 'A');
    assert("LDX"@[0] == 'L' && "LDX"@[1] == 'D' && "LDX"@[2] == 'X');
    assert("LDY"@[0] == 'L' && "LDY"@[1] == 'D' && "LDY"@[2] == 'Y');
    assert("LSR"@[0] == 'L' && "LSR"@[1] == 'S' && "LSR"@[2] == 'R');
    assert("NOP"@[0] == 'N' && "NOP"@[1] == 'O' && "NOP"@[2] == 'P');
    assert("ORA"@[0] == 'O' && "ORA"@[1] == 'R' && "ORA"@[2] == 'A');
    assert("PHA"@[0] == 'P' && "PHA"@[1] == 'H' && "PHA"@[2] == 'A');
    assert("PHP"@[0] == 'P' && "PHP"@[1] == 'H' && "PHP"@[2] == 'P');
    assert("PLA"@[0] == 'P' && "PLA"@[1] == 'L' && "PLA"@[2] == 'A');
    assert("PLP"@[0] == 'P' && "PLP"@[1] == 'L' && "PLP"@[2] == 'P');
    assert("ROL"@[0] == 'R' && "ROL"@[1] == 'O' && "ROL"@[2] == 'L');
    assert("ROR"@[0] == 'R' && "ROR"@[1] == 'O' && "ROR"@[2] == 'R');
    assert("RTI"@[0] == 'R' && "RTI"@[1] == 'T' && "RTI"@[2] == 'I');
    assert("RTS"@[0] == 'R' && "RTS"@[1] == 'T' && "RTS"@[2] == 'S');
    assert("SBC"@[0] == 'S' && "SBC"@[1] == 'B' && "SBC"@[2] == 'C');
    assert("SEC"@[0] == 'S' && "SEC"@[1] == 'E' && "SEC"@[2] == 'C');
    assert("SED"@[0] == 'S' && "SED"@[1] == 'E' && "SED"@[2] == 'D');
    assert("SEI"@[0] == 'S' && "SEI"@[1] == 'E' && "SEI"@[2] == 'I');
    assert("STA"@[0] == 'S' && "STA"@[1] == 'T' && "STA"@[2] == 'A');
    assert("STX"@[0] == 'S' && "STX"@[1] == 'T' && "STX"@[2] == 'X');
    assert("STY"@[0] == 'S' && "STY"@[1] == 'T' && "STY"@[2] == 'Y');
    assert("TAX"@[0] == 'T' && "TAX"@[1] == 'A' && "TAX"@[2] == 'X');
    assert("TAY"@[0] == 'T' && "TAY"@[1] == 'A' && "TAY"@[2] == 'Y');
    assert("TSX"@[0] == 'T' && "TSX"@[1] == 'S' && "TSX"@[2] == 'X');
    assert("TXA"@[0] == 'T' && "TXA"@[1] == 'X' && "TXA"@[2] == 'A');
    assert("TXS"@[0] == 'T' && "TXS"@[1] == 'X' && "TXS"@[2] == 'S');
    assert("TYA"@[0] == 'T' && "TYA"@[1] == 'Y' && "TYA"@[2] == 'A');
    assert("???"@[0] == '?' && "???"@[1] == '?' && "???"@[2] == '?');
}

/// Decodes the opcode `opcode` into an instruction with no operand fetched yet.
pub fn parse_instruction(opcode: u8) -> (r: Instruction)
    ensures
        r.opcode == opcode,
        r.name@ == mnemonic_name(opcode_operation(opcode).0),
        r.mode == opcode_operation(opcode).1,
        r.value == 0,
        r.address == 0,
        r.does_write == is_store(opcode_operation(opcode).0),
{
    let (m, mode) = operation_of(opcode);
    let does_write = m == Mnemonic::STA || m == Mnemonic::STX || m == Mnemonic::STY;
    Instruction::new(opcode, mnemonic_text(m), mode, does_write)
}

} // verus!
