use vstd::prelude::*;
use crate::cpu::cpu::{CPUState, CPU, CpuView, InstructionView};
use crate::cpu::flags_register::{
    FlagsRegister,
    status_byte,
    flags_of_byte,
    lemma_status_byte_break_bits,
    lemma_set_get_roundtrip,
};
use crate::cpu::instruction::{AddressingMode, Instruction, Mnemonic, spec_mnemonic, mnemonic_of};

verus! {

/// The 16-bit word whose high byte is `hi` and low byte is `lo`.
pub open spec fn word(hi: u8, lo: u8) -> int {
    hi * 256 + lo
}

/// `value` read as a two's-complement signed byte.
pub open spec fn signed_byte(value: u8) -> int {
    if value > 127 { value - 256 } else { value as int }
}

/// The target of a relative branch by `value` from `pc`, wrapping around
/// the 64 KiB address space.
pub open spec fn branch_target(pc: u16, value: u8) -> u16 {
    ((pc + signed_byte(value)) % 0x10000) as u16
}

/// `c` with the zero and negative flags describing `v`.
pub open spec fn with_zn(c: CpuView, v: u8) -> CpuView {
    CpuView { p: FlagsRegister { zero: v == 0, negative: v > 127, ..c.p }, ..c }
}

/// `c` with register A set to `v` and the zero and negative flags describing it.
pub open spec fn load_a(c: CpuView, v: u8) -> CpuView {
    with_zn(CpuView { a: v, ..c }, v)
}

/// `c` with register X set to `v` and the zero and negative flags describing it.
pub open spec fn load_x(c: CpuView, v: u8) -> CpuView {
    with_zn(CpuView { x: v, ..c }, v)
}

/// `c` with register Y set to `v` and the zero and negative flags describing it.
pub open spec fn load_y(c: CpuView, v: u8) -> CpuView {
    with_zn(CpuView { y: v, ..c }, v)
}

/// `c` with its carry flag set to `carry`.
pub open spec fn with_carry(c: CpuView, carry: bool) -> CpuView {
    CpuView { p: FlagsRegister { carry, ..c.p }, ..c }
}

/// `c` after a branch on `taken`: a jump to the branch target when taken,
/// unchanged otherwise.
pub open spec fn branch(c: CpuView, taken: bool, value: u8) -> CpuView {
    if taken {
        CpuView { state: CPUState::Jumping { address: branch_target(c.pc, value), penalty: false }, ..c }
    } else {
        c
    }
}

/// `c` after a compare of `reg` with `value`: carry when `reg >= value`, zero
/// when they are equal, negative from bit 7 of `reg - value`.
pub open spec fn compare(c: CpuView, reg: u8, value: u8) -> CpuView {
    CpuView {
        p: FlagsRegister {
            carry: value <= reg,
            zero: value == reg,
            negative: (reg - value) % 256 > 127,
            ..c.p
        },
        ..c
    }
}

/// `c` after starting a read-modify-write of memory at `ins.address`: the
/// original value is written back first, then `result`; carry and the zero
/// and negative flags describe the result.
pub open spec fn modify(c: CpuView, ins: InstructionView, result: int) -> CpuView {
    with_zn(
        CpuView {
            state: CPUState::PendingModify {
                address: ins.address,
                original: ins.value,
                value: result as u8,
            },
            ..c
        },
        result as u8,
    )
}

/// The address that a store instruction writes to.
pub open spec fn store_address(ins: InstructionView, c: CpuView) -> u16 {
    if ins.mode == AddressingMode::Absolute {
        word(ins.value, c.lo) as u16
    } else if ins.mode == AddressingMode::AbsoluteX || ins.mode == AddressingMode::AbsoluteY
        || ins.mode == AddressingMode::ZeroPageX || ins.mode == AddressingMode::ZeroPageY
        || ins.mode == AddressingMode::XIndirect || ins.mode == AddressingMode::IndirectY {
        ins.address
    } else {
        ins.value as u16
    }
}

/// The sum that ADC forms: A, the operand and the carry.
pub open spec fn adc_sum(c: CpuView, v: u8) -> int {
    c.a + v + (if c.p.carry { 1int } else { 0int })
}

/// The difference that SBC forms: A less the operand less the borrow
/// (the complement of the carry); between -256 and 255.
pub open spec fn sbc_difference(c: CpuView, v: u8) -> int {
    c.a - v - (if c.p.carry { 0int } else { 1int })
}

/// The CPU after ADC with operand `v`: A becomes the low byte of the sum,
/// carry its ninth bit, overflow whether two operands of one sign gave a
/// result of the other sign.
pub open spec fn adc(c: CpuView, v: u8) -> CpuView {
    let sum = adc_sum(c, v);
    let result = (sum % 256) as u8;
    load_a(
        CpuView {
            p: FlagsRegister {
                overflow: (c.a > 127) == (v > 127) && (c.a > 127) != (result > 127),
                carry: sum > 255,
                ..c.p
            },
            ..c
        },
        result,
    )
}

/// The CPU after SBC with operand `v`: A becomes the difference modulo 256,
/// carry means no borrow, overflow whether operands of different signs gave a
/// result of the subtrahend's sign.
pub open spec fn sbc(c: CpuView, v: u8) -> CpuView {
    let diff = sbc_difference(c, v);
    let result = (diff % 256) as u8;
    load_a(
        CpuView {
            p: FlagsRegister {
                overflow: (c.a > 127) != (v > 127) && (c.a > 127) != (result > 127),
                carry: diff >= 0,
                ..c.p
            },
            ..c
        },
        result,
    )
}

/// What `execute_instruction` does to the CPU `c` when it runs `ins`, by the
/// kind of operation that the instruction's name stands for.
pub open spec fn execute_spec(ins: InstructionView, c: CpuView) -> CpuView {
    let m = spec_mnemonic(ins.name);
    match m {
        Mnemonic::ADC | Mnemonic::SBC | Mnemonic::AND | Mnemonic::ORA | Mnemonic::EOR | Mnemonic::CMP | Mnemonic::CPX | Mnemonic::CPY | Mnemonic::BIT => arithmetic_spec(m, ins, c),
        Mnemonic::ASL | Mnemonic::LSR | Mnemonic::ROL | Mnemonic::ROR | Mnemonic::INC | Mnemonic::DEC => read_modify_write_spec(m, ins, c),
        Mnemonic::BPL | Mnemonic::BMI | Mnemonic::BVC | Mnemonic::BVS | Mnemonic::BCC | Mnemonic::BCS | Mnemonic::BNE | Mnemonic::BEQ => branch_spec(m, ins, c),
        Mnemonic::CLC | Mnemonic::CLD | Mnemonic::CLI | Mnemonic::CLV | Mnemonic::SEC | Mnemonic::SED | Mnemonic::SEI => flag_spec(m, ins, c),
        Mnemonic::LDA | Mnemonic::LDX | Mnemonic::LDY | Mnemonic::TAX | Mnemonic::TAY | Mnemonic::TSX | Mnemonic::TXA | Mnemonic::TXS | Mnemonic::TYA | Mnemonic::INX | Mnemonic::INY | Mnemonic::DEX | Mnemonic::DEY => transfer_spec(m, ins, c),
        Mnemonic::HTL | Mnemonic::BRK | Mnemonic::JMP | Mnemonic::JSR | Mnemonic::RTI | Mnemonic::RTS | Mnemonic::PHA | Mnemonic::PHP | Mnemonic::PLA | Mnemonic::PLP | Mnemonic::STA | Mnemonic::STX | Mnemonic::STY | Mnemonic::NOP | Mnemonic::Other => control_spec(m, ins, c),
    }
}

/// What running `ins`, an arithmetic, logic or compare instruction named by `m`, does to the CPU `c`.
#[verifier::opaque]
pub open spec fn arithmetic_spec(m: Mnemonic, ins: InstructionView, c: CpuView) -> CpuView {
    let v = ins.value;
    match m {
        Mnemonic::ADC => adc(c, v),
        Mnemonic::SBC => sbc(c, v),
        Mnemonic::AND => load_a(c, c.a & v),
        Mnemonic::ORA => load_a(c, c.a | v),
        Mnemonic::EOR => load_a(c, c.a ^ v),
        Mnemonic::CMP => compare(c, c.a, v),
        Mnemonic::CPX => compare(c, c.x, v),
        Mnemonic::CPY => compare(c, c.y, v),
        Mnemonic::BIT => CpuView {
            p: FlagsRegister {
                zero: c.a & v == 0,
                negative: v & 0x80 != 0,
                overflow: v & 0x40 != 0,
                ..c.p
            },
            ..c
        },
        _ => c,
    }
}

/// What running `ins`, a shift, rotate, increment or decrement named by `m`, does to the CPU `c`.
#[verifier::opaque]
pub open spec fn read_modify_write_spec(m: Mnemonic, ins: InstructionView, c: CpuView) -> CpuView {
    let v = ins.value;
    let implied = ins.mode == AddressingMode::Implied;
    match m {
        Mnemonic::ASL => if implied {
            load_a(with_carry(c, c.a > 127), ((c.a * 2) % 256) as u8)
        } else {
            modify(with_carry(c, v > 127), ins, (v * 2) % 256)
        },
        Mnemonic::LSR => if implied {
            load_a(with_carry(c, c.a % 2 == 1), c.a / 2)
        } else {
            modify(with_carry(c, v % 2 == 1), ins, (v / 2) as int)
        },
        Mnemonic::ROL => {
            let old_carry: int = if c.p.carry { 1 } else { 0 };
            if implied {
                load_a(with_carry(c, c.a > 127), ((c.a * 2) % 256 + old_carry) as u8)
            } else {
                modify(with_carry(c, v > 127), ins, (v * 2) % 256 + old_carry)
            }
        },
        Mnemonic::ROR => {
            let old_carry: int = if c.p.carry { 128 } else { 0 };
            if implied {
                load_a(with_carry(c, c.a % 2 == 1), (c.a / 2 + old_carry) as u8)
            } else {
                modify(with_carry(c, v % 2 == 1), ins, v / 2 + old_carry)
            }
        },
        Mnemonic::INC => modify(c, ins, (v + 1) % 256),
        Mnemonic::DEC => modify(c, ins, (v - 1) % 256),
        _ => c,
    }
}

/// What running `ins`, a conditional branch named by `m`, does to the CPU `c`.
#[verifier::opaque]
pub open spec fn branch_spec(m: Mnemonic, ins: InstructionView, c: CpuView) -> CpuView {
    let v = ins.value;
    match m {
        Mnemonic::BPL => branch(c, !c.p.negative, v),
        Mnemonic::BMI => branch(c, c.p.negative, v),
        Mnemonic::BVC => branch(c, !c.p.overflow, v),
        Mnemonic::BVS => branch(c, c.p.overflow, v),
        Mnemonic::BCC => branch(c, !c.p.carry, v),
        Mnemonic::BCS => branch(c, c.p.carry, v),
        Mnemonic::BNE => branch(c, !c.p.zero, v),
        Mnemonic::BEQ => branch(c, c.p.zero, v),
        _ => c,
    }
}

/// What running `ins`, a flag set or clear named by `m`, does to the CPU `c`.
#[verifier::opaque]
pub open spec fn flag_spec(m: Mnemonic, ins: InstructionView, c: CpuView) -> CpuView {
    match m {
        Mnemonic::CLC => with_carry(c, false),
        Mnemonic::CLD => CpuView { p: FlagsRegister { decimal: false, ..c.p }, ..c },
        Mnemonic::CLI => CpuView { p: FlagsRegister { interrupt_disable: false, ..c.p }, ..c },
        Mnemonic::CLV => CpuView { p: FlagsRegister { overflow: false, ..c.p }, ..c },
        Mnemonic::SEC => with_carry(c, true),
        Mnemonic::SED => CpuView { p: FlagsRegister { decimal: true, ..c.p }, ..c },
        Mnemonic::SEI => CpuView { p: FlagsRegister { interrupt_disable: true, ..c.p }, ..c },
        _ => c,
    }
}

/// What running `ins`, a register load, transfer, increment or decrement named by `m`, does to the CPU `c`.
#[verifier::opaque]
pub open spec fn transfer_spec(m: Mnemonic, ins: InstructionView, c: CpuView) -> CpuView {
    let v = ins.value;
    match m {
        Mnemonic::LDA => load_a(c, v),
        Mnemonic::LDX => load_x(c, v),
        Mnemonic::LDY => load_y(c, v),
        Mnemonic::TAX => load_x(c, c.a),
        Mnemonic::TAY => load_y(c, c.a),
        Mnemonic::TSX => load_x(c, c.sp),
        Mnemonic::TXA => load_a(c, c.x),
        Mnemonic::TXS => CpuView { sp: c.x, ..c },
        Mnemonic::TYA => load_a(c, c.y),
        Mnemonic::INX => load_x(c, ((c.x + 1) % 256) as u8),
        Mnemonic::INY => load_y(c, ((c.y + 1) % 256) as u8),
        Mnemonic::DEX => load_x(c, ((c.x - 1) % 256) as u8),
        Mnemonic::DEY => load_y(c, ((c.y - 1) % 256) as u8),
        _ => c,
    }
}

/// What running `ins`, a halt, jump, interrupt, stack or store instruction, or one that does nothing named by `m`, does to the CPU `c`.
#[verifier::opaque]
pub open spec fn control_spec(m: Mnemonic, ins: InstructionView, c: CpuView) -> CpuView {
    let v = ins.value;
    match m {
        Mnemonic::HTL => CpuView { state: CPUState::Halted, ..c },
        Mnemonic::BRK => if v == 0 {
            let pc = ((c.pc + 1) % 0x10000) as u16;
            CpuView {
                pc,
                state: CPUState::Pushing16 { value: pc },
                instruction: InstructionView { value: 1, ..c.instruction },
                ..c
            }
        } else if v == 1 {
            CpuView {
                state: CPUState::Pushing { value: (status_byte(c.p) + 0x10) as u8 },
                instruction: InstructionView { value: 2, ..c.instruction },
                ..c
            }
        } else {
            CpuView { state: CPUState::PendingRead16 { address: 0xFFFE }, ..c }
        },
        Mnemonic::JMP => CpuView { pc: ins.address, ..c },
        Mnemonic::JSR => CpuView {
            state: CPUState::Pushing16 { value: ((c.pc - 1) % 0x10000) as u16 },
            ..c
        },
        Mnemonic::RTI => if v == 0 {
            CpuView { state: CPUState::Pulling, ..c }
        } else {
            c
        },
        Mnemonic::RTS => if !c.lo_set {
            CpuView { state: CPUState::Pulling16, lo_set: true, ..c }
        } else {
            CpuView { pc: (word(v, c.lo) + 1) as u16, lo_set: false, ..c }
        },
        Mnemonic::PHA => CpuView { state: CPUState::Pushing { value: c.a }, ..c },
        Mnemonic::PHP => CpuView {
            state: CPUState::Pushing { value: (status_byte(c.p) + 0x10) as u8 },
            ..c
        },
        Mnemonic::PLA => load_a(c, v),
        Mnemonic::PLP => CpuView { p: flags_of_byte(v), ..c },
        Mnemonic::STA => CpuView {
            state: CPUState::PendingWrite { address: store_address(ins, c), value: c.a },
            ..c
        },
        Mnemonic::STX => CpuView {
            state: CPUState::PendingWrite { address: store_address(ins, c), value: c.x },
            ..c
        },
        Mnemonic::STY => CpuView {
            state: CPUState::PendingWrite { address: store_address(ins, c), value: c.y },
            ..c
        },
        Mnemonic::NOP => c,
        Mnemonic::Other => c,
        _ => c,
    }
}

/// ADC adds: A and the carry after it hold the sum of A, the operand and the
/// carry before it, the carry as the ninth bit.
pub proof fn lemma_adc_adds(c: CpuView, v: u8)
    ensures
        adc(c, v).a + (if adc(c, v).p.carry { 256int } else { 0int }) == c.a + v + (if c.p.carry {
            1int
        } else {
            0int
        }),
{
}

/// SBC is ADC of the operand's ones' complement: it leaves A, carry, overflow,
/// zero and negative exactly as ADC of `255 - v` would.
pub proof fn lemma_sbc_is_adc_of_complement(c: CpuView, v: u8)
    ensures
        sbc(c, v) == adc(c, (255 - v) as u8),
{
    assert(sbc_difference(c, v) + 256 == adc_sum(c, (255 - v) as u8));
    assert(sbc_difference(c, v) % 256 == adc_sum(c, (255 - v) as u8) % 256);
}

/// ROR on A undoes ROL on A: A and the carry come back as they were.
pub proof fn lemma_ror_undoes_rol(ins: InstructionView, c: CpuView)
    requires
        ins.mode == AddressingMode::Implied,
    ensures
        read_modify_write_spec(
            Mnemonic::ROR,
            ins,
            read_modify_write_spec(Mnemonic::ROL, ins, c),
        ).a == c.a,
        read_modify_write_spec(
            Mnemonic::ROR,
            ins,
            read_modify_write_spec(Mnemonic::ROL, ins, c),
        ).p.carry == c.p.carry,
{
    let cin: int = if c.p.carry { 1 } else { 0 };
    let a1: int = (c.a * 2) % 256 + cin;
    let top: int = if c.a > 127 { 128 } else { 0 };
    assert(a1 / 2 + top == c.a && (a1 % 2 == 1) == c.p.carry && 0 <= a1 < 256) by (nonlinear_arith)
        requires
            0 <= c.a < 256,
            cin == (if c.p.carry { 1int } else { 0int }),
            top == (if c.a > 127 { 128int } else { 0int }),
            a1 == (c.a * 2) % 256 + cin,
    ;
    let r1 = read_modify_write_spec(Mnemonic::ROL, ins, c);
    assert(r1.a == a1 && r1.p.carry == (c.a > 127)) by {
        reveal(read_modify_write_spec);
    }
    let r2 = read_modify_write_spec(Mnemonic::ROR, ins, r1);
    assert(r2.a == (r1.a / 2 + (if r1.p.carry { 128int } else { 0int })) as u8 && r2.p.carry == (
    r1.a % 2 == 1)) by {
        reveal(read_modify_write_spec);
    }
}

/// PLP of the byte that PHP pushed restores every flag.
pub proof fn lemma_plp_restores_php(c: CpuView)
    ensures
        flags_of_byte((status_byte(c.p) + 0x10) as u8) == c.p,
{
    lemma_set_get_roundtrip(c.p);
    lemma_status_byte_break_bits(c.p);
    let b = status_byte(c.p) as u8;
    let b2 = b | 0x10u8;
    assert(b2 & 0x01 == b & 0x01 && b2 & 0x02 == b & 0x02 && b2 & 0x04 == b & 0x04 && b2 & 0x08
        == b & 0x08 && b2 & 0x40 == b & 0x40 && b2 & 0x80 == b & 0x80) by (bit_vector)
        requires
            b2 == b | 0x10u8,
    ;
}

/// Running an instruction moves the program counter only for JMP, RTS and the
/// first step of BRK, and the stack pointer only for TXS (the stack cycles
/// themselves belong to the emulator).
#[verifier::spinoff_prover]
pub proof fn lemma_execute_keeps_pc_and_sp(ins: InstructionView, c: CpuView)
    ensures
        ({
            let m = spec_mnemonic(ins.name);
            m != Mnemonic::JMP && m != Mnemonic::RTS && m != Mnemonic::BRK ==> execute_spec(
                ins,
                c,
            ).pc == c.pc
        }),
        spec_mnemonic(ins.name) != Mnemonic::TXS ==> execute_spec(ins, c).sp == c.sp,
{
    reveal(arithmetic_spec);
    reveal(read_modify_write_spec);
    reveal(branch_spec);
    reveal(flag_spec);
    reveal(transfer_spec);
    reveal(control_spec);
}

/// Whether bit `k` of `b` is set.
pub open spec fn bit(b: u8, k: u8) -> bool {
    (b >> k) & 1u8 == 1u8
}

/// The value that a pending read-modify-write will write back.
pub open spec fn modified_value(s: CPUState) -> u8 {
    match s {
        CPUState::PendingModify { value, .. } => value,
        _ => 0,
    }
}

/// Bit 7 of a byte is its sign: it is set exactly for the bytes from 128 up.
pub proof fn lemma_bit7_is_sign(x: u8)
    ensures
        bit(x, 7) == (x >= 128),
{
    assert(((x >> 7u8) & 1u8 == 1u8) == (x >= 128)) by (bit_vector);
}

/// AND, ORA and EOR work bit by bit: each bit of the new A is the conjunction,
/// the disjunction or the difference of that bit of A and of the operand; they
/// set zero and negative from the new A and touch nothing else.
#[verifier::spinoff_prover]
pub proof fn lemma_logic_operations_bitwise(ins: InstructionView, c: CpuView)
    ensures
        ({
            let r = execute_spec(ins, c);
            let m = spec_mnemonic(ins.name);
            let v = ins.value;
            &&& m == Mnemonic::AND ==> forall|k: u8| k < 8 ==> bit(r.a, k) == (bit(c.a, k) && bit(v, k))
            &&& m == Mnemonic::ORA ==> forall|k: u8| k < 8 ==> bit(r.a, k) == (bit(c.a, k) || bit(v, k))
            &&& m == Mnemonic::EOR ==> forall|k: u8| k < 8 ==> bit(r.a, k) == (bit(c.a, k) != bit(v, k))
            &&& (m == Mnemonic::AND || m == Mnemonic::ORA || m == Mnemonic::EOR) ==> {
                &&& r.p.zero == (r.a == 0)
                &&& r.p.negative == bit(r.a, 7)
                &&& r.p.carry == c.p.carry && r.p.overflow == c.p.overflow
                &&& r.x == c.x && r.y == c.y && r.sp == c.sp && r.pc == c.pc && r.state == c.state
            }
        }),
{
    reveal(arithmetic_spec);
    let r = execute_spec(ins, c);
    let a = c.a;
    let v = ins.value;
    lemma_bit7_is_sign(r.a);
    assert(forall|k: u8| k < 8 ==> (((a & v) >> k) & 1u8 == 1u8) == (((a >> k) & 1u8 == 1u8) && ((v
        >> k) & 1u8 == 1u8))) by (bit_vector);
    assert(forall|k: u8| k < 8 ==> (((a | v) >> k) & 1u8 == 1u8) == (((a >> k) & 1u8 == 1u8) || ((v
        >> k) & 1u8 == 1u8))) by (bit_vector);
    assert(forall|k: u8| k < 8 ==> (((a ^ v) >> k) & 1u8 == 1u8) == (((a >> k) & 1u8 == 1u8) != ((v
        >> k) & 1u8 == 1u8))) by (bit_vector);
}

/// Doubling `x` modulo 256 and adding `cin` moves every bit one place up,
/// drops bit 7 and puts `cin` in bit 0.
proof fn lemma_shift_up_bits(x: u8, cin: u8, out: u8)
    requires
        cin <= 1,
        out == (x * 2) % 256 + cin,
    ensures
        forall|k: u8| 1 <= k < 8 ==> bit(out, k) == bit(x, (k - 1) as u8),
        bit(out, 0) == (cin == 1),
        bit(x, 7) == (x >= 128),
{
    assert(forall|k: u8|
        1 <= k < 8 ==> ((out >> k) & 1u8 == 1u8) == ((x >> ((k - 1) as u8)) & 1u8 == 1u8))
        by (bit_vector)
        requires
            cin <= 1,
            out == (x * 2) % 256 + cin,
    ;
    assert(((out >> 0u8) & 1u8 == 1u8) == (cin == 1)) by (bit_vector)
        requires
            cin <= 1,
            out == (x * 2) % 256 + cin,
    ;
    lemma_bit7_is_sign(x);
}

/// Halving `x` and adding `top` (0 or 128) moves every bit one place down,
/// drops bit 0 and puts `top` in bit 7.
proof fn lemma_shift_down_bits(x: u8, top: u8, out: u8)
    requires
        top == 0 || top == 128,
        out == x / 2 + top,
    ensures
        forall|k: u8| k < 7 ==> bit(out, k) == bit(x, (k + 1) as u8),
        bit(out, 7) == (top == 128),
        bit(x, 0) == (x % 2 == 1),
{
    assert(forall|k: u8| k < 7 ==> ((out >> k) & 1u8 == 1u8) == ((x >> ((k + 1) as u8)) & 1u8 == 1u8))
        by (bit_vector)
        requires
            top == 0 || top == 128,
            out == x / 2 + top,
    ;
    assert(((out >> 7u8) & 1u8 == 1u8) == (top == 128)) by (bit_vector)
        requires
            top == 0 || top == 128,
            out == x / 2 + top,
    ;
    assert(((x >> 0u8) & 1u8 == 1u8) == (x % 2 == 1)) by (bit_vector);
}

/// ASL, LSR, ROL and ROR move the bits of their operand (A, or the memory
/// operand) one place: ASL and ROL up, LSR and ROR down. The bit shifted out
/// goes to carry; ASL and LSR shift in a zero, ROL and ROR the old carry. The
/// result sets zero and negative; on memory it is written back after the
/// original byte, to the operand's address, and A stays.
#[verifier::spinoff_prover]
pub proof fn lemma_shifts_and_rotates_bitwise(ins: InstructionView, c: CpuView)
    ensures
        ({
            let r = execute_spec(ins, c);
            let m = spec_mnemonic(ins.name);
            let implied = ins.mode == AddressingMode::Implied;
            let x = if implied { c.a } else { ins.value };
            let out = if implied { r.a } else { modified_value(r.state) };
            &&& m == Mnemonic::ASL ==> (forall|k: u8| 1 <= k < 8 ==> bit(out, k) == bit(x, (k - 1) as u8))
                && !bit(out, 0) && r.p.carry == bit(x, 7)
            &&& m == Mnemonic::ROL ==> (forall|k: u8| 1 <= k < 8 ==> bit(out, k) == bit(x, (k - 1) as u8))
                && bit(out, 0) == c.p.carry && r.p.carry == bit(x, 7)
            &&& m == Mnemonic::LSR ==> (forall|k: u8| k < 7 ==> bit(out, k) == bit(x, (k + 1) as u8))
                && !bit(out, 7) && r.p.carry == bit(x, 0)
            &&& m == Mnemonic::ROR ==> (forall|k: u8| k < 7 ==> bit(out, k) == bit(x, (k + 1) as u8))
                && bit(out, 7) == c.p.carry && r.p.carry == bit(x, 0)
            &&& (m == Mnemonic::ASL || m == Mnemonic::ROL || m == Mnemonic::LSR || m == Mnemonic::ROR)
                ==> {
                &&& r.p.zero == (out == 0)
                &&& r.p.negative == bit(out, 7)
                &&& r.p.overflow == c.p.overflow
                &&& r.x == c.x && r.y == c.y && r.sp == c.sp && r.pc == c.pc
                &&& implied ==> r.state == c.state
                &&& !implied ==> r.a == c.a && r.state == (CPUState::PendingModify {
                    address: ins.address,
                    original: ins.value,
                    value: out,
                })
            }
        }),
{
    reveal(read_modify_write_spec);
    let r = execute_spec(ins, c);
    let m = spec_mnemonic(ins.name);
    let implied = ins.mode == AddressingMode::Implied;
    let x = if implied { c.a } else { ins.value };
    let out = if implied { r.a } else { modified_value(r.state) };
    lemma_bit7_is_sign(out);
    let cin: u8 = if c.p.carry { 1 } else { 0 };
    let top: u8 = if c.p.carry { 128 } else { 0 };
    if m == Mnemonic::ASL {
        lemma_shift_up_bits(x, 0, out);
    } else if m == Mnemonic::ROL {
        lemma_shift_up_bits(x, cin, out);
    } else if m == Mnemonic::LSR {
        lemma_shift_down_bits(x, 0, out);
    } else if m == Mnemonic::ROR {
        lemma_shift_down_bits(x, top, out);
    }
}

/// ROR on a memory operand writes the byte that ROR on A computes from the same
/// value and carry, and leaves the same carry.
pub proof fn lemma_ror_memory_matches_accumulator(ins: InstructionView, c: CpuView)
    requires
        spec_mnemonic(ins.name) == Mnemonic::ROR,
        ins.mode != AddressingMode::Implied,
    ensures
        ({
            let acc = InstructionView { mode: AddressingMode::Implied, ..ins };
            let on_a = execute_spec(acc, CpuView { a: ins.value, ..c });
            let on_memory = execute_spec(ins, c);
            modified_value(on_memory.state) == on_a.a && on_memory.p.carry == on_a.p.carry
        }),
{
    reveal(read_modify_write_spec);
}

/// ADC and SBC in signed terms: A takes the low byte of A plus the operand plus
/// the carry (SBC: A minus the operand minus the borrow), carry is the ninth
/// bit (SBC: set when nothing was borrowed), and overflow is set exactly when
/// the signed result leaves -128..127.
#[verifier::spinoff_prover]
pub proof fn lemma_add_and_subtract(ins: InstructionView, c: CpuView)
    ensures
        ({
            let r = execute_spec(ins, c);
            let m = spec_mnemonic(ins.name);
            let v = ins.value;
            let cin: int = if c.p.carry { 1 } else { 0 };
            let sa: int = if c.a >= 128 { c.a - 256 } else { c.a as int };
            let sv: int = if v >= 128 { v - 256 } else { v as int };
            &&& m == Mnemonic::ADC ==> {
                &&& r.a + (if r.p.carry { 256int } else { 0int }) == c.a + v + cin
                &&& r.p.overflow == (sa + sv + cin < -128 || sa + sv + cin > 127)
            }
            &&& m == Mnemonic::SBC ==> {
                &&& r.a - (if r.p.carry { 0int } else { 256int }) == c.a - v - (1 - cin)
                &&& r.p.overflow == (sa - sv - (1 - cin) < -128 || sa - sv - (1 - cin) > 127)
            }
            &&& (m == Mnemonic::ADC || m == Mnemonic::SBC) ==> r.p.zero == (r.a == 0) && r.p.negative
                == (r.a >= 128) && r.x == c.x && r.y == c.y && r.sp == c.sp && r.pc == c.pc
                && r.state == c.state
        }),
{
    let m = spec_mnemonic(ins.name);
    let v = ins.value;
    let cin: int = if c.p.carry { 1 } else { 0 };
    if m == Mnemonic::ADC {
        assert(execute_spec(ins, c) == adc(c, v)) by {
            reveal(arithmetic_spec);
        }
        let sum = c.a + v + cin;
        assert(sum % 256 == if sum >= 256 { sum - 256 } else { sum });
    } else if m == Mnemonic::SBC {
        assert(execute_spec(ins, c) == sbc(c, v)) by {
            reveal(arithmetic_spec);
        }
        let diff = c.a - v - (1 - cin);
        assert(diff % 256 == if diff >= 0 { diff } else { diff + 256 });
    }
}

/// CMP, CPX and CPY compare A, X and Y with the operand: carry when the
/// register is at least the operand, zero when they are equal, negative from
/// bit 7 of their difference; no register changes. BIT sets negative and
/// overflow from bits 7 and 6 of the operand, and zero when A and the operand
/// have no set bit in common.
#[verifier::spinoff_prover]
pub proof fn lemma_compare_and_bit_test(ins: InstructionView, c: CpuView)
    ensures
        ({
            let r = execute_spec(ins, c);
            let m = spec_mnemonic(ins.name);
            let v = ins.value;
            let reg = if m == Mnemonic::CMP { c.a } else if m == Mnemonic::CPX { c.x } else { c.y };
            &&& (m == Mnemonic::CMP || m == Mnemonic::CPX || m == Mnemonic::CPY) ==> {
                &&& r.p.carry == (reg >= v)
                &&& r.p.zero == (reg == v)
                &&& r.p.negative == ((reg - v + 256) % 256 >= 128)
                &&& r.p.overflow == c.p.overflow
            }
            &&& m == Mnemonic::BIT ==> {
                &&& r.p.negative == bit(v, 7)
                &&& r.p.overflow == bit(v, 6)
                &&& r.p.zero == (forall|k: u8| k < 8 ==> !(bit(c.a, k) && bit(v, k)))
                &&& r.p.carry == c.p.carry
            }
            &&& (m == Mnemonic::CMP || m == Mnemonic::CPX || m == Mnemonic::CPY || m == Mnemonic::BIT)
                ==> r.a == c.a && r.x == c.x && r.y == c.y && r.sp == c.sp && r.pc == c.pc
                && r.state == c.state
        }),
{
    let m = spec_mnemonic(ins.name);
    let a = c.a;
    let v = ins.value;
    if m == Mnemonic::CMP {
        assert(execute_spec(ins, c) == compare(c, c.a, v)) by {
            reveal(arithmetic_spec);
        }
    } else if m == Mnemonic::CPX {
        assert(execute_spec(ins, c) == compare(c, c.x, v)) by {
            reveal(arithmetic_spec);
        }
    } else if m == Mnemonic::CPY {
        assert(execute_spec(ins, c) == compare(c, c.y, v)) by {
            reveal(arithmetic_spec);
        }
    } else if m == Mnemonic::BIT {
        assert(execute_spec(ins, c) == (CpuView {
            p: FlagsRegister {
                zero: a & v == 0,
                negative: v & 0x80 != 0,
                overflow: v & 0x40 != 0,
                ..c.p
            },
            ..c
        })) by {
            reveal(arithmetic_spec);
        }
        assert(((v & 0x80) != 0) == ((v >> 7u8) & 1u8 == 1u8)) by (bit_vector);
        assert(((v & 0x40) != 0) == ((v >> 6u8) & 1u8 == 1u8)) by (bit_vector);
        assert(forall|k: u8| k < 8 && (a & v) == 0 ==> !(((a >> k) & 1u8 == 1u8) && ((v >> k) & 1u8
            == 1u8))) by (bit_vector);
        assert((a & v) != 0 ==> (bit(a, 0) && bit(v, 0)) || (bit(a, 1) && bit(v, 1)) || (bit(a, 2)
            && bit(v, 2)) || (bit(a, 3) && bit(v, 3)) || (bit(a, 4) && bit(v, 4)) || (bit(a, 5) && bit(
            v,
            5,
        )) || (bit(a, 6) && bit(v, 6)) || (bit(a, 7) && bit(v, 7))) by (bit_vector);
    }
}

/// INC and DEC on memory write back the operand plus or minus one, wrapping
/// between 255 and 0, after the original byte; the register forms do the same
/// to X and Y. Each sets zero and negative from its result.
#[verifier::spinoff_prover]
pub proof fn lemma_increments_and_decrements(ins: InstructionView, c: CpuView)
    ensures
        ({
            let r = execute_spec(ins, c);
            let m = spec_mnemonic(ins.name);
            let v = ins.value;
            let out = modified_value(r.state);
            &&& m == Mnemonic::INC ==> (if v == 255 { out == 0 } else { out == v + 1 })
            &&& m == Mnemonic::DEC ==> (if v == 0 { out == 255 } else { out == v - 1 })
            &&& (m == Mnemonic::INC || m == Mnemonic::DEC) ==> r.state == (CPUState::PendingModify {
                address: ins.address,
                original: v,
                value: out,
            }) && r.p.zero == (out == 0) && r.p.negative == (out >= 128) && r.a == c.a && r.x
                == c.x && r.y == c.y
            &&& m == Mnemonic::INX ==> (if c.x == 255 { r.x == 0 } else { r.x == c.x + 1 })
            &&& m == Mnemonic::DEX ==> (if c.x == 0 { r.x == 255 } else { r.x == c.x - 1 })
            &&& m == Mnemonic::INY ==> (if c.y == 255 { r.y == 0 } else { r.y == c.y + 1 })
            &&& m == Mnemonic::DEY ==> (if c.y == 0 { r.y == 255 } else { r.y == c.y - 1 })
            &&& (m == Mnemonic::INX || m == Mnemonic::DEX) ==> r.p.zero == (r.x == 0) && r.p.negative
                == (r.x >= 128) && r.y == c.y && r.a == c.a
            &&& (m == Mnemonic::INY || m == Mnemonic::DEY) ==> r.p.zero == (r.y == 0) && r.p.negative
                == (r.y >= 128) && r.x == c.x && r.a == c.a
        }),
{
    let m = spec_mnemonic(ins.name);
    if m == Mnemonic::INC || m == Mnemonic::DEC {
        reveal(read_modify_write_spec);
    } else {
        reveal(transfer_spec);
    }
}

/// Loads put the operand, and transfers the source register, into the
/// destination register and set zero and negative from it; TXS sets the stack
/// pointer and no flag. No other register changes.
#[verifier::spinoff_prover]
pub proof fn lemma_loads_and_transfers(ins: InstructionView, c: CpuView)
    ensures
        ({
            let r = execute_spec(ins, c);
            let m = spec_mnemonic(ins.name);
            let v = ins.value;
            &&& m == Mnemonic::LDA ==> r.a == v && r.x == c.x && r.y == c.y
            &&& m == Mnemonic::LDX ==> r.x == v && r.a == c.a && r.y == c.y
            &&& m == Mnemonic::LDY ==> r.y == v && r.a == c.a && r.x == c.x
            &&& m == Mnemonic::TAX ==> r.x == c.a && r.a == c.a && r.y == c.y
            &&& m == Mnemonic::TAY ==> r.y == c.a && r.a == c.a && r.x == c.x
            &&& m == Mnemonic::TSX ==> r.x == c.sp && r.a == c.a && r.y == c.y
            &&& m == Mnemonic::TXA ==> r.a == c.x && r.x == c.x && r.y == c.y
            &&& m == Mnemonic::TYA ==> r.a == c.y && r.x == c.x && r.y == c.y
            &&& m == Mnemonic::TXS ==> r.sp == c.x && r.a == c.a && r.x == c.x && r.y == c.y && r.p
                == c.p
            &&& (m == Mnemonic::LDA || m == Mnemonic::TXA || m == Mnemonic::TYA) ==> r.p.zero == (r.a
                == 0) && r.p.negative == (r.a >= 128)
            &&& (m == Mnemonic::LDX || m == Mnemonic::TAX || m == Mnemonic::TSX) ==> r.p.zero == (r.x
                == 0) && r.p.negative == (r.x >= 128)
            &&& (m == Mnemonic::LDY || m == Mnemonic::TAY) ==> r.p.zero == (r.y == 0) && r.p.negative
                == (r.y >= 128)
            &&& (m == Mnemonic::LDA || m == Mnemonic::LDX || m == Mnemonic::LDY || m == Mnemonic::TAX
                || m == Mnemonic::TAY || m == Mnemonic::TSX || m == Mnemonic::TXA || m
                == Mnemonic::TYA) ==> r.sp == c.sp && r.p.carry == c.p.carry && r.p.overflow
                == c.p.overflow
            &&& (m == Mnemonic::LDA || m == Mnemonic::LDX || m == Mnemonic::LDY || m == Mnemonic::TAX
                || m == Mnemonic::TAY || m == Mnemonic::TSX || m == Mnemonic::TXA || m
                == Mnemonic::TYA || m == Mnemonic::TXS) ==> r.pc == c.pc && r.state == c.state
        }),
{
    reveal(transfer_spec);
}

/// A branch jumps exactly when its flag condition holds (BPL: negative clear,
/// BMI: set; BVC/BVS: overflow; BCC/BCS: carry; BNE/BEQ: zero), to PC plus the
/// operand read as a signed byte, wrapping around the address space; when it
/// does not, nothing changes. A branch changes no register or flag.
#[verifier::spinoff_prover]
pub proof fn lemma_branches(ins: InstructionView, c: CpuView)
    requires
        c.state == CPUState::Ready,
    ensures
        ({
            let r = execute_spec(ins, c);
            let m = spec_mnemonic(ins.name);
            let v = ins.value;
            let taken = r.state != c.state;
            let target: int = if v < 128 { (c.pc + v) % 0x10000 } else { (c.pc + v + 0xFF00)
                % 0x10000 };
            &&& m == Mnemonic::BPL ==> taken == !c.p.negative
            &&& m == Mnemonic::BMI ==> taken == c.p.negative
            &&& m == Mnemonic::BVC ==> taken == !c.p.overflow
            &&& m == Mnemonic::BVS ==> taken == c.p.overflow
            &&& m == Mnemonic::BCC ==> taken == !c.p.carry
            &&& m == Mnemonic::BCS ==> taken == c.p.carry
            &&& m == Mnemonic::BNE ==> taken == !c.p.zero
            &&& m == Mnemonic::BEQ ==> taken == c.p.zero
            &&& (m == Mnemonic::BPL || m == Mnemonic::BMI || m == Mnemonic::BVC || m == Mnemonic::BVS
                || m == Mnemonic::BCC || m == Mnemonic::BCS || m == Mnemonic::BNE || m
                == Mnemonic::BEQ) ==> {
                &&& taken ==> r.state == (CPUState::Jumping { address: target as u16, penalty: false })
                &&& r.a == c.a && r.x == c.x && r.y == c.y && r.sp == c.sp && r.pc == c.pc && r.p
                    == c.p
            }
        }),
{
    reveal(branch_spec);
    let v = ins.value;
    if v >= 128 {
        assert((c.pc + (v - 256)) % 0x10000 == (c.pc + v + 0xFF00) % 0x10000);
    }
}

/// SEC, SED and SEI set, CLC, CLD, CLI and CLV clear, their one flag, and
/// change nothing else.
#[verifier::spinoff_prover]
pub proof fn lemma_flag_instructions(ins: InstructionView, c: CpuView)
    ensures
        ({
            let r = execute_spec(ins, c);
            let m = spec_mnemonic(ins.name);
            &&& m == Mnemonic::SEC ==> r.p.carry
            &&& m == Mnemonic::CLC ==> !r.p.carry
            &&& m == Mnemonic::SED ==> r.p.decimal
            &&& m == Mnemonic::CLD ==> !r.p.decimal
            &&& m == Mnemonic::SEI ==> r.p.interrupt_disable
            &&& m == Mnemonic::CLI ==> !r.p.interrupt_disable
            &&& m == Mnemonic::CLV ==> !r.p.overflow
            &&& (m == Mnemonic::SEC || m == Mnemonic::CLC) ==> r.p.zero == c.p.zero && r.p.decimal
                == c.p.decimal && r.p.interrupt_disable == c.p.interrupt_disable && r.p.overflow
                == c.p.overflow && r.p.negative == c.p.negative
            &&& (m == Mnemonic::SED || m == Mnemonic::CLD) ==> r.p.zero == c.p.zero && r.p.carry
                == c.p.carry && r.p.interrupt_disable == c.p.interrupt_disable && r.p.overflow
                == c.p.overflow && r.p.negative == c.p.negative
            &&& (m == Mnemonic::SEI || m == Mnemonic::CLI) ==> r.p.zero == c.p.zero && r.p.carry
                == c.p.carry && r.p.decimal == c.p.decimal && r.p.overflow == c.p.overflow
                && r.p.negative == c.p.negative
            &&& m == Mnemonic::CLV ==> r.p.zero == c.p.zero && r.p.carry == c.p.carry && r.p.decimal
                == c.p.decimal && r.p.interrupt_disable == c.p.interrupt_disable && r.p.negative
                == c.p.negative
            &&& (m == Mnemonic::SEC || m == Mnemonic::CLC || m == Mnemonic::SED || m == Mnemonic::CLD
                || m == Mnemonic::SEI || m == Mnemonic::CLI || m == Mnemonic::CLV) ==> r.a == c.a
                && r.x == c.x && r.y == c.y && r.sp == c.sp && r.pc == c.pc && r.state == c.state
        }),
{
    reveal(flag_spec);
}

/// The stack, jump, interrupt and store instructions: PHA pushes A; PHP pushes
/// a byte that loads back every flag and has bits 4 and 5 set; PLA loads the
/// pulled byte into A, PLP each flag from its bit; JMP loads PC with the
/// address; JSR pushes the address of its last byte (PC - 1); RTS first pulls,
/// then jumps to the pulled address plus one; RTI first pulls; BRK advances PC
/// and pushes it, then pushes the status with bit 4 set, then reads its vector
/// at 0xFFFE; a store writes its register to its address (the two operand
/// bytes, low first, for absolute addressing; the operand byte for zero page);
/// HTL halts; NOP and unknown names change nothing.
#[verifier::spinoff_prover]
pub proof fn lemma_control_instructions(ins: InstructionView, c: CpuView)
    requires
        execute_safe(ins, c),
    ensures
        ({
            let r = execute_spec(ins, c);
            let m = spec_mnemonic(ins.name);
            let v = ins.value;
            let pushed = match r.state {
                CPUState::Pushing { value } => value,
                _ => 0,
            };
            let written = match r.state {
                CPUState::PendingWrite { address, value } => (address, value),
                _ => (0, 0),
            };
            let absolute = 256 * v + c.lo;
            &&& m == Mnemonic::HTL ==> r.state == CPUState::Halted
            &&& m == Mnemonic::PHA ==> r.state == (CPUState::Pushing { value: c.a })
            &&& m == Mnemonic::PHP ==> r.state is Pushing && flags_of_byte(pushed) == c.p && bit(
                pushed,
                4,
            ) && bit(pushed, 5)
            &&& m == Mnemonic::PLA ==> r.a == v && r.p.zero == (v == 0) && r.p.negative == (v >= 128)
            &&& m == Mnemonic::PLP ==> r.p.carry == bit(v, 0) && r.p.zero == bit(v, 1)
                && r.p.interrupt_disable == bit(v, 2) && r.p.decimal == bit(v, 3) && r.p.overflow
                == bit(v, 6) && r.p.negative == bit(v, 7)
            &&& m == Mnemonic::JMP ==> r.pc == ins.address
            &&& m == Mnemonic::JSR ==> (r.state matches CPUState::Pushing16 { value } && (value + 1)
                % 0x10000 == c.pc)
            &&& m == Mnemonic::RTS && !c.lo_set ==> r.state == CPUState::Pulling16 && r.lo_set
            &&& m == Mnemonic::RTS && c.lo_set ==> r.pc == absolute + 1 && !r.lo_set
            &&& m == Mnemonic::RTI && v == 0 ==> r.state == CPUState::Pulling
            &&& m == Mnemonic::BRK && v == 0 ==> r.pc == (c.pc + 1) % 0x10000 && r.state == (
            CPUState::Pushing16 { value: r.pc }) && r.instruction.value == 1
            &&& m == Mnemonic::BRK && v == 1 ==> r.state is Pushing && flags_of_byte(pushed) == c.p
                && bit(pushed, 4) && bit(pushed, 5) && r.instruction.value == 2
            &&& m == Mnemonic::BRK && v >= 2 ==> r.state == (CPUState::PendingRead16 { address: 0xFFFE })
            &&& (m == Mnemonic::STA || m == Mnemonic::STX || m == Mnemonic::STY) ==> {
                &&& r.state is PendingWrite
                &&& written.1 == (if m == Mnemonic::STA { c.a } else if m == Mnemonic::STX { c.x } else { c.y })
                &&& ins.mode == AddressingMode::Absolute ==> written.0 == absolute
                &&& ins.mode == AddressingMode::ZeroPage ==> written.0 == v
                &&& (ins.mode == AddressingMode::ZeroPageX || ins.mode == AddressingMode::ZeroPageY
                    || ins.mode == AddressingMode::AbsoluteX || ins.mode == AddressingMode::AbsoluteY
                    || ins.mode == AddressingMode::XIndirect || ins.mode == AddressingMode::IndirectY)
                    ==> written.0 == ins.address
            }
            &&& (m == Mnemonic::NOP || m == Mnemonic::Other) ==> r == c
        }),
{
    reveal(control_spec);
    let m = spec_mnemonic(ins.name);
    let v = ins.value;
    if m == Mnemonic::PHP || (m == Mnemonic::BRK && v == 1) {
        lemma_plp_restores_php(c);
        lemma_status_byte_break_bits(c.p);
        let b = (status_byte(c.p) + 0x10) as u8;
        let sb = status_byte(c.p) as u8;
        assert(((b >> 4u8) & 1u8 == 1u8) && ((b >> 5u8) & 1u8 == 1u8)) by (bit_vector)
            requires
                b == sb | 0x10u8,
                sb | 0x30u8 == sb | 0x10u8,
        ;
    }
    if m == Mnemonic::PLP {
        assert(((v & 0x01) != 0) == ((v >> 0u8) & 1u8 == 1u8) && ((v & 0x02) != 0) == ((v >> 1u8) & 1u8
            == 1u8) && ((v & 0x04) != 0) == ((v >> 2u8) & 1u8 == 1u8) && ((v & 0x08) != 0) == ((v
            >> 3u8) & 1u8 == 1u8) && ((v & 0x40) != 0) == ((v >> 6u8) & 1u8 == 1u8) && ((v & 0x80)
            != 0) == ((v >> 7u8) & 1u8 == 1u8)) by (bit_vector);
    }
}

/// Whether running `ins` on `c` stays within the CPU's arithmetic: the one
/// case that does not is the return address of RTS at 0xFFFF, whose successor
/// does not fit in 16 bits.
pub open spec fn execute_safe(ins: InstructionView, c: CpuView) -> bool {
    spec_mnemonic(ins.name) == Mnemonic::RTS && c.lo_set ==> word(ins.value, c.lo) < 0xFFFF
}

/// Runs `instruction` on `cpu` (the operand fetches and bus cycles around it
/// are the emulator's): updates registers and flags, or moves the CPU into the
/// state that carries out the instruction's memory and stack cycles.
#[verifier::spinoff_prover]
pub fn execute_instruction(instruction: Instruction, cpu: &mut CPU)
    requires
        execute_safe(instruction@, old(cpu)@),
    ensures
        final(cpu)@ == execute_spec(instruction@, old(cpu)@),
{
    let m = mnemonic_of(instruction.name.as_str());
    match m {
        Mnemonic::ADC | Mnemonic::SBC | Mnemonic::AND | Mnemonic::ORA | Mnemonic::EOR | Mnemonic::CMP | Mnemonic::CPX | Mnemonic::CPY | Mnemonic::BIT => execute_arithmetic(instruction, cpu, m),
        Mnemonic::ASL | Mnemonic::LSR | Mnemonic::ROL | Mnemonic::ROR | Mnemonic::INC | Mnemonic::DEC => execute_read_modify_write(instruction, cpu, m),
        Mnemonic::BPL | Mnemonic::BMI | Mnemonic::BVC | Mnemonic::BVS | Mnemonic::BCC | Mnemonic::BCS | Mnemonic::BNE | Mnemonic::BEQ => execute_branch(instruction, cpu, m),
        Mnemonic::CLC | Mnemonic::CLD | Mnemonic::CLI | Mnemonic::CLV | Mnemonic::SEC | Mnemonic::SED | Mnemonic::SEI => execute_flag(instruction, cpu, m),
        Mnemonic::LDA | Mnemonic::LDX | Mnemonic::LDY | Mnemonic::TAX | Mnemonic::TAY | Mnemonic::TSX | Mnemonic::TXA | Mnemonic::TXS | Mnemonic::TYA | Mnemonic::INX | Mnemonic::INY | Mnemonic::DEX | Mnemonic::DEY => execute_transfer(instruction, cpu, m),
        Mnemonic::HTL | Mnemonic::BRK | Mnemonic::JMP | Mnemonic::JSR | Mnemonic::RTI | Mnemonic::RTS | Mnemonic::PHA | Mnemonic::PHP | Mnemonic::PLA | Mnemonic::PLP | Mnemonic::STA | Mnemonic::STX | Mnemonic::STY | Mnemonic::NOP | Mnemonic::Other => execute_control(instruction, cpu, m),
    }
}

/// Runs `instruction`, an arithmetic, logic or compare instruction, on `cpu`.
#[verifier::spinoff_prover]
fn execute_arithmetic(instruction: Instruction, cpu: &mut CPU, m: Mnemonic)
    requires
        m == Mnemonic::ADC || m == Mnemonic::SBC || m == Mnemonic::AND || m == Mnemonic::ORA || m == Mnemonic::EOR || m == Mnemonic::CMP || m == Mnemonic::CPX || m == Mnemonic::CPY || m == Mnemonic::BIT,
    ensures
        final(cpu)@ == arithmetic_spec(m, instruction@, old(cpu)@),
{
    reveal(arithmetic_spec);
    let v = instruction.value;
    match m {
        Mnemonic::ADC => add_with_carry(v, cpu),
        Mnemonic::SBC => subtract_with_borrow(v, cpu),
        Mnemonic::AND => {
            cpu.a = cpu.a & v;
            update_zero_and_negative(cpu.a, cpu);
        },
        Mnemonic::ORA => {
            cpu.a = cpu.a | v;
            update_zero_and_negative(cpu.a, cpu);
        },
        Mnemonic::EOR => {
            cpu.a = cpu.a ^ v;
            update_zero_and_negative(cpu.a, cpu);
        },
        Mnemonic::CMP => {
            let reg = cpu.a;
            compare_register(reg, v, cpu);
        },
        Mnemonic::CPX => {
            let reg = cpu.x;
            compare_register(reg, v, cpu);
        },
        Mnemonic::CPY => {
            let reg = cpu.y;
            compare_register(reg, v, cpu);
        },
        Mnemonic::BIT => {
            cpu.p.zero = (cpu.a & v) == 0;
            cpu.p.negative = (v & 0x80) != 0;
            cpu.p.overflow = (v & 0x40) != 0;
        },
        _ => {},
    }
}

/// Runs `instruction`, a shift, rotate, increment or decrement, on `cpu`.
#[verifier::spinoff_prover]
fn execute_read_modify_write(instruction: Instruction, cpu: &mut CPU, m: Mnemonic)
    requires
        m == Mnemonic::ASL || m == Mnemonic::LSR || m == Mnemonic::ROL || m == Mnemonic::ROR || m == Mnemonic::INC || m == Mnemonic::DEC,
    ensures
        final(cpu)@ == read_modify_write_spec(m, instruction@, old(cpu)@),
{
    reveal(read_modify_write_spec);
    let v = instruction.value;
    let implied = instruction.mode == AddressingMode::Implied;
    match m {
        Mnemonic::ASL => {
            if implied {
                cpu.p.carry = cpu.a > 127;
                cpu.a = shift_left(cpu.a);
                update_zero_and_negative(cpu.a, cpu);
            } else {
                cpu.p.carry = v > 127;
                let result = shift_left(v);
                cpu.state = CPUState::PendingModify {
                    address: instruction.address,
                    original: v,
                    value: result,
                };
                update_zero_and_negative(result, cpu);
            }
        },
        Mnemonic::LSR => {
            if implied {
                cpu.p.carry = low_bit(cpu.a);
                cpu.a = shift_right(cpu.a);
                update_zero_and_negative(cpu.a, cpu);
            } else {
                cpu.p.carry = low_bit(v);
                let result = shift_right(v);
                cpu.state = CPUState::PendingModify {
                    address: instruction.address,
                    original: v,
                    value: result,
                };
                update_zero_and_negative(result, cpu);
            }
        },
        Mnemonic::ROL => {
            let old_carry: u8 = if cpu.p.carry { 1 } else { 0 };
            if implied {
                cpu.p.carry = cpu.a > 127;
                cpu.a = shift_left(cpu.a).wrapping_add(old_carry);
                update_zero_and_negative(cpu.a, cpu);
            } else {
                cpu.p.carry = v > 127;
                let result = shift_left(v) + old_carry;
                cpu.state = CPUState::PendingModify {
                    address: instruction.address,
                    original: v,
                    value: result,
                };
                update_zero_and_negative(result, cpu);
            }
        },
        Mnemonic::ROR => {
            let old_carry: u8 = if cpu.p.carry { 128 } else { 0 };
            if implied {
                cpu.p.carry = low_bit(cpu.a);
                cpu.a = shift_right(cpu.a);
                cpu.a = cpu.a + old_carry;
                update_zero_and_negative(cpu.a, cpu);
            } else {
                cpu.p.carry = low_bit(v);
                let result = shift_right(v) + old_carry;
                cpu.state = CPUState::PendingModify {
                    address: instruction.address,
                    original: v,
                    value: result,
                };
                update_zero_and_negative(result, cpu);
            }
        },
        Mnemonic::INC => {
            let result = v.wrapping_add(1);
            cpu.state = CPUState::PendingModify {
                address: instruction.address,
                original: v,
                value: result,
            };
            update_zero_and_negative(result, cpu);
        },
        Mnemonic::DEC => {
            let result = v.wrapping_sub(1);
            cpu.state = CPUState::PendingModify {
                address: instruction.address,
                original: v,
                value: result,
            };
            update_zero_and_negative(result, cpu);
        },
        _ => {},
    }
}

/// Runs `instruction`, a conditional branch, on `cpu`.
#[verifier::spinoff_prover]
fn execute_branch(instruction: Instruction, cpu: &mut CPU, m: Mnemonic)
    requires
        m == Mnemonic::BPL || m == Mnemonic::BMI || m == Mnemonic::BVC || m == Mnemonic::BVS || m == Mnemonic::BCC || m == Mnemonic::BCS || m == Mnemonic::BNE || m == Mnemonic::BEQ,
    ensures
        final(cpu)@ == branch_spec(m, instruction@, old(cpu)@),
{
    reveal(branch_spec);
    let v = instruction.value;
    match m {
        Mnemonic::BPL => {
            if !cpu.p.negative {
                cpu.state = CPUState::Jumping { address: offset_jump(v, cpu), penalty: false };
            }
        },
        Mnemonic::BMI => {
            if cpu.p.negative {
                cpu.state = CPUState::Jumping { address: offset_jump(v, cpu), penalty: false };
            }
        },
        Mnemonic::BVC => {
            if !cpu.p.overflow {
                cpu.state = CPUState::Jumping { address: offset_jump(v, cpu), penalty: false };
            }
        },
        Mnemonic::BVS => {
            if cpu.p.overflow {
                cpu.state = CPUState::Jumping { address: offset_jump(v, cpu), penalty: false };
            }
        },
        Mnemonic::BCC => {
            if !cpu.p.carry {
                cpu.state = CPUState::Jumping { address: offset_jump(v, cpu), penalty: false };
            }
        },
        Mnemonic::BCS => {
            if cpu.p.carry {
                cpu.state = CPUState::Jumping { address: offset_jump(v, cpu), penalty: false };
            }
        },
        Mnemonic::BNE => {
            if !cpu.p.zero {
                cpu.state = CPUState::Jumping { address: offset_jump(v, cpu), penalty: false };
            }
        },
        Mnemonic::BEQ => {
            if cpu.p.zero {
                cpu.state = CPUState::Jumping { address: offset_jump(v, cpu), penalty: false };
            }
        },
        _ => {},
    }
}

/// Runs `instruction`, a flag set or clear, on `cpu`.
#[verifier::spinoff_prover]
fn execute_flag(instruction: Instruction, cpu: &mut CPU, m: Mnemonic)
    requires
        m == Mnemonic::CLC || m == Mnemonic::CLD || m == Mnemonic::CLI || m == Mnemonic::CLV || m == Mnemonic::SEC || m == Mnemonic::SED || m == Mnemonic::SEI,
    ensures
        final(cpu)@ == flag_spec(m, instruction@, old(cpu)@),
{
    reveal(flag_spec);
    match m {
        Mnemonic::CLC => {
            cpu.p.carry = false;
        },
        Mnemonic::CLD => {
            cpu.p.decimal = false;
        },
        Mnemonic::CLI => {
            cpu.p.interrupt_disable = false;
        },
        Mnemonic::CLV => {
            cpu.p.overflow = false;
        },
        Mnemonic::SEC => {
            cpu.p.carry = true;
        },
        Mnemonic::SED => {
            cpu.p.decimal = true;
        },
        Mnemonic::SEI => {
            cpu.p.interrupt_disable = true;
        },
        _ => {},
    }
}

/// Runs `instruction`, a register load, transfer, increment or decrement, on `cpu`.
#[verifier::spinoff_prover]
fn execute_transfer(instruction: Instruction, cpu: &mut CPU, m: Mnemonic)
    requires
        m == Mnemonic::LDA || m == Mnemonic::LDX || m == Mnemonic::LDY || m == Mnemonic::TAX || m == Mnemonic::TAY || m == Mnemonic::TSX || m == Mnemonic::TXA || m == Mnemonic::TXS || m == Mnemonic::TYA || m == Mnemonic::INX || m == Mnemonic::INY || m == Mnemonic::DEX || m == Mnemonic::DEY,
    ensures
        final(cpu)@ == transfer_spec(m, instruction@, old(cpu)@),
{
    reveal(transfer_spec);
    let v = instruction.value;
    match m {
        Mnemonic::LDA => {
            cpu.a = v;
            update_zero_and_negative(cpu.a, cpu);
        },
        Mnemonic::LDX => {
            cpu.x = v;
            update_zero_and_negative(cpu.x, cpu);
        },
        Mnemonic::LDY => {
            cpu.y = v;
            update_zero_and_negative(cpu.y, cpu);
        },
        Mnemonic::TAX => {
            cpu.x = cpu.a;
            update_zero_and_negative(cpu.x, cpu);
        },
        Mnemonic::TAY => {
            cpu.y = cpu.a;
            update_zero_and_negative(cpu.a, cpu);
        },
        Mnemonic::TSX => {
            cpu.x = cpu.sp;
            update_zero_and_negative(cpu.x, cpu);
        },
        Mnemonic::TXA => {
            cpu.a = cpu.x;
            update_zero_and_negative(cpu.a, cpu);
        },
        Mnemonic::TXS => {
            cpu.sp = cpu.x;
        },
        Mnemonic::TYA => {
            cpu.a = cpu.y;
            update_zero_and_negative(cpu.a, cpu);
        },
        Mnemonic::INX => {
            cpu.x = cpu.x.wrapping_add(1);
            update_zero_and_negative(cpu.x, cpu);
        },
        Mnemonic::INY => {
            cpu.y = cpu.y.wrapping_add(1);
            update_zero_and_negative(cpu.y, cpu);
        },
        Mnemonic::DEX => {
            cpu.x = cpu.x.wrapping_sub(1);
            update_zero_and_negative(cpu.x, cpu);
        },
        Mnemonic::DEY => {
            cpu.y = cpu.y.wrapping_sub(1);
            update_zero_and_negative(cpu.y, cpu);
        },
        _ => {},
    }
}

/// Runs `instruction`, a halt, jump, interrupt, stack or store instruction, or one that does nothing, on `cpu`.
#[verifier::spinoff_prover]
fn execute_control(instruction: Instruction, cpu: &mut CPU, m: Mnemonic)
    requires
        m == Mnemonic::HTL || m == Mnemonic::BRK || m == Mnemonic::JMP || m == Mnemonic::JSR || m == Mnemonic::RTI || m == Mnemonic::RTS || m == Mnemonic::PHA || m == Mnemonic::PHP || m == Mnemonic::PLA || m == Mnemonic::PLP || m == Mnemonic::STA || m == Mnemonic::STX || m == Mnemonic::STY || m == Mnemonic::NOP || m == Mnemonic::Other,
        m == spec_mnemonic(instruction.name@),
        execute_safe(instruction@, old(cpu)@),
    ensures
        final(cpu)@ == control_spec(m, instruction@, old(cpu)@),
{
    reveal(control_spec);
    let v = instruction.value;
    match m {
        Mnemonic::HTL => {
            cpu.state = CPUState::Halted;
        },
        Mnemonic::BRK => {
            if v == 0 {
                cpu.pc = cpu.pc.wrapping_add(1);
                cpu.state = CPUState::Pushing16 { value: cpu.pc };
                cpu.instruction.value = 1;
            } else if v == 1 {
                proof {
                    lemma_status_byte_break_bits(cpu.p);
                }
                cpu.state = CPUState::Pushing { value: cpu.p.get() | 0x10 };
                cpu.instruction.value = 2;
            } else {
                cpu.state = CPUState::PendingRead16 { address: 0xFFFE };
            }
        },
        Mnemonic::JMP => {
            cpu.pc = instruction.address;
        },
        Mnemonic::JSR => {
            cpu.state = CPUState::Pushing16 { value: cpu.pc.wrapping_sub(1) };
        },
        Mnemonic::RTI => {
            if v == 0 {
                cpu.state = CPUState::Pulling;
            }
        },
        Mnemonic::RTS => {
            if !cpu.lo_set {
                cpu.state = CPUState::Pulling16;
                cpu.lo_set = true;
            } else {
                cpu.pc = join_bytes(v, cpu.lo) + 1;
                cpu.lo_set = false;
            }
        },
        Mnemonic::PHA => {
            cpu.state = CPUState::Pushing { value: cpu.a };
        },
        Mnemonic::PHP => {
            proof {
                lemma_status_byte_break_bits(cpu.p);
            }
            cpu.state = CPUState::Pushing { value: cpu.p.get() | 0x30 };
        },
        Mnemonic::PLA => {
            cpu.a = v;
            update_zero_and_negative(cpu.a, cpu);
        },
        Mnemonic::PLP => {
            cpu.p.set(v);
        },
        Mnemonic::STA => {
            cpu.state = CPUState::PendingWrite {
                address: build_address(instruction.clone(), cpu),
                value: cpu.a,
            };
        },
        Mnemonic::STX => {
            cpu.state = CPUState::PendingWrite {
                address: build_address(instruction.clone(), cpu),
                value: cpu.x,
            };
        },
        Mnemonic::STY => {
            cpu.state = CPUState::PendingWrite {
                address: build_address(instruction.clone(), cpu),
                value: cpu.y,
            };
        },
        Mnemonic::NOP => {},
        Mnemonic::Other => {},
        _ => {},
    }
}

/// CMP, CPX, CPY: compares the register value `reg` with `v`.
fn compare_register(reg: u8, v: u8, cpu: &mut CPU)
    ensures
        final(cpu)@ == compare(old(cpu)@, reg, v),
{
    cpu.p.carry = v <= reg;
    cpu.p.zero = v == reg;
    cpu.p.negative = reg.wrapping_sub(v) > 127;
}

/// ADC: adds `v` and the carry to A.
fn add_with_carry(v: u8, cpu: &mut CPU)
    ensures
        final(cpu)@ == adc(old(cpu)@, v),
{
    let result: u16 = cpu.a as u16 + v as u16 + if cpu.p.carry { 1 } else { 0 };
    cpu.p.overflow = (cpu.a > 127) == (v > 127) && (cpu.a > 127) != (result % 256 > 127);
    cpu.p.carry = result > 0xFF;
    cpu.a = (result % 256) as u8;
    update_zero_and_negative(cpu.a, cpu);
}

/// SBC: subtracts `v` and the borrow from A.
fn subtract_with_borrow(v: u8, cpu: &mut CPU)
    ensures
        final(cpu)@ == sbc(old(cpu)@, v),
{
    let borrow: i16 = if cpu.p.carry { 0 } else { 1 };
    let a16 = cpu.a as i16;
    let v16 = v as i16;
    let result: i16 = a16 - v16 - borrow;
    let overflow = ((a16 ^ v16) & (a16 ^ result) & 0x80) != 0;
    let low = low_byte_of_difference(result);
    proof {
        let r8 = low;
        assert(overflow == ((a16 >= 128) != (v16 >= 128) && (a16 >= 128) != (r8 >= 128)))
            by (bit_vector)
            requires
                0 <= a16 <= 255,
                0 <= v16 <= 255,
                0 <= borrow <= 1,
                result == a16 - v16 - borrow,
                overflow == (((a16 ^ v16) & (a16 ^ result) & 0x80) != 0),
                r8 as i16 == (if result < 0 { (result + 256) as i16 } else { result }),
        ;
    }
    cpu.p.overflow = overflow;
    cpu.p.carry = result >= 0;
    cpu.a = low;
    update_zero_and_negative(cpu.a, cpu);
}

/// `v` shifted left by one bit, the top bit dropped.
fn shift_left(v: u8) -> (r: u8)
    ensures
        r == (v * 2) % 256,
        r % 2 == 0,
{
    let r = v << 1u8;
    assert(r == (v * 2) % 256 && r % 2 == 0) by (bit_vector)
        requires
            r == v << 1u8,
    ;
    r
}

/// Whether bit 0 of `v` is set.
fn low_bit(v: u8) -> (b: bool)
    ensures
        b == (v % 2 == 1),
{
    let b = v & 1 == 1;
    assert(b == (v % 2 == 1)) by (bit_vector)
        requires
            b == (v & 1 == 1),
    ;
    b
}

/// `v` shifted right by one bit.
fn shift_right(v: u8) -> (r: u8)
    ensures
        r == v / 2,
{
    let r = v >> 1u8;
    assert(r == v / 2) by (bit_vector)
        requires
            r == v >> 1u8,
    ;
    r
}

/// The 16-bit word whose high byte is `hi` and low byte is `lo`.
pub fn join_bytes(hi: u8, lo: u8) -> (r: u16)
    ensures
        r == word(hi, lo),
        r == 256 * hi + lo,
{
    let h = hi as u16;
    let l = lo as u16;
    assert((h << 8u16) == h * 256) by (bit_vector)
        requires
            h < 256,
    ;
    (h << 8u16) + l
}

/// The low byte of a difference between -256 and 255, that is the
/// difference modulo 256.
fn low_byte_of_difference(d: i16) -> (r: u8)
    requires
        -256 <= d <= 255,
    ensures
        r == d % 256,
        r as i16 == (if d < 0 { (d + 256) as i16 } else { d }),
{
    if d < 0 {
        (d + 256) as u8
    } else {
        d as u8
    }
}

/// The address that a store instruction writes to: the full operand word for
/// absolute addressing, the computed address for the indexed and indirect
/// modes, and the operand byte itself (a zero-page address) otherwise.
fn build_address(instruction: Instruction, cpu: &mut CPU) -> (r: u16)
    ensures
        r == store_address(instruction@, old(cpu)@),
        *final(cpu) == *old(cpu),
{
    if instruction.mode == AddressingMode::Absolute {
        join_bytes(instruction.value, cpu.lo)
    } else if instruction.mode == AddressingMode::AbsoluteX || instruction.mode
        == AddressingMode::AbsoluteY || instruction.mode == AddressingMode::ZeroPageX
        || instruction.mode == AddressingMode::ZeroPageY || instruction.mode
        == AddressingMode::XIndirect || instruction.mode == AddressingMode::IndirectY {
        instruction.address
    } else {
        instruction.value as u16
    }
}

/// The target of a relative branch by the signed byte `value` from the CPU's
/// program counter, wrapping around the address space.
fn offset_jump(value: u8, cpu: &mut CPU) -> (r: u16)
    ensures
        r == branch_target(old(cpu).pc, value),
        *final(cpu) == *old(cpu),
{
    if value > 127 {
        cpu.pc.wrapping_sub(256 - value as u16)
    } else {
        cpu.pc.wrapping_add(value as u16)
    }
}

/// Sets the zero and negative flags from `value`.
fn update_zero_and_negative(value: u8, cpu: &mut CPU)
    ensures
        final(cpu)@ == with_zn(old(cpu)@, value),
{
    cpu.p.zero = value == 0;
    cpu.p.negative = value > 127;
}

} // verus!
