use vstd::prelude::*;
use crate::cpu::cpu::{CPUState, CPU, CpuView, InstructionView, is_power_on};
use crate::cpu::flags_register::FlagsRegister;
use crate::cpu::instruction::{AddressingMode, Mnemonic, spec_mnemonic, mnemonic_of};
use crate::cpu::instruction_implementation::{
    execute_instruction,
    execute_spec,
    execute_safe,
    join_bytes,
    store_address,
    word,
};
use crate::cpu::instruction_table::{parse_instruction, opcode_operation, mnemonic_name, is_store};

verus! {

/// The number of CPU cycles that one video frame lasts, approximately.
pub const CYCLES_PER_FRAME: u32 = 29780;

/// The smallest cartridge image that can hold the iNES header and one
/// 16 KiB bank of program ROM.
pub const MIN_CARTRIDGE_LEN: usize = 16400;

/// The emulated machine: the CPU, 2 KiB of RAM mirrored over the first 8 KiB
/// of the address space, the cartridge ROM mapped from 0x8000, and the last
/// value seen on the data bus.
pub struct Emulator {
    pub last_text: String,
    pub cpu: CPU,
    ram: Vec<u8>,
    rom: Vec<u8>,
    mdr: u8,
    pub chrdata: Vec<u8>,
}

/// The emulator as the specifications see it.
pub ghost struct EmulatorState {
    pub last_text: Seq<char>,
    pub cpu: CpuView,
    pub ram: Seq<u8>,
    pub rom: Seq<u8>,
    pub mdr: u8,
    pub chrdata: Seq<u8>,
}

impl View for Emulator {
    type V = EmulatorState;

    closed spec fn view(&self) -> EmulatorState {
        EmulatorState {
            last_text: self.last_text@,
            cpu: self.cpu@,
            ram: self.ram@,
            rom: self.rom@,
            mdr: self.mdr,
            chrdata: self.chrdata@,
        }
    }
}

/// The emulator's own invariant: RAM is 2 KiB.
pub open spec fn wf(e: EmulatorState) -> bool {
    e.ram.len() == 0x800
}

/// Whether a read of `address` stays inside what is mapped: RAM and the open
/// bus always, the ROM window only as far as the cartridge ROM reaches.
pub open spec fn read_ok(e: EmulatorState, address: u16) -> bool {
    address >= 0x8000 ==> address - 0x8000 < e.rom.len()
}

/// The value a read of `address` gives: RAM (mirrored every 2 KiB) below
/// 0x2000, cartridge ROM from 0x8000, and in between the last value on the bus.
pub open spec fn bus_value(e: EmulatorState, address: u16) -> u8 {
    if address <= 0x1FFF {
        e.ram[address as int % 0x800]
    } else if address >= 0x8000 {
        e.rom[address - 0x8000]
    } else {
        e.mdr
    }
}

/// The emulator after a read of `address`: the value read stays on the bus.
pub open spec fn after_read(e: EmulatorState, address: u16) -> EmulatorState {
    EmulatorState { mdr: bus_value(e, address), ..e }
}

/// The emulator after writing `value` to `address`: RAM (mirrored) takes it
/// below 0x2000, every other address ignores it, and it stays on the bus.
pub open spec fn after_write(e: EmulatorState, address: u16, value: u8) -> EmulatorState {
    EmulatorState {
        mdr: value,
        ram: if address <= 0x1FFF {
            e.ram.update(address as int % 0x800, value)
        } else {
            e.ram
        },
        ..e
    }
}

/// `e` with the CPU `c`.
pub open spec fn with_cpu(e: EmulatorState, c: CpuView) -> EmulatorState {
    EmulatorState { cpu: c, ..e }
}

/// `c` in state `s`.
pub open spec fn in_state(c: CpuView, s: CPUState) -> CpuView {
    CpuView { state: s, ..c }
}

/// `a + k` in 16-bit arithmetic.
pub open spec fn add16(a: u16, k: int) -> u16 {
    ((a + k) % 0x10000) as u16
}

/// `a + k` in 8-bit arithmetic.
pub open spec fn add8(a: u8, k: int) -> u8 {
    ((a + k) % 0x100) as u8
}

/// The address of stack slot `sp`.
pub open spec fn stack_address(sp: u8) -> u16 {
    (0x100 + sp) as u16
}

/// Whether the operation of `c`'s instruction is `m`.
pub open spec fn running(c: CpuView, m: Mnemonic) -> bool {
    spec_mnemonic(c.instruction.name) == m
}

/// The instruction that the opcode `op` decodes to.
pub open spec fn decoded(op: u8) -> InstructionView {
    let (m, mode) = opcode_operation(op);
    InstructionView {
        opcode: op,
        name: mnemonic_name(m),
        mode,
        value: 0,
        address: 0,
        does_write: is_store(m),
    }
}

/// NeedInstruction: read the opcode at PC, decode it, and advance PC; the
/// next cycle fetches an operand, pulls from the stack (PLA, PLP) or runs the
/// instruction.
#[verifier::opaque]
pub open spec fn fetch_instruction_spec(e: EmulatorState) -> EmulatorState {
    let c = e.cpu;
    let op = bus_value(e, c.pc);
    let ins = decoded(op);
    let m = spec_mnemonic(ins.name);
    let s = if m == Mnemonic::PLA || m == Mnemonic::PLP {
        CPUState::Pulling
    } else if ins.mode != AddressingMode::Implied {
        CPUState::NeedOperand
    } else {
        CPUState::Ready
    };
    EmulatorState {
        mdr: op,
        cpu: CpuView { instruction: ins, state: s, pc: add16(c.pc, 1), ..c },
        ..e
    }
}

/// The operand fetch of NeedOperand, before PC advances: immediate and relative
/// operands are read and the instruction is ready; a zero-page address is read
/// and the instruction is ready (stores) or reads that address next; an
/// absolute address takes two cycles, low byte first, after which the
/// instruction is ready (stores, JMP) or reads that address next. Other modes
/// fetch nothing.
#[verifier::opaque]
pub open spec fn operand_fetched(e: EmulatorState) -> EmulatorState {
    let c = e.cpu;
    let ins = c.instruction;
    let b = bus_value(e, c.pc);
    let e1 = after_read(e, c.pc);
    match ins.mode {
        AddressingMode::Immediate | AddressingMode::Relative => with_cpu(
            e1,
            CpuView {
                instruction: InstructionView { value: b, ..ins },
                state: CPUState::Ready,
                ..c
            },
        ),
        AddressingMode::ZeroPage => if ins.does_write {
            with_cpu(
                e1,
                CpuView {
                    instruction: InstructionView { address: b as u16, value: b, ..ins },
                    state: CPUState::Ready,
                    ..c
                },
            )
        } else {
            with_cpu(
                e1,
                CpuView {
                    instruction: InstructionView { address: b as u16, ..ins },
                    state: CPUState::PendingRead { address: b as u16 },
                    ..c
                },
            )
        },
        AddressingMode::Absolute => if c.lo_set {
            let full = word(b, c.lo) as u16;
            let s = if ins.does_write || running(c, Mnemonic::JMP) {
                CPUState::Ready
            } else {
                CPUState::PendingRead { address: full }
            };
            with_cpu(
                e1,
                CpuView {
                    instruction: InstructionView { value: b, address: full, ..ins },
                    state: s,
                    lo_set: false,
                    ..c
                },
            )
        } else {
            with_cpu(e1, CpuView { lo: b, lo_set: true, ..c })
        },
        _ => e,
    }
}

/// Runs the instruction that `e`'s CPU holds; when it needs no further
/// cycles the CPU goes on to the next instruction.
#[verifier::opaque]
pub open spec fn execute_step(e: EmulatorState) -> EmulatorState {
    let c = execute_spec(e.cpu.instruction, e.cpu);
    if c.state == CPUState::Ready {
        with_cpu(e, in_state(c, CPUState::NeedInstruction))
    } else {
        with_cpu(e, c)
    }
}

/// NeedOperand: fetch the operand byte, advance PC, and run the instruction
/// at once if it became ready.
#[verifier::opaque]
pub open spec fn fetch_operand_spec(e: EmulatorState) -> EmulatorState {
    let e1 = operand_fetched(e);
    let e2 = with_cpu(e1, CpuView { pc: add16(e.cpu.pc, 1), ..e1.cpu });
    if e2.cpu.state == CPUState::Ready {
        execute_step(e2)
    } else {
        e2
    }
}

/// PendingRead: read the operand at `address` (for zero-page, absolute and
/// implied instructions); RTI then pulls the return address and jumps to it,
/// BRK jumps through the vector it has read.
#[verifier::opaque]
pub open spec fn complete_read_spec(e: EmulatorState, address: u16) -> EmulatorState {
    let c = e.cpu;
    let mode = c.instruction.mode;
    if mode == AddressingMode::ZeroPage || mode == AddressingMode::Absolute || mode
        == AddressingMode::Implied {
        let v = bus_value(e, address);
        let e1 = after_read(e, address);
        let c1 = CpuView {
            instruction: InstructionView { value: v, ..c.instruction },
            state: CPUState::Ready,
            ..c
        };
        if running(c, Mnemonic::RTI) {
            let sp1 = add8(c.sp, 1);
            let pc_lo = bus_value(e1, stack_address(sp1));
            let e2 = after_read(e1, stack_address(sp1));
            let sp2 = add8(sp1, 1);
            let pc_hi = bus_value(e2, stack_address(sp2));
            let e3 = after_read(e2, stack_address(sp2));
            with_cpu(
                e3,
                CpuView {
                    sp: sp2,
                    state: CPUState::Jumping { address: word(pc_hi, pc_lo) as u16, penalty: true },
                    ..c1
                },
            )
        } else if running(c, Mnemonic::BRK) {
            with_cpu(
                e1,
                in_state(c1, CPUState::Jumping { address: word(v, c.lo) as u16, penalty: true }),
            )
        } else {
            with_cpu(e1, c1)
        }
    } else {
        e
    }
}

/// Pushing: write `value` to the stack and move the stack pointer down; BRK
/// goes on to its next step, everything else to the next instruction; JSR
/// also loads PC.
#[verifier::opaque]
pub open spec fn push_spec(e: EmulatorState, value: u8) -> EmulatorState {
    let c = e.cpu;
    let e1 = after_write(e, stack_address(c.sp), value);
    let s = if running(c, Mnemonic::BRK) {
        CPUState::Ready
    } else {
        CPUState::NeedInstruction
    };
    let pc = if running(c, Mnemonic::JSR) {
        (c.instruction.value as u16) << ((8 + c.lo) as u16)
    } else {
        c.pc
    };
    with_cpu(e1, CpuView { sp: add8(c.sp, -1), state: s, pc, ..c })
}

/// PendingRead16: read the low byte of a vector at `address`; its high byte
/// is read next.
#[verifier::opaque]
pub open spec fn read16_spec(e: EmulatorState, address: u16) -> EmulatorState {
    with_cpu(
        after_read(e, address),
        CpuView {
            lo: bus_value(e, address),
            state: CPUState::PendingRead { address: add16(address, 1) },
            ..e.cpu
        },
    )
}

/// PendingWrite: write `value` to `address`; then the next instruction.
#[verifier::opaque]
pub open spec fn write_spec(e: EmulatorState, address: u16, value: u8) -> EmulatorState {
    with_cpu(after_write(e, address, value), in_state(e.cpu, CPUState::NeedInstruction))
}

/// PendingModify: write the original value back to `address`; the modified
/// value is written next.
#[verifier::opaque]
pub open spec fn modify_spec(e: EmulatorState, address: u16, original: u8, value: u8) -> EmulatorState {
    with_cpu(after_write(e, address, original), in_state(e.cpu, CPUState::PendingWrite { address, value }))
}

/// Jumping: a jump into another page than PC's takes one cycle more unless the
/// penalty is already paid; then PC takes the target.
#[verifier::opaque]
pub open spec fn jump_spec(e: EmulatorState, address: u16, penalty: bool) -> EmulatorState {
    if address / 256 != e.cpu.pc / 256 && !penalty {
        with_cpu(e, in_state(e.cpu, CPUState::Jumping { address, penalty: true }))
    } else {
        with_cpu(e, CpuView { pc: address, state: CPUState::NeedInstruction, ..e.cpu })
    }
}

/// Pushing16: write the high byte of `value` to the stack; the low byte is
/// pushed next.
#[verifier::opaque]
pub open spec fn push16_spec(e: EmulatorState, value: u16) -> EmulatorState {
    let c = e.cpu;
    with_cpu(
        after_write(e, stack_address(c.sp), (value / 256) as u8),
        CpuView {
            sp: add8(c.sp, -1),
            state: CPUState::Pushing { value: (value % 256) as u8 },
            ..c
        },
    )
}

/// Pulling: move the stack pointer up; the byte it points at is read next.
#[verifier::opaque]
pub open spec fn pull_spec(e: EmulatorState) -> EmulatorState {
    let c = e.cpu;
    with_cpu(
        e,
        CpuView {
            sp: add8(c.sp, 1),
            state: CPUState::PendingRead { address: stack_address(add8(c.sp, 1)) },
            ..c
        },
    )
}

/// Pulling16: move the stack pointer up and read the low byte of a return
/// address; the high byte is pulled next.
#[verifier::opaque]
pub open spec fn pull16_spec(e: EmulatorState) -> EmulatorState {
    let c = e.cpu;
    let sp1 = add8(c.sp, 1);
    with_cpu(
        after_read(e, stack_address(sp1)),
        CpuView { sp: sp1, lo: bus_value(e, stack_address(sp1)), state: CPUState::Pulling, ..c },
    )
}

/// What one CPU cycle does to the emulator.
pub open spec fn cycle(e: EmulatorState) -> EmulatorState {
    match e.cpu.state {
        CPUState::Halted => e,
        CPUState::NeedInstruction => fetch_instruction_spec(e),
        CPUState::NeedOperand => fetch_operand_spec(e),
        CPUState::PendingRead { address } => complete_read_spec(e, address),
        CPUState::PendingRead16 { address } => read16_spec(e, address),
        CPUState::PendingWrite { address, value } => write_spec(e, address, value),
        CPUState::PendingModify { address, original, value } => modify_spec(
            e,
            address,
            original,
            value,
        ),
        CPUState::Ready => execute_step(e),
        CPUState::Jumping { address, penalty } => jump_spec(e, address, penalty),
        CPUState::Pushing { value } => push_spec(e, value),
        CPUState::Pushing16 { value } => push16_spec(e, value),
        CPUState::Pulling => pull_spec(e),
        CPUState::Pulling16 => pull16_spec(e),
    }
}

/// Whether one CPU cycle from `e` stays within what the machine defines: every
/// read it makes is mapped, the instruction it runs keeps its arithmetic in
/// range, and the jump target of JSR is shifted by less than 16 bits.
pub open spec fn cycle_safe(e: EmulatorState) -> bool {
    let c = e.cpu;
    let mode = c.instruction.mode;
    match c.state {
        CPUState::NeedInstruction => read_ok(e, c.pc),
        CPUState::NeedOperand => {
            let e1 = operand_fetched(e);
            &&& (mode == AddressingMode::Immediate || mode == AddressingMode::Relative || mode
                == AddressingMode::ZeroPage || mode == AddressingMode::Absolute) ==> read_ok(
                e,
                c.pc,
            )
            &&& e1.cpu.state == CPUState::Ready ==> execute_safe(e1.cpu.instruction, e1.cpu)
        },
        CPUState::PendingRead { address } => (mode == AddressingMode::ZeroPage || mode
            == AddressingMode::Absolute || mode == AddressingMode::Implied) ==> read_ok(e, address),
        CPUState::PendingRead16 { address } => read_ok(e, address),
        CPUState::Ready => execute_safe(c.instruction, c),
        CPUState::Pushing { .. } => running(c, Mnemonic::JSR) ==> c.lo < 8,
        _ => true,
    }
}

/// `e` after up to `n` cycles, stopping early once the CPU halts.
pub open spec fn run(e: EmulatorState, n: nat) -> EmulatorState
    decreases n,
{
    if n == 0 || e.cpu.state == CPUState::Halted {
        e
    } else {
        run(cycle(e), (n - 1) as nat)
    }
}

/// Whether every cycle of `run(e, n)` is safe.
pub open spec fn run_safe(e: EmulatorState, n: nat) -> bool
    decreases n,
{
    n == 0 || e.cpu.state == CPUState::Halted || (cycle_safe(e) && run_safe(cycle(e), (n - 1) as nat))
}

/// Up to `n` cycles from `e` as far as they are safe: the state reached and
/// whether the run completed (true) or stopped before an unsafe cycle (false).
pub open spec fn run_checked(e: EmulatorState, n: nat) -> (EmulatorState, bool)
    decreases n,
{
    if n == 0 || e.cpu.state == CPUState::Halted {
        (e, true)
    } else if !cycle_safe(e) {
        (e, false)
    } else {
        run_checked(cycle(e), (n - 1) as nat)
    }
}

/// The hexadecimal digit for `d`, lowercase.
pub open spec fn hex_char(d: nat) -> char {
    if d < 10 {
        (48 + d) as char
    } else {
        (87 + d) as char
    }
}

/// `n` in lowercase hexadecimal, without leading zeros.
pub open spec fn hex_digits(n: nat) -> Seq<char>
    decreases n,
{
    if n < 16 {
        seq![hex_char(n)]
    } else {
        hex_digits(n / 16).push(hex_char(n % 16))
    }
}

/// Formats `value` with std's `{:x}`.
///
/// Trusted: claims that `format!("{:x}", value)` is `value` in lowercase
/// hexadecimal digits without leading zeros, as std's `LowerHex` documents.
#[verifier::external_body]
pub(crate) fn lower_hex(value: u16) -> (s: String)
    ensures
        s@ == hex_digits(value as nat),
{
    format!("{:x}", value)
}

/// Whether `bytes` starts with the iNES magic number "NES" followed by 0x1A.
pub open spec fn has_nes_magic(bytes: Seq<u8>) -> bool {
    bytes[0] == 0x4E && bytes[1] == 0x45 && bytes[2] == 0x53 && bytes[3] == 0x1A
}

/// `e` after a reset: PC loaded from the reset vector at 0xFFFC (low byte) and
/// 0xFFFD (high byte), the CPU fetching its next instruction with interrupts
/// disabled and the stack pointer at 0xFD, and a message naming the new PC.
pub open spec fn reset_spec(e: EmulatorState) -> EmulatorState {
    let pcl = e.rom[0x7FFC];
    let pch = e.rom[0x7FFD];
    let pc = word(pch, pcl) as u16;
    EmulatorState {
        mdr: pch,
        cpu: CpuView {
            pc,
            state: CPUState::NeedInstruction,
            p: FlagsRegister { interrupt_disable: true, ..e.cpu.p },
            sp: 0xFD,
            ..e.cpu
        },
        last_text: "Resetting PC to "@ + hex_digits(pc as nat),
        ..e
    }
}

/// `e` after loading the cartridge image `bytes`: an image shorter than a
/// header and one program bank, or one without the iNES magic number, only
/// sets a message; otherwise everything after the 16-byte header becomes the
/// ROM and the emulator resets.
pub open spec fn load_cartridge_spec(e: EmulatorState, bytes: Seq<u8>) -> EmulatorState {
    if bytes.len() < MIN_CARTRIDGE_LEN {
        EmulatorState { last_text: "ROM too small, corruption occurred."@, ..e }
    } else if !has_nes_magic(bytes) {
        EmulatorState { last_text: "Missing magic number, not a .nes file?"@, ..e }
    } else {
        reset_spec(EmulatorState { rom: bytes.subrange(16, bytes.len() as int), ..e })
    }
}

/// Whether loading `bytes` stays within the ROM that it maps: an image that
/// is accepted must reach the reset vector at 0xFFFC-0xFFFD.
pub open spec fn load_cartridge_ok(bytes: Seq<u8>) -> bool {
    bytes.len() >= MIN_CARTRIDGE_LEN && has_nes_magic(bytes) ==> bytes.len() >= 16 + 0x7FFE
}

/// The RAM cell `i` that one cycle in state `s`, with stack pointer `sp`, may
/// write: the stack slot for a push, the target (mirrored) of a pending write
/// or read-modify-write below 0x2000, nothing otherwise.
pub open spec fn cycle_may_write(s: CPUState, sp: u8, i: int) -> bool {
    match s {
        CPUState::Pushing { .. } | CPUState::Pushing16 { .. } => i == stack_address(sp) as int,
        CPUState::PendingWrite { address, .. } => address <= 0x1FFF && i == address as int % 0x800,
        CPUState::PendingModify { address, .. } => address <= 0x1FFF && i == address as int
            % 0x800,
        _ => false,
    }
}

/// What one cycle leaves alone: a halted emulator entirely; in every state the
/// ROM, the pattern data, the message, the RAM size, and every RAM cell but the
/// one the state may write.
#[verifier::spinoff_prover]
pub proof fn lemma_cycle_frame(e: EmulatorState)
    requires
        wf(e),
    ensures
        e.cpu.state == CPUState::Halted ==> cycle(e) == e,
        wf(cycle(e)),
        cycle(e).rom == e.rom,
        cycle(e).chrdata == e.chrdata,
        cycle(e).last_text == e.last_text,
        forall|i: int|
            0 <= i < 0x800 && !cycle_may_write(e.cpu.state, e.cpu.sp, i) ==> #[trigger] cycle(
                e,
            ).ram[i] == e.ram[i],
{
    reveal(fetch_instruction_spec);
    reveal(fetch_operand_spec);
    reveal(operand_fetched);
    reveal(execute_step);
    reveal(complete_read_spec);
    reveal(read16_spec);
    reveal(write_spec);
    reveal(modify_spec);
    reveal(jump_spec);
    reveal(push_spec);
    reveal(push16_spec);
    reveal(pull_spec);
    reveal(pull16_spec);
}

/// `e` after exactly `k` cycles.
pub open spec fn iterate(e: EmulatorState, k: nat) -> EmulatorState
    decreases k,
{
    if k == 0 {
        e
    } else {
        iterate(cycle(e), (k - 1) as nat)
    }
}

/// A run of `n` cycles ends in the state after the first `k` cycles, where `k`
/// is the first count at which the CPU is halted, or `n` if it never halts
/// before.
pub proof fn lemma_run_stops_at_first_halt(e: EmulatorState, n: nat, k: nat)
    requires
        k <= n,
        forall|j: nat| j < k ==> (#[trigger] iterate(e, j)).cpu.state != CPUState::Halted,
        k == n || iterate(e, k).cpu.state == CPUState::Halted,
    ensures
        run(e, n) == iterate(e, k),
    decreases k,
{
    if k > 0 {
        assert(iterate(e, 0).cpu.state != CPUState::Halted);
        assert forall|j: nat| j < (k - 1) as nat implies (#[trigger] iterate(cycle(e), j)).cpu.state
            != CPUState::Halted by {
            assert(iterate(e, j + 1) == iterate(cycle(e), j));
        }
        lemma_run_stops_at_first_halt(cycle(e), (n - 1) as nat, (k - 1) as nat);
    }
}

/// An absolute-addressed instruction that reads memory (neither a store nor
/// JMP) reads, after its two operand bytes, the address whose low byte came
/// first and high byte second; the instruction holds that address, and a store
/// with the same operand bytes writes to it.
#[verifier::spinoff_prover]
pub proof fn lemma_absolute_read_address(e: EmulatorState)
    requires
        e.cpu.state == CPUState::NeedOperand,
        e.cpu.instruction.mode == AddressingMode::Absolute,
        !e.cpu.lo_set,
        !e.cpu.instruction.does_write,
        !running(e.cpu, Mnemonic::JMP),
    ensures
        ({
            let lo = bus_value(e, e.cpu.pc);
            let e1 = cycle(e);
            let hi = bus_value(e1, e1.cpu.pc);
            let e2 = cycle(e1);
            &&& e1.cpu.pc == (e.cpu.pc + 1) % 0x10000
            &&& e1.cpu.state == CPUState::NeedOperand
            &&& e2.cpu.state == (CPUState::PendingRead { address: (256 * hi + lo) as u16 })
            &&& e2.cpu.instruction.address == 256 * hi + lo
            &&& e2.cpu.instruction.value == hi
            &&& store_address(e2.cpu.instruction, e2.cpu) == 256 * hi + lo
            &&& e2.cpu.pc == (e.cpu.pc + 2) % 0x10000
        }),
{
    reveal(fetch_operand_spec);
    reveal(operand_fetched);
    let e1 = cycle(e);
    assert(e1.cpu.lo == bus_value(e, e.cpu.pc) && e1.cpu.lo_set);
}

/// BRK ends by jumping through the vector at 0xFFFE/0xFFFF, low byte first:
/// two cycles after it starts reading the vector it jumps, and one cycle later
/// PC holds the word that the vector holds.
#[verifier::spinoff_prover]
pub proof fn lemma_brk_jumps_through_vector(e: EmulatorState)
    requires
        e.cpu.state == (CPUState::PendingRead16 { address: 0xFFFE }),
        running(e.cpu, Mnemonic::BRK),
        e.cpu.instruction.mode == AddressingMode::Implied,
        e.rom.len() >= 0x8000,
    ensures
        ({
            let target = 256 * e.rom[0x7FFF] + e.rom[0x7FFE];
            &&& cycle(cycle(e)).cpu.state == (CPUState::Jumping {
                address: target as u16,
                penalty: true,
            })
            &&& cycle(cycle(cycle(e))).cpu.pc == target
            &&& cycle(cycle(cycle(e))).cpu.state == CPUState::NeedInstruction
        }),
{
    reveal(read16_spec);
    reveal(complete_read_spec);
    reveal(jump_spec);
    let e1 = cycle(e);
    assert(e1.cpu.lo == e.rom[0x7FFE]);
    assert(e1.cpu.state == (CPUState::PendingRead { address: 0xFFFF }));
    assert(running(e1.cpu, Mnemonic::BRK));
    assert(!running(e1.cpu, Mnemonic::RTI));
}

/// Fetching an instruction reads the opcode at PC, holds it with no operand
/// yet, leaves it on the bus, advances PC by one (wrapping) and changes no
/// register, RAM or ROM.
#[verifier::spinoff_prover]
pub proof fn lemma_fetch_reads_opcode_at_pc(e: EmulatorState)
    requires
        e.cpu.state == CPUState::NeedInstruction,
    ensures
        ({
            let r = cycle(e);
            let op = bus_value(e, e.cpu.pc);
            &&& r.cpu.instruction.opcode == op
            &&& r.cpu.instruction.value == 0 && r.cpu.instruction.address == 0
            &&& r.mdr == op
            &&& r.cpu.pc == (e.cpu.pc + 1) % 0x10000
            &&& r.cpu.a == e.cpu.a && r.cpu.x == e.cpu.x && r.cpu.y == e.cpu.y && r.cpu.sp == e.cpu.sp
                && r.cpu.p == e.cpu.p
            &&& r.ram == e.ram && r.rom == e.rom
        }),
{
    reveal(fetch_instruction_spec);
}

/// An immediate LDA loads the byte after its opcode: the cycle that fetches the
/// operand at PC also runs the load.
#[verifier::spinoff_prover]
pub proof fn lemma_immediate_load(e: EmulatorState)
    requires
        e.cpu.state == CPUState::NeedOperand,
        e.cpu.instruction.mode == AddressingMode::Immediate,
        running(e.cpu, Mnemonic::LDA),
    ensures
        cycle(e).cpu.a == bus_value(e, e.cpu.pc),
        cycle(e).cpu.p.zero == (bus_value(e, e.cpu.pc) == 0),
        cycle(e).cpu.pc == (e.cpu.pc + 1) % 0x10000,
        cycle(e).cpu.state == CPUState::NeedInstruction,
{
    reveal(fetch_operand_spec);
    reveal(operand_fetched);
    reveal(execute_step);
    reveal(crate::cpu::instruction_implementation::transfer_spec);
}

/// A zero-page instruction takes its address from the byte after its opcode:
/// one that reads memory reads that address next, a store writes its register
/// there.
#[verifier::spinoff_prover]
pub proof fn lemma_zero_page_address(e: EmulatorState)
    requires
        e.cpu.state == CPUState::NeedOperand,
        e.cpu.instruction.mode == AddressingMode::ZeroPage,
    ensures
        !e.cpu.instruction.does_write ==> cycle(e).cpu.state == (CPUState::PendingRead {
            address: bus_value(e, e.cpu.pc) as u16,
        }) && cycle(e).cpu.instruction.address == bus_value(e, e.cpu.pc),
        e.cpu.instruction.does_write && running(e.cpu, Mnemonic::STA) ==> cycle(e).cpu.state == (
        CPUState::PendingWrite { address: bus_value(e, e.cpu.pc) as u16, value: e.cpu.a }),
        e.cpu.instruction.does_write && running(e.cpu, Mnemonic::STX) ==> cycle(e).cpu.state == (
        CPUState::PendingWrite { address: bus_value(e, e.cpu.pc) as u16, value: e.cpu.x }),
        e.cpu.instruction.does_write && running(e.cpu, Mnemonic::STY) ==> cycle(e).cpu.state == (
        CPUState::PendingWrite { address: bus_value(e, e.cpu.pc) as u16, value: e.cpu.y }),
        !e.cpu.instruction.does_write || running(e.cpu, Mnemonic::STA) || running(
            e.cpu,
            Mnemonic::STX,
        ) || running(e.cpu, Mnemonic::STY) ==> cycle(e).cpu.pc == (e.cpu.pc + 1) % 0x10000,
{
    reveal(fetch_operand_spec);
    reveal(operand_fetched);
    let b = bus_value(e, e.cpu.pc);
    let e1 = operand_fetched(e);
    let e2 = with_cpu(e1, CpuView { pc: add16(e.cpu.pc, 1), ..e1.cpu });
    assert(cycle(e) == (if e2.cpu.state == CPUState::Ready { execute_step(e2) } else { e2 }));
    if e.cpu.instruction.does_write {
        assert(e2.cpu.state == CPUState::Ready);
        assert(e2.cpu.instruction.value == b);
        assert(store_address(e2.cpu.instruction, e2.cpu) == b);
        reveal(execute_step);
        if running(e.cpu, Mnemonic::STA) || running(e.cpu, Mnemonic::STX) || running(
            e.cpu,
            Mnemonic::STY,
        ) {
            reveal(crate::cpu::instruction_implementation::control_spec);
        }
    }
}

/// A memory operand is read at the pending address: the instruction then holds
/// the byte found there and is ready to run.
#[verifier::spinoff_prover]
pub proof fn lemma_pending_read(e: EmulatorState, address: u16)
    requires
        e.cpu.state == (CPUState::PendingRead { address }),
        e.cpu.instruction.mode == AddressingMode::ZeroPage || e.cpu.instruction.mode
            == AddressingMode::Absolute,
        !running(e.cpu, Mnemonic::RTI),
        !running(e.cpu, Mnemonic::BRK),
    ensures
        cycle(e).cpu.instruction.value == bus_value(e, address),
        cycle(e).cpu.state == CPUState::Ready,
        cycle(e).mdr == bus_value(e, address),
{
    reveal(complete_read_spec);
}

/// A pending write stores its value at its address (RAM, mirrored, below
/// 0x2000) and the CPU goes on to the next instruction; a pending
/// read-modify-write first writes the original byte back, then the new one.
#[verifier::spinoff_prover]
pub proof fn lemma_pending_writes(e: EmulatorState)
    requires
        wf(e),
    ensures
        e.cpu.state matches CPUState::PendingWrite { address, value } ==> cycle(e).cpu.state
            == CPUState::NeedInstruction && (address <= 0x1FFF ==> cycle(e).ram[address as int % 0x800]
            == value) && cycle(e).mdr == value,
        e.cpu.state matches CPUState::PendingModify { address, original, value } ==> {
            &&& address <= 0x1FFF ==> cycle(e).ram[address as int % 0x800] == original
            &&& cycle(e).cpu.state == (CPUState::PendingWrite { address, value })
            &&& address <= 0x1FFF ==> cycle(cycle(e)).ram[address as int % 0x800] == value
            &&& cycle(cycle(e)).cpu.state == CPUState::NeedInstruction
        },
{
    reveal(write_spec);
    reveal(modify_spec);
}

/// A push writes its byte to 0x100 + SP and then moves SP down one (wrapping);
/// a 16-bit push writes the high byte first, so the word stands on the stack
/// high byte at the old SP and low byte just below it.
#[verifier::spinoff_prover]
pub proof fn lemma_pushes(e: EmulatorState)
    requires
        wf(e),
        !running(e.cpu, Mnemonic::JSR),
    ensures
        e.cpu.state matches CPUState::Pushing { value } ==> cycle(e).ram[0x100 + e.cpu.sp] == value
            && cycle(e).cpu.sp == (e.cpu.sp + 255) % 256 && cycle(e).cpu.pc == e.cpu.pc,
        e.cpu.state matches CPUState::Pushing16 { value } ==> {
            let sp = e.cpu.sp;
            let below = (sp + 255) % 256;
            let r = cycle(cycle(e));
            &&& 256 * r.ram[0x100 + sp] + r.ram[0x100 + below] == value
            &&& r.cpu.sp == (sp + 254) % 256
        },
{
    reveal(push_spec);
    reveal(push16_spec);
    if e.cpu.state is Pushing16 {
        let e1 = cycle(e);
        assert(e1.cpu.state is Pushing);
        assert(e1.ram[0x100 + e.cpu.sp] == e1.ram[0x100 + e.cpu.sp]);
    }
}

/// A pull moves SP up one (wrapping) and then reads the byte at 0x100 + SP
/// into the instruction, which is then ready to run.
#[verifier::spinoff_prover]
pub proof fn lemma_pull(e: EmulatorState)
    requires
        wf(e),
        e.cpu.state == CPUState::Pulling,
        e.cpu.instruction.mode == AddressingMode::Implied,
        !running(e.cpu, Mnemonic::RTI),
        !running(e.cpu, Mnemonic::BRK),
    ensures
        ({
            let sp1 = (e.cpu.sp + 1) % 256;
            let r = cycle(cycle(e));
            &&& r.cpu.sp == sp1
            &&& r.cpu.instruction.value == e.ram[0x100 + sp1]
            &&& r.cpu.state == CPUState::Ready
        }),
{
    reveal(pull_spec);
    reveal(complete_read_spec);
}

/// RTI, once it has read the status byte, pulls the return address from the
/// next two stack slots, low byte first, and jumps there.
#[verifier::spinoff_prover]
pub proof fn lemma_rti_returns(e: EmulatorState, address: u16)
    requires
        wf(e),
        e.cpu.state == (CPUState::PendingRead { address }),
        e.cpu.instruction.mode == AddressingMode::Implied,
        running(e.cpu, Mnemonic::RTI),
    ensures
        ({
            let s1 = (e.cpu.sp + 1) % 256;
            let s2 = (e.cpu.sp + 2) % 256;
            let target = 256 * e.ram[0x100 + s2] + e.ram[0x100 + s1];
            &&& cycle(e).cpu.sp == s2
            &&& cycle(e).cpu.state == (CPUState::Jumping { address: target as u16, penalty: true })
            &&& cycle(cycle(e)).cpu.pc == target
        }),
{
    reveal(complete_read_spec);
    reveal(jump_spec);
}

/// RTS pulls its return address, low byte from 0x100 + SP + 1 and high byte
/// from 0x100 + SP + 2, and five cycles after it starts PC is that address
/// plus one.
#[verifier::spinoff_prover]
pub proof fn lemma_rts_returns(e: EmulatorState)
    requires
        wf(e),
        e.cpu.state == CPUState::Ready,
        e.cpu.instruction.mode == AddressingMode::Implied,
        running(e.cpu, Mnemonic::RTS),
        !e.cpu.lo_set,
        !(e.ram[0x100 + (e.cpu.sp + 1) % 256] == 255 && e.ram[0x100 + (e.cpu.sp + 2) % 256] == 255),
    ensures
        ({
            let lo = e.ram[0x100 + (e.cpu.sp + 1) % 256];
            let hi = e.ram[0x100 + (e.cpu.sp + 2) % 256];
            let r = cycle(cycle(cycle(cycle(cycle(e)))));
            &&& r.cpu.pc == 256 * hi + lo + 1
            &&& r.cpu.sp == (e.cpu.sp + 2) % 256
            &&& r.cpu.state == CPUState::NeedInstruction
            &&& !r.cpu.lo_set
        }),
{
    let s1 = (e.cpu.sp + 1) % 256;
    let s2 = (e.cpu.sp + 2) % 256;
    let lo = e.ram[0x100 + s1];
    let hi = e.ram[0x100 + s2];
    let ins = e.cpu.instruction;
    let e1 = cycle(e);
    assert(e1.cpu.state == CPUState::Pulling16 && e1.cpu.lo_set && e1.cpu.sp == e.cpu.sp && e1.ram
        == e.ram && e1.cpu.instruction == ins) by {
        reveal(execute_step);
        reveal(crate::cpu::instruction_implementation::control_spec);
    }
    let e2 = cycle(e1);
    assert(e2.cpu.state == CPUState::Pulling && e2.cpu.lo == lo && e2.cpu.sp == s1 && e2.cpu.lo_set
        && e2.ram == e.ram && e2.cpu.instruction == ins) by {
        reveal(pull16_spec);
    }
    let e3 = cycle(e2);
    assert(e3.cpu.state == (CPUState::PendingRead { address: (0x100 + s2) as u16 }) && e3.cpu.lo
        == lo && e3.cpu.sp == s2 && e3.cpu.lo_set && e3.ram == e.ram && e3.cpu.instruction == ins)
        by {
        reveal(pull_spec);
    }
    let e4 = cycle(e3);
    assert(e4.cpu.state == CPUState::Ready && e4.cpu.instruction.value == hi && e4.cpu.instruction.name
        == ins.name && e4.cpu.lo == lo && e4.cpu.sp == s2 && e4.cpu.lo_set) by {
        reveal(complete_read_spec);
    }
    let e5 = cycle(e4);
    assert(e5.cpu.pc == 256 * hi + lo + 1 && e5.cpu.sp == s2 && e5.cpu.state == CPUState::NeedInstruction
        && !e5.cpu.lo_set) by {
        reveal(execute_step);
        reveal(crate::cpu::instruction_implementation::control_spec);
    }
}

/// A jump takes effect: PC becomes its target, at once when the target is in
/// PC's page or the penalty is paid, one cycle later otherwise.
#[verifier::spinoff_prover]
pub proof fn lemma_jump_lands(e: EmulatorState, address: u16, penalty: bool)
    requires
        e.cpu.state == (CPUState::Jumping { address, penalty }),
    ensures
        cycle(cycle(e)).cpu.pc == address || (cycle(e).cpu.pc == address && cycle(e).cpu.state
            == CPUState::NeedInstruction),
        penalty ==> cycle(e).cpu.pc == address,
{
    reveal(jump_spec);
}

/// The memory map: addresses up to 0x1FFF read the 2 KiB of RAM, the same
/// cell every 0x800 bytes; addresses from 0x8000 read the ROM from its start;
/// the addresses between read the last value on the bus. Only RAM takes writes.
pub proof fn lemma_memory_map(e: EmulatorState, a: u16, v: u8)
    requires
        wf(e),
    ensures
        a < 0x800 ==> bus_value(e, a) == e.ram[a as int],
        0x800 <= a < 0x2000 ==> bus_value(e, a) == bus_value(e, (a - 0x800) as u16),
        0x2000 <= a < 0x8000 ==> bus_value(e, a) == e.mdr,
        a >= 0x8000 ==> bus_value(e, a) == e.rom[a - 0x8000],
        a < 0x800 ==> after_write(e, a, v).ram == e.ram.update(a as int, v),
        0x800 <= a < 0x2000 ==> after_write(e, a, v) == after_write(e, (a - 0x800) as u16, v),
        a >= 0x2000 ==> after_write(e, a, v).ram == e.ram,
{
}

/// A halted CPU stays halted: a cycle, and so a whole run, changes nothing.
pub proof fn lemma_halted_is_fixpoint(e: EmulatorState, n: nat)
    requires
        e.cpu.state == CPUState::Halted,
    ensures
        cycle(e) == e,
        run(e, n) == e,
{
}

/// A run of `n + k` cycles is a run of `n` cycles followed by a run of `k`.
pub proof fn lemma_run_split(e: EmulatorState, n: nat, k: nat)
    ensures
        run(e, n + k) == run(run(e, n), k),
    decreases n,
{
    if n > 0 && e.cpu.state != CPUState::Halted {
        lemma_run_split(cycle(e), (n - 1) as nat, k);
        assert((n + k - 1) as nat == (n - 1) as nat + k);
    } else if n > 0 {
        lemma_halted_is_fixpoint(e, k);
        lemma_halted_is_fixpoint(e, n + k);
    }
}

/// What is written to RAM is read back from every address that mirrors it,
/// and RAM cells that do not alias the written one keep their value.
pub proof fn lemma_ram_read_after_write(e: EmulatorState, a: u16, b: u16, v: u8)
    requires
        wf(e),
        a <= 0x1FFF,
        b <= 0x1FFF,
    ensures
        a % 0x800 == b % 0x800 ==> bus_value(after_write(e, a, v), b) == v,
        a % 0x800 != b % 0x800 ==> bus_value(after_write(e, a, v), b) == bus_value(e, b),
{
}

/// The cartridge ROM is read-only: a write anywhere leaves the ROM, and a
/// write above RAM leaves RAM, as they were.
pub proof fn lemma_write_keeps_rom(e: EmulatorState, a: u16, v: u8)
    ensures
        after_write(e, a, v).rom == e.rom,
        a > 0x1FFF ==> after_write(e, a, v).ram == e.ram,
        a > 0x1FFF ==> forall|b: u16| b >= 0x8000 ==> bus_value(after_write(e, a, v), b)
            == bus_value(e, b),
{
}

/// Between RAM and ROM nothing answers: a read there gives the last value on
/// the bus, which is the value last written or read.
pub proof fn lemma_open_bus(e: EmulatorState, a: u16, b: u16, v: u8)
    requires
        0x2000 <= b < 0x8000,
        read_ok(e, a),
    ensures
        bus_value(after_write(e, a, v), b) == v,
        bus_value(after_read(e, a), b) == bus_value(e, a),
{
}

/// A byte pushed onto the stack is the byte that the next pull reads: the push
/// writes at the stack pointer and moves it down, the pull moves it back up and
/// reads there.
pub proof fn lemma_push_then_pull(e: EmulatorState, v: u8)
    requires
        wf(e),
    ensures
        bus_value(
            after_write(e, stack_address(e.cpu.sp), v),
            stack_address(add8(add8(e.cpu.sp, -1), 1)),
        ) == v,
{
    assert(add8(add8(e.cpu.sp, -1), 1) == e.cpu.sp);
}

/// A refused cartridge image changes nothing but the message.
pub proof fn lemma_refused_cartridge_keeps_state(e: EmulatorState, bytes: Seq<u8>)
    requires
        bytes.len() < MIN_CARTRIDGE_LEN || !has_nes_magic(bytes),
    ensures
        load_cartridge_spec(e, bytes) == (EmulatorState {
            last_text: load_cartridge_spec(e, bytes).last_text,
            ..e
        }),
{
}

/// An accepted cartridge image becomes the ROM (without its header) and the CPU
/// restarts at the address its reset vector holds.
pub proof fn lemma_accepted_cartridge_resets(e: EmulatorState, bytes: Seq<u8>)
    requires
        bytes.len() >= 16 + 0x7FFE,
        has_nes_magic(bytes),
    ensures
        load_cartridge_spec(e, bytes).rom == bytes.subrange(16, bytes.len() as int),
        load_cartridge_spec(e, bytes).cpu.pc == 256 * bytes[0x800Dint] + bytes[0x800Cint],
        load_cartridge_spec(e, bytes).cpu.state == CPUState::NeedInstruction,
        load_cartridge_spec(e, bytes).ram == e.ram,
{
}

/// One CPU cycle keeps the emulator's invariant.
#[verifier::spinoff_prover]
pub proof fn lemma_cycle_wf(e: EmulatorState)
    requires
        wf(e),
    ensures
        wf(cycle(e)),
{
    reveal(fetch_instruction_spec);
    reveal(fetch_operand_spec);
    reveal(operand_fetched);
    reveal(execute_step);
    reveal(complete_read_spec);
    reveal(read16_spec);
    reveal(write_spec);
    reveal(modify_spec);
    reveal(jump_spec);
    reveal(push_spec);
    reveal(push16_spec);
    reveal(pull_spec);
    reveal(pull16_spec);
}

/// A run keeps the emulator's invariant.
pub proof fn lemma_run_wf(e: EmulatorState, n: nat)
    requires
        wf(e),
    ensures
        wf(run(e, n)),
        wf(run_checked(e, n).0),
    decreases n,
{
    if n > 0 && e.cpu.state != CPUState::Halted {
        lemma_cycle_wf(e);
        lemma_run_wf(cycle(e), (n - 1) as nat);
    }
}

/// A checked run completes exactly when every cycle of the run is safe, and
/// then reaches the same state as the run.
pub proof fn lemma_run_checked(e: EmulatorState, n: nat)
    ensures
        run_checked(e, n).1 == run_safe(e, n),
        run_safe(e, n) ==> run_checked(e, n).0 == run(e, n),
    decreases n,
{
    if n > 0 && e.cpu.state != CPUState::Halted && cycle_safe(e) {
        lemma_run_checked(cycle(e), (n - 1) as nat);
    }
}

impl Default for Emulator {
    fn default() -> (r: Emulator)
        ensures
            wf(r@),
            r@.last_text == Seq::<char>::empty(),
            is_power_on(r@.cpu),
            forall|i: int| 0 <= i < 0x800 ==> r@.ram[i] == 0,
            r@.rom == Seq::<u8>::empty(),
            r@.mdr == 0,
            r@.chrdata == Seq::<u8>::empty(),
    {
        let mut ram: Vec<u8> = Vec::new();
        while ram.len() < 0x800
            invariant
                ram.len() <= 0x800,
                forall|i: int| 0 <= i < ram.len() ==> ram@[i] == 0,
            decreases 0x800 - ram.len(),
        {
            ram.push(0);
        }
        Emulator {
            last_text: String::new(),
            cpu: CPU::new(),
            ram,
            rom: Vec::with_capacity(0x8000),
            mdr: 0,
            chrdata: Vec::new(),
        }
    }
}

impl Emulator {
    /// The CPU, as the view shows it.
    pub fn processor(&self) -> (r: &CPU)
        ensures
            r@ == self@.cpu,
    {
        &self.cpu
    }

    /// The last status message, as the view shows it.
    pub fn message(&self) -> (r: &String)
        ensures
            r@ == self@.last_text,
    {
        &self.last_text
    }

    /// The pattern (CHR) data of the cartridge.
    pub fn chr(&self) -> (r: &Vec<u8>)
        ensures
            r@ == self@.chrdata,
    {
        &self.chrdata
    }

    /// Loads the iNES cartridge image `bytes` and resets; an image that is too
    /// short or lacks the magic number is refused with a message.
    pub fn load_cartridge(&mut self, bytes: Vec<u8>)
        requires
            wf(old(self)@),
            load_cartridge_ok(bytes@),
        ensures
            wf(final(self)@),
            final(self)@ == load_cartridge_spec(old(self)@, bytes@),
    {
        if bytes.len() < MIN_CARTRIDGE_LEN {
            self.last_text = "ROM too small, corruption occurred.".to_owned();
            return;
        }
        if bytes[0] != 0x4E || bytes[1] != 0x45 || bytes[2] != 0x53 || bytes[3] != 0x1A {
            self.last_text = "Missing magic number, not a .nes file?".to_owned();
            return;
        }
        let mut rom: Vec<u8> = Vec::new();
        let mut i: usize = 16;
        while i < bytes.len()
            invariant
                16 <= i <= bytes.len(),
                rom@ == bytes@.subrange(16, i as int),
            decreases bytes.len() - i,
        {
            rom.push(bytes[i]);
            i = i + 1;
        }
        self.rom = rom;
        self.reset();
    }

    /// Resets the CPU through the reset vector.
    pub fn reset(&mut self)
        requires
            wf(old(self)@),
            old(self)@.rom.len() >= 0x7FFE,
        ensures
            wf(final(self)@),
            final(self)@ == reset_spec(old(self)@),
    {
        let pcl = self.mem_read(0xFFFC);
        let pch = self.mem_read(0xFFFD);
        self.cpu.pc = join_bytes(pch, pcl);
        self.cpu.state = CPUState::NeedInstruction;
        self.cpu.p.interrupt_disable = true;
        self.cpu.sp = 0xFD;
        let mut text = "Resetting PC to ".to_owned();
        let digits = lower_hex(self.cpu.pc);
        text.append(digits.as_str());
        self.last_text = text;
    }

    /// Runs the emulator for one video frame: up to `CYCLES_PER_FRAME` cycles,
    /// stopping early when the CPU halts (at once if it is halted already).
    pub fn run_frame(&mut self)
        requires
            wf(old(self)@),
            run_safe(old(self)@, CYCLES_PER_FRAME as nat),
        ensures
            wf(final(self)@),
            final(self)@ == run(old(self)@, CYCLES_PER_FRAME as nat),
    {
        if self.cpu.state == CPUState::Halted {
            return;
        }
        let mut cycles_this_frame: u32 = 0;
        while cycles_this_frame < CYCLES_PER_FRAME
            invariant_except_break
                self@.cpu.state != CPUState::Halted,
            invariant
                wf(self@),
                cycles_this_frame <= CYCLES_PER_FRAME,
                run(old(self)@, CYCLES_PER_FRAME as nat) == run(
                    self@,
                    (CYCLES_PER_FRAME - cycles_this_frame) as nat,
                ),
                run_safe(self@, (CYCLES_PER_FRAME - cycles_this_frame) as nat),
            ensures
                wf(self@),
                self@ == run(old(self)@, CYCLES_PER_FRAME as nat),
            decreases CYCLES_PER_FRAME - cycles_this_frame,
        {
            cycles_this_frame += 1;
            self.master_cycle();
            if self.cpu.state == CPUState::Halted {
                break;
            }
        }
    }

    /// Runs one frame as `run_frame` does, but checks each cycle before it runs
    /// it and stops, returning false, before a cycle that is not safe (one that
    /// reads past the ROM or overflows); returns true when the frame ran.
    pub fn run_frame_checked(&mut self) -> (ok: bool)
        requires
            wf(old(self)@),
        ensures
            wf(final(self)@),
            (final(self)@, ok) == run_checked(old(self)@, CYCLES_PER_FRAME as nat),
    {
        if self.cpu.state == CPUState::Halted {
            return true;
        }
        let mut cycles_this_frame: u32 = 0;
        while cycles_this_frame < CYCLES_PER_FRAME
            invariant_except_break
                self@.cpu.state != CPUState::Halted,
            invariant
                wf(self@),
                cycles_this_frame <= CYCLES_PER_FRAME,
                run_checked(old(self)@, CYCLES_PER_FRAME as nat) == run_checked(
                    self@,
                    (CYCLES_PER_FRAME - cycles_this_frame) as nat,
                ),
            ensures
                wf(self@),
                (self@, true) == run_checked(old(self)@, CYCLES_PER_FRAME as nat),
            decreases CYCLES_PER_FRAME - cycles_this_frame,
        {
            if !self.cycle_is_safe() {
                return false;
            }
            cycles_this_frame += 1;
            self.master_cycle();
            if self.cpu.state == CPUState::Halted {
                break;
            }
        }
        true
    }

    /// Runs one cycle if it is safe (see `cycle_safe`) and says whether it did;
    /// otherwise leaves the emulator unchanged.
    pub fn master_cycle_checked(&mut self) -> (ok: bool)
        requires
            wf(old(self)@),
        ensures
            wf(final(self)@),
            ok == cycle_safe(old(self)@),
            ok ==> final(self)@ == cycle(old(self)@),
            !ok ==> final(self)@ == old(self)@,
    {
        if self.cycle_is_safe() {
            self.master_cycle();
            true
        } else {
            false
        }
    }

    /// Whether the next cycle is safe.
    pub fn cycle_is_safe(&self) -> (b: bool)
        requires
            wf(self@),
        ensures
            b == cycle_safe(self@),
    {
        reveal(operand_fetched);
        let c = &self.cpu;
        let mode = c.instruction.mode;
        match c.state {
            CPUState::NeedInstruction => self.readable(c.pc),
            CPUState::NeedOperand => {
                let fetches = mode == AddressingMode::Immediate || mode == AddressingMode::Relative
                    || mode == AddressingMode::ZeroPage || mode == AddressingMode::Absolute;
                if fetches && !self.readable(c.pc) {
                    return false;
                }
                if mnemonic_of(c.instruction.name.as_str()) != Mnemonic::RTS || !c.lo_set {
                    return true;
                }
                if mode == AddressingMode::Immediate || mode == AddressingMode::Relative || (mode
                    == AddressingMode::ZeroPage && c.instruction.does_write) {
                    let b = self.peek(c.pc);
                    !(b == 0xFF && c.lo == 0xFF)
                } else {
                    true
                }
            },
            CPUState::PendingRead { address } => {
                if mode == AddressingMode::ZeroPage || mode == AddressingMode::Absolute || mode
                    == AddressingMode::Implied {
                    self.readable(address)
                } else {
                    true
                }
            },
            CPUState::PendingRead16 { address } => self.readable(address),
            CPUState::Ready => !(mnemonic_of(c.instruction.name.as_str()) == Mnemonic::RTS
                && c.lo_set && c.instruction.value == 0xFF && c.lo == 0xFF),
            CPUState::Pushing { .. } => mnemonic_of(c.instruction.name.as_str()) != Mnemonic::JSR
                || c.lo < 8,
            _ => true,
        }
    }

    /// Whether a read of `address` is mapped.
    pub fn readable(&self, address: u16) -> (b: bool)
        ensures
            b == read_ok(self@, address),
    {
        address < 0x8000 || ((address - 0x8000) as usize) < self.rom.len()
    }

    /// The value a read of `address` would give, without reading it.
    fn peek(&self, address: u16) -> (r: u8)
        requires
            wf(self@),
            read_ok(self@, address),
        ensures
            r == bus_value(self@, address),
    {
        if address <= 0x1FFF {
            self.ram[mirror(address)]
        } else if address >= 0x8000 {
            self.rom[(address - 0x8000) as usize]
        } else {
            self.mdr
        }
    }

    /// Runs one cycle of the whole machine (which is one CPU cycle).
    pub fn master_cycle(&mut self)
        requires
            wf(old(self)@),
            cycle_safe(old(self)@),
        ensures
            wf(final(self)@),
            final(self)@ == cycle(old(self)@),
    {
        self.cpu_cycle();
    }

    /// Runs one CPU cycle: the bus access, decode or execution step that the
    /// CPU's state calls for.
    fn cpu_cycle(&mut self)
        requires
            wf(old(self)@),
            cycle_safe(old(self)@),
        ensures
            wf(final(self)@),
            final(self)@ == cycle(old(self)@),
    {
        if self.cpu.state != CPUState::Halted {
            match self.cpu.state {
                CPUState::NeedInstruction => {
                    self.fetch_instruction();
                },
                CPUState::NeedOperand => {
                    self.fetch_operand();
                },
                CPUState::PendingRead { address } => {
                    self.complete_read(address);
                },
                CPUState::PendingRead16 { address } => {
                    self.read_vector_low(address);
                },
                CPUState::PendingWrite { address, value } => {
                    self.write_pending(address, value);
                },
                CPUState::PendingModify { address, original, value } => {
                    self.write_back(address, original, value);
                },
                CPUState::Ready => {
                    self.execute_ready();
                },
                CPUState::Jumping { address, penalty } => {
                    self.jump(address, penalty);
                },
                CPUState::Pushing { value } => {
                    self.push(value);
                },
                CPUState::Pushing16 { value } => {
                    self.push_word(value);
                },
                CPUState::Pulling => {
                    self.pull();
                },
                CPUState::Pulling16 => {
                    self.pull_return_low();
                },
                _ => {},
            }
        }
    }

    /// NeedInstruction: reads and decodes the opcode at PC.
    fn fetch_instruction(&mut self)
        requires
            wf(old(self)@),
            old(self)@.cpu.state == CPUState::NeedInstruction,
            read_ok(old(self)@, old(self)@.cpu.pc),
        ensures
            wf(final(self)@),
            final(self)@ == fetch_instruction_spec(old(self)@),
    {
        reveal(fetch_instruction_spec);
        let pc = self.cpu.pc;
        let op = self.mem_read(pc);
        self.cpu.instruction = parse_instruction(op);
        if self.cpu.instruction.mode != AddressingMode::Implied {
            self.cpu.state = CPUState::NeedOperand;
        } else {
            self.cpu.state = CPUState::Ready;
        }
        let m = mnemonic_of(self.cpu.instruction.name.as_str());
        if m == Mnemonic::PLA || m == Mnemonic::PLP {
            self.cpu.state = CPUState::Pulling;
        }
        self.cpu.pc = self.cpu.pc.wrapping_add(1);
    }

    /// NeedOperand: reads the operand byte at PC and runs the instruction once
    /// it is ready.
    fn fetch_operand(&mut self)
        requires
            wf(old(self)@),
            old(self)@.cpu.state == CPUState::NeedOperand,
            cycle_safe(old(self)@),
        ensures
            wf(final(self)@),
            final(self)@ == fetch_operand_spec(old(self)@),
    {
        reveal(fetch_operand_spec);
        reveal(operand_fetched);
        let pc = self.cpu.pc;
        match self.cpu.instruction.mode {
            AddressingMode::Immediate | AddressingMode::Relative => {
                self.cpu.instruction.value = self.mem_read(pc);
                self.cpu.state = CPUState::Ready;
            },
            AddressingMode::ZeroPage => {
                let address = self.mem_read(pc);
                self.cpu.instruction.address = address as u16;
                if self.cpu.instruction.does_write {
                    self.cpu.instruction.value = address;
                    self.cpu.state = CPUState::Ready;
                } else {
                    self.cpu.state = CPUState::PendingRead { address: address as u16 };
                }
            },
            AddressingMode::Absolute => {
                if self.cpu.lo_set {
                    self.cpu.instruction.value = self.mem_read(pc);
                    let full_address = join_bytes(self.cpu.instruction.value, self.cpu.lo);
                    self.cpu.instruction.address = full_address;
                    if self.cpu.instruction.does_write || mnemonic_of(
                        self.cpu.instruction.name.as_str(),
                    ) == Mnemonic::JMP {
                        self.cpu.state = CPUState::Ready;
                    } else {
                        self.cpu.state = CPUState::PendingRead { address: full_address };
                    }
                    self.cpu.lo_set = false;
                } else {
                    self.cpu.lo = self.mem_read(pc);
                    self.cpu.lo_set = true;
                }
            },
            _ => {},
        }
        self.cpu.pc = self.cpu.pc.wrapping_add(1);
        if self.cpu.state == CPUState::Ready {
            self.execute_ready();
        }
    }

    /// Ready: runs the instruction; when it needs no further cycles, the CPU
    /// goes on to the next instruction.
    fn execute_ready(&mut self)
        requires
            wf(old(self)@),
            execute_safe(old(self)@.cpu.instruction, old(self)@.cpu),
        ensures
            wf(final(self)@),
            final(self)@ == execute_step(old(self)@),
    {
        reveal(execute_step);
        execute_instruction(self.cpu.instruction.clone(), &mut self.cpu);
        if self.cpu.state == CPUState::Ready {
            self.cpu.state = CPUState::NeedInstruction;
        }
    }

    /// PendingRead: reads the operand at `address`; RTI and BRK go on to jump.
    fn complete_read(&mut self, address: u16)
        requires
            wf(old(self)@),
            old(self)@.cpu.state == (CPUState::PendingRead { address }),
            cycle_safe(old(self)@),
        ensures
            wf(final(self)@),
            final(self)@ == complete_read_spec(old(self)@, address),
    {
        reveal(complete_read_spec);
        match self.cpu.instruction.mode {
            AddressingMode::ZeroPage | AddressingMode::Absolute | AddressingMode::Implied => {
                self.cpu.instruction.value = self.mem_read(address);
                self.cpu.state = CPUState::Ready;
                let m = mnemonic_of(self.cpu.instruction.name.as_str());
                if m == Mnemonic::RTI {
                    self.cpu.sp = self.cpu.sp.wrapping_add(1);
                    let pc_lo = self.mem_read(0x100 + self.cpu.sp as u16);
                    self.cpu.sp = self.cpu.sp.wrapping_add(1);
                    let pc_hi = self.mem_read(0x100 + self.cpu.sp as u16);
                    self.cpu.state = CPUState::Jumping {
                        address: join_bytes(pc_hi, pc_lo),
                        penalty: true,
                    };
                } else if m == Mnemonic::BRK {
                    self.cpu.state = CPUState::Jumping {
                        address: join_bytes(self.cpu.instruction.value, self.cpu.lo),
                        penalty: true,
                    };
                }
            },
            _ => {},
        }
    }

    /// Pushing: writes `value` to the stack.
    fn push(&mut self, value: u8)
        requires
            wf(old(self)@),
            old(self)@.cpu.state == (CPUState::Pushing { value }),
            cycle_safe(old(self)@),
        ensures
            wf(final(self)@),
            final(self)@ == push_spec(old(self)@, value),
    {
        reveal(push_spec);
        let sp = self.cpu.sp;
        self.mem_write(0x100u16 + sp as u16, value);
        self.cpu.sp = self.cpu.sp.wrapping_sub(1);
        let m = mnemonic_of(self.cpu.instruction.name.as_str());
        if m == Mnemonic::BRK {
            self.cpu.state = CPUState::Ready;
        } else {
            self.cpu.state = CPUState::NeedInstruction;
        }
        if m == Mnemonic::JSR {
            let address = (self.cpu.instruction.value as u16) << (8 + self.cpu.lo as u16);
            self.cpu.pc = address;
        }
    }

    /// PendingRead16: reads the low byte of a vector.
    fn read_vector_low(&mut self, address: u16)
        requires
            wf(old(self)@),
            read_ok(old(self)@, address),
        ensures
            wf(final(self)@),
            final(self)@ == read16_spec(old(self)@, address),
    {
        reveal(read16_spec);
        self.cpu.lo = self.mem_read(address);
        self.cpu.state = CPUState::PendingRead { address: address.wrapping_add(1) };
    }

    /// PendingWrite: writes `value` to `address`.
    fn write_pending(&mut self, address: u16, value: u8)
        requires
            wf(old(self)@),
        ensures
            wf(final(self)@),
            final(self)@ == write_spec(old(self)@, address, value),
    {
        reveal(write_spec);
        self.mem_write(address, value);
        self.cpu.state = CPUState::NeedInstruction;
    }

    /// PendingModify: writes the original value back before the modified one.
    fn write_back(&mut self, address: u16, original: u8, value: u8)
        requires
            wf(old(self)@),
        ensures
            wf(final(self)@),
            final(self)@ == modify_spec(old(self)@, address, original, value),
    {
        reveal(modify_spec);
        self.mem_write(address, original);
        self.cpu.state = CPUState::PendingWrite { address, value };
    }

    /// Jumping: takes the jump, a cycle later when it crosses a page.
    fn jump(&mut self, address: u16, penalty: bool)
        requires
            wf(old(self)@),
        ensures
            wf(final(self)@),
            final(self)@ == jump_spec(old(self)@, address, penalty),
    {
        reveal(jump_spec);
        if !same_page(address, self.cpu.pc) && penalty == false {
            self.cpu.state = CPUState::Jumping { address, penalty: true };
        } else {
            self.cpu.pc = address;
            self.cpu.state = CPUState::NeedInstruction;
        }
    }

    /// Pushing16: pushes the high byte of `value`.
    fn push_word(&mut self, value: u16)
        requires
            wf(old(self)@),
        ensures
            wf(final(self)@),
            final(self)@ == push16_spec(old(self)@, value),
    {
        reveal(push16_spec);
        let sp = self.cpu.sp;
        self.mem_write(0x100u16 + sp as u16, high_byte(value));
        self.cpu.sp = self.cpu.sp.wrapping_sub(1);
        self.cpu.state = CPUState::Pushing { value: low_byte(value) };
    }

    /// Pulling: moves the stack pointer up to the byte to pull.
    fn pull(&mut self)
        requires
            wf(old(self)@),
        ensures
            wf(final(self)@),
            final(self)@ == pull_spec(old(self)@),
    {
        reveal(pull_spec);
        self.cpu.sp = self.cpu.sp.wrapping_add(1);
        self.cpu.state = CPUState::PendingRead { address: self.cpu.sp as u16 + 0x100u16 };
    }

    /// Pulling16: pulls the low byte of a return address.
    fn pull_return_low(&mut self)
        requires
            wf(old(self)@),
        ensures
            wf(final(self)@),
            final(self)@ == pull16_spec(old(self)@),
    {
        reveal(pull16_spec);
        self.cpu.sp = self.cpu.sp.wrapping_add(1);
        let address = self.cpu.sp as u16 + 0x100u16;
        self.cpu.lo = self.mem_read(address);
        self.cpu.state = CPUState::Pulling;
    }

    /// Reads `address` over the bus.
    pub fn mem_read(&mut self, address: u16) -> (r: u8)
        requires
            wf(old(self)@),
            read_ok(old(self)@, address),
        ensures
            r == bus_value(old(self)@, address),
            final(self)@ == after_read(old(self)@, address),
    {
        if address <= 0x1FFF {
            let i = mirror(address);
            self.mdr = self.ram[i];
        }
        if address >= 0x8000 {
            self.mdr = self.rom[(address - 0x8000) as usize];
        }
        self.mdr
    }

    /// Writes `value` to `address` over the bus.
    pub fn mem_write(&mut self, address: u16, value: u8)
        requires
            wf(old(self)@),
        ensures
            final(self)@ == after_write(old(self)@, address, value),
    {
        self.mdr = value;
        if address <= 0x1FFF {
            let i = mirror(address);
            self.ram[i] = value;
        }
    }
}

/// Whether `a` and `b` lie in the same 256-byte page.
fn same_page(a: u16, b: u16) -> (r: bool)
    ensures
        r == (a / 256 == b / 256),
{
    let r = a & 0xFF00 == b & 0xFF00;
    assert(r == (a / 256 == b / 256)) by (bit_vector)
        requires
            r == (a & 0xFF00 == b & 0xFF00),
    ;
    r
}

/// The high byte of `v`.
fn high_byte(v: u16) -> (r: u8)
    ensures
        r == v / 256,
{
    let h = v >> 8u16;
    assert(h == v / 256) by (bit_vector)
        requires
            h == v >> 8u16,
    ;
    h as u8
}

/// The low byte of `v`.
fn low_byte(v: u16) -> (r: u8)
    ensures
        r == v % 256,
{
    let l = v & 0xFF;
    assert(l == v % 256) by (bit_vector)
        requires
            l == v & 0xFF,
    ;
    l as u8
}

/// The RAM index that `address` (below 0x2000) is mirrored to.
fn mirror(address: u16) -> (i: usize)
    ensures
        i == address % 0x800,
        i < 0x800,
{
    let m = address & 0x7FF;
    assert(m == address % 0x800) by (bit_vector)
        requires
            m == address & 0x7FF,
    ;
    m as usize
}

} // verus!
