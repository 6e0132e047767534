use vstd::prelude::*;
use crate::cpu::flags_register::FlagsRegister;
use crate::cpu::instruction::{AddressingMode, Instruction};

verus! {

/// What the CPU does on its next cycle.
#[allow(inconsistent_fields)]
#[derive(Debug, Clone, Copy, PartialEq, Eq, Structural)]
pub enum CPUState {
    Halted,
    NeedInstruction,
    NeedOperand,
    Ready,
    Pushing { value: u8 },
    Pushing16 { value: u16 },
    Pulling,
    Pulling16,
    PendingRead { address: u16 },
    PendingRead16 { address: u16 },
    PendingWrite { address: u16, value: u8 },
    PendingModify { address: u16, original: u8, value: u8 },
    Jumping { address: u16, penalty: bool },
}

impl Default for CPUState {
    fn default() -> (r: CPUState)
        ensures
            r == CPUState::Halted,
    {
        CPUState::Halted
    }
}

/// The registers of the 6502 and the state of the instruction in flight.
#[derive(Debug)]
pub struct CPU {
    pub pc: u16,
    pub a: u8,
    pub x: u8,
    pub y: u8,
    pub p: FlagsRegister,
    pub sp: u8,
    pub state: CPUState,
    pub instruction: Instruction,
    pub lo: u8,
    pub lo_set: bool,
}

/// An instruction as the specifications see it, its name as text.
pub ghost struct InstructionView {
    pub opcode: u8,
    pub name: Seq<char>,
    pub mode: AddressingMode,
    pub value: u8,
    pub address: u16,
    pub does_write: bool,
}

impl View for Instruction {
    type V = InstructionView;

    open spec fn view(&self) -> InstructionView {
        InstructionView {
            opcode: self.opcode,
            name: self.name@,
            mode: self.mode,
            value: self.value,
            address: self.address,
            does_write: self.does_write,
        }
    }
}

/// The CPU as the specifications see it.
pub ghost struct CpuView {
    pub pc: u16,
    pub a: u8,
    pub x: u8,
    pub y: u8,
    pub p: FlagsRegister,
    pub sp: u8,
    pub state: CPUState,
    pub instruction: InstructionView,
    pub lo: u8,
    pub lo_set: bool,
}

impl View for CPU {
    type V = CpuView;

    open spec fn view(&self) -> CpuView {
        CpuView {
            pc: self.pc,
            a: self.a,
            x: self.x,
            y: self.y,
            p: self.p,
            sp: self.sp,
            state: self.state,
            instruction: self.instruction@,
            lo: self.lo,
            lo_set: self.lo_set,
        }
    }
}

/// `c` is a CPU as it comes up: every register and flag zero or clear, halted,
/// holding an empty implied instruction.
pub open spec fn is_power_on(c: CpuView) -> bool {
    &&& c.pc == 0 && c.a == 0 && c.x == 0 && c.y == 0 && c.sp == 0
    &&& !c.p.carry && !c.p.zero && !c.p.interrupt_disable && !c.p.decimal
    &&& !c.p.overflow && !c.p.negative
    &&& c.state == CPUState::Halted
    &&& c.instruction.opcode == 0 && c.instruction.name == Seq::<char>::empty()
    &&& c.instruction.mode == AddressingMode::Implied
    &&& c.instruction.value == 0 && c.instruction.address == 0 && !c.instruction.does_write
    &&& c.lo == 0 && !c.lo_set
}

impl Default for CPU {
    fn default() -> (r: CPU)
        ensures
            is_power_on(r@),
    {
        CPU {
            pc: 0,
            a: 0,
            x: 0,
            y: 0,
            p: FlagsRegister::default(),
            sp: 0,
            state: CPUState::default(),
            instruction: Instruction::default(),
            lo: 0,
            lo_set: false,
        }
    }
}

impl CPU {
    /// A CPU in its power-on state.
    pub fn new() -> (r: CPU)
        ensures
            is_power_on(r@),
    {
        CPU::default()
    }
}

} // verus!
