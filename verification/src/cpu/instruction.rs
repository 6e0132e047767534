use vstd::prelude::*;

verus! {

/// How an instruction finds its operand.
#[derive(Debug, Clone, Copy, PartialEq, Eq, Structural)]
pub enum AddressingMode {
    Implied,
    Immediate,
    ZeroPage,
    ZeroPageX,
    ZeroPageY,
    Absolute,
    AbsoluteX,
    AbsoluteY,
    XIndirect,
    IndirectY,
    Indirect,
    Relative,
}

impl Default for AddressingMode {
    fn default() -> (r: AddressingMode)
        ensures
            r == AddressingMode::Implied,
    {
        AddressingMode::Implied
    }
}

/// The operation an instruction's name stands for; `Other` for a name the
/// CPU does not know, which executes as nothing.
#[derive(Debug, Clone, Copy, PartialEq, Eq, Structural)]
pub enum Mnemonic {
    HTL,
    ADC,
    AND,
    ASL,
    BIT,
    BPL,
    BMI,
    BRK,
    BVC,
    BVS,
    BCC,
    BCS,
    BNE,
    BEQ,
    CMP,
    CPX,
    CPY,
    CLC,
    CLD,
    CLI,
    CLV,
    DEC,
    DEX,
    DEY,
    EOR,
    INC,
    INX,
    INY,
    JMP,
    JSR,
    LDA,
    LDX,
    LDY,
    LSR,
    NOP,
    ORA,
    PHA,
    PHP,
    PLA,
    PLP,
    ROL,
    ROR,
    RTI,
    RTS,
    SBC,
    SEC,
    SED,
    SEI,
    STA,
    STX,
    STY,
    TAX,
    TAY,
    TSX,
    TXA,
    TXS,
    TYA,
    Other,
}

/// The operation that the name `name` stands for.
#[verifier::opaque]
pub open spec fn spec_mnemonic(name: Seq<char>) -> Mnemonic {
    if name == "HTL"@ {
        Mnemonic::HTL
    } else if name == "ADC"@ {
        Mnemonic::ADC
    } else if name == "AND"@ {
        Mnemonic::AND
    } else if name == "ASL"@ {
        Mnemonic::ASL
    } else if name == "BIT"@ {
        Mnemonic::BIT
    } else if name == "BPL"@ {
        Mnemonic::BPL
    } else if name == "BMI"@ {
        Mnemonic::BMI
    } else if name == "BRK"@ {
        Mnemonic::BRK
    } else if name == "BVC"@ {
        Mnemonic::BVC
    } else if name == "BVS"@ {
        Mnemonic::BVS
    } else if name == "BCC"@ {
        Mnemonic::BCC
    } else if name == "BCS"@ {
        Mnemonic::BCS
    } else if name == "BNE"@ {
        Mnemonic::BNE
    } else if name == "BEQ"@ {
        Mnemonic::BEQ
    } else if name == "CMP"@ {
        Mnemonic::CMP
    } else if name == "CPX"@ {
        Mnemonic::CPX
    } else if name == "CPY"@ {
        Mnemonic::CPY
    } else if name == "CLC"@ {
        Mnemonic::CLC
    } else if name == "CLD"@ {
        Mnemonic::CLD
    } else if name == "CLI"@ {
        Mnemonic::CLI
    } else if name == "CLV"@ {
        Mnemonic::CLV
    } else if name == "DEC"@ {
        Mnemonic::DEC
    } else if name == "DEX"@ {
        Mnemonic::DEX
    } else if name == "DEY"@ {
        Mnemonic::DEY
    } else if name == "EOR"@ {
        Mnemonic::EOR
    } else if name == "INC"@ {
        Mnemonic::INC
    } else if name == "INX"@ {
        Mnemonic::INX
    } else if name == "INY"@ {
        Mnemonic::INY
    } else if name == "JMP"@ {
        Mnemonic::JMP
    } else if name == "JSR"@ {
        Mnemonic::JSR
    } else if name == "LDA"@ {
        Mnemonic::LDA
    } else if name == "LDX"@ {
        Mnemonic::LDX
    } else if name == "LDY"@ {
        Mnemonic::LDY
    } else if name == "LSR"@ {
        Mnemonic::LSR
    } else if name == "NOP"@ {
        Mnemonic::NOP
    } else if name == "ORA"@ {
        Mnemonic::ORA
    } else if name == "PHA"@ {
        Mnemonic::PHA
    } else if name == "PHP"@ {
        Mnemonic::PHP
    } else if name == "PLA"@ {
        Mnemonic::PLA
    } else if name == "PLP"@ {
        Mnemonic::PLP
    } else if name == "ROL"@ {
        Mnemonic::ROL
    } else if name == "ROR"@ {
        Mnemonic::ROR
    } else if name == "RTI"@ {
        Mnemonic::RTI
    } else if name == "RTS"@ {
        Mnemonic::RTS
    } else if name == "SBC"@ {
        Mnemonic::SBC
    } else if name == "SEC"@ {
        Mnemonic::SEC
    } else if name == "SED"@ {
        Mnemonic::SED
    } else if name == "SEI"@ {
        Mnemonic::SEI
    } else if name == "STA"@ {
        Mnemonic::STA
    } else if name == "STX"@ {
        Mnemonic::STX
    } else if name == "STY"@ {
        Mnemonic::STY
    } else if name == "TAX"@ {
        Mnemonic::TAX
    } else if name == "TAY"@ {
        Mnemonic::TAY
    } else if name == "TSX"@ {
        Mnemonic::TSX
    } else if name == "TXA"@ {
        Mnemonic::TXA
    } else if name == "TXS"@ {
        Mnemonic::TXS
    } else if name == "TYA"@ {
        Mnemonic::TYA
    } else {
        Mnemonic::Other
    }
}

/// Whether the texts `a` and `b` are the same.
fn same_text(a: &str, b: &str) -> (r: bool)
    ensures
        r == (a@ == b@),
{
    let n = a.unicode_len();
    let m = b.unicode_len();
    if n != m {
        return false;
    }
    let mut i: usize = 0;
    while i < n
        invariant
            n == a@.len(),
            n == b@.len(),
            i <= n,
            forall|j: int| 0 <= j < i ==> a@[j] == b@[j],
        decreases n - i,
    {
        if a.get_char(i) != b.get_char(i) {
            return false;
        }
        i = i + 1;
    }
    assert(a@ =~= b@);
    true
}

/// The operation that the name `name` stands for.
pub fn mnemonic_of(name: &str) -> (m: Mnemonic)
    ensures
        m == spec_mnemonic(name@),
{
    reveal(spec_mnemonic);
    if same_text(name, "HTL") {
        Mnemonic::HTL
    } else if same_text(name, "ADC") {
        Mnemonic::ADC
    } else if same_text(name, "AND") {
        Mnemonic::AND
    } else if same_text(name, "ASL") {
        Mnemonic::ASL
    } else if same_text(name, "BIT") {
        Mnemonic::BIT
    } else if same_text(name, "BPL") {
        Mnemonic::BPL
    } else if same_text(name, "BMI") {
        Mnemonic::BMI
    } else if same_text(name, "BRK") {
        Mnemonic::BRK
    } else if same_text(name, "BVC") {
        Mnemonic::BVC
    } else if same_text(name, "BVS") {
        Mnemonic::BVS
    } else if same_text(name, "BCC") {
        Mnemonic::BCC
    } else if same_text(name, "BCS") {
        Mnemonic::BCS
    } else if same_text(name, "BNE") {
        Mnemonic::BNE
    } else if same_text(name, "BEQ") {
        Mnemonic::BEQ
    } else if same_text(name, "CMP") {
        Mnemonic::CMP
    } else if same_text(name, "CPX") {
        Mnemonic::CPX
    } else if same_text(name, "CPY") {
        Mnemonic::CPY
    } else if same_text(name, "CLC") {
        Mnemonic::CLC
    } else if same_text(name, "CLD") {
        Mnemonic::CLD
    } else if same_text(name, "CLI") {
        Mnemonic::CLI
    } else if same_text(name, "CLV") {
        Mnemonic::CLV
    } else if same_text(name, "DEC") {
        Mnemonic::DEC
    } else if same_text(name, "DEX") {
        Mnemonic::DEX
    } else if same_text(name, "DEY") {
        Mnemonic::DEY
    } else if same_text(name, "EOR") {
        Mnemonic::EOR
    } else if same_text(name, "INC") {
        Mnemonic::INC
    } else if same_text(name, "INX") {
        Mnemonic::INX
    } else if same_text(name, "INY") {
        Mnemonic::INY
    } else if same_text(name, "JMP") {
        Mnemonic::JMP
    } else if same_text(name, "JSR") {
        Mnemonic::JSR
    } else if same_text(name, "LDA") {
        Mnemonic::LDA
    } else if same_text(name, "LDX") {
        Mnemonic::LDX
    } else if same_text(name, "LDY") {
        Mnemonic::LDY
    } else if same_text(name, "LSR") {
        Mnemonic::LSR
    } else if same_text(name, "NOP") {
        Mnemonic::NOP
    } else if same_text(name, "ORA") {
        Mnemonic::ORA
    } else if same_text(name, "PHA") {
        Mnemonic::PHA
    } else if same_text(name, "PHP") {
        Mnemonic::PHP
    } else if same_text(name, "PLA") {
        Mnemonic::PLA
    } else if same_text(name, "PLP") {
        Mnemonic::PLP
    } else if same_text(name, "ROL") {
        Mnemonic::ROL
    } else if same_text(name, "ROR") {
        Mnemonic::ROR
    } else if same_text(name, "RTI") {
        Mnemonic::RTI
    } else if same_text(name, "RTS") {
        Mnemonic::RTS
    } else if same_text(name, "SBC") {
        Mnemonic::SBC
    } else if same_text(name, "SEC") {
        Mnemonic::SEC
    } else if same_text(name, "SED") {
        Mnemonic::SED
    } else if same_text(name, "SEI") {
        Mnemonic::SEI
    } else if same_text(name, "STA") {
        Mnemonic::STA
    } else if same_text(name, "STX") {
        Mnemonic::STX
    } else if same_text(name, "STY") {
        Mnemonic::STY
    } else if same_text(name, "TAX") {
        Mnemonic::TAX
    } else if same_text(name, "TAY") {
        Mnemonic::TAY
    } else if same_text(name, "TSX") {
        Mnemonic::TSX
    } else if same_text(name, "TXA") {
        Mnemonic::TXA
    } else if same_text(name, "TXS") {
        Mnemonic::TXS
    } else if same_text(name, "TYA") {
        Mnemonic::TYA
    } else {
        Mnemonic::Other
    }
}

/// One instruction as the CPU holds it while running it: its opcode, name
/// and addressing mode, and the operand bytes fetched so far.
#[derive(Debug)]
pub struct Instruction {
    pub opcode: u8,
    pub name: String,
    pub mode: AddressingMode,
    pub value: u8,
    pub address: u16,
    pub does_write: bool,
}

impl Clone for Instruction {
    fn clone(&self) -> (r: Instruction)
        ensures
            r == *self,
    {
        Instruction {
            opcode: self.opcode,
            name: self.name.clone(),
            mode: self.mode,
            value: self.value,
            address: self.address,
            does_write: self.does_write,
        }
    }
}

impl Default for Instruction {
    fn default() -> (r: Instruction)
        ensures
            r.opcode == 0,
            r.name@ == Seq::<char>::empty(),
            r.mode == AddressingMode::Implied,
            r.value == 0,
            r.address == 0,
            !r.does_write,
    {
        Instruction {
            opcode: 0,
            name: String::new(),
            mode: AddressingMode::Implied,
            value: 0,
            address: 0,
            does_write: false,
        }
    }
}

impl Instruction {
    /// An instruction with no operand fetched yet.
    pub fn new(opcode: u8, name: &str, mode: AddressingMode, does_write: bool) -> (r: Instruction)
        ensures
            r.opcode == opcode,
            r.name@ == name@,
            r.mode == mode,
            r.value == 0,
            r.address == 0,
            r.does_write == does_write,
    {
        Instruction { opcode, name: name.to_owned(), mode, value: 0, address: 0, does_write }
    }
}

} // verus!
