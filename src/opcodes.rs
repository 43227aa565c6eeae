use vstd::prelude::*;

verus! {

/// The operations of the instruction set; `UNK` stands for every opcode
/// without a defined instruction.
#[allow(non_camel_case_types)]
#[derive(Clone, Copy, Debug, PartialEq, Eq, Structural)]
pub enum Op {
    ADC, AND, ASL, BCC, BCS, BEQ, BIT, BMI, BNE, BPL, BRK, BVC, BVS, CLC, CLD, CLI, CLV, CMP, CPX, CPY, DEC, DEX, DEY, EOR, INC, INX, INY, JMP, JSR, LDA, LDX, LDY, LSR, NOP, ORA, PHA, PHP, PLA, PLP, ROL, ROR, RTI, RTS, SBC, SEC, SED, SEI, STA, STX, STY, TAX, TAY, TSX, TXA, TXS, TYA, UNK,
}

/// How an instruction finds its operand.
#[allow(non_camel_case_types)]
#[derive(Clone, Copy, Debug, PartialEq, Eq, Structural)]
pub enum AddrMode {
    /// Implied, or the accumulator itself.
    IMP,
    /// The byte after the opcode.
    IMM,
    /// A zero-page address.
    ZP0,
    /// A zero-page address plus X, wrapped within the zero page.
    ZPX,
    /// A zero-page address plus Y, wrapped within the zero page.
    ZPY,
    /// A signed 8-bit offset from the program counter.
    REL,
    /// A 16-bit address.
    ABS,
    /// A 16-bit address plus X.
    ABX,
    /// A 16-bit address plus Y.
    ABY,
    /// A 16-bit pointer to the address.
    IND,
    /// A zero-page pointer, indexed by X before the lookup.
    IZX,
    /// A zero-page pointer, indexed by Y after the lookup.
    IZY,
}

/// One entry of the dispatch table: what an opcode does, how it addresses
/// its operand, and its base cost in cycles.
#[derive(Clone, Copy, Debug, PartialEq, Eq, Structural)]
pub struct Instruction {
    pub operation: Op,
    pub addr_mode: AddrMode,
    pub cycles: u8,
}

impl Op {
    /// The assembler mnemonic, `???` for an undefined opcode.
    pub open spec fn spec_mnemonic(self) -> &'static str {
        match self {
            Op::ADC => "ADC",
            Op::AND => "AND",
            Op::ASL => "ASL",
            Op::BCC => "BCC",
            Op::BCS => "BCS",
            Op::BEQ => "BEQ",
            Op::BIT => "BIT",
            Op::BMI => "BMI",
            Op::BNE => "BNE",
            Op::BPL => "BPL",
            Op::BRK => "BRK",
            Op::BVC => "BVC",
            Op::BVS => "BVS",
            Op::CLC => "CLC",
            Op::CLD => "CLD",
            Op::CLI => "CLI",
            Op::CLV => "CLV",
            Op::CMP => "CMP",
            Op::CPX => "CPX",
            Op::CPY => "CPY",
            Op::DEC => "DEC",
            Op::DEX => "DEX",
            Op::DEY => "DEY",
            Op::EOR => "EOR",
            Op::INC => "INC",
            Op::INX => "INX",
            Op::INY => "INY",
            Op::JMP => "JMP",
            Op::JSR => "JSR",
            Op::LDA => "LDA",
            Op::LDX => "LDX",
            Op::LDY => "LDY",
            Op::LSR => "LSR",
            Op::NOP => "NOP",
            Op::ORA => "ORA",
            Op::PHA => "PHA",
            Op::PHP => "PHP",
            Op::PLA => "PLA",
            Op::PLP => "PLP",
            Op::ROL => "ROL",
            Op::ROR => "ROR",
            Op::RTI => "RTI",
            Op::RTS => "RTS",
            Op::SBC => "SBC",
            Op::SEC => "SEC",
            Op::SED => "SED",
            Op::SEI => "SEI",
            Op::STA => "STA",
            Op::STX => "STX",
            Op::STY => "STY",
            Op::TAX => "TAX",
            Op::TAY => "TAY",
            Op::TSX => "TSX",
            Op::TXA => "TXA",
            Op::TXS => "TXS",
            Op::TYA => "TYA",
            Op::UNK => "???",
        }
    }

    #[verifier::when_used_as_spec(spec_mnemonic)]
    pub fn mnemonic(self) -> (r: &'static str)
        ensures
            r == self.spec_mnemonic(),
    {
        match self {
            Op::ADC => "ADC",
            Op::AND => "AND",
            Op::ASL => "ASL",
            Op::BCC => "BCC",
            Op::BCS => "BCS",
            Op::BEQ => "BEQ",
            Op::BIT => "BIT",
            Op::BMI => "BMI",
            Op::BNE => "BNE",
            Op::BPL => "BPL",
            Op::BRK => "BRK",
            Op::BVC => "BVC",
            Op::BVS => "BVS",
            Op::CLC => "CLC",
            Op::CLD => "CLD",
            Op::CLI => "CLI",
            Op::CLV => "CLV",
            Op::CMP => "CMP",
            Op::CPX => "CPX",
            Op::CPY => "CPY",
            Op::DEC => "DEC",
            Op::DEX => "DEX",
            Op::DEY => "DEY",
            Op::EOR => "EOR",
            Op::INC => "INC",
            Op::INX => "INX",
            Op::INY => "INY",
            Op::JMP => "JMP",
            Op::JSR => "JSR",
            Op::LDA => "LDA",
            Op::LDX => "LDX",
            Op::LDY => "LDY",
            Op::LSR => "LSR",
            Op::NOP => "NOP",
            Op::ORA => "ORA",
            Op::PHA => "PHA",
            Op::PHP => "PHP",
            Op::PLA => "PLA",
            Op::PLP => "PLP",
            Op::ROL => "ROL",
            Op::ROR => "ROR",
            Op::RTI => "RTI",
            Op::RTS => "RTS",
            Op::SBC => "SBC",
            Op::SEC => "SEC",
            Op::SED => "SED",
            Op::SEI => "SEI",
            Op::STA => "STA",
            Op::STX => "STX",
            Op::STY => "STY",
            Op::TAX => "TAX",
            Op::TAY => "TAY",
            Op::TSX => "TSX",
            Op::TXA => "TXA",
            Op::TXS => "TXS",
            Op::TYA => "TYA",
            Op::UNK => "???",
        }
    }
}

/// The dispatch table: what each opcode does, how it addresses its operand
/// and what it costs. Undefined opcodes do nothing and take one cycle.
pub open spec fn instruction_of(opcode: u8) -> Instruction {
    match opcode {
        0x00 => Instruction { operation: Op::BRK, addr_mode: AddrMode::IMP, cycles: 7 },
        0x01 => Instruction { operation: Op::ORA, addr_mode: AddrMode::IZX, cycles: 6 },
        0x04 => Instruction { operation: Op::NOP, addr_mode: AddrMode::ZP0, cycles: 3 },
        0x05 => Instruction { operation: Op::ORA, addr_mode: AddrMode::ZP0, cycles: 3 },
        0x06 => Instruction { operation: Op::ASL, addr_mode: AddrMode::ZP0, cycles: 5 },
        0x08 => Instruction { operation: Op::PHP, addr_mode: AddrMode::IMP, cycles: 3 },
        0x09 => Instruction { operation: Op::ORA, addr_mode: AddrMode::IMM, cycles: 2 },
        0x0A => Instruction { operation: Op::ASL, addr_mode: AddrMode::IMP, cycles: 2 },
        0x0C => Instruction { operation: Op::NOP, addr_mode: AddrMode::ABS, cycles: 4 },
        0x0D => Instruction { operation: Op::ORA, addr_mode: AddrMode::ABS, cycles: 4 },
        0x0E => Instruction { operation: Op::ASL, addr_mode: AddrMode::ABS, cycles: 6 },
        0x10 => Instruction { operation: Op::BPL, addr_mode: AddrMode::REL, cycles: 2 },
        0x11 => Instruction { operation: Op::ORA, addr_mode: AddrMode::IZY, cycles: 5 },
        0x14 => Instruction { operation: Op::NOP, addr_mode: AddrMode::ZPX, cycles: 4 },
        0x15 => Instruction { operation: Op::ORA, addr_mode: AddrMode::ZPX, cycles: 4 },
        0x16 => Instruction { operation: Op::ASL, addr_mode: AddrMode::ZPX, cycles: 6 },
        0x18 => Instruction { operation: Op::CLC, addr_mode: AddrMode::IMP, cycles: 2 },
        0x19 => Instruction { operation: Op::ORA, addr_mode: AddrMode::ABY, cycles: 4 },
        0x1A => Instruction { operation: Op::NOP, addr_mode: AddrMode::IMP, cycles: 2 },
        0x1C => Instruction { operation: Op::NOP, addr_mode: AddrMode::ABX, cycles: 4 },
        0x1D => Instruction { operation: Op::ORA, addr_mode: AddrMode::ABX, cycles: 4 },
        0x1E => Instruction { operation: Op::ASL, addr_mode: AddrMode::ABX, cycles: 7 },
        0x20 => Instruction { operation: Op::JSR, addr_mode: AddrMode::ABS, cycles: 6 },
        0x21 => Instruction { operation: Op::AND, addr_mode: AddrMode::IZX, cycles: 6 },
        0x24 => Instruction { operation: Op::BIT, addr_mode: AddrMode::ZP0, cycles: 3 },
        0x25 => Instruction { operation: Op::AND, addr_mode: AddrMode::ZP0, cycles: 3 },
        0x26 => Instruction { operation: Op::ROL, addr_mode: AddrMode::ZP0, cycles: 5 },
        0x28 => Instruction { operation: Op::PLP, addr_mode: AddrMode::IMP, cycles: 4 },
        0x29 => Instruction { operation: Op::AND, addr_mode: AddrMode::IMM, cycles: 2 },
        0x2A => Instruction { operation: Op::ROL, addr_mode: AddrMode::IMP, cycles: 2 },
        0x2C => Instruction { operation: Op::BIT, addr_mode: AddrMode::ABS, cycles: 4 },
        0x2D => Instruction { operation: Op::AND, addr_mode: AddrMode::ABS, cycles: 4 },
        0x2E => Instruction { operation: Op::ROL, addr_mode: AddrMode::ABS, cycles: 6 },
        0x30 => Instruction { operation: Op::BMI, addr_mode: AddrMode::REL, cycles: 2 },
        0x31 => Instruction { operation: Op::AND, addr_mode: AddrMode::IZY, cycles: 5 },
        0x34 => Instruction { operation: Op::NOP, addr_mode: AddrMode::ZPX, cycles: 4 },
        0x35 => Instruction { operation: Op::AND, addr_mode: AddrMode::ZPX, cycles: 4 },
        0x36 => Instruction { operation: Op::ROL, addr_mode: AddrMode::ZPX, cycles: 6 },
        0x38 => Instruction { operation: Op::SEC, addr_mode: AddrMode::IMP, cycles: 2 },
        0x39 => Instruction { operation: Op::AND, addr_mode: AddrMode::ABY, cycles: 4 },
        0x3A => Instruction { operation: Op::NOP, addr_mode: AddrMode::IMP, cycles: 2 },
        0x3C => Instruction { operation: Op::NOP, addr_mode: AddrMode::ABX, cycles: 4 },
        0x3D => Instruction { operation: Op::AND, addr_mode: AddrMode::ABX, cycles: 4 },
        0x3E => Instruction { operation: Op::ROL, addr_mode: AddrMode::ABX, cycles: 7 },
        0x40 => Instruction { operation: Op::RTI, addr_mode: AddrMode::IMP, cycles: 6 },
        0x41 => Instruction { operation: Op::EOR, addr_mode: AddrMode::IZX, cycles: 6 },
        0x44 => Instruction { operation: Op::NOP, addr_mode: AddrMode::ZP0, cycles: 3 },
        0x45 => Instruction { operation: Op::EOR, addr_mode: AddrMode::ZP0, cycles: 3 },
        0x46 => Instruction { operation: Op::LSR, addr_mode: AddrMode::ZP0, cycles: 5 },
        0x48 => Instruction { operation: Op::PHA, addr_mode: AddrMode::IMP, cycles: 3 },
        0x49 => Instruction { operation: Op::EOR, addr_mode: AddrMode::IMM, cycles: 2 },
        0x4A => Instruction { operation: Op::LSR, addr_mode: AddrMode::IMP, cycles: 2 },
        0x4C => Instruction { operation: Op::JMP, addr_mode: AddrMode::ABS, cycles: 3 },
        0x4D => Instruction { operation: Op::EOR, addr_mode: AddrMode::ABS, cycles: 4 },
        0x4E => Instruction { operation: Op::LSR, addr_mode: AddrMode::ABS, cycles: 6 },
        0x50 => Instruction { operation: Op::BVC, addr_mode: AddrMode::REL, cycles: 2 },
        0x51 => Instruction { operation: Op::EOR, addr_mode: AddrMode::IZY, cycles: 5 },
        0x54 => Instruction { operation: Op::NOP, addr_mode: AddrMode::ZPX, cycles: 4 },
        0x55 => Instruction { operation: Op::EOR, addr_mode: AddrMode::ZPX, cycles: 4 },
        0x56 => Instruction { operation: Op::LSR, addr_mode: AddrMode::ZPX, cycles: 6 },
        0x58 => Instruction { operation: Op::CLI, addr_mode: AddrMode::IMP, cycles: 2 },
        0x59 => Instruction { operation: Op::EOR, addr_mode: AddrMode::ABY, cycles: 4 },
        0x5A => Instruction { operation: Op::NOP, addr_mode: AddrMode::IMP, cycles: 2 },
        0x5C => Instruction { operation: Op::NOP, addr_mode: AddrMode::ABX, cycles: 4 },
        0x5D => Instruction { operation: Op::EOR, addr_mode: AddrMode::ABX, cycles: 4 },
        0x5E => Instruction { operation: Op::LSR, addr_mode: AddrMode::ABX, cycles: 7 },
        0x60 => Instruction { operation: Op::RTS, addr_mode: AddrMode::IMP, cycles: 6 },
        0x61 => Instruction { operation: Op::ADC, addr_mode: AddrMode::IZX, cycles: 6 },
        0x64 => Instruction { operation: Op::NOP, addr_mode: AddrMode::ZP0, cycles: 3 },
        0x65 => Instruction { operation: Op::ADC, addr_mode: AddrMode::ZP0, cycles: 3 },
        0x66 => Instruction { operation: Op::ROR, addr_mode: AddrMode::ZP0, cycles: 5 },
        0x68 => Instruction { operation: Op::PLA, addr_mode: AddrMode::IMP, cycles: 4 },
        0x69 => Instruction { operation: Op::ADC, addr_mode: AddrMode::IMM, cycles: 2 },
        0x6A => Instruction { operation: Op::ROR, addr_mode: AddrMode::IMP, cycles: 2 },
        0x6C => Instruction { operation: Op::JMP, addr_mode: AddrMode::IND, cycles: 5 },
        0x6D => Instruction { operation: Op::ADC, addr_mode: AddrMode::ABS, cycles: 4 },
        0x6E => Instruction { operation: Op::ROR, addr_mode: AddrMode::ABS, cycles: 6 },
        0x70 => Instruction { operation: Op::BVS, addr_mode: AddrMode::REL, cycles: 2 },
        0x71 => Instruction { operation: Op::ADC, addr_mode: AddrMode::IZY, cycles: 5 },
        0x74 => Instruction { operation: Op::NOP, addr_mode: AddrMode::ZPX, cycles: 4 },
        0x75 => Instruction { operation: Op::ADC, addr_mode: AddrMode::ZPX, cycles: 4 },
        0x76 => Instruction { operation: Op::ROR, addr_mode: AddrMode::ZPX, cycles: 6 },
        0x78 => Instruction { operation: Op::SEI, addr_mode: AddrMode::IMP, cycles: 2 },
        0x79 => Instruction { operation: Op::ADC, addr_mode: AddrMode::ABY, cycles: 4 },
        0x7A => Instruction { operation: Op::NOP, addr_mode: AddrMode::IMP, cycles: 2 },
        0x7C => Instruction { operation: Op::NOP, addr_mode: AddrMode::ABX, cycles: 4 },
        0x7D => Instruction { operation: Op::ADC, addr_mode: AddrMode::ABX, cycles: 4 },
        0x7E => Instruction { operation: Op::ROR, addr_mode: AddrMode::ABX, cycles: 7 },
        0x80 => Instruction { operation: Op::NOP, addr_mode: AddrMode::IMM, cycles: 2 },
        0x81 => Instruction { operation: Op::STA, addr_mode: AddrMode::IZX, cycles: 6 },
        0x82 => Instruction { operation: Op::NOP, addr_mode: AddrMode::IMM, cycles: 2 },
        0x84 => Instruction { operation: Op::STY, addr_mode: AddrMode::ZP0, cycles: 3 },
        0x85 => Instruction { operation: Op::STA, addr_mode: AddrMode::ZP0, cycles: 3 },
        0x86 => Instruction { operation: Op::STX, addr_mode: AddrMode::ZP0, cycles: 3 },
        0x88 => Instruction { operation: Op::DEY, addr_mode: AddrMode::IMP, cycles: 2 },
        0x89 => Instruction { operation: Op::NOP, addr_mode: AddrMode::IMM, cycles: 2 },
        0x8A => Instruction { operation: Op::TXA, addr_mode: AddrMode::IMP, cycles: 2 },
        0x8C => Instruction { operation: Op::STY, addr_mode: AddrMode::ABS, cycles: 4 },
        0x8D => Instruction { operation: Op::STA, addr_mode: AddrMode::ABS, cycles: 4 },
        0x8E => Instruction { operation: Op::STX, addr_mode: AddrMode::ABS, cycles: 4 },
        0x90 => Instruction { operation: Op::BCC, addr_mode: AddrMode::REL, cycles: 2 },
        0x91 => Instruction { operation: Op::STA, addr_mode: AddrMode::IZY, cycles: 6 },
        0x94 => Instruction { operation: Op::STY, addr_mode: AddrMode::ZPX, cycles: 4 },
        0x95 => Instruction { operation: Op::STA, addr_mode: AddrMode::ZPX, cycles: 4 },
        0x96 => Instruction { operation: Op::STX, addr_mode: AddrMode::ZPY, cycles: 4 },
        0x98 => Instruction { operation: Op::TYA, addr_mode: AddrMode::IMP, cycles: 2 },
        0x99 => Instruction { operation: Op::STA, addr_mode: AddrMode::ABY, cycles: 5 },
        0x9A => Instruction { operation: Op::TXS, addr_mode: AddrMode::IMP, cycles: 2 },
        0x9D => Instruction { operation: Op::STA, addr_mode: AddrMode::ABX, cycles: 5 },
        0xA0 => Instruction { operation: Op::LDY, addr_mode: AddrMode::IMM, cycles: 2 },
        0xA1 => Instruction { operation: Op::LDA, addr_mode: AddrMode::IZX, cycles: 6 },
        0xA2 => Instruction { operation: Op::LDX, addr_mode: AddrMode::IMM, cycles: 2 },
        0xA4 => Instruction { operation: Op::LDY, addr_mode: AddrMode::ZP0, cycles: 3 },
        0xA5 => Instruction { operation: Op::LDA, addr_mode: AddrMode::ZP0, cycles: 3 },
        0xA6 => Instruction { operation: Op::LDX, addr_mode: AddrMode::ZP0, cycles: 3 },
        0xA8 => Instruction { operation: Op::TAY, addr_mode: AddrMode::IMP, cycles: 2 },
        0xA9 => Instruction { operation: Op::LDA, addr_mode: AddrMode::IMM, cycles: 2 },
        0xAA => Instruction { operation: Op::TAX, addr_mode: AddrMode::IMP, cycles: 2 },
        0xAC => Instruction { operation: Op::LDY, addr_mode: AddrMode::ABS, cycles: 4 },
        0xAD => Instruction { operation: Op::LDA, addr_mode: AddrMode::ABS, cycles: 4 },
        0xAE => Instruction { operation: Op::LDX, addr_mode: AddrMode::ABS, cycles: 4 },
        0xB0 => Instruction { operation: Op::BCS, addr_mode: AddrMode::REL, cycles: 2 },
        0xB1 => Instruction { operation: Op::LDA, addr_mode: AddrMode::IZY, cycles: 5 },
        0xB4 => Instruction { operation: Op::LDY, addr_mode: AddrMode::ZPX, cycles: 4 },
        0xB5 => Instruction { operation: Op::LDA, addr_mode: AddrMode::ZPX, cycles: 4 },
        0xB6 => Instruction { operation: Op::LDX, addr_mode: AddrMode::ZPY, cycles: 4 },
        0xB8 => Instruction { operation: Op::CLV, addr_mode: AddrMode::IMP, cycles: 2 },
        0xB9 => Instruction { operation: Op::LDA, addr_mode: AddrMode::ABY, cycles: 4 },
        0xBA => Instruction { operation: Op::TSX, addr_mode: AddrMode::IMP, cycles: 2 },
        0xBC => Instruction { operation: Op::LDY, addr_mode: AddrMode::ABX, cycles: 4 },
        0xBD => Instruction { operation: Op::LDA, addr_mode: AddrMode::ABX, cycles: 4 },
        0xBE => Instruction { operation: Op::LDX, addr_mode: AddrMode::ABY, cycles: 4 },
        0xC0 => Instruction { operation: Op::CPY, addr_mode: AddrMode::IMM, cycles: 2 },
        0xC1 => Instruction { operation: Op::CMP, addr_mode: AddrMode::IZX, cycles: 6 },
        0xC2 => Instruction { operation: Op::NOP, addr_mode: AddrMode::IMM, cycles: 2 },
        0xC4 => Instruction { operation: Op::CPY, addr_mode: AddrMode::ZP0, cycles: 3 },
        0xC5 => Instruction { operation: Op::CMP, addr_mode: AddrMode::ZP0, cycles: 3 },
        0xC6 => Instruction { operation: Op::DEC, addr_mode: AddrMode::ZP0, cycles: 5 },
        0xC8 => Instruction { operation: Op::INY, addr_mode: AddrMode::IMP, cycles: 2 },
        0xC9 => Instruction { operation: Op::CMP, addr_mode: AddrMode::IMM, cycles: 2 },
        0xCA => Instruction { operation: Op::DEX, addr_mode: AddrMode::IMP, cycles: 2 },
        0xCC => Instruction { operation: Op::CPY, addr_mode: AddrMode::ABS, cycles: 4 },
        0xCD => Instruction { operation: Op::CMP, addr_mode: AddrMode::ABS, cycles: 4 },
        0xCE => Instruction { operation: Op::DEC, addr_mode: AddrMode::ABS, cycles: 6 },
        0xD0 => Instruction { operation: Op::BNE, addr_mode: AddrMode::REL, cycles: 2 },
        0xD1 => Instruction { operation: Op::CMP, addr_mode: AddrMode::IZY, cycles: 5 },
        0xD4 => Instruction { operation: Op::NOP, addr_mode: AddrMode::ZPX, cycles: 4 },
        0xD5 => Instruction { operation: Op::CMP, addr_mode: AddrMode::ZPX, cycles: 4 },
        0xD6 => Instruction { operation: Op::DEC, addr_mode: AddrMode::ZPX, cycles: 6 },
        0xD8 => Instruction { operation: Op::CLD, addr_mode: AddrMode::IMP, cycles: 2 },
        0xD9 => Instruction { operation: Op::CMP, addr_mode: AddrMode::ABY, cycles: 4 },
        0xDA => Instruction { operation: Op::NOP, addr_mode: AddrMode::IMP, cycles: 2 },
        0xDC => Instruction { operation: Op::NOP, addr_mode: AddrMode::ABX, cycles: 4 },
        0xDD => Instruction { operation: Op::CMP, addr_mode: AddrMode::ABX, cycles: 4 },
        0xDE => Instruction { operation: Op::DEC, addr_mode: AddrMode::ABX, cycles: 7 },
        0xE0 => Instruction { operation: Op::CPX, addr_mode: AddrMode::IMM, cycles: 2 },
        0xE1 => Instruction { operation: Op::SBC, addr_mode: AddrMode::IZX, cycles: 6 },
        0xE2 => Instruction { operation: Op::NOP, addr_mode: AddrMode::IMM, cycles: 2 },
        0xE4 => Instruction { operation: Op::CPX, addr_mode: AddrMode::ZP0, cycles: 3 },
        0xE5 => Instruction { operation: Op::SBC, addr_mode: AddrMode::ZP0, cycles: 3 },
        0xE6 => Instruction { operation: Op::INC, addr_mode: AddrMode::ZP0, cycles: 5 },
        0xE8 => Instruction { operation: Op::INX, addr_mode: AddrMode::IMP, cycles: 2 },
        0xE9 => Instruction { operation: Op::SBC, addr_mode: AddrMode::IMM, cycles: 2 },
        0xEA => Instruction { operation: Op::NOP, addr_mode: AddrMode::IMP, cycles: 2 },
        0xEC => Instruction { operation: Op::CPX, addr_mode: AddrMode::ABS, cycles: 4 },
        0xED => Instruction { operation: Op::SBC, addr_mode: AddrMode::ABS, cycles: 4 },
        0xEE => Instruction { operation: Op::INC, addr_mode: AddrMode::ABS, cycles: 6 },
        0xF0 => Instruction { operation: Op::BEQ, addr_mode: AddrMode::REL, cycles: 2 },
        0xF1 => Instruction { operation: Op::SBC, addr_mode: AddrMode::IZY, cycles: 5 },
        0xF4 => Instruction { operation: Op::NOP, addr_mode: AddrMode::ZPX, cycles: 4 },
        0xF5 => Instruction { operation: Op::SBC, addr_mode: AddrMode::ZPX, cycles: 4 },
        0xF6 => Instruction { operation: Op::INC, addr_mode: AddrMode::ZPX, cycles: 6 },
        0xF8 => Instruction { operation: Op::SED, addr_mode: AddrMode::IMP, cycles: 2 },
        0xF9 => Instruction { operation: Op::SBC, addr_mode: AddrMode::ABY, cycles: 4 },
        0xFA => Instruction { operation: Op::NOP, addr_mode: AddrMode::IMP, cycles: 2 },
        0xFC => Instruction { operation: Op::NOP, addr_mode: AddrMode::ABX, cycles: 4 },
        0xFD => Instruction { operation: Op::SBC, addr_mode: AddrMode::ABX, cycles: 4 },
        0xFE => Instruction { operation: Op::INC, addr_mode: AddrMode::ABX, cycles: 7 },
        _ => Instruction { operation: Op::UNK, addr_mode: AddrMode::IMP, cycles: 1 },
    }
}

/// The dispatch-table entry for `opcode`.
#[verifier::when_used_as_spec(instruction_of)]
pub fn decode(opcode: u8) -> (r: Instruction)
    ensures
        r == instruction_of(opcode),
        1 <= r.cycles <= 7,
{
    match opcode {
        0x00 => Instruction { operation: Op::BRK, addr_mode: AddrMode::IMP, cycles: 7 },
        0x01 => Instruction { operation: Op::ORA, addr_mode: AddrMode::IZX, cycles: 6 },
        0x04 => Instruction { operation: Op::NOP, addr_mode: AddrMode::ZP0, cycles: 3 },
        0x05 => Instruction { operation: Op::ORA, addr_mode: AddrMode::ZP0, cycles: 3 },
        0x06 => Instruction { operation: Op::ASL, addr_mode: AddrMode::ZP0, cycles: 5 },
        0x08 => Instruction { operation: Op::PHP, addr_mode: AddrMode::IMP, cycles: 3 },
        0x09 => Instruction { operation: Op::ORA, addr_mode: AddrMode::IMM, cycles: 2 },
        0x0A => Instruction { operation: Op::ASL, addr_mode: AddrMode::IMP, cycles: 2 },
        0x0C => Instruction { operation: Op::NOP, addr_mode: AddrMode::ABS, cycles: 4 },
        0x0D => Instruction { operation: Op::ORA, addr_mode: AddrMode::ABS, cycles: 4 },
        0x0E => Instruction { operation: Op::ASL, addr_mode: AddrMode::ABS, cycles: 6 },
        0x10 => Instruction { operation: Op::BPL, addr_mode: AddrMode::REL, cycles: 2 },
        0x11 => Instruction { operation: Op::ORA, addr_mode: AddrMode::IZY, cycles: 5 },
        0x14 => Instruction { operation: Op::NOP, addr_mode: AddrMode::ZPX, cycles: 4 },
        0x15 => Instruction { operation: Op::ORA, addr_mode: AddrMode::ZPX, cycles: 4 },
        0x16 => Instruction { operation: Op::ASL, addr_mode: AddrMode::ZPX, cycles: 6 },
        0x18 => Instruction { operation: Op::CLC, addr_mode: AddrMode::IMP, cycles: 2 },
        0x19 => Instruction { operation: Op::ORA, addr_mode: AddrMode::ABY, cycles: 4 },
        0x1A => Instruction { operation: Op::NOP, addr_mode: AddrMode::IMP, cycles: 2 },
        0x1C => Instruction { operation: Op::NOP, addr_mode: AddrMode::ABX, cycles: 4 },
        0x1D => Instruction { operation: Op::ORA, addr_mode: AddrMode::ABX, cycles: 4 },
        0x1E => Instruction { operation: Op::ASL, addr_mode: AddrMode::ABX, cycles: 7 },
        0x20 => Instruction { operation: Op::JSR, addr_mode: AddrMode::ABS, cycles: 6 },
        0x21 => Instruction { operation: Op::AND, addr_mode: AddrMode::IZX, cycles: 6 },
        0x24 => Instruction { operation: Op::BIT, addr_mode: AddrMode::ZP0, cycles: 3 },
        0x25 => Instruction { operation: Op::AND, addr_mode: AddrMode::ZP0, cycles: 3 },
        0x26 => Instruction { operation: Op::ROL, addr_mode: AddrMode::ZP0, cycles: 5 },
        0x28 => Instruction { operation: Op::PLP, addr_mode: AddrMode::IMP, cycles: 4 },
        0x29 => Instruction { operation: Op::AND, addr_mode: AddrMode::IMM, cycles: 2 },
        0x2A => Instruction { operation: Op::ROL, addr_mode: AddrMode::IMP, cycles: 2 },
        0x2C => Instruction { operation: Op::BIT, addr_mode: AddrMode::ABS, cycles: 4 },
        0x2D => Instruction { operation: Op::AND, addr_mode: AddrMode::ABS, cycles: 4 },
        0x2E => Instruction { operation: Op::ROL, addr_mode: AddrMode::ABS, cycles: 6 },
        0x30 => Instruction { operation: Op::BMI, addr_mode: AddrMode::REL, cycles: 2 },
        0x31 => Instruction { operation: Op::AND, addr_mode: AddrMode::IZY, cycles: 5 },
        0x34 => Instruction { operation: Op::NOP, addr_mode: AddrMode::ZPX, cycles: 4 },
        0x35 => Instruction { operation: Op::AND, addr_mode: AddrMode::ZPX, cycles: 4 },
        0x36 => Instruction { operation: Op::ROL, addr_mode: AddrMode::ZPX, cycles: 6 },
        0x38 => Instruction { operation: Op::SEC, addr_mode: AddrMode::IMP, cycles: 2 },
        0x39 => Instruction { operation: Op::AND, addr_mode: AddrMode::ABY, cycles: 4 },
        0x3A => Instruction { operation: Op::NOP, addr_mode: AddrMode::IMP, cycles: 2 },
        0x3C => Instruction { operation: Op::NOP, addr_mode: AddrMode::ABX, cycles: 4 },
        0x3D => Instruction { operation: Op::AND, addr_mode: AddrMode::ABX, cycles: 4 },
        0x3E => Instruction { operation: Op::ROL, addr_mode: AddrMode::ABX, cycles: 7 },
        0x40 => Instruction { operation: Op::RTI, addr_mode: AddrMode::IMP, cycles: 6 },
        0x41 => Instruction { operation: Op::EOR, addr_mode: AddrMode::IZX, cycles: 6 },
        0x44 => Instruction { operation: Op::NOP, addr_mode: AddrMode::ZP0, cycles: 3 },
        0x45 => Instruction { operation: Op::EOR, addr_mode: AddrMode::ZP0, cycles: 3 },
        0x46 => Instruction { operation: Op::LSR, addr_mode: AddrMode::ZP0, cycles: 5 },
        0x48 => Instruction { operation: Op::PHA, addr_mode: AddrMode::IMP, cycles: 3 },
        0x49 => Instruction { operation: Op::EOR, addr_mode: AddrMode::IMM, cycles: 2 },
        0x4A => Instruction { operation: Op::LSR, addr_mode: AddrMode::IMP, cycles: 2 },
        0x4C => Instruction { operation: Op::JMP, addr_mode: AddrMode::ABS, cycles: 3 },
        0x4D => Instruction { operation: Op::EOR, addr_mode: AddrMode::ABS, cycles: 4 },
        0x4E => Instruction { operation: Op::LSR, addr_mode: AddrMode::ABS, cycles: 6 },
        0x50 => Instruction { operation: Op::BVC, addr_mode: AddrMode::REL, cycles: 2 },
        0x51 => Instruction { operation: Op::EOR, addr_mode: AddrMode::IZY, cycles: 5 },
        0x54 => Instruction { operation: Op::NOP, addr_mode: AddrMode::ZPX, cycles: 4 },
        0x55 => Instruction { operation: Op::EOR, addr_mode: AddrMode::ZPX, cycles: 4 },
        0x56 => Instruction { operation: Op::LSR, addr_mode: AddrMode::ZPX, cycles: 6 },
        0x58 => Instruction { operation: Op::CLI, addr_mode: AddrMode::IMP, cycles: 2 },
        0x59 => Instruction { operation: Op::EOR, addr_mode: AddrMode::ABY, cycles: 4 },
        0x5A => Instruction { operation: Op::NOP, addr_mode: AddrMode::IMP, cycles: 2 },
        0x5C => Instruction { operation: Op::NOP, addr_mode: AddrMode::ABX, cycles: 4 },
        0x5D => Instruction { operation: Op::EOR, addr_mode: AddrMode::ABX, cycles: 4 },
        0x5E => Instruction { operation: Op::LSR, addr_mode: AddrMode::ABX, cycles: 7 },
        0x60 => Instruction { operation: Op::RTS, addr_mode: AddrMode::IMP, cycles: 6 },
        0x61 => Instruction { operation: Op::ADC, addr_mode: AddrMode::IZX, cycles: 6 },
        0x64 => Instruction { operation: Op::NOP, addr_mode: AddrMode::ZP0, cycles: 3 },
        0x65 => Instruction { operation: Op::ADC, addr_mode: AddrMode::ZP0, cycles: 3 },
        0x66 => Instruction { operation: Op::ROR, addr_mode: AddrMode::ZP0, cycles: 5 },
        0x68 => Instruction { operation: Op::PLA, addr_mode: AddrMode::IMP, cycles: 4 },
        0x69 => Instruction { operation: Op::ADC, addr_mode: AddrMode::IMM, cycles: 2 },
        0x6A => Instruction { operation: Op::ROR, addr_mode: AddrMode::IMP, cycles: 2 },
        0x6C => Instruction { operation: Op::JMP, addr_mode: AddrMode::IND, cycles: 5 },
        0x6D => Instruction { operation: Op::ADC, addr_mode: AddrMode::ABS, cycles: 4 },
        0x6E => Instruction { operation: Op::ROR, addr_mode: AddrMode::ABS, cycles: 6 },
        0x70 => Instruction { operation: Op::BVS, addr_mode: AddrMode::REL, cycles: 2 },
        0x71 => Instruction { operation: Op::ADC, addr_mode: AddrMode::IZY, cycles: 5 },
        0x74 => Instruction { operation: Op::NOP, addr_mode: AddrMode::ZPX, cycles: 4 },
        0x75 => Instruction { operation: Op::ADC, addr_mode: AddrMode::ZPX, cycles: 4 },
        0x76 => Instruction { operation: Op::ROR, addr_mode: AddrMode::ZPX, cycles: 6 },
        0x78 => Instruction { operation: Op::SEI, addr_mode: AddrMode::IMP, cycles: 2 },
        0x79 => Instruction { operation: Op::ADC, addr_mode: AddrMode::ABY, cycles: 4 },
        0x7A => Instruction { operation: Op::NOP, addr_mode: AddrMode::IMP, cycles: 2 },
        0x7C => Instruction { operation: Op::NOP, addr_mode: AddrMode::ABX, cycles: 4 },
        0x7D => Instruction { operation: Op::ADC, addr_mode: AddrMode::ABX, cycles: 4 },
        0x7E => Instruction { operation: Op::ROR, addr_mode: AddrMode::ABX, cycles: 7 },
        0x80 => Instruction { operation: Op::NOP, addr_mode: AddrMode::IMM, cycles: 2 },
        0x81 => Instruction { operation: Op::STA, addr_mode: AddrMode::IZX, cycles: 6 },
        0x82 => Instruction { operation: Op::NOP, addr_mode: AddrMode::IMM, cycles: 2 },
        0x84 => Instruction { operation: Op::STY, addr_mode: AddrMode::ZP0, cycles: 3 },
        0x85 => Instruction { operation: Op::STA, addr_mode: AddrMode::ZP0, cycles: 3 },
        0x86 => Instruction { operation: Op::STX, addr_mode: AddrMode::ZP0, cycles: 3 },
        0x88 => Instruction { operation: Op::DEY, addr_mode: AddrMode::IMP, cycles: 2 },
        0x89 => Instruction { operation: Op::NOP, addr_mode: AddrMode::IMM, cycles: 2 },
        0x8A => Instruction { operation: Op::TXA, addr_mode: AddrMode::IMP, cycles: 2 },
        0x8C => Instruction { operation: Op::STY, addr_mode: AddrMode::ABS, cycles: 4 },
        0x8D => Instruction { operation: Op::STA, addr_mode: AddrMode::ABS, cycles: 4 },
        0x8E => Instruction { operation: Op::STX, addr_mode: AddrMode::ABS, cycles: 4 },
        0x90 => Instruction { operation: Op::BCC, addr_mode: AddrMode::REL, cycles: 2 },
        0x91 => Instruction { operation: Op::STA, addr_mode: AddrMode::IZY, cycles: 6 },
        0x94 => Instruction { operation: Op::STY, addr_mode: AddrMode::ZPX, cycles: 4 },
        0x95 => Instruction { operation: Op::STA, addr_mode: AddrMode::ZPX, cycles: 4 },
        0x96 => Instruction { operation: Op::STX, addr_mode: AddrMode::ZPY, cycles: 4 },
        0x98 => Instruction { operation: Op::TYA, addr_mode: AddrMode::IMP, cycles: 2 },
        0x99 => Instruction { operation: Op::STA, addr_mode: AddrMode::ABY, cycles: 5 },
        0x9A => Instruction { operation: Op::TXS, addr_mode: AddrMode::IMP, cycles: 2 },
        0x9D => Instruction { operation: Op::STA, addr_mode: AddrMode::ABX, cycles: 5 },
        0xA0 => Instruction { operation: Op::LDY, addr_mode: AddrMode::IMM, cycles: 2 },
        0xA1 => Instruction { operation: Op::LDA, addr_mode: AddrMode::IZX, cycles: 6 },
        0xA2 => Instruction { operation: Op::LDX, addr_mode: AddrMode::IMM, cycles: 2 },
        0xA4 => Instruction { operation: Op::LDY, addr_mode: AddrMode::ZP0, cycles: 3 },
        0xA5 => Instruction { operation: Op::LDA, addr_mode: AddrMode::ZP0, cycles: 3 },
        0xA6 => Instruction { operation: Op::LDX, addr_mode: AddrMode::ZP0, cycles: 3 },
        0xA8 => Instruction { operation: Op::TAY, addr_mode: AddrMode::IMP, cycles: 2 },
        0xA9 => Instruction { operation: Op::LDA, addr_mode: AddrMode::IMM, cycles: 2 },
        0xAA => Instruction { operation: Op::TAX, addr_mode: AddrMode::IMP, cycles: 2 },
        0xAC => Instruction { operation: Op::LDY, addr_mode: AddrMode::ABS, cycles: 4 },
        0xAD => Instruction { operation: Op::LDA, addr_mode: AddrMode::ABS, cycles: 4 },
        0xAE => Instruction { operation: Op::LDX, addr_mode: AddrMode::ABS, cycles: 4 },
        0xB0 => Instruction { operation: Op::BCS, addr_mode: AddrMode::REL, cycles: 2 },
        0xB1 => Instruction { operation: Op::LDA, addr_mode: AddrMode::IZY, cycles: 5 },
        0xB4 => Instruction { operation: Op::LDY, addr_mode: AddrMode::ZPX, cycles: 4 },
        0xB5 => Instruction { operation: Op::LDA, addr_mode: AddrMode::ZPX, cycles: 4 },
        0xB6 => Instruction { operation: Op::LDX, addr_mode: AddrMode::ZPY, cycles: 4 },
        0xB8 => Instruction { operation: Op::CLV, addr_mode: AddrMode::IMP, cycles: 2 },
        0xB9 => Instruction { operation: Op::LDA, addr_mode: AddrMode::ABY, cycles: 4 },
        0xBA => Instruction { operation: Op::TSX, addr_mode: AddrMode::IMP, cycles: 2 },
        0xBC => Instruction { operation: Op::LDY, addr_mode: AddrMode::ABX, cycles: 4 },
        0xBD => Instruction { operation: Op::LDA, addr_mode: AddrMode::ABX, cycles: 4 },
        0xBE => Instruction { operation: Op::LDX, addr_mode: AddrMode::ABY, cycles: 4 },
        0xC0 => Instruction { operation: Op::CPY, addr_mode: AddrMode::IMM, cycles: 2 },
        0xC1 => Instruction { operation: Op::CMP, addr_mode: AddrMode::IZX, cycles: 6 },
        0xC2 => Instruction { operation: Op::NOP, addr_mode: AddrMode::IMM, cycles: 2 },
        0xC4 => Instruction { operation: Op::CPY, addr_mode: AddrMode::ZP0, cycles: 3 },
        0xC5 => Instruction { operation: Op::CMP, addr_mode: AddrMode::ZP0, cycles: 3 },
        0xC6 => Instruction { operation: Op::DEC, addr_mode: AddrMode::ZP0, cycles: 5 },
        0xC8 => Instruction { operation: Op::INY, addr_mode: AddrMode::IMP, cycles: 2 },
        0xC9 => Instruction { operation: Op::CMP, addr_mode: AddrMode::IMM, cycles: 2 },
        0xCA => Instruction { operation: Op::DEX, addr_mode: AddrMode::IMP, cycles: 2 },
        0xCC => Instruction { operation: Op::CPY, addr_mode: AddrMode::ABS, cycles: 4 },
        0xCD => Instruction { operation: Op::CMP, addr_mode: AddrMode::ABS, cycles: 4 },
        0xCE => Instruction { operation: Op::DEC, addr_mode: AddrMode::ABS, cycles: 6 },
        0xD0 => Instruction { operation: Op::BNE, addr_mode: AddrMode::REL, cycles: 2 },
        0xD1 => Instruction { operation: Op::CMP, addr_mode: AddrMode::IZY, cycles: 5 },
        0xD4 => Instruction { operation: Op::NOP, addr_mode: AddrMode::ZPX, cycles: 4 },
        0xD5 => Instruction { operation: Op::CMP, addr_mode: AddrMode::ZPX, cycles: 4 },
        0xD6 => Instruction { operation: Op::DEC, addr_mode: AddrMode::ZPX, cycles: 6 },
        0xD8 => Instruction { operation: Op::CLD, addr_mode: AddrMode::IMP, cycles: 2 },
        0xD9 => Instruction { operation: Op::CMP, addr_mode: AddrMode::ABY, cycles: 4 },
        0xDA => Instruction { operation: Op::NOP, addr_mode: AddrMode::IMP, cycles: 2 },
        0xDC => Instruction { operation: Op::NOP, addr_mode: AddrMode::ABX, cycles: 4 },
        0xDD => Instruction { operation: Op::CMP, addr_mode: AddrMode::ABX, cycles: 4 },
        0xDE => Instruction { operation: Op::DEC, addr_mode: AddrMode::ABX, cycles: 7 },
        0xE0 => Instruction { operation: Op::CPX, addr_mode: AddrMode::IMM, cycles: 2 },
        0xE1 => Instruction { operation: Op::SBC, addr_mode: AddrMode::IZX, cycles: 6 },
        0xE2 => Instruction { operation: Op::NOP, addr_mode: AddrMode::IMM, cycles: 2 },
        0xE4 => Instruction { operation: Op::CPX, addr_mode: AddrMode::ZP0, cycles: 3 },
        0xE5 => Instruction { operation: Op::SBC, addr_mode: AddrMode::ZP0, cycles: 3 },
        0xE6 => Instruction { operation: Op::INC, addr_mode: AddrMode::ZP0, cycles: 5 },
        0xE8 => Instruction { operation: Op::INX, addr_mode: AddrMode::IMP, cycles: 2 },
        0xE9 => Instruction { operation: Op::SBC, addr_mode: AddrMode::IMM, cycles: 2 },
        0xEA => Instruction { operation: Op::NOP, addr_mode: AddrMode::IMP, cycles: 2 },
        0xEC => Instruction { operation: Op::CPX, addr_mode: AddrMode::ABS, cycles: 4 },
        0xED => Instruction { operation: Op::SBC, addr_mode: AddrMode::ABS, cycles: 4 },
        0xEE => Instruction { operation: Op::INC, addr_mode: AddrMode::ABS, cycles: 6 },
        0xF0 => Instruction { operation: Op::BEQ, addr_mode: AddrMode::REL, cycles: 2 },
        0xF1 => Instruction { operation: Op::SBC, addr_mode: AddrMode::IZY, cycles: 5 },
        0xF4 => Instruction { operation: Op::NOP, addr_mode: AddrMode::ZPX, cycles: 4 },
        0xF5 => Instruction { operation: Op::SBC, addr_mode: AddrMode::ZPX, cycles: 4 },
        0xF6 => Instruction { operation: Op::INC, addr_mode: AddrMode::ZPX, cycles: 6 },
        0xF8 => Instruction { operation: Op::SED, addr_mode: AddrMode::IMP, cycles: 2 },
        0xF9 => Instruction { operation: Op::SBC, addr_mode: AddrMode::ABY, cycles: 4 },
        0xFA => Instruction { operation: Op::NOP, addr_mode: AddrMode::IMP, cycles: 2 },
        0xFC => Instruction { operation: Op::NOP, addr_mode: AddrMode::ABX, cycles: 4 },
        0xFD => Instruction { operation: Op::SBC, addr_mode: AddrMode::ABX, cycles: 4 },
        0xFE => Instruction { operation: Op::INC, addr_mode: AddrMode::ABX, cycles: 7 },
        _ => Instruction { operation: Op::UNK, addr_mode: AddrMode::IMP, cycles: 1 },
    }
}

} // verus!
