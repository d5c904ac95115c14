//! The decode stage: opcode bytes, their operations, operand forms and base costs.

use vstd::prelude::*;

verus! {

/// The operation that an opcode performs.
#[derive(Debug, Clone, Copy, PartialEq, Eq, Structural)]
pub enum Mnemonic {
    ADC, AND, ASL, BIT, BPL, BMI, BVC, BVS, BCC, BCS, BNE, BEQ, BRK, CMP, CPX, CPY,
    DEC, EOR, CLC, SEC, CLI, SEI, CLV, CLD, SED, INC, JMP, JSR, LDA, LDX, LDY, LSR,
    NOP, ORA, TAX, TXA, DEX, INX, TAY, TYA, DEY, INY, ROL, ROR, RTI, RTS, SBC, STA,
    TXS, TSX, PHA, PLA, PHP, PLP, STX, STY,
    /// Undocumented operations whose effect depends on analog behaviour of the chip:
    /// executing one halts the processor.
    XAA, LAX,
}

/// Where an instruction finds its operand.
#[derive(Debug, Clone, Copy, PartialEq, Eq, Structural)]
pub enum AddressingMode {
    Immediate,
    Zero,
    ZeroX,
    ZeroY,
    Absolute,
    AbsoluteX,
    AbsoluteY,
    Indirect,
    IndirectX,
    IndirectY,
    Implied,
    Relative,
    Accumulator,
}

/// One row of the instruction table.
#[derive(Debug, Clone, Copy, PartialEq, Eq, Structural)]
pub struct Instruction {
    pub opcode: u8,
    pub mnemonic: Mnemonic,
    pub mode: AddressingMode,
    /// Base cost in processor cycles.
    pub time: u8,
}

/// The largest base cost in the table.
pub const MAX_INSTRUCTION_TIME: u8 = 7;

/// Modes whose operand is a single byte, either inline or read from an effective address.
pub open spec fn is_value_mode(mode: AddressingMode) -> bool {
    match mode {
        AddressingMode::Indirect | AddressingMode::Implied | AddressingMode::Relative
        | AddressingMode::Accumulator => false,
        _ => true,
    }
}

/// Modes that resolve to an effective address in memory.
pub open spec fn is_address_mode(mode: AddressingMode) -> bool {
    match mode {
        AddressingMode::Immediate | AddressingMode::Implied | AddressingMode::Relative
        | AddressingMode::Accumulator => false,
        _ => true,
    }
}

/// Whether an operation can be carried out with the given operand form.
pub open spec fn fits(mnemonic: Mnemonic, mode: AddressingMode) -> bool {
    match mnemonic {
        Mnemonic::ADC | Mnemonic::AND | Mnemonic::CMP | Mnemonic::CPX | Mnemonic::CPY
        | Mnemonic::EOR | Mnemonic::LDA | Mnemonic::LDX | Mnemonic::LDY | Mnemonic::ORA
        | Mnemonic::SBC => is_value_mode(mode),
        Mnemonic::BIT | Mnemonic::DEC | Mnemonic::INC | Mnemonic::STA | Mnemonic::STX
        | Mnemonic::STY => is_address_mode(mode),
        Mnemonic::ASL | Mnemonic::LSR | Mnemonic::ROL | Mnemonic::ROR => mode
            == AddressingMode::Accumulator || is_address_mode(mode),
        Mnemonic::JMP => mode == AddressingMode::Absolute || mode == AddressingMode::Indirect,
        Mnemonic::NOP => mode == AddressingMode::Implied || is_value_mode(mode),
        _ => true,
    }
}

/// A table row that the engine can carry out.
pub open spec fn well_formed(i: Instruction) -> bool {
    fits(i.mnemonic, i.mode) && i.time <= MAX_INSTRUCTION_TIME
}

/// The instruction table: operation, operand form and base cost of each opcode that the
/// processor knows.
pub open spec fn table(opcode: u8) -> Option<(Mnemonic, AddressingMode, u8)> {
    match opcode {
        0x00 => Some((Mnemonic::BRK, AddressingMode::Implied, 7)),
        0x01 => Some((Mnemonic::ORA, AddressingMode::IndirectX, 6)),
        0x05 => Some((Mnemonic::ORA, AddressingMode::Zero, 3)),
        0x06 => Some((Mnemonic::ASL, AddressingMode::Zero, 5)),
        0x08 => Some((Mnemonic::PHP, AddressingMode::Implied, 3)),
        0x09 => Some((Mnemonic::ORA, AddressingMode::Immediate, 2)),
        0x0a => Some((Mnemonic::ASL, AddressingMode::Accumulator, 2)),
        0x0d => Some((Mnemonic::ORA, AddressingMode::Absolute, 4)),
        0x0e => Some((Mnemonic::ASL, AddressingMode::Absolute, 6)),
        0x10 => Some((Mnemonic::BPL, AddressingMode::Relative, 3)),
        0x11 => Some((Mnemonic::ORA, AddressingMode::IndirectY, 5)),
        0x15 => Some((Mnemonic::ORA, AddressingMode::ZeroX, 4)),
        0x16 => Some((Mnemonic::ASL, AddressingMode::ZeroX, 6)),
        0x18 => Some((Mnemonic::CLC, AddressingMode::Implied, 2)),
        0x19 => Some((Mnemonic::ORA, AddressingMode::AbsoluteY, 4)),
        0x1d => Some((Mnemonic::ORA, AddressingMode::AbsoluteX, 4)),
        0x1e => Some((Mnemonic::ASL, AddressingMode::AbsoluteX, 7)),
        0x20 => Some((Mnemonic::JSR, AddressingMode::Absolute, 6)),
        0x21 => Some((Mnemonic::AND, AddressingMode::IndirectX, 6)),
        0x24 => Some((Mnemonic::BIT, AddressingMode::Zero, 3)),
        0x25 => Some((Mnemonic::AND, AddressingMode::Zero, 3)),
        0x26 => Some((Mnemonic::ROL, AddressingMode::Zero, 5)),
        0x28 => Some((Mnemonic::PLP, AddressingMode::Implied, 4)),
        0x29 => Some((Mnemonic::AND, AddressingMode::Immediate, 2)),
        0x2a => Some((Mnemonic::ROL, AddressingMode::Accumulator, 2)),
        0x2c => Some((Mnemonic::BIT, AddressingMode::Absolute, 4)),
        0x2d => Some((Mnemonic::AND, AddressingMode::Absolute, 4)),
        0x2e => Some((Mnemonic::ROL, AddressingMode::Absolute, 6)),
        0x30 => Some((Mnemonic::BMI, AddressingMode::Relative, 3)),
        0x31 => Some((Mnemonic::AND, AddressingMode::IndirectY, 5)),
        0x35 => Some((Mnemonic::AND, AddressingMode::ZeroX, 4)),
        0x36 => Some((Mnemonic::ROL, AddressingMode::ZeroX, 6)),
        0x38 => Some((Mnemonic::SEC, AddressingMode::Implied, 2)),
        0x39 => Some((Mnemonic::AND, AddressingMode::AbsoluteY, 4)),
        0x3d => Some((Mnemonic::AND, AddressingMode::AbsoluteX, 4)),
        0x3e => Some((Mnemonic::ROL, AddressingMode::AbsoluteX, 7)),
        0x40 => Some((Mnemonic::RTI, AddressingMode::Implied, 6)),
        0x41 => Some((Mnemonic::EOR, AddressingMode::IndirectX, 6)),
        0x45 => Some((Mnemonic::EOR, AddressingMode::Zero, 3)),
        0x46 => Some((Mnemonic::LSR, AddressingMode::Zero, 5)),
        0x48 => Some((Mnemonic::PHA, AddressingMode::Implied, 3)),
        0x49 => Some((Mnemonic::EOR, AddressingMode::Immediate, 2)),
        0x4a => Some((Mnemonic::LSR, AddressingMode::Accumulator, 2)),
        0x4c => Some((Mnemonic::JMP, AddressingMode::Absolute, 3)),
        0x4d => Some((Mnemonic::EOR, AddressingMode::Absolute, 4)),
        0x4e => Some((Mnemonic::LSR, AddressingMode::Absolute, 6)),
        0x50 => Some((Mnemonic::BVC, AddressingMode::Relative, 3)),
        0x51 => Some((Mnemonic::EOR, AddressingMode::IndirectY, 5)),
        0x55 => Some((Mnemonic::EOR, AddressingMode::ZeroX, 4)),
        0x56 => Some((Mnemonic::LSR, AddressingMode::ZeroX, 6)),
        0x58 => Some((Mnemonic::CLI, AddressingMode::Implied, 2)),
        0x59 => Some((Mnemonic::EOR, AddressingMode::AbsoluteY, 4)),
        0x5d => Some((Mnemonic::EOR, AddressingMode::AbsoluteX, 4)),
        0x5e => Some((Mnemonic::LSR, AddressingMode::AbsoluteX, 7)),
        0x60 => Some((Mnemonic::RTS, AddressingMode::Implied, 6)),
        0x61 => Some((Mnemonic::ADC, AddressingMode::IndirectX, 6)),
        0x65 => Some((Mnemonic::ADC, AddressingMode::Zero, 3)),
        0x66 => Some((Mnemonic::ROR, AddressingMode::Zero, 5)),
        0x68 => Some((Mnemonic::PLA, AddressingMode::Implied, 4)),
        0x69 => Some((Mnemonic::ADC, AddressingMode::Immediate, 2)),
        0x6a => Some((Mnemonic::ROR, AddressingMode::Accumulator, 2)),
        0x6c => Some((Mnemonic::JMP, AddressingMode::Indirect, 5)),
        0x6d => Some((Mnemonic::ADC, AddressingMode::Absolute, 4)),
        0x6e => Some((Mnemonic::ROR, AddressingMode::Absolute, 6)),
        0x70 => Some((Mnemonic::BVS, AddressingMode::Relative, 3)),
        0x71 => Some((Mnemonic::ADC, AddressingMode::IndirectY, 5)),
        0x75 => Some((Mnemonic::ADC, AddressingMode::ZeroX, 4)),
        0x76 => Some((Mnemonic::ROR, AddressingMode::ZeroX, 6)),
        0x78 => Some((Mnemonic::SEI, AddressingMode::Implied, 2)),
        0x79 => Some((Mnemonic::ADC, AddressingMode::AbsoluteY, 4)),
        0x7d => Some((Mnemonic::ADC, AddressingMode::AbsoluteX, 4)),
        0x7e => Some((Mnemonic::ROR, AddressingMode::AbsoluteX, 7)),
        0x81 => Some((Mnemonic::STA, AddressingMode::IndirectX, 6)),
        0x84 => Some((Mnemonic::STY, AddressingMode::Zero, 3)),
        0x85 => Some((Mnemonic::STA, AddressingMode::Zero, 3)),
        0x86 => Some((Mnemonic::STX, AddressingMode::Zero, 3)),
        0x88 => Some((Mnemonic::DEY, AddressingMode::Implied, 2)),
        0x8a => Some((Mnemonic::TXA, AddressingMode::Implied, 2)),
        0x8b => Some((Mnemonic::XAA, AddressingMode::Immediate, 2)),
        0x8c => Some((Mnemonic::STY, AddressingMode::Absolute, 4)),
        0x8d => Some((Mnemonic::STA, AddressingMode::Absolute, 4)),
        0x8e => Some((Mnemonic::STX, AddressingMode::Absolute, 4)),
        0x90 => Some((Mnemonic::BCC, AddressingMode::Relative, 3)),
        0x91 => Some((Mnemonic::STA, AddressingMode::IndirectY, 6)),
        0x94 => Some((Mnemonic::STY, AddressingMode::ZeroX, 4)),
        0x95 => Some((Mnemonic::STA, AddressingMode::ZeroX, 4)),
        0x96 => Some((Mnemonic::STX, AddressingMode::ZeroY, 4)),
        0x98 => Some((Mnemonic::TYA, AddressingMode::Implied, 2)),
        0x99 => Some((Mnemonic::STA, AddressingMode::AbsoluteY, 5)),
        0x9a => Some((Mnemonic::TXS, AddressingMode::Implied, 2)),
        0x9d => Some((Mnemonic::STA, AddressingMode::AbsoluteX, 5)),
        0xa0 => Some((Mnemonic::LDY, AddressingMode::Immediate, 2)),
        0xa1 => Some((Mnemonic::LDA, AddressingMode::IndirectX, 6)),
        0xa2 => Some((Mnemonic::LDX, AddressingMode::Immediate, 2)),
        0xa4 => Some((Mnemonic::LDY, AddressingMode::Zero, 3)),
        0xa5 => Some((Mnemonic::LDA, AddressingMode::Zero, 3)),
        0xa6 => Some((Mnemonic::LDX, AddressingMode::Zero, 3)),
        0xa8 => Some((Mnemonic::TAY, AddressingMode::Implied, 2)),
        0xa9 => Some((Mnemonic::LDA, AddressingMode::Immediate, 2)),
        0xaa => Some((Mnemonic::TAX, AddressingMode::Implied, 2)),
        0xab => Some((Mnemonic::LAX, AddressingMode::Immediate, 2)),
        0xac => Some((Mnemonic::LDY, AddressingMode::Absolute, 4)),
        0xad => Some((Mnemonic::LDA, AddressingMode::Absolute, 4)),
        0xae => Some((Mnemonic::LDX, AddressingMode::Absolute, 4)),
        0xb0 => Some((Mnemonic::BCS, AddressingMode::Relative, 3)),
        0xb1 => Some((Mnemonic::LDA, AddressingMode::IndirectY, 5)),
        0xb4 => Some((Mnemonic::LDY, AddressingMode::ZeroX, 4)),
        0xb5 => Some((Mnemonic::LDA, AddressingMode::ZeroX, 4)),
        0xb6 => Some((Mnemonic::LDX, AddressingMode::ZeroY, 4)),
        0xb8 => Some((Mnemonic::CLV, AddressingMode::Implied, 2)),
        0xb9 => Some((Mnemonic::LDA, AddressingMode::AbsoluteY, 4)),
        0xba => Some((Mnemonic::TSX, AddressingMode::Implied, 2)),
        0xbc => Some((Mnemonic::LDY, AddressingMode::AbsoluteX, 4)),
        0xbd => Some((Mnemonic::LDA, AddressingMode::AbsoluteX, 4)),
        0xbe => Some((Mnemonic::LDX, AddressingMode::AbsoluteY, 4)),
        0xc0 => Some((Mnemonic::CPY, AddressingMode::Immediate, 2)),
        0xc1 => Some((Mnemonic::CMP, AddressingMode::IndirectX, 6)),
        0xc4 => Some((Mnemonic::CPY, AddressingMode::Zero, 3)),
        0xc5 => Some((Mnemonic::CMP, AddressingMode::Zero, 3)),
        0xc6 => Some((Mnemonic::DEC, AddressingMode::Zero, 5)),
        0xc8 => Some((Mnemonic::INY, AddressingMode::Implied, 2)),
        0xc9 => Some((Mnemonic::CMP, AddressingMode::Immediate, 2)),
        0xca => Some((Mnemonic::DEX, AddressingMode::Implied, 2)),
        0xcc => Some((Mnemonic::CPY, AddressingMode::Absolute, 4)),
        0xcd => Some((Mnemonic::CMP, AddressingMode::Absolute, 4)),
        0xce => Some((Mnemonic::DEC, AddressingMode::Absolute, 6)),
        0xd0 => Some((Mnemonic::BNE, AddressingMode::Relative, 3)),
        0xd1 => Some((Mnemonic::CMP, AddressingMode::IndirectY, 5)),
        0xd5 => Some((Mnemonic::CMP, AddressingMode::ZeroX, 4)),
        0xd6 => Some((Mnemonic::DEC, AddressingMode::ZeroX, 6)),
        0xd8 => Some((Mnemonic::CLD, AddressingMode::Implied, 2)),
        0xd9 => Some((Mnemonic::CMP, AddressingMode::AbsoluteY, 4)),
        0xdd => Some((Mnemonic::CMP, AddressingMode::AbsoluteX, 4)),
        0xde => Some((Mnemonic::DEC, AddressingMode::AbsoluteX, 7)),
        0xe0 => Some((Mnemonic::CPX, AddressingMode::Immediate, 2)),
        0xe1 => Some((Mnemonic::SBC, AddressingMode::IndirectX, 6)),
        0xe4 => Some((Mnemonic::CPX, AddressingMode::Zero, 3)),
        0xe5 => Some((Mnemonic::SBC, AddressingMode::Zero, 3)),
        0xe6 => Some((Mnemonic::INC, AddressingMode::Zero, 5)),
        0xe8 => Some((Mnemonic::INX, AddressingMode::Implied, 2)),
        0xe9 => Some((Mnemonic::SBC, AddressingMode::Immediate, 2)),
        0xea => Some((Mnemonic::NOP, AddressingMode::Implied, 2)),
        0xec => Some((Mnemonic::CPX, AddressingMode::Absolute, 4)),
        0xed => Some((Mnemonic::SBC, AddressingMode::Absolute, 4)),
        0xee => Some((Mnemonic::INC, AddressingMode::Absolute, 6)),
        0xf0 => Some((Mnemonic::BEQ, AddressingMode::Relative, 3)),
        0xf1 => Some((Mnemonic::SBC, AddressingMode::IndirectY, 5)),
        0xf5 => Some((Mnemonic::SBC, AddressingMode::ZeroX, 4)),
        0xf6 => Some((Mnemonic::INC, AddressingMode::ZeroX, 6)),
        0xf8 => Some((Mnemonic::SED, AddressingMode::Implied, 2)),
        0xf9 => Some((Mnemonic::SBC, AddressingMode::AbsoluteY, 4)),
        0xfd => Some((Mnemonic::SBC, AddressingMode::AbsoluteX, 4)),
        0xfe => Some((Mnemonic::INC, AddressingMode::AbsoluteX, 7)),
        _ => None,
    }
}

/// The instruction that an opcode byte decodes to, if any.
pub open spec fn decode(opcode: u8) -> Option<Instruction> {
    match table(opcode) {
        Some((mnemonic, mode, time)) => Some(Instruction { opcode, mnemonic, mode, time }),
        None => None,
    }
}

fn table_row(opcode: u8) -> (r: Option<(Mnemonic, AddressingMode, u8)>)
    ensures
        r == table(opcode),
{
    match opcode {
        0x00 => Some((Mnemonic::BRK, AddressingMode::Implied, 7)),
        0x01 => Some((Mnemonic::ORA, AddressingMode::IndirectX, 6)),
        0x05 => Some((Mnemonic::ORA, AddressingMode::Zero, 3)),
        0x06 => Some((Mnemonic::ASL, AddressingMode::Zero, 5)),
        0x08 => Some((Mnemonic::PHP, AddressingMode::Implied, 3)),
        0x09 => Some((Mnemonic::ORA, AddressingMode::Immediate, 2)),
        0x0a => Some((Mnemonic::ASL, AddressingMode::Accumulator, 2)),
        0x0d => Some((Mnemonic::ORA, AddressingMode::Absolute, 4)),
        0x0e => Some((Mnemonic::ASL, AddressingMode::Absolute, 6)),
        0x10 => Some((Mnemonic::BPL, AddressingMode::Relative, 3)),
        0x11 => Some((Mnemonic::ORA, AddressingMode::IndirectY, 5)),
        0x15 => Some((Mnemonic::ORA, AddressingMode::ZeroX, 4)),
        0x16 => Some((Mnemonic::ASL, AddressingMode::ZeroX, 6)),
        0x18 => Some((Mnemonic::CLC, AddressingMode::Implied, 2)),
        0x19 => Some((Mnemonic::ORA, AddressingMode::AbsoluteY, 4)),
        0x1d => Some((Mnemonic::ORA, AddressingMode::AbsoluteX, 4)),
        0x1e => Some((Mnemonic::ASL, AddressingMode::AbsoluteX, 7)),
        0x20 => Some((Mnemonic::JSR, AddressingMode::Absolute, 6)),
        0x21 => Some((Mnemonic::AND, AddressingMode::IndirectX, 6)),
        0x24 => Some((Mnemonic::BIT, AddressingMode::Zero, 3)),
        0x25 => Some((Mnemonic::AND, AddressingMode::Zero, 3)),
        0x26 => Some((Mnemonic::ROL, AddressingMode::Zero, 5)),
        0x28 => Some((Mnemonic::PLP, AddressingMode::Implied, 4)),
        0x29 => Some((Mnemonic::AND, AddressingMode::Immediate, 2)),
        0x2a => Some((Mnemonic::ROL, AddressingMode::Accumulator, 2)),
        0x2c => Some((Mnemonic::BIT, AddressingMode::Absolute, 4)),
        0x2d => Some((Mnemonic::AND, AddressingMode::Absolute, 4)),
        0x2e => Some((Mnemonic::ROL, AddressingMode::Absolute, 6)),
        0x30 => Some((Mnemonic::BMI, AddressingMode::Relative, 3)),
        0x31 => Some((Mnemonic::AND, AddressingMode::IndirectY, 5)),
        0x35 => Some((Mnemonic::AND, AddressingMode::ZeroX, 4)),
        0x36 => Some((Mnemonic::ROL, AddressingMode::ZeroX, 6)),
        0x38 => Some((Mnemonic::SEC, AddressingMode::Implied, 2)),
        0x39 => Some((Mnemonic::AND, AddressingMode::AbsoluteY, 4)),
        0x3d => Some((Mnemonic::AND, AddressingMode::AbsoluteX, 4)),
        0x3e => Some((Mnemonic::ROL, AddressingMode::AbsoluteX, 7)),
        0x40 => Some((Mnemonic::RTI, AddressingMode::Implied, 6)),
        0x41 => Some((Mnemonic::EOR, AddressingMode::IndirectX, 6)),
        0x45 => Some((Mnemonic::EOR, AddressingMode::Zero, 3)),
        0x46 => Some((Mnemonic::LSR, AddressingMode::Zero, 5)),
        0x48 => Some((Mnemonic::PHA, AddressingMode::Implied, 3)),
        0x49 => Some((Mnemonic::EOR, AddressingMode::Immediate, 2)),
        0x4a => Some((Mnemonic::LSR, AddressingMode::Accumulator, 2)),
        0x4c => Some((Mnemonic::JMP, AddressingMode::Absolute, 3)),
        0x4d => Some((Mnemonic::EOR, AddressingMode::Absolute, 4)),
        0x4e => Some((Mnemonic::LSR, AddressingMode::Absolute, 6)),
        0x50 => Some((Mnemonic::BVC, AddressingMode::Relative, 3)),
        0x51 => Some((Mnemonic::EOR, AddressingMode::IndirectY, 5)),
        0x55 => Some((Mnemonic::EOR, AddressingMode::ZeroX, 4)),
        0x56 => Some((Mnemonic::LSR, AddressingMode::ZeroX, 6)),
        0x58 => Some((Mnemonic::CLI, AddressingMode::Implied, 2)),
        0x59 => Some((Mnemonic::EOR, AddressingMode::AbsoluteY, 4)),
        0x5d => Some((Mnemonic::EOR, AddressingMode::AbsoluteX, 4)),
        0x5e => Some((Mnemonic::LSR, AddressingMode::AbsoluteX, 7)),
        0x60 => Some((Mnemonic::RTS, AddressingMode::Implied, 6)),
        0x61 => Some((Mnemonic::ADC, AddressingMode::IndirectX, 6)),
        0x65 => Some((Mnemonic::ADC, AddressingMode::Zero, 3)),
        0x66 => Some((Mnemonic::ROR, AddressingMode::Zero, 5)),
        0x68 => Some((Mnemonic::PLA, AddressingMode::Implied, 4)),
        0x69 => Some((Mnemonic::ADC, AddressingMode::Immediate, 2)),
        0x6a => Some((Mnemonic::ROR, AddressingMode::Accumulator, 2)),
        0x6c => Some((Mnemonic::JMP, AddressingMode::Indirect, 5)),
        0x6d => Some((Mnemonic::ADC, AddressingMode::Absolute, 4)),
        0x6e => Some((Mnemonic::ROR, AddressingMode::Absolute, 6)),
        0x70 => Some((Mnemonic::BVS, AddressingMode::Relative, 3)),
        0x71 => Some((Mnemonic::ADC, AddressingMode::IndirectY, 5)),
        0x75 => Some((Mnemonic::ADC, AddressingMode::ZeroX, 4)),
        0x76 => Some((Mnemonic::ROR, AddressingMode::ZeroX, 6)),
        0x78 => Some((Mnemonic::SEI, AddressingMode::Implied, 2)),
        0x79 => Some((Mnemonic::ADC, AddressingMode::AbsoluteY, 4)),
        0x7d => Some((Mnemonic::ADC, AddressingMode::AbsoluteX, 4)),
        0x7e => Some((Mnemonic::ROR, AddressingMode::AbsoluteX, 7)),
        0x81 => Some((Mnemonic::STA, AddressingMode::IndirectX, 6)),
        0x84 => Some((Mnemonic::STY, AddressingMode::Zero, 3)),
        0x85 => Some((Mnemonic::STA, AddressingMode::Zero, 3)),
        0x86 => Some((Mnemonic::STX, AddressingMode::Zero, 3)),
        0x88 => Some((Mnemonic::DEY, AddressingMode::Implied, 2)),
        0x8a => Some((Mnemonic::TXA, AddressingMode::Implied, 2)),
        0x8b => Some((Mnemonic::XAA, AddressingMode::Immediate, 2)),
        0x8c => Some((Mnemonic::STY, AddressingMode::Absolute, 4)),
        0x8d => Some((Mnemonic::STA, AddressingMode::Absolute, 4)),
        0x8e => Some((Mnemonic::STX, AddressingMode::Absolute, 4)),
        0x90 => Some((Mnemonic::BCC, AddressingMode::Relative, 3)),
        0x91 => Some((Mnemonic::STA, AddressingMode::IndirectY, 6)),
        0x94 => Some((Mnemonic::STY, AddressingMode::ZeroX, 4)),
        0x95 => Some((Mnemonic::STA, AddressingMode::ZeroX, 4)),
        0x96 => Some((Mnemonic::STX, AddressingMode::ZeroY, 4)),
        0x98 => Some((Mnemonic::TYA, AddressingMode::Implied, 2)),
        0x99 => Some((Mnemonic::STA, AddressingMode::AbsoluteY, 5)),
        0x9a => Some((Mnemonic::TXS, AddressingMode::Implied, 2)),
        0x9d => Some((Mnemonic::STA, AddressingMode::AbsoluteX, 5)),
        0xa0 => Some((Mnemonic::LDY, AddressingMode::Immediate, 2)),
        0xa1 => Some((Mnemonic::LDA, AddressingMode::IndirectX, 6)),
        0xa2 => Some((Mnemonic::LDX, AddressingMode::Immediate, 2)),
        0xa4 => Some((Mnemonic::LDY, AddressingMode::Zero, 3)),
        0xa5 => Some((Mnemonic::LDA, AddressingMode::Zero, 3)),
        0xa6 => Some((Mnemonic::LDX, AddressingMode::Zero, 3)),
        0xa8 => Some((Mnemonic::TAY, AddressingMode::Implied, 2)),
        0xa9 => Some((Mnemonic::LDA, AddressingMode::Immediate, 2)),
        0xaa => Some((Mnemonic::TAX, AddressingMode::Implied, 2)),
        0xab => Some((Mnemonic::LAX, AddressingMode::Immediate, 2)),
        0xac => Some((Mnemonic::LDY, AddressingMode::Absolute, 4)),
        0xad => Some((Mnemonic::LDA, AddressingMode::Absolute, 4)),
        0xae => Some((Mnemonic::LDX, AddressingMode::Absolute, 4)),
        0xb0 => Some((Mnemonic::BCS, AddressingMode::Relative, 3)),
        0xb1 => Some((Mnemonic::LDA, AddressingMode::IndirectY, 5)),
        0xb4 => Some((Mnemonic::LDY, AddressingMode::ZeroX, 4)),
        0xb5 => Some((Mnemonic::LDA, AddressingMode::ZeroX, 4)),
        0xb6 => Some((Mnemonic::LDX, AddressingMode::ZeroY, 4)),
        0xb8 => Some((Mnemonic::CLV, AddressingMode::Implied, 2)),
        0xb9 => Some((Mnemonic::LDA, AddressingMode::AbsoluteY, 4)),
        0xba => Some((Mnemonic::TSX, AddressingMode::Implied, 2)),
        0xbc => Some((Mnemonic::LDY, AddressingMode::AbsoluteX, 4)),
        0xbd => Some((Mnemonic::LDA, AddressingMode::AbsoluteX, 4)),
        0xbe => Some((Mnemonic::LDX, AddressingMode::AbsoluteY, 4)),
        0xc0 => Some((Mnemonic::CPY, AddressingMode::Immediate, 2)),
        0xc1 => Some((Mnemonic::CMP, AddressingMode::IndirectX, 6)),
        0xc4 => Some((Mnemonic::CPY, AddressingMode::Zero, 3)),
        0xc5 => Some((Mnemonic::CMP, AddressingMode::Zero, 3)),
        0xc6 => Some((Mnemonic::DEC, AddressingMode::Zero, 5)),
        0xc8 => Some((Mnemonic::INY, AddressingMode::Implied, 2)),
        0xc9 => Some((Mnemonic::CMP, AddressingMode::Immediate, 2)),
        0xca => Some((Mnemonic::DEX, AddressingMode::Implied, 2)),
        0xcc => Some((Mnemonic::CPY, AddressingMode::Absolute, 4)),
        0xcd => Some((Mnemonic::CMP, AddressingMode::Absolute, 4)),
        0xce => Some((Mnemonic::DEC, AddressingMode::Absolute, 6)),
        0xd0 => Some((Mnemonic::BNE, AddressingMode::Relative, 3)),
        0xd1 => Some((Mnemonic::CMP, AddressingMode::IndirectY, 5)),
        0xd5 => Some((Mnemonic::CMP, AddressingMode::ZeroX, 4)),
        0xd6 => Some((Mnemonic::DEC, AddressingMode::ZeroX, 6)),
        0xd8 => Some((Mnemonic::CLD, AddressingMode::Implied, 2)),
        0xd9 => Some((Mnemonic::CMP, AddressingMode::AbsoluteY, 4)),
        0xdd => Some((Mnemonic::CMP, AddressingMode::AbsoluteX, 4)),
        0xde => Some((Mnemonic::DEC, AddressingMode::AbsoluteX, 7)),
        0xe0 => Some((Mnemonic::CPX, AddressingMode::Immediate, 2)),
        0xe1 => Some((Mnemonic::SBC, AddressingMode::IndirectX, 6)),
        0xe4 => Some((Mnemonic::CPX, AddressingMode::Zero, 3)),
        0xe5 => Some((Mnemonic::SBC, AddressingMode::Zero, 3)),
        0xe6 => Some((Mnemonic::INC, AddressingMode::Zero, 5)),
        0xe8 => Some((Mnemonic::INX, AddressingMode::Implied, 2)),
        0xe9 => Some((Mnemonic::SBC, AddressingMode::Immediate, 2)),
        0xea => Some((Mnemonic::NOP, AddressingMode::Implied, 2)),
        0xec => Some((Mnemonic::CPX, AddressingMode::Absolute, 4)),
        0xed => Some((Mnemonic::SBC, AddressingMode::Absolute, 4)),
        0xee => Some((Mnemonic::INC, AddressingMode::Absolute, 6)),
        0xf0 => Some((Mnemonic::BEQ, AddressingMode::Relative, 3)),
        0xf1 => Some((Mnemonic::SBC, AddressingMode::IndirectY, 5)),
        0xf5 => Some((Mnemonic::SBC, AddressingMode::ZeroX, 4)),
        0xf6 => Some((Mnemonic::INC, AddressingMode::ZeroX, 6)),
        0xf8 => Some((Mnemonic::SED, AddressingMode::Implied, 2)),
        0xf9 => Some((Mnemonic::SBC, AddressingMode::AbsoluteY, 4)),
        0xfd => Some((Mnemonic::SBC, AddressingMode::AbsoluteX, 4)),
        0xfe => Some((Mnemonic::INC, AddressingMode::AbsoluteX, 7)),
        _ => None,
    }
}

/// Looks an opcode up in the instruction table.
pub fn lookup(opcode: u8) -> (r: Option<Instruction>)
    ensures
        r == decode(opcode),
        r matches Some(i) ==> well_formed(i),
{
    match table_row(opcode) {
        Some((mnemonic, mode, time)) => Some(Instruction { opcode, mnemonic, mode, time }),
        None => None,
    }
}

} // verus!
