use vstd::prelude::*;

verus! {

/// The documented 6502 mnemonics.
#[derive(Debug, Clone, Copy, PartialEq, Eq, Structural)]
pub enum Instruct {
    /// add with carry
    ADC,
    /// and (with accumulator)
    AND,
    /// arithmetic shift left
    ASL,
    /// branch on carry clear
    BCC,
    /// branch on carry set
    BCS,
    /// branch on equal (zero set)
    BEQ,
    /// bit test
    BIT,
    /// branch on minus (negative set)
    BMI,
    /// branch on not equal (zero clear)
    BNE,
    /// branch on plus (negative clear)
    BPL,
    /// break / interrupt
    BRK,
    /// branch on overflow clear
    BVC,
    /// branch on overflow set
    BVS,
    /// clear carry
    CLC,
    /// clear decimal
    CLD,
    /// clear interrupt disable
    CLI,
    /// clear overflow
    CLV,
    /// compare (with accumulator)
    CMP,
    /// compare with X
    CPX,
    /// compare with Y
    CPY,
    /// decrement
    DEC,
    /// decrement X
    DEX,
    /// decrement Y
    DEY,
    /// exclusive or (with accumulator)
    EOR,
    /// increment
    INC,
    /// increment X
    INX,
    /// increment Y
    INY,
    /// jump
    JMP,
    /// jump subroutine
    JSR,
    /// load accumulator
    LDA,
    /// load X
    LDX,
    /// load Y
    LDY,
    /// logical shift right
    LSR,
    /// no operation
    NOP,
    /// or with accumulator
    ORA,
    /// push accumulator
    PHA,
    /// push processor status (SR)
    PHP,
    /// pull accumulator
    PLA,
    /// pull processor status (SR)
    PLP,
    /// rotate left
    ROL,
    /// rotate right
    ROR,
    /// return from interrupt
    RTI,
    /// return from subroutine
    RTS,
    /// subtract with carry
    SBC,
    /// set carry
    SEC,
    /// set decimal
    SED,
    /// set interrupt disable
    SEI,
    /// store accumulator
    STA,
    /// store X
    STX,
    /// store Y
    STY,
    /// transfer accumulator to X
    TAX,
    /// transfer accumulator to Y
    TAY,
    /// transfer stack pointer to X
    TSX,
    /// transfer X to accumulator
    TXA,
    /// transfer X to stack pointer
    TXS,
    /// transfer Y to accumulator
    TYA,
}

/// The thirteen 6502 addressing modes.
#[derive(Debug, Clone, Copy, PartialEq, Eq, Structural)]
pub enum AddressType {
    /// `OPC`
    Impl,
    /// `OPC A`
    Accumulator,
    /// `OPC #<8>`
    Immediate,
    /// `OPC <8> (signed offset)`
    Relative,
    /// `OPC <8>`
    ZeroPage,
    /// `OPC <8>,X`
    ZeroPageX,
    /// `OPC <8>,Y`
    ZeroPageY,
    /// `OPC <16>`
    Absolute,
    /// `OPC <16>,X`
    AbsoluteX,
    /// `OPC <16>,Y`
    AbsoluteY,
    /// `OPC (<16>)`
    Indirect,
    /// `OPC (<8>,X)`
    IndirectX,
    /// `OPC (<8>),Y`
    IndirectY,
}

/// What an opcode stands for: its mnemonic, its addressing mode, its base
/// cycle count and the most extra cycles a page cross or a taken branch adds.
#[derive(Debug, Clone, Copy, PartialEq, Eq, Structural)]
pub struct InstructionInfo {
    pub instruction: Instruct,
    pub mode: AddressType,
    pub cycles: u8,
    pub extra_cycles: u8,
}

/// The upper-case spelling of a mnemonic.
pub open spec fn mnemonic(i: Instruct) -> (char, char, char) {
    match i {
        Instruct::ADC => ('A', 'D', 'C'),
        Instruct::AND => ('A', 'N', 'D'),
        Instruct::ASL => ('A', 'S', 'L'),
        Instruct::BCC => ('B', 'C', 'C'),
        Instruct::BCS => ('B', 'C', 'S'),
        Instruct::BEQ => ('B', 'E', 'Q'),
        Instruct::BIT => ('B', 'I', 'T'),
        Instruct::BMI => ('B', 'M', 'I'),
        Instruct::BNE => ('B', 'N', 'E'),
        Instruct::BPL => ('B', 'P', 'L'),
        Instruct::BRK => ('B', 'R', 'K'),
        Instruct::BVC => ('B', 'V', 'C'),
        Instruct::BVS => ('B', 'V', 'S'),
        Instruct::CLC => ('C', 'L', 'C'),
        Instruct::CLD => ('C', 'L', 'D'),
        Instruct::CLI => ('C', 'L', 'I'),
        Instruct::CLV => ('C', 'L', 'V'),
        Instruct::CMP => ('C', 'M', 'P'),
        Instruct::CPX => ('C', 'P', 'X'),
        Instruct::CPY => ('C', 'P', 'Y'),
        Instruct::DEC => ('D', 'E', 'C'),
        Instruct::DEX => ('D', 'E', 'X'),
        Instruct::DEY => ('D', 'E', 'Y'),
        Instruct::EOR => ('E', 'O', 'R'),
        Instruct::INC => ('I', 'N', 'C'),
        Instruct::INX => ('I', 'N', 'X'),
        Instruct::INY => ('I', 'N', 'Y'),
        Instruct::JMP => ('J', 'M', 'P'),
        Instruct::JSR => ('J', 'S', 'R'),
        Instruct::LDA => ('L', 'D', 'A'),
        Instruct::LDX => ('L', 'D', 'X'),
        Instruct::LDY => ('L', 'D', 'Y'),
        Instruct::LSR => ('L', 'S', 'R'),
        Instruct::NOP => ('N', 'O', 'P'),
        Instruct::ORA => ('O', 'R', 'A'),
        Instruct::PHA => ('P', 'H', 'A'),
        Instruct::PHP => ('P', 'H', 'P'),
        Instruct::PLA => ('P', 'L', 'A'),
        Instruct::PLP => ('P', 'L', 'P'),
        Instruct::ROL => ('R', 'O', 'L'),
        Instruct::ROR => ('R', 'O', 'R'),
        Instruct::RTI => ('R', 'T', 'I'),
        Instruct::RTS => ('R', 'T', 'S'),
        Instruct::SBC => ('S', 'B', 'C'),
        Instruct::SEC => ('S', 'E', 'C'),
        Instruct::SED => ('S', 'E', 'D'),
        Instruct::SEI => ('S', 'E', 'I'),
        Instruct::STA => ('S', 'T', 'A'),
        Instruct::STX => ('S', 'T', 'X'),
        Instruct::STY => ('S', 'T', 'Y'),
        Instruct::TAX => ('T', 'A', 'X'),
        Instruct::TAY => ('T', 'A', 'Y'),
        Instruct::TSX => ('T', 'S', 'X'),
        Instruct::TXA => ('T', 'X', 'A'),
        Instruct::TXS => ('T', 'X', 'S'),
        Instruct::TYA => ('T', 'Y', 'A'),
    }
}

/// `c` is the upper-case ASCII letter `upper` or its lower-case form.
pub open spec fn letter_matches(c: char, upper: char) -> bool {
    c == upper || c as u32 == upper as u32 + 32
}

/// `text` spells the mnemonic of `i`, ignoring ASCII case.
pub open spec fn spells(text: Seq<char>, i: Instruct) -> bool {
    &&& text.len() == 3
    &&& letter_matches(text[0], mnemonic(i).0)
    &&& letter_matches(text[1], mnemonic(i).1)
    &&& letter_matches(text[2], mnemonic(i).2)
}

/// The opcode that encodes mnemonic `i` in mode `m`, if the pair is valid.
pub open spec fn opcode_of(i: Instruct, m: AddressType) -> Option<u8> {
    match (i, m) {
        (Instruct::ADC, AddressType::Immediate) => Some(0x69u8),
        (Instruct::ADC, AddressType::ZeroPage) => Some(0x65u8),
        (Instruct::ADC, AddressType::ZeroPageX) => Some(0x75u8),
        (Instruct::ADC, AddressType::Absolute) => Some(0x6Du8),
        (Instruct::ADC, AddressType::AbsoluteX) => Some(0x7Du8),
        (Instruct::ADC, AddressType::AbsoluteY) => Some(0x79u8),
        (Instruct::ADC, AddressType::IndirectX) => Some(0x61u8),
        (Instruct::ADC, AddressType::IndirectY) => Some(0x71u8),
        (Instruct::AND, AddressType::Immediate) => Some(0x29u8),
        (Instruct::AND, AddressType::ZeroPage) => Some(0x25u8),
        (Instruct::AND, AddressType::ZeroPageX) => Some(0x35u8),
        (Instruct::AND, AddressType::Absolute) => Some(0x2Du8),
        (Instruct::AND, AddressType::AbsoluteX) => Some(0x3Du8),
        (Instruct::AND, AddressType::AbsoluteY) => Some(0x39u8),
        (Instruct::AND, AddressType::IndirectX) => Some(0x21u8),
        (Instruct::AND, AddressType::IndirectY) => Some(0x31u8),
        (Instruct::ASL, AddressType::Accumulator) => Some(0x0Au8),
        (Instruct::ASL, AddressType::ZeroPage) => Some(0x06u8),
        (Instruct::ASL, AddressType::ZeroPageX) => Some(0x16u8),
        (Instruct::ASL, AddressType::Absolute) => Some(0x0Eu8),
        (Instruct::ASL, AddressType::AbsoluteX) => Some(0x1Eu8),
        (Instruct::BCC, AddressType::Relative) => Some(0x90u8),
        (Instruct::BCS, AddressType::Relative) => Some(0xB0u8),
        (Instruct::BEQ, AddressType::Relative) => Some(0xF0u8),
        (Instruct::BIT, AddressType::ZeroPage) => Some(0x24u8),
        (Instruct::BIT, AddressType::Absolute) => Some(0x2Cu8),
        (Instruct::BMI, AddressType::Relative) => Some(0x30u8),
        (Instruct::BNE, AddressType::Relative) => Some(0xD0u8),
        (Instruct::BPL, AddressType::Relative) => Some(0x10u8),
        (Instruct::BRK, AddressType::Impl) => Some(0x00u8),
        (Instruct::BVC, AddressType::Relative) => Some(0x50u8),
        (Instruct::BVS, AddressType::Relative) => Some(0x70u8),
        (Instruct::CLC, AddressType::Impl) => Some(0x18u8),
        (Instruct::CLD, AddressType::Impl) => Some(0xD8u8),
        (Instruct::CLI, AddressType::Impl) => Some(0x58u8),
        (Instruct::CLV, AddressType::Impl) => Some(0xB8u8),
        (Instruct::CMP, AddressType::Immediate) => Some(0xC9u8),
        (Instruct::CMP, AddressType::ZeroPage) => Some(0xC5u8),
        (Instruct::CMP, AddressType::ZeroPageX) => Some(0xD5u8),
        (Instruct::CMP, AddressType::Absolute) => Some(0xCDu8),
        (Instruct::CMP, AddressType::AbsoluteX) => Some(0xDDu8),
        (Instruct::CMP, AddressType::AbsoluteY) => Some(0xD9u8),
        (Instruct::CMP, AddressType::IndirectX) => Some(0xC1u8),
        (Instruct::CMP, AddressType::IndirectY) => Some(0xD1u8),
        (Instruct::CPX, AddressType::Immediate) => Some(0xE0u8),
        (Instruct::CPX, AddressType::ZeroPage) => Some(0xE4u8),
        (Instruct::CPX, AddressType::Absolute) => Some(0xECu8),
        (Instruct::CPY, AddressType::Immediate) => Some(0xC0u8),
        (Instruct::CPY, AddressType::ZeroPage) => Some(0xC4u8),
        (Instruct::CPY, AddressType::Absolute) => Some(0xCCu8),
        (Instruct::DEC, AddressType::ZeroPage) => Some(0xC6u8),
        (Instruct::DEC, AddressType::ZeroPageX) => Some(0xD6u8),
        (Instruct::DEC, AddressType::Absolute) => Some(0xCEu8),
        (Instruct::DEC, AddressType::AbsoluteX) => Some(0xDEu8),
        (Instruct::DEX, AddressType::Impl) => Some(0xCAu8),
        (Instruct::DEY, AddressType::Impl) => Some(0x88u8),
        (Instruct::EOR, AddressType::Immediate) => Some(0x49u8),
        (Instruct::EOR, AddressType::ZeroPage) => Some(0x45u8),
        (Instruct::EOR, AddressType::ZeroPageX) => Some(0x55u8),
        (Instruct::EOR, AddressType::Absolute) => Some(0x4Du8),
        (Instruct::EOR, AddressType::AbsoluteX) => Some(0x5Du8),
        (Instruct::EOR, AddressType::AbsoluteY) => Some(0x59u8),
        (Instruct::EOR, AddressType::IndirectX) => Some(0x41u8),
        (Instruct::EOR, AddressType::IndirectY) => Some(0x51u8),
        (Instruct::INC, AddressType::ZeroPage) => Some(0xE6u8),
        (Instruct::INC, AddressType::ZeroPageX) => Some(0xF6u8),
        (Instruct::INC, AddressType::Absolute) => Some(0xEEu8),
        (Instruct::INC, AddressType::AbsoluteX) => Some(0xFEu8),
        (Instruct::INX, AddressType::Impl) => Some(0xE8u8),
        (Instruct::INY, AddressType::Impl) => Some(0xC8u8),
        (Instruct::JMP, AddressType::Absolute) => Some(0x4Cu8),
        (Instruct::JMP, AddressType::Indirect) => Some(0x6Cu8),
        (Instruct::JSR, AddressType::Absolute) => Some(0x20u8),
        (Instruct::LDA, AddressType::Immediate) => Some(0xA9u8),
        (Instruct::LDA, AddressType::ZeroPage) => Some(0xA5u8),
        (Instruct::LDA, AddressType::ZeroPageX) => Some(0xB5u8),
        (Instruct::LDA, AddressType::Absolute) => Some(0xADu8),
        (Instruct::LDA, AddressType::AbsoluteX) => Some(0xBDu8),
        (Instruct::LDA, AddressType::AbsoluteY) => Some(0xB9u8),
        (Instruct::LDA, AddressType::IndirectX) => Some(0xA1u8),
        (Instruct::LDA, AddressType::IndirectY) => Some(0xB1u8),
        (Instruct::LDX, AddressType::Immediate) => Some(0xA2u8),
        (Instruct::LDX, AddressType::ZeroPage) => Some(0xA6u8),
        (Instruct::LDX, AddressType::ZeroPageY) => Some(0xB6u8),
        (Instruct::LDX, AddressType::Absolute) => Some(0xAEu8),
        (Instruct::LDX, AddressType::AbsoluteY) => Some(0xBEu8),
        (Instruct::LDY, AddressType::Immediate) => Some(0xA0u8),
        (Instruct::LDY, AddressType::ZeroPage) => Some(0xA4u8),
        (Instruct::LDY, AddressType::ZeroPageX) => Some(0xB4u8),
        (Instruct::LDY, AddressType::Absolute) => Some(0xACu8),
        (Instruct::LDY, AddressType::AbsoluteX) => Some(0xBCu8),
        (Instruct::LSR, AddressType::Accumulator) => Some(0x4Au8),
        (Instruct::LSR, AddressType::ZeroPage) => Some(0x46u8),
        (Instruct::LSR, AddressType::ZeroPageX) => Some(0x56u8),
        (Instruct::LSR, AddressType::Absolute) => Some(0x4Eu8),
        (Instruct::LSR, AddressType::AbsoluteX) => Some(0x5Eu8),
        (Instruct::NOP, AddressType::Impl) => Some(0xEAu8),
        (Instruct::ORA, AddressType::Immediate) => Some(0x09u8),
        (Instruct::ORA, AddressType::ZeroPage) => Some(0x05u8),
        (Instruct::ORA, AddressType::ZeroPageX) => Some(0x15u8),
        (Instruct::ORA, AddressType::Absolute) => Some(0x0Du8),
        (Instruct::ORA, AddressType::AbsoluteX) => Some(0x1Du8),
        (Instruct::ORA, AddressType::AbsoluteY) => Some(0x19u8),
        (Instruct::ORA, AddressType::IndirectX) => Some(0x01u8),
        (Instruct::ORA, AddressType::IndirectY) => Some(0x11u8),
        (Instruct::PHA, AddressType::Impl) => Some(0x48u8),
        (Instruct::PHP, AddressType::Impl) => Some(0x08u8),
        (Instruct::PLA, AddressType::Impl) => Some(0x68u8),
        (Instruct::PLP, AddressType::Impl) => Some(0x28u8),
        (Instruct::ROL, AddressType::Accumulator) => Some(0x2Au8),
        (Instruct::ROL, AddressType::ZeroPage) => Some(0x26u8),
        (Instruct::ROL, AddressType::ZeroPageX) => Some(0x36u8),
        (Instruct::ROL, AddressType::Absolute) => Some(0x2Eu8),
        (Instruct::ROL, AddressType::AbsoluteX) => Some(0x3Eu8),
        (Instruct::ROR, AddressType::Accumulator) => Some(0x6Au8),
        (Instruct::ROR, AddressType::ZeroPage) => Some(0x66u8),
        (Instruct::ROR, AddressType::ZeroPageX) => Some(0x76u8),
        (Instruct::ROR, AddressType::Absolute) => Some(0x6Eu8),
        (Instruct::ROR, AddressType::AbsoluteX) => Some(0x7Eu8),
        (Instruct::RTI, AddressType::Impl) => Some(0x40u8),
        (Instruct::RTS, AddressType::Impl) => Some(0x60u8),
        (Instruct::SBC, AddressType::Immediate) => Some(0xE9u8),
        (Instruct::SBC, AddressType::ZeroPage) => Some(0xE5u8),
        (Instruct::SBC, AddressType::ZeroPageX) => Some(0xF5u8),
        (Instruct::SBC, AddressType::Absolute) => Some(0xEDu8),
        (Instruct::SBC, AddressType::AbsoluteX) => Some(0xFDu8),
        (Instruct::SBC, AddressType::AbsoluteY) => Some(0xF9u8),
        (Instruct::SBC, AddressType::IndirectX) => Some(0xE1u8),
        (Instruct::SBC, AddressType::IndirectY) => Some(0xF1u8),
        (Instruct::SEC, AddressType::Impl) => Some(0x38u8),
        (Instruct::SED, AddressType::Impl) => Some(0xF8u8),
        (Instruct::SEI, AddressType::Impl) => Some(0x78u8),
        (Instruct::STA, AddressType::ZeroPage) => Some(0x85u8),
        (Instruct::STA, AddressType::ZeroPageX) => Some(0x95u8),
        (Instruct::STA, AddressType::Absolute) => Some(0x8Du8),
        (Instruct::STA, AddressType::AbsoluteX) => Some(0x9Du8),
        (Instruct::STA, AddressType::AbsoluteY) => Some(0x99u8),
        (Instruct::STA, AddressType::IndirectX) => Some(0x81u8),
        (Instruct::STA, AddressType::IndirectY) => Some(0x91u8),
        (Instruct::STX, AddressType::ZeroPage) => Some(0x86u8),
        (Instruct::STX, AddressType::ZeroPageY) => Some(0x96u8),
        (Instruct::STX, AddressType::Absolute) => Some(0x8Eu8),
        (Instruct::STY, AddressType::ZeroPage) => Some(0x84u8),
        (Instruct::STY, AddressType::ZeroPageX) => Some(0x94u8),
        (Instruct::STY, AddressType::Absolute) => Some(0x8Cu8),
        (Instruct::TAX, AddressType::Impl) => Some(0xAAu8),
        (Instruct::TAY, AddressType::Impl) => Some(0xA8u8),
        (Instruct::TSX, AddressType::Impl) => Some(0xBAu8),
        (Instruct::TXA, AddressType::Impl) => Some(0x8Au8),
        (Instruct::TXS, AddressType::Impl) => Some(0x9Au8),
        (Instruct::TYA, AddressType::Impl) => Some(0x98u8),
        _ => None,
    }
}

/// What opcode `op` decodes to, for the documented opcodes.
#[verifier::opaque]
pub open spec fn decode(op: u8) -> Option<InstructionInfo> {
    match op {
        0x00u8 => Some(InstructionInfo { instruction: Instruct::BRK, mode: AddressType::Impl, cycles: 7, extra_cycles: 0 }),
        0x01u8 => Some(InstructionInfo { instruction: Instruct::ORA, mode: AddressType::IndirectX, cycles: 6, extra_cycles: 0 }),
        0x05u8 => Some(InstructionInfo { instruction: Instruct::ORA, mode: AddressType::ZeroPage, cycles: 3, extra_cycles: 0 }),
        0x06u8 => Some(InstructionInfo { instruction: Instruct::ASL, mode: AddressType::ZeroPage, cycles: 5, extra_cycles: 0 }),
        0x08u8 => Some(InstructionInfo { instruction: Instruct::PHP, mode: AddressType::Impl, cycles: 3, extra_cycles: 0 }),
        0x09u8 => Some(InstructionInfo { instruction: Instruct::ORA, mode: AddressType::Immediate, cycles: 2, extra_cycles: 0 }),
        0x0Au8 => Some(InstructionInfo { instruction: Instruct::ASL, mode: AddressType::Accumulator, cycles: 2, extra_cycles: 0 }),
        0x0Du8 => Some(InstructionInfo { instruction: Instruct::ORA, mode: AddressType::Absolute, cycles: 4, extra_cycles: 0 }),
        0x0Eu8 => Some(InstructionInfo { instruction: Instruct::ASL, mode: AddressType::Absolute, cycles: 6, extra_cycles: 0 }),
        0x10u8 => Some(InstructionInfo { instruction: Instruct::BPL, mode: AddressType::Relative, cycles: 2, extra_cycles: 2 }),
        0x11u8 => Some(InstructionInfo { instruction: Instruct::ORA, mode: AddressType::IndirectY, cycles: 5, extra_cycles: 1 }),
        0x15u8 => Some(InstructionInfo { instruction: Instruct::ORA, mode: AddressType::ZeroPageX, cycles: 4, extra_cycles: 0 }),
        0x16u8 => Some(InstructionInfo { instruction: Instruct::ASL, mode: AddressType::ZeroPageX, cycles: 6, extra_cycles: 0 }),
        0x18u8 => Some(InstructionInfo { instruction: Instruct::CLC, mode: AddressType::Impl, cycles: 2, extra_cycles: 0 }),
        0x19u8 => Some(InstructionInfo { instruction: Instruct::ORA, mode: AddressType::AbsoluteY, cycles: 4, extra_cycles: 1 }),
        0x1Du8 => Some(InstructionInfo { instruction: Instruct::ORA, mode: AddressType::AbsoluteX, cycles: 4, extra_cycles: 1 }),
        0x1Eu8 => Some(InstructionInfo { instruction: Instruct::ASL, mode: AddressType::AbsoluteX, cycles: 7, extra_cycles: 0 }),
        0x20u8 => Some(InstructionInfo { instruction: Instruct::JSR, mode: AddressType::Absolute, cycles: 6, extra_cycles: 0 }),
        0x21u8 => Some(InstructionInfo { instruction: Instruct::AND, mode: AddressType::IndirectX, cycles: 6, extra_cycles: 0 }),
        0x24u8 => Some(InstructionInfo { instruction: Instruct::BIT, mode: AddressType::ZeroPage, cycles: 3, extra_cycles: 0 }),
        0x25u8 => Some(InstructionInfo { instruction: Instruct::AND, mode: AddressType::ZeroPage, cycles: 3, extra_cycles: 0 }),
        0x26u8 => Some(InstructionInfo { instruction: Instruct::ROL, mode: AddressType::ZeroPage, cycles: 5, extra_cycles: 0 }),
        0x28u8 => Some(InstructionInfo { instruction: Instruct::PLP, mode: AddressType::Impl, cycles: 4, extra_cycles: 0 }),
        0x29u8 => Some(InstructionInfo { instruction: Instruct::AND, mode: AddressType::Immediate, cycles: 2, extra_cycles: 0 }),
        0x2Au8 => Some(InstructionInfo { instruction: Instruct::ROL, mode: AddressType::Accumulator, cycles: 2, extra_cycles: 0 }),
        0x2Cu8 => Some(InstructionInfo { instruction: Instruct::BIT, mode: AddressType::Absolute, cycles: 4, extra_cycles: 0 }),
        0x2Du8 => Some(InstructionInfo { instruction: Instruct::AND, mode: AddressType::Absolute, cycles: 4, extra_cycles: 0 }),
        0x2Eu8 => Some(InstructionInfo { instruction: Instruct::ROL, mode: AddressType::Absolute, cycles: 6, extra_cycles: 0 }),
        0x30u8 => Some(InstructionInfo { instruction: Instruct::BMI, mode: AddressType::Relative, cycles: 2, extra_cycles: 2 }),
        0x31u8 => Some(InstructionInfo { instruction: Instruct::AND, mode: AddressType::IndirectY, cycles: 5, extra_cycles: 1 }),
        0x35u8 => Some(InstructionInfo { instruction: Instruct::AND, mode: AddressType::ZeroPageX, cycles: 4, extra_cycles: 0 }),
        0x36u8 => Some(InstructionInfo { instruction: Instruct::ROL, mode: AddressType::ZeroPageX, cycles: 6, extra_cycles: 0 }),
        0x38u8 => Some(InstructionInfo { instruction: Instruct::SEC, mode: AddressType::Impl, cycles: 2, extra_cycles: 0 }),
        0x39u8 => Some(InstructionInfo { instruction: Instruct::AND, mode: AddressType::AbsoluteY, cycles: 4, extra_cycles: 1 }),
        0x3Du8 => Some(InstructionInfo { instruction: Instruct::AND, mode: AddressType::AbsoluteX, cycles: 4, extra_cycles: 1 }),
        0x3Eu8 => Some(InstructionInfo { instruction: Instruct::ROL, mode: AddressType::AbsoluteX, cycles: 7, extra_cycles: 0 }),
        0x40u8 => Some(InstructionInfo { instruction: Instruct::RTI, mode: AddressType::Impl, cycles: 6, extra_cycles: 0 }),
        0x41u8 => Some(InstructionInfo { instruction: Instruct::EOR, mode: AddressType::IndirectX, cycles: 6, extra_cycles: 0 }),
        0x45u8 => Some(InstructionInfo { instruction: Instruct::EOR, mode: AddressType::ZeroPage, cycles: 3, extra_cycles: 0 }),
        0x46u8 => Some(InstructionInfo { instruction: Instruct::LSR, mode: AddressType::ZeroPage, cycles: 5, extra_cycles: 0 }),
        0x48u8 => Some(InstructionInfo { instruction: Instruct::PHA, mode: AddressType::Impl, cycles: 3, extra_cycles: 0 }),
        0x49u8 => Some(InstructionInfo { instruction: Instruct::EOR, mode: AddressType::Immediate, cycles: 2, extra_cycles: 0 }),
        0x4Au8 => Some(InstructionInfo { instruction: Instruct::LSR, mode: AddressType::Accumulator, cycles: 2, extra_cycles: 0 }),
        0x4Cu8 => Some(InstructionInfo { instruction: Instruct::JMP, mode: AddressType::Absolute, cycles: 3, extra_cycles: 0 }),
        0x4Du8 => Some(InstructionInfo { instruction: Instruct::EOR, mode: AddressType::Absolute, cycles: 4, extra_cycles: 0 }),
        0x4Eu8 => Some(InstructionInfo { instruction: Instruct::LSR, mode: AddressType::Absolute, cycles: 6, extra_cycles: 0 }),
        0x50u8 => Some(InstructionInfo { instruction: Instruct::BVC, mode: AddressType::Relative, cycles: 2, extra_cycles: 2 }),
        0x51u8 => Some(InstructionInfo { instruction: Instruct::EOR, mode: AddressType::IndirectY, cycles: 5, extra_cycles: 1 }),
        0x55u8 => Some(InstructionInfo { instruction: Instruct::EOR, mode: AddressType::ZeroPageX, cycles: 4, extra_cycles: 0 }),
        0x56u8 => Some(InstructionInfo { instruction: Instruct::LSR, mode: AddressType::ZeroPageX, cycles: 6, extra_cycles: 0 }),
        0x58u8 => Some(InstructionInfo { instruction: Instruct::CLI, mode: AddressType::Impl, cycles: 2, extra_cycles: 0 }),
        0x59u8 => Some(InstructionInfo { instruction: Instruct::EOR, mode: AddressType::AbsoluteY, cycles: 4, extra_cycles: 1 }),
        0x5Du8 => Some(InstructionInfo { instruction: Instruct::EOR, mode: AddressType::AbsoluteX, cycles: 4, extra_cycles: 1 }),
        0x5Eu8 => Some(InstructionInfo { instruction: Instruct::LSR, mode: AddressType::AbsoluteX, cycles: 7, extra_cycles: 0 }),
        0x60u8 => Some(InstructionInfo { instruction: Instruct::RTS, mode: AddressType::Impl, cycles: 6, extra_cycles: 0 }),
        0x61u8 => Some(InstructionInfo { instruction: Instruct::ADC, mode: AddressType::IndirectX, cycles: 6, extra_cycles: 0 }),
        0x65u8 => Some(InstructionInfo { instruction: Instruct::ADC, mode: AddressType::ZeroPage, cycles: 3, extra_cycles: 0 }),
        0x66u8 => Some(InstructionInfo { instruction: Instruct::ROR, mode: AddressType::ZeroPage, cycles: 5, extra_cycles: 0 }),
        0x68u8 => Some(InstructionInfo { instruction: Instruct::PLA, mode: AddressType::Impl, cycles: 4, extra_cycles: 0 }),
        0x69u8 => Some(InstructionInfo { instruction: Instruct::ADC, mode: AddressType::Immediate, cycles: 2, extra_cycles: 0 }),
        0x6Au8 => Some(InstructionInfo { instruction: Instruct::ROR, mode: AddressType::Accumulator, cycles: 2, extra_cycles: 0 }),
        0x6Cu8 => Some(InstructionInfo { instruction: Instruct::JMP, mode: AddressType::Indirect, cycles: 5, extra_cycles: 0 }),
        0x6Du8 => Some(InstructionInfo { instruction: Instruct::ADC, mode: AddressType::Absolute, cycles: 4, extra_cycles: 0 }),
        0x6Eu8 => Some(InstructionInfo { instruction: Instruct::ROR, mode: AddressType::Absolute, cycles: 6, extra_cycles: 0 }),
        0x70u8 => Some(InstructionInfo { instruction: Instruct::BVS, mode: AddressType::Relative, cycles: 2, extra_cycles: 2 }),
        0x71u8 => Some(InstructionInfo { instruction: Instruct::ADC, mode: AddressType::IndirectY, cycles: 5, extra_cycles: 1 }),
        0x75u8 => Some(InstructionInfo { instruction: Instruct::ADC, mode: AddressType::ZeroPageX, cycles: 4, extra_cycles: 0 }),
        0x76u8 => Some(InstructionInfo { instruction: Instruct::ROR, mode: AddressType::ZeroPageX, cycles: 6, extra_cycles: 0 }),
        0x78u8 => Some(InstructionInfo { instruction: Instruct::SEI, mode: AddressType::Impl, cycles: 2, extra_cycles: 0 }),
        0x79u8 => Some(InstructionInfo { instruction: Instruct::ADC, mode: AddressType::AbsoluteY, cycles: 4, extra_cycles: 1 }),
        0x7Du8 => Some(InstructionInfo { instruction: Instruct::ADC, mode: AddressType::AbsoluteX, cycles: 4, extra_cycles: 1 }),
        0x7Eu8 => Some(InstructionInfo { instruction: Instruct::ROR, mode: AddressType::AbsoluteX, cycles: 7, extra_cycles: 0 }),
        0x81u8 => Some(InstructionInfo { instruction: Instruct::STA, mode: AddressType::IndirectX, cycles: 6, extra_cycles: 0 }),
        0x84u8 => Some(InstructionInfo { instruction: Instruct::STY, mode: AddressType::ZeroPage, cycles: 3, extra_cycles: 0 }),
        0x85u8 => Some(InstructionInfo { instruction: Instruct::STA, mode: AddressType::ZeroPage, cycles: 3, extra_cycles: 0 }),
        0x86u8 => Some(InstructionInfo { instruction: Instruct::STX, mode: AddressType::ZeroPage, cycles: 3, extra_cycles: 0 }),
        0x88u8 => Some(InstructionInfo { instruction: Instruct::DEY, mode: AddressType::Impl, cycles: 2, extra_cycles: 0 }),
        0x8Au8 => Some(InstructionInfo { instruction: Instruct::TXA, mode: AddressType::Impl, cycles: 2, extra_cycles: 0 }),
        0x8Cu8 => Some(InstructionInfo { instruction: Instruct::STY, mode: AddressType::Absolute, cycles: 4, extra_cycles: 0 }),
        0x8Du8 => Some(InstructionInfo { instruction: Instruct::STA, mode: AddressType::Absolute, cycles: 4, extra_cycles: 0 }),
        0x8Eu8 => Some(InstructionInfo { instruction: Instruct::STX, mode: AddressType::Absolute, cycles: 4, extra_cycles: 0 }),
        0x90u8 => Some(InstructionInfo { instruction: Instruct::BCC, mode: AddressType::Relative, cycles: 2, extra_cycles: 2 }),
        0x91u8 => Some(InstructionInfo { instruction: Instruct::STA, mode: AddressType::IndirectY, cycles: 6, extra_cycles: 0 }),
        0x94u8 => Some(InstructionInfo { instruction: Instruct::STY, mode: AddressType::ZeroPageX, cycles: 4, extra_cycles: 0 }),
        0x95u8 => Some(InstructionInfo { instruction: Instruct::STA, mode: AddressType::ZeroPageX, cycles: 4, extra_cycles: 0 }),
        0x96u8 => Some(InstructionInfo { instruction: Instruct::STX, mode: AddressType::ZeroPageY, cycles: 4, extra_cycles: 0 }),
        0x98u8 => Some(InstructionInfo { instruction: Instruct::TYA, mode: AddressType::Impl, cycles: 2, extra_cycles: 0 }),
        0x99u8 => Some(InstructionInfo { instruction: Instruct::STA, mode: AddressType::AbsoluteY, cycles: 5, extra_cycles: 0 }),
        0x9Au8 => Some(InstructionInfo { instruction: Instruct::TXS, mode: AddressType::Impl, cycles: 2, extra_cycles: 0 }),
        0x9Du8 => Some(InstructionInfo { instruction: Instruct::STA, mode: AddressType::AbsoluteX, cycles: 5, extra_cycles: 0 }),
        0xA0u8 => Some(InstructionInfo { instruction: Instruct::LDY, mode: AddressType::Immediate, cycles: 2, extra_cycles: 0 }),
        0xA1u8 => Some(InstructionInfo { instruction: Instruct::LDA, mode: AddressType::IndirectX, cycles: 6, extra_cycles: 0 }),
        0xA2u8 => Some(InstructionInfo { instruction: Instruct::LDX, mode: AddressType::Immediate, cycles: 2, extra_cycles: 0 }),
        0xA4u8 => Some(InstructionInfo { instruction: Instruct::LDY, mode: AddressType::ZeroPage, cycles: 3, extra_cycles: 0 }),
        0xA5u8 => Some(InstructionInfo { instruction: Instruct::LDA, mode: AddressType::ZeroPage, cycles: 3, extra_cycles: 0 }),
        0xA6u8 => Some(InstructionInfo { instruction: Instruct::LDX, mode: AddressType::ZeroPage, cycles: 3, extra_cycles: 0 }),
        0xA8u8 => Some(InstructionInfo { instruction: Instruct::TAY, mode: AddressType::Impl, cycles: 2, extra_cycles: 0 }),
        0xA9u8 => Some(InstructionInfo { instruction: Instruct::LDA, mode: AddressType::Immediate, cycles: 2, extra_cycles: 0 }),
        0xAAu8 => Some(InstructionInfo { instruction: Instruct::TAX, mode: AddressType::Impl, cycles: 2, extra_cycles: 0 }),
        0xACu8 => Some(InstructionInfo { instruction: Instruct::LDY, mode: AddressType::Absolute, cycles: 4, extra_cycles: 0 }),
        0xADu8 => Some(InstructionInfo { instruction: Instruct::LDA, mode: AddressType::Absolute, cycles: 4, extra_cycles: 0 }),
        0xAEu8 => Some(InstructionInfo { instruction: Instruct::LDX, mode: AddressType::Absolute, cycles: 4, extra_cycles: 0 }),
        0xB0u8 => Some(InstructionInfo { instruction: Instruct::BCS, mode: AddressType::Relative, cycles: 2, extra_cycles: 2 }),
        0xB1u8 => Some(InstructionInfo { instruction: Instruct::LDA, mode: AddressType::IndirectY, cycles: 5, extra_cycles: 1 }),
        0xB4u8 => Some(InstructionInfo { instruction: Instruct::LDY, mode: AddressType::ZeroPageX, cycles: 4, extra_cycles: 0 }),
        0xB5u8 => Some(InstructionInfo { instruction: Instruct::LDA, mode: AddressType::ZeroPageX, cycles: 4, extra_cycles: 0 }),
        0xB6u8 => Some(InstructionInfo { instruction: Instruct::LDX, mode: AddressType::ZeroPageY, cycles: 4, extra_cycles: 0 }),
        0xB8u8 => Some(InstructionInfo { instruction: Instruct::CLV, mode: AddressType::Impl, cycles: 2, extra_cycles: 0 }),
        0xB9u8 => Some(InstructionInfo { instruction: Instruct::LDA, mode: AddressType::AbsoluteY, cycles: 4, extra_cycles: 1 }),
        0xBAu8 => Some(InstructionInfo { instruction: Instruct::TSX, mode: AddressType::Impl, cycles: 2, extra_cycles: 0 }),
        0xBCu8 => Some(InstructionInfo { instruction: Instruct::LDY, mode: AddressType::AbsoluteX, cycles: 4, extra_cycles: 1 }),
        0xBDu8 => Some(InstructionInfo { instruction: Instruct::LDA, mode: AddressType::AbsoluteX, cycles: 4, extra_cycles: 1 }),
        0xBEu8 => Some(InstructionInfo { instruction: Instruct::LDX, mode: AddressType::AbsoluteY, cycles: 4, extra_cycles: 1 }),
        0xC0u8 => Some(InstructionInfo { instruction: Instruct::CPY, mode: AddressType::Immediate, cycles: 2, extra_cycles: 0 }),
        0xC1u8 => Some(InstructionInfo { instruction: Instruct::CMP, mode: AddressType::IndirectX, cycles: 6, extra_cycles: 0 }),
        0xC4u8 => Some(InstructionInfo { instruction: Instruct::CPY, mode: AddressType::ZeroPage, cycles: 3, extra_cycles: 0 }),
        0xC5u8 => Some(InstructionInfo { instruction: Instruct::CMP, mode: AddressType::ZeroPage, cycles: 3, extra_cycles: 0 }),
        0xC6u8 => Some(InstructionInfo { instruction: Instruct::DEC, mode: AddressType::ZeroPage, cycles: 5, extra_cycles: 0 }),
        0xC8u8 => Some(InstructionInfo { instruction: Instruct::INY, mode: AddressType::Impl, cycles: 2, extra_cycles: 0 }),
        0xC9u8 => Some(InstructionInfo { instruction: Instruct::CMP, mode: AddressType::Immediate, cycles: 2, extra_cycles: 0 }),
        0xCAu8 => Some(InstructionInfo { instruction: Instruct::DEX, mode: AddressType::Impl, cycles: 2, extra_cycles: 0 }),
        0xCCu8 => Some(InstructionInfo { instruction: Instruct::CPY, mode: AddressType::Absolute, cycles: 4, extra_cycles: 0 }),
        0xCDu8 => Some(InstructionInfo { instruction: Instruct::CMP, mode: AddressType::Absolute, cycles: 4, extra_cycles: 0 }),
        0xCEu8 => Some(InstructionInfo { instruction: Instruct::DEC, mode: AddressType::Absolute, cycles: 6, extra_cycles: 0 }),
        0xD0u8 => Some(InstructionInfo { instruction: Instruct::BNE, mode: AddressType::Relative, cycles: 2, extra_cycles: 2 }),
        0xD1u8 => Some(InstructionInfo { instruction: Instruct::CMP, mode: AddressType::IndirectY, cycles: 5, extra_cycles: 1 }),
        0xD5u8 => Some(InstructionInfo { instruction: Instruct::CMP, mode: AddressType::ZeroPageX, cycles: 4, extra_cycles: 0 }),
        0xD6u8 => Some(InstructionInfo { instruction: Instruct::DEC, mode: AddressType::ZeroPageX, cycles: 6, extra_cycles: 0 }),
        0xD8u8 => Some(InstructionInfo { instruction: Instruct::CLD, mode: AddressType::Impl, cycles: 2, extra_cycles: 0 }),
        0xD9u8 => Some(InstructionInfo { instruction: Instruct::CMP, mode: AddressType::AbsoluteY, cycles: 4, extra_cycles: 1 }),
        0xDDu8 => Some(InstructionInfo { instruction: Instruct::CMP, mode: AddressType::AbsoluteX, cycles: 4, extra_cycles: 1 }),
        0xDEu8 => Some(InstructionInfo { instruction: Instruct::DEC, mode: AddressType::AbsoluteX, cycles: 7, extra_cycles: 0 }),
        0xE0u8 => Some(InstructionInfo { instruction: Instruct::CPX, mode: AddressType::Immediate, cycles: 2, extra_cycles: 0 }),
        0xE1u8 => Some(InstructionInfo { instruction: Instruct::SBC, mode: AddressType::IndirectX, cycles: 6, extra_cycles: 0 }),
        0xE4u8 => Some(InstructionInfo { instruction: Instruct::CPX, mode: AddressType::ZeroPage, cycles: 3, extra_cycles: 0 }),
        0xE5u8 => Some(InstructionInfo { instruction: Instruct::SBC, mode: AddressType::ZeroPage, cycles: 3, extra_cycles: 0 }),
        0xE6u8 => Some(InstructionInfo { instruction: Instruct::INC, mode: AddressType::ZeroPage, cycles: 5, extra_cycles: 0 }),
        0xE8u8 => Some(InstructionInfo { instruction: Instruct::INX, mode: AddressType::Impl, cycles: 2, extra_cycles: 0 }),
        0xE9u8 => Some(InstructionInfo { instruction: Instruct::SBC, mode: AddressType::Immediate, cycles: 2, extra_cycles: 0 }),
        0xEAu8 => Some(InstructionInfo { instruction: Instruct::NOP, mode: AddressType::Impl, cycles: 2, extra_cycles: 0 }),
        0xECu8 => Some(InstructionInfo { instruction: Instruct::CPX, mode: AddressType::Absolute, cycles: 4, extra_cycles: 0 }),
        0xEDu8 => Some(InstructionInfo { instruction: Instruct::SBC, mode: AddressType::Absolute, cycles: 4, extra_cycles: 0 }),
        0xEEu8 => Some(InstructionInfo { instruction: Instruct::INC, mode: AddressType::Absolute, cycles: 6, extra_cycles: 0 }),
        0xF0u8 => Some(InstructionInfo { instruction: Instruct::BEQ, mode: AddressType::Relative, cycles: 2, extra_cycles: 2 }),
        0xF1u8 => Some(InstructionInfo { instruction: Instruct::SBC, mode: AddressType::IndirectY, cycles: 5, extra_cycles: 1 }),
        0xF5u8 => Some(InstructionInfo { instruction: Instruct::SBC, mode: AddressType::ZeroPageX, cycles: 4, extra_cycles: 0 }),
        0xF6u8 => Some(InstructionInfo { instruction: Instruct::INC, mode: AddressType::ZeroPageX, cycles: 6, extra_cycles: 0 }),
        0xF8u8 => Some(InstructionInfo { instruction: Instruct::SED, mode: AddressType::Impl, cycles: 2, extra_cycles: 0 }),
        0xF9u8 => Some(InstructionInfo { instruction: Instruct::SBC, mode: AddressType::AbsoluteY, cycles: 4, extra_cycles: 1 }),
        0xFDu8 => Some(InstructionInfo { instruction: Instruct::SBC, mode: AddressType::AbsoluteX, cycles: 4, extra_cycles: 1 }),
        0xFEu8 => Some(InstructionInfo { instruction: Instruct::INC, mode: AddressType::AbsoluteX, cycles: 7, extra_cycles: 0 }),
        _ => None,
    }
}

/// Operand bytes that follow the opcode in mode `m`.
pub open spec fn operand_len(m: AddressType) -> nat {
    match m {
        AddressType::Impl | AddressType::Accumulator => 0,
        AddressType::Absolute | AddressType::AbsoluteX | AddressType::AbsoluteY
        | AddressType::Indirect => 2,
        _ => 1,
    }
}

/// Encoded size in bytes of an instruction in mode `m`.
pub open spec fn mode_size(m: AddressType) -> nat {
    1 + operand_len(m)
}

/// The mnemonic has an encoding in mode `m`.
pub open spec fn supports(i: Instruct, m: AddressType) -> bool {
    opcode_of(i, m) is Some
}

/// Every opcode of the forward table decodes back to its pair.
pub proof fn lemma_encode_decode(i: Instruct, m: AddressType)
    ensures
        opcode_of(i, m) matches Some(op) ==> decode(op) matches Some(info) && info.instruction == i
            && info.mode == m,
{
    reveal(decode);
}

/// Every documented opcode is the forward table's encoding of what it decodes to.
pub proof fn lemma_decode_encode(op: u8)
    ensures
        decode(op) matches Some(info) ==> opcode_of(info.instruction, info.mode) == Some(op),
{
    reveal(decode);
}

/// A mnemonic with a relative encoding has no absolute one.
pub proof fn lemma_relative_only(i: Instruct)
    ensures
        supports(i, AddressType::Relative) ==> !supports(i, AddressType::Absolute),
{
}

/// No text spells two mnemonics.
pub proof fn lemma_spells_unique(text: Seq<char>, a: Instruct, b: Instruct)
    requires
        spells(text, a),
        spells(text, b),
    ensures
        a == b,
{
}

impl AddressType {
    /// Encoded size in bytes of an instruction in this mode.
    pub fn size(&self) -> (r: u8)
        ensures
            r as nat == mode_size(*self),
    {
        match self {
            AddressType::Impl | AddressType::Accumulator => 1,
            AddressType::Absolute | AddressType::AbsoluteX | AddressType::AbsoluteY
            | AddressType::Indirect => 3,
            _ => 2,
        }
    }
}

impl Instruct {
    /// The mnemonic spelled by `text`, upper or lower case.
    #[verifier::rlimit(50)]
    pub fn from_str(text: &str) -> (r: Option<Instruct>)
        ensures
            match r {
                Some(i) => spells(text@, i) && forall|j: Instruct| spells(text@, j) ==> j == i,
                None => forall|i: Instruct| !spells(text@, i),
            },
    {
        proof {
            assert forall|i: Instruct, j: Instruct| spells(text@, i) && spells(text@, j) implies i
                == j by {
                lemma_spells_unique(text@, i, j);
            }
        }
        if text.unicode_len() != 3 {
            return None;
        }
        let a = text.get_char(0);
        let b = text.get_char(1);
        let c = text.get_char(2);
        match (a, b, c) {
            ('A' | 'a', 'D' | 'd', 'C' | 'c') => Some(Instruct::ADC),
            ('A' | 'a', 'N' | 'n', 'D' | 'd') => Some(Instruct::AND),
            ('A' | 'a', 'S' | 's', 'L' | 'l') => Some(Instruct::ASL),
            ('B' | 'b', 'C' | 'c', 'C' | 'c') => Some(Instruct::BCC),
            ('B' | 'b', 'C' | 'c', 'S' | 's') => Some(Instruct::BCS),
            ('B' | 'b', 'E' | 'e', 'Q' | 'q') => Some(Instruct::BEQ),
            ('B' | 'b', 'I' | 'i', 'T' | 't') => Some(Instruct::BIT),
            ('B' | 'b', 'M' | 'm', 'I' | 'i') => Some(Instruct::BMI),
            ('B' | 'b', 'N' | 'n', 'E' | 'e') => Some(Instruct::BNE),
            ('B' | 'b', 'P' | 'p', 'L' | 'l') => Some(Instruct::BPL),
            ('B' | 'b', 'R' | 'r', 'K' | 'k') => Some(Instruct::BRK),
            ('B' | 'b', 'V' | 'v', 'C' | 'c') => Some(Instruct::BVC),
            ('B' | 'b', 'V' | 'v', 'S' | 's') => Some(Instruct::BVS),
            ('C' | 'c', 'L' | 'l', 'C' | 'c') => Some(Instruct::CLC),
            ('C' | 'c', 'L' | 'l', 'D' | 'd') => Some(Instruct::CLD),
            ('C' | 'c', 'L' | 'l', 'I' | 'i') => Some(Instruct::CLI),
            ('C' | 'c', 'L' | 'l', 'V' | 'v') => Some(Instruct::CLV),
            ('C' | 'c', 'M' | 'm', 'P' | 'p') => Some(Instruct::CMP),
            ('C' | 'c', 'P' | 'p', 'X' | 'x') => Some(Instruct::CPX),
            ('C' | 'c', 'P' | 'p', 'Y' | 'y') => Some(Instruct::CPY),
            ('D' | 'd', 'E' | 'e', 'C' | 'c') => Some(Instruct::DEC),
            ('D' | 'd', 'E' | 'e', 'X' | 'x') => Some(Instruct::DEX),
            ('D' | 'd', 'E' | 'e', 'Y' | 'y') => Some(Instruct::DEY),
            ('E' | 'e', 'O' | 'o', 'R' | 'r') => Some(Instruct::EOR),
            ('I' | 'i', 'N' | 'n', 'C' | 'c') => Some(Instruct::INC),
            ('I' | 'i', 'N' | 'n', 'X' | 'x') => Some(Instruct::INX),
            ('I' | 'i', 'N' | 'n', 'Y' | 'y') => Some(Instruct::INY),
            ('J' | 'j', 'M' | 'm', 'P' | 'p') => Some(Instruct::JMP),
            ('J' | 'j', 'S' | 's', 'R' | 'r') => Some(Instruct::JSR),
            ('L' | 'l', 'D' | 'd', 'A' | 'a') => Some(Instruct::LDA),
            ('L' | 'l', 'D' | 'd', 'X' | 'x') => Some(Instruct::LDX),
            ('L' | 'l', 'D' | 'd', 'Y' | 'y') => Some(Instruct::LDY),
            ('L' | 'l', 'S' | 's', 'R' | 'r') => Some(Instruct::LSR),
            ('N' | 'n', 'O' | 'o', 'P' | 'p') => Some(Instruct::NOP),
            ('O' | 'o', 'R' | 'r', 'A' | 'a') => Some(Instruct::ORA),
            ('P' | 'p', 'H' | 'h', 'A' | 'a') => Some(Instruct::PHA),
            ('P' | 'p', 'H' | 'h', 'P' | 'p') => Some(Instruct::PHP),
            ('P' | 'p', 'L' | 'l', 'A' | 'a') => Some(Instruct::PLA),
            ('P' | 'p', 'L' | 'l', 'P' | 'p') => Some(Instruct::PLP),
            ('R' | 'r', 'O' | 'o', 'L' | 'l') => Some(Instruct::ROL),
            ('R' | 'r', 'O' | 'o', 'R' | 'r') => Some(Instruct::ROR),
            ('R' | 'r', 'T' | 't', 'I' | 'i') => Some(Instruct::RTI),
            ('R' | 'r', 'T' | 't', 'S' | 's') => Some(Instruct::RTS),
            ('S' | 's', 'B' | 'b', 'C' | 'c') => Some(Instruct::SBC),
            ('S' | 's', 'E' | 'e', 'C' | 'c') => Some(Instruct::SEC),
            ('S' | 's', 'E' | 'e', 'D' | 'd') => Some(Instruct::SED),
            ('S' | 's', 'E' | 'e', 'I' | 'i') => Some(Instruct::SEI),
            ('S' | 's', 'T' | 't', 'A' | 'a') => Some(Instruct::STA),
            ('S' | 's', 'T' | 't', 'X' | 'x') => Some(Instruct::STX),
            ('S' | 's', 'T' | 't', 'Y' | 'y') => Some(Instruct::STY),
            ('T' | 't', 'A' | 'a', 'X' | 'x') => Some(Instruct::TAX),
            ('T' | 't', 'A' | 'a', 'Y' | 'y') => Some(Instruct::TAY),
            ('T' | 't', 'S' | 's', 'X' | 'x') => Some(Instruct::TSX),
            ('T' | 't', 'X' | 'x', 'A' | 'a') => Some(Instruct::TXA),
            ('T' | 't', 'X' | 'x', 'S' | 's') => Some(Instruct::TXS),
            ('T' | 't', 'Y' | 'y', 'A' | 'a') => Some(Instruct::TYA),
            _ => None,
        }
    }

    /// The opcode for this mnemonic in mode `addr`, or `None` if the 6502 has
    /// no such encoding.
    pub fn get_op_code(&self, addr: &AddressType) -> (r: Option<u8>)
        ensures
            r == opcode_of(*self, *addr),
    {
        match (self, addr) {
            (Instruct::ADC, AddressType::Immediate) => Some(0x69),
            (Instruct::ADC, AddressType::ZeroPage) => Some(0x65),
            (Instruct::ADC, AddressType::ZeroPageX) => Some(0x75),
            (Instruct::ADC, AddressType::Absolute) => Some(0x6D),
            (Instruct::ADC, AddressType::AbsoluteX) => Some(0x7D),
            (Instruct::ADC, AddressType::AbsoluteY) => Some(0x79),
            (Instruct::ADC, AddressType::IndirectX) => Some(0x61),
            (Instruct::ADC, AddressType::IndirectY) => Some(0x71),
            (Instruct::AND, AddressType::Immediate) => Some(0x29),
            (Instruct::AND, AddressType::ZeroPage) => Some(0x25),
            (Instruct::AND, AddressType::ZeroPageX) => Some(0x35),
            (Instruct::AND, AddressType::Absolute) => Some(0x2D),
            (Instruct::AND, AddressType::AbsoluteX) => Some(0x3D),
            (Instruct::AND, AddressType::AbsoluteY) => Some(0x39),
            (Instruct::AND, AddressType::IndirectX) => Some(0x21),
            (Instruct::AND, AddressType::IndirectY) => Some(0x31),
            (Instruct::ASL, AddressType::Accumulator) => Some(0x0A),
            (Instruct::ASL, AddressType::ZeroPage) => Some(0x06),
            (Instruct::ASL, AddressType::ZeroPageX) => Some(0x16),
            (Instruct::ASL, AddressType::Absolute) => Some(0x0E),
            (Instruct::ASL, AddressType::AbsoluteX) => Some(0x1E),
            (Instruct::BCC, AddressType::Relative) => Some(0x90),
            (Instruct::BCS, AddressType::Relative) => Some(0xB0),
            (Instruct::BEQ, AddressType::Relative) => Some(0xF0),
            (Instruct::BIT, AddressType::ZeroPage) => Some(0x24),
            (Instruct::BIT, AddressType::Absolute) => Some(0x2C),
            (Instruct::BMI, AddressType::Relative) => Some(0x30),
            (Instruct::BNE, AddressType::Relative) => Some(0xD0),
            (Instruct::BPL, AddressType::Relative) => Some(0x10),
            (Instruct::BRK, AddressType::Impl) => Some(0x00),
            (Instruct::BVC, AddressType::Relative) => Some(0x50),
            (Instruct::BVS, AddressType::Relative) => Some(0x70),
            (Instruct::CLC, AddressType::Impl) => Some(0x18),
            (Instruct::CLD, AddressType::Impl) => Some(0xD8),
            (Instruct::CLI, AddressType::Impl) => Some(0x58),
            (Instruct::CLV, AddressType::Impl) => Some(0xB8),
            (Instruct::CMP, AddressType::Immediate) => Some(0xC9),
            (Instruct::CMP, AddressType::ZeroPage) => Some(0xC5),
            (Instruct::CMP, AddressType::ZeroPageX) => Some(0xD5),
            (Instruct::CMP, AddressType::Absolute) => Some(0xCD),
            (Instruct::CMP, AddressType::AbsoluteX) => Some(0xDD),
            (Instruct::CMP, AddressType::AbsoluteY) => Some(0xD9),
            (Instruct::CMP, AddressType::IndirectX) => Some(0xC1),
            (Instruct::CMP, AddressType::IndirectY) => Some(0xD1),
            (Instruct::CPX, AddressType::Immediate) => Some(0xE0),
            (Instruct::CPX, AddressType::ZeroPage) => Some(0xE4),
            (Instruct::CPX, AddressType::Absolute) => Some(0xEC),
            (Instruct::CPY, AddressType::Immediate) => Some(0xC0),
            (Instruct::CPY, AddressType::ZeroPage) => Some(0xC4),
            (Instruct::CPY, AddressType::Absolute) => Some(0xCC),
            (Instruct::DEC, AddressType::ZeroPage) => Some(0xC6),
            (Instruct::DEC, AddressType::ZeroPageX) => Some(0xD6),
            (Instruct::DEC, AddressType::Absolute) => Some(0xCE),
            (Instruct::DEC, AddressType::AbsoluteX) => Some(0xDE),
            (Instruct::DEX, AddressType::Impl) => Some(0xCA),
            (Instruct::DEY, AddressType::Impl) => Some(0x88),
            (Instruct::EOR, AddressType::Immediate) => Some(0x49),
            (Instruct::EOR, AddressType::ZeroPage) => Some(0x45),
            (Instruct::EOR, AddressType::ZeroPageX) => Some(0x55),
            (Instruct::EOR, AddressType::Absolute) => Some(0x4D),
            (Instruct::EOR, AddressType::AbsoluteX) => Some(0x5D),
            (Instruct::EOR, AddressType::AbsoluteY) => Some(0x59),
            (Instruct::EOR, AddressType::IndirectX) => Some(0x41),
            (Instruct::EOR, AddressType::IndirectY) => Some(0x51),
            (Instruct::INC, AddressType::ZeroPage) => Some(0xE6),
            (Instruct::INC, AddressType::ZeroPageX) => Some(0xF6),
            (Instruct::INC, AddressType::Absolute) => Some(0xEE),
            (Instruct::INC, AddressType::AbsoluteX) => Some(0xFE),
            (Instruct::INX, AddressType::Impl) => Some(0xE8),
            (Instruct::INY, AddressType::Impl) => Some(0xC8),
            (Instruct::JMP, AddressType::Absolute) => Some(0x4C),
            (Instruct::JMP, AddressType::Indirect) => Some(0x6C),
            (Instruct::JSR, AddressType::Absolute) => Some(0x20),
            (Instruct::LDA, AddressType::Immediate) => Some(0xA9),
            (Instruct::LDA, AddressType::ZeroPage) => Some(0xA5),
            (Instruct::LDA, AddressType::ZeroPageX) => Some(0xB5),
            (Instruct::LDA, AddressType::Absolute) => Some(0xAD),
            (Instruct::LDA, AddressType::AbsoluteX) => Some(0xBD),
            (Instruct::LDA, AddressType::AbsoluteY) => Some(0xB9),
            (Instruct::LDA, AddressType::IndirectX) => Some(0xA1),
            (Instruct::LDA, AddressType::IndirectY) => Some(0xB1),
            (Instruct::LDX, AddressType::Immediate) => Some(0xA2),
            (Instruct::LDX, AddressType::ZeroPage) => Some(0xA6),
            (Instruct::LDX, AddressType::ZeroPageY) => Some(0xB6),
            (Instruct::LDX, AddressType::Absolute) => Some(0xAE),
            (Instruct::LDX, AddressType::AbsoluteY) => Some(0xBE),
            (Instruct::LDY, AddressType::Immediate) => Some(0xA0),
            (Instruct::LDY, AddressType::ZeroPage) => Some(0xA4),
            (Instruct::LDY, AddressType::ZeroPageX) => Some(0xB4),
            (Instruct::LDY, AddressType::Absolute) => Some(0xAC),
            (Instruct::LDY, AddressType::AbsoluteX) => Some(0xBC),
            (Instruct::LSR, AddressType::Accumulator) => Some(0x4A),
            (Instruct::LSR, AddressType::ZeroPage) => Some(0x46),
            (Instruct::LSR, AddressType::ZeroPageX) => Some(0x56),
            (Instruct::LSR, AddressType::Absolute) => Some(0x4E),
            (Instruct::LSR, AddressType::AbsoluteX) => Some(0x5E),
            (Instruct::NOP, AddressType::Impl) => Some(0xEA),
            (Instruct::ORA, AddressType::Immediate) => Some(0x09),
            (Instruct::ORA, AddressType::ZeroPage) => Some(0x05),
            (Instruct::ORA, AddressType::ZeroPageX) => Some(0x15),
            (Instruct::ORA, AddressType::Absolute) => Some(0x0D),
            (Instruct::ORA, AddressType::AbsoluteX) => Some(0x1D),
            (Instruct::ORA, AddressType::AbsoluteY) => Some(0x19),
            (Instruct::ORA, AddressType::IndirectX) => Some(0x01),
            (Instruct::ORA, AddressType::IndirectY) => Some(0x11),
            (Instruct::PHA, AddressType::Impl) => Some(0x48),
            (Instruct::PHP, AddressType::Impl) => Some(0x08),
            (Instruct::PLA, AddressType::Impl) => Some(0x68),
            (Instruct::PLP, AddressType::Impl) => Some(0x28),
            (Instruct::ROL, AddressType::Accumulator) => Some(0x2A),
            (Instruct::ROL, AddressType::ZeroPage) => Some(0x26),
            (Instruct::ROL, AddressType::ZeroPageX) => Some(0x36),
            (Instruct::ROL, AddressType::Absolute) => Some(0x2E),
            (Instruct::ROL, AddressType::AbsoluteX) => Some(0x3E),
            (Instruct::ROR, AddressType::Accumulator) => Some(0x6A),
            (Instruct::ROR, AddressType::ZeroPage) => Some(0x66),
            (Instruct::ROR, AddressType::ZeroPageX) => Some(0x76),
            (Instruct::ROR, AddressType::Absolute) => Some(0x6E),
            (Instruct::ROR, AddressType::AbsoluteX) => Some(0x7E),
            (Instruct::RTI, AddressType::Impl) => Some(0x40),
            (Instruct::RTS, AddressType::Impl) => Some(0x60),
            (Instruct::SBC, AddressType::Immediate) => Some(0xE9),
            (Instruct::SBC, AddressType::ZeroPage) => Some(0xE5),
            (Instruct::SBC, AddressType::ZeroPageX) => Some(0xF5),
            (Instruct::SBC, AddressType::Absolute) => Some(0xED),
            (Instruct::SBC, AddressType::AbsoluteX) => Some(0xFD),
            (Instruct::SBC, AddressType::AbsoluteY) => Some(0xF9),
            (Instruct::SBC, AddressType::IndirectX) => Some(0xE1),
            (Instruct::SBC, AddressType::IndirectY) => Some(0xF1),
            (Instruct::SEC, AddressType::Impl) => Some(0x38),
            (Instruct::SED, AddressType::Impl) => Some(0xF8),
            (Instruct::SEI, AddressType::Impl) => Some(0x78),
            (Instruct::STA, AddressType::ZeroPage) => Some(0x85),
            (Instruct::STA, AddressType::ZeroPageX) => Some(0x95),
            (Instruct::STA, AddressType::Absolute) => Some(0x8D),
            (Instruct::STA, AddressType::AbsoluteX) => Some(0x9D),
            (Instruct::STA, AddressType::AbsoluteY) => Some(0x99),
            (Instruct::STA, AddressType::IndirectX) => Some(0x81),
            (Instruct::STA, AddressType::IndirectY) => Some(0x91),
            (Instruct::STX, AddressType::ZeroPage) => Some(0x86),
            (Instruct::STX, AddressType::ZeroPageY) => Some(0x96),
            (Instruct::STX, AddressType::Absolute) => Some(0x8E),
            (Instruct::STY, AddressType::ZeroPage) => Some(0x84),
            (Instruct::STY, AddressType::ZeroPageX) => Some(0x94),
            (Instruct::STY, AddressType::Absolute) => Some(0x8C),
            (Instruct::TAX, AddressType::Impl) => Some(0xAA),
            (Instruct::TAY, AddressType::Impl) => Some(0xA8),
            (Instruct::TSX, AddressType::Impl) => Some(0xBA),
            (Instruct::TXA, AddressType::Impl) => Some(0x8A),
            (Instruct::TXS, AddressType::Impl) => Some(0x9A),
            (Instruct::TYA, AddressType::Impl) => Some(0x98),
            _ => None,
        }
    }

    /// What `op_code` stands for, or `None` for an undocumented opcode.
    pub fn from_op_code(op_code: u8) -> (r: Option<InstructionInfo>)
        ensures
            r == decode(op_code),
    {
        reveal(decode);
        match op_code {
            0x00 => Some(InstructionInfo { instruction: Instruct::BRK, mode: AddressType::Impl, cycles: 7, extra_cycles: 0 }),
            0x01 => Some(InstructionInfo { instruction: Instruct::ORA, mode: AddressType::IndirectX, cycles: 6, extra_cycles: 0 }),
            0x05 => Some(InstructionInfo { instruction: Instruct::ORA, mode: AddressType::ZeroPage, cycles: 3, extra_cycles: 0 }),
            0x06 => Some(InstructionInfo { instruction: Instruct::ASL, mode: AddressType::ZeroPage, cycles: 5, extra_cycles: 0 }),
            0x08 => Some(InstructionInfo { instruction: Instruct::PHP, mode: AddressType::Impl, cycles: 3, extra_cycles: 0 }),
            0x09 => Some(InstructionInfo { instruction: Instruct::ORA, mode: AddressType::Immediate, cycles: 2, extra_cycles: 0 }),
            0x0A => Some(InstructionInfo { instruction: Instruct::ASL, mode: AddressType::Accumulator, cycles: 2, extra_cycles: 0 }),
            0x0D => Some(InstructionInfo { instruction: Instruct::ORA, mode: AddressType::Absolute, cycles: 4, extra_cycles: 0 }),
            0x0E => Some(InstructionInfo { instruction: Instruct::ASL, mode: AddressType::Absolute, cycles: 6, extra_cycles: 0 }),
            0x10 => Some(InstructionInfo { instruction: Instruct::BPL, mode: AddressType::Relative, cycles: 2, extra_cycles: 2 }),
            0x11 => Some(InstructionInfo { instruction: Instruct::ORA, mode: AddressType::IndirectY, cycles: 5, extra_cycles: 1 }),
            0x15 => Some(InstructionInfo { instruction: Instruct::ORA, mode: AddressType::ZeroPageX, cycles: 4, extra_cycles: 0 }),
            0x16 => Some(InstructionInfo { instruction: Instruct::ASL, mode: AddressType::ZeroPageX, cycles: 6, extra_cycles: 0 }),
            0x18 => Some(InstructionInfo { instruction: Instruct::CLC, mode: AddressType::Impl, cycles: 2, extra_cycles: 0 }),
            0x19 => Some(InstructionInfo { instruction: Instruct::ORA, mode: AddressType::AbsoluteY, cycles: 4, extra_cycles: 1 }),
            0x1D => Some(InstructionInfo { instruction: Instruct::ORA, mode: AddressType::AbsoluteX, cycles: 4, extra_cycles: 1 }),
            0x1E => Some(InstructionInfo { instruction: Instruct::ASL, mode: AddressType::AbsoluteX, cycles: 7, extra_cycles: 0 }),
            0x20 => Some(InstructionInfo { instruction: Instruct::JSR, mode: AddressType::Absolute, cycles: 6, extra_cycles: 0 }),
            0x21 => Some(InstructionInfo { instruction: Instruct::AND, mode: AddressType::IndirectX, cycles: 6, extra_cycles: 0 }),
            0x24 => Some(InstructionInfo { instruction: Instruct::BIT, mode: AddressType::ZeroPage, cycles: 3, extra_cycles: 0 }),
            0x25 => Some(InstructionInfo { instruction: Instruct::AND, mode: AddressType::ZeroPage, cycles: 3, extra_cycles: 0 }),
            0x26 => Some(InstructionInfo { instruction: Instruct::ROL, mode: AddressType::ZeroPage, cycles: 5, extra_cycles: 0 }),
            0x28 => Some(InstructionInfo { instruction: Instruct::PLP, mode: AddressType::Impl, cycles: 4, extra_cycles: 0 }),
            0x29 => Some(InstructionInfo { instruction: Instruct::AND, mode: AddressType::Immediate, cycles: 2, extra_cycles: 0 }),
            0x2A => Some(InstructionInfo { instruction: Instruct::ROL, mode: AddressType::Accumulator, cycles: 2, extra_cycles: 0 }),
            0x2C => Some(InstructionInfo { instruction: Instruct::BIT, mode: AddressType::Absolute, cycles: 4, extra_cycles: 0 }),
            0x2D => Some(InstructionInfo { instruction: Instruct::AND, mode: AddressType::Absolute, cycles: 4, extra_cycles: 0 }),
            0x2E => Some(InstructionInfo { instruction: Instruct::ROL, mode: AddressType::Absolute, cycles: 6, extra_cycles: 0 }),
            0x30 => Some(InstructionInfo { instruction: Instruct::BMI, mode: AddressType::Relative, cycles: 2, extra_cycles: 2 }),
            0x31 => Some(InstructionInfo { instruction: Instruct::AND, mode: AddressType::IndirectY, cycles: 5, extra_cycles: 1 }),
            0x35 => Some(InstructionInfo { instruction: Instruct::AND, mode: AddressType::ZeroPageX, cycles: 4, extra_cycles: 0 }),
            0x36 => Some(InstructionInfo { instruction: Instruct::ROL, mode: AddressType::ZeroPageX, cycles: 6, extra_cycles: 0 }),
            0x38 => Some(InstructionInfo { instruction: Instruct::SEC, mode: AddressType::Impl, cycles: 2, extra_cycles: 0 }),
            0x39 => Some(InstructionInfo { instruction: Instruct::AND, mode: AddressType::AbsoluteY, cycles: 4, extra_cycles: 1 }),
            0x3D => Some(InstructionInfo { instruction: Instruct::AND, mode: AddressType::AbsoluteX, cycles: 4, extra_cycles: 1 }),
            0x3E => Some(InstructionInfo { instruction: Instruct::ROL, mode: AddressType::AbsoluteX, cycles: 7, extra_cycles: 0 }),
            0x40 => Some(InstructionInfo { instruction: Instruct::RTI, mode: AddressType::Impl, cycles: 6, extra_cycles: 0 }),
            0x41 => Some(InstructionInfo { instruction: Instruct::EOR, mode: AddressType::IndirectX, cycles: 6, extra_cycles: 0 }),
            0x45 => Some(InstructionInfo { instruction: Instruct::EOR, mode: AddressType::ZeroPage, cycles: 3, extra_cycles: 0 }),
            0x46 => Some(InstructionInfo { instruction: Instruct::LSR, mode: AddressType::ZeroPage, cycles: 5, extra_cycles: 0 }),
            0x48 => Some(InstructionInfo { instruction: Instruct::PHA, mode: AddressType::Impl, cycles: 3, extra_cycles: 0 }),
            0x49 => Some(InstructionInfo { instruction: Instruct::EOR, mode: AddressType::Immediate, cycles: 2, extra_cycles: 0 }),
            0x4A => Some(InstructionInfo { instruction: Instruct::LSR, mode: AddressType::Accumulator, cycles: 2, extra_cycles: 0 }),
            0x4C => Some(InstructionInfo { instruction: Instruct::JMP, mode: AddressType::Absolute, cycles: 3, extra_cycles: 0 }),
            0x4D => Some(InstructionInfo { instruction: Instruct::EOR, mode: AddressType::Absolute, cycles: 4, extra_cycles: 0 }),
            0x4E => Some(InstructionInfo { instruction: Instruct::LSR, mode: AddressType::Absolute, cycles: 6, extra_cycles: 0 }),
            0x50 => Some(InstructionInfo { instruction: Instruct::BVC, mode: AddressType::Relative, cycles: 2, extra_cycles: 2 }),
            0x51 => Some(InstructionInfo { instruction: Instruct::EOR, mode: AddressType::IndirectY, cycles: 5, extra_cycles: 1 }),
            0x55 => Some(InstructionInfo { instruction: Instruct::EOR, mode: AddressType::ZeroPageX, cycles: 4, extra_cycles: 0 }),
            0x56 => Some(InstructionInfo { instruction: Instruct::LSR, mode: AddressType::ZeroPageX, cycles: 6, extra_cycles: 0 }),
            0x58 => Some(InstructionInfo { instruction: Instruct::CLI, mode: AddressType::Impl, cycles: 2, extra_cycles: 0 }),
            0x59 => Some(InstructionInfo { instruction: Instruct::EOR, mode: AddressType::AbsoluteY, cycles: 4, extra_cycles: 1 }),
            0x5D => Some(InstructionInfo { instruction: Instruct::EOR, mode: AddressType::AbsoluteX, cycles: 4, extra_cycles: 1 }),
            0x5E => Some(InstructionInfo { instruction: Instruct::LSR, mode: AddressType::AbsoluteX, cycles: 7, extra_cycles: 0 }),
            0x60 => Some(InstructionInfo { instruction: Instruct::RTS, mode: AddressType::Impl, cycles: 6, extra_cycles: 0 }),
            0x61 => Some(InstructionInfo { instruction: Instruct::ADC, mode: AddressType::IndirectX, cycles: 6, extra_cycles: 0 }),
            0x65 => Some(InstructionInfo { instruction: Instruct::ADC, mode: AddressType::ZeroPage, cycles: 3, extra_cycles: 0 }),
            0x66 => Some(InstructionInfo { instruction: Instruct::ROR, mode: AddressType::ZeroPage, cycles: 5, extra_cycles: 0 }),
            0x68 => Some(InstructionInfo { instruction: Instruct::PLA, mode: AddressType::Impl, cycles: 4, extra_cycles: 0 }),
            0x69 => Some(InstructionInfo { instruction: Instruct::ADC, mode: AddressType::Immediate, cycles: 2, extra_cycles: 0 }),
            0x6A => Some(InstructionInfo { instruction: Instruct::ROR, mode: AddressType::Accumulator, cycles: 2, extra_cycles: 0 }),
            0x6C => Some(InstructionInfo { instruction: Instruct::JMP, mode: AddressType::Indirect, cycles: 5, extra_cycles: 0 }),
            0x6D => Some(InstructionInfo { instruction: Instruct::ADC, mode: AddressType::Absolute, cycles: 4, extra_cycles: 0 }),
            0x6E => Some(InstructionInfo { instruction: Instruct::ROR, mode: AddressType::Absolute, cycles: 6, extra_cycles: 0 }),
            0x70 => Some(InstructionInfo { instruction: Instruct::BVS, mode: AddressType::Relative, cycles: 2, extra_cycles: 2 }),
            0x71 => Some(InstructionInfo { instruction: Instruct::ADC, mode: AddressType::IndirectY, cycles: 5, extra_cycles: 1 }),
            0x75 => Some(InstructionInfo { instruction: Instruct::ADC, mode: AddressType::ZeroPageX, cycles: 4, extra_cycles: 0 }),
            0x76 => Some(InstructionInfo { instruction: Instruct::ROR, mode: AddressType::ZeroPageX, cycles: 6, extra_cycles: 0 }),
            0x78 => Some(InstructionInfo { instruction: Instruct::SEI, mode: AddressType::Impl, cycles: 2, extra_cycles: 0 }),
            0x79 => Some(InstructionInfo { instruction: Instruct::ADC, mode: AddressType::AbsoluteY, cycles: 4, extra_cycles: 1 }),
            0x7D => Some(InstructionInfo { instruction: Instruct::ADC, mode: AddressType::AbsoluteX, cycles: 4, extra_cycles: 1 }),
            0x7E => Some(InstructionInfo { instruction: Instruct::ROR, mode: AddressType::AbsoluteX, cycles: 7, extra_cycles: 0 }),
            0x81 => Some(InstructionInfo { instruction: Instruct::STA, mode: AddressType::IndirectX, cycles: 6, extra_cycles: 0 }),
            0x84 => Some(InstructionInfo { instruction: Instruct::STY, mode: AddressType::ZeroPage, cycles: 3, extra_cycles: 0 }),
            0x85 => Some(InstructionInfo { instruction: Instruct::STA, mode: AddressType::ZeroPage, cycles: 3, extra_cycles: 0 }),
            0x86 => Some(InstructionInfo { instruction: Instruct::STX, mode: AddressType::ZeroPage, cycles: 3, extra_cycles: 0 }),
            0x88 => Some(InstructionInfo { instruction: Instruct::DEY, mode: AddressType::Impl, cycles: 2, extra_cycles: 0 }),
            0x8A => Some(InstructionInfo { instruction: Instruct::TXA, mode: AddressType::Impl, cycles: 2, extra_cycles: 0 }),
            0x8C => Some(InstructionInfo { instruction: Instruct::STY, mode: AddressType::Absolute, cycles: 4, extra_cycles: 0 }),
            0x8D => Some(InstructionInfo { instruction: Instruct::STA, mode: AddressType::Absolute, cycles: 4, extra_cycles: 0 }),
            0x8E => Some(InstructionInfo { instruction: Instruct::STX, mode: AddressType::Absolute, cycles: 4, extra_cycles: 0 }),
            0x90 => Some(InstructionInfo { instruction: Instruct::BCC, mode: AddressType::Relative, cycles: 2, extra_cycles: 2 }),
            0x91 => Some(InstructionInfo { instruction: Instruct::STA, mode: AddressType::IndirectY, cycles: 6, extra_cycles: 0 }),
            0x94 => Some(InstructionInfo { instruction: Instruct::STY, mode: AddressType::ZeroPageX, cycles: 4, extra_cycles: 0 }),
            0x95 => Some(InstructionInfo { instruction: Instruct::STA, mode: AddressType::ZeroPageX, cycles: 4, extra_cycles: 0 }),
            0x96 => Some(InstructionInfo { instruction: Instruct::STX, mode: AddressType::ZeroPageY, cycles: 4, extra_cycles: 0 }),
            0x98 => Some(InstructionInfo { instruction: Instruct::TYA, mode: AddressType::Impl, cycles: 2, extra_cycles: 0 }),
            0x99 => Some(InstructionInfo { instruction: Instruct::STA, mode: AddressType::AbsoluteY, cycles: 5, extra_cycles: 0 }),
            0x9A => Some(InstructionInfo { instruction: Instruct::TXS, mode: AddressType::Impl, cycles: 2, extra_cycles: 0 }),
            0x9D => Some(InstructionInfo { instruction: Instruct::STA, mode: AddressType::AbsoluteX, cycles: 5, extra_cycles: 0 }),
            0xA0 => Some(InstructionInfo { instruction: Instruct::LDY, mode: AddressType::Immediate, cycles: 2, extra_cycles: 0 }),
            0xA1 => Some(InstructionInfo { instruction: Instruct::LDA, mode: AddressType::IndirectX, cycles: 6, extra_cycles: 0 }),
            0xA2 => Some(InstructionInfo { instruction: Instruct::LDX, mode: AddressType::Immediate, cycles: 2, extra_cycles: 0 }),
            0xA4 => Some(InstructionInfo { instruction: Instruct::LDY, mode: AddressType::ZeroPage, cycles: 3, extra_cycles: 0 }),
            0xA5 => Some(InstructionInfo { instruction: Instruct::LDA, mode: AddressType::ZeroPage, cycles: 3, extra_cycles: 0 }),
            0xA6 => Some(InstructionInfo { instruction: Instruct::LDX, mode: AddressType::ZeroPage, cycles: 3, extra_cycles: 0 }),
            0xA8 => Some(InstructionInfo { instruction: Instruct::TAY, mode: AddressType::Impl, cycles: 2, extra_cycles: 0 }),
            0xA9 => Some(InstructionInfo { instruction: Instruct::LDA, mode: AddressType::Immediate, cycles: 2, extra_cycles: 0 }),
            0xAA => Some(InstructionInfo { instruction: Instruct::TAX, mode: AddressType::Impl, cycles: 2, extra_cycles: 0 }),
            0xAC => Some(InstructionInfo { instruction: Instruct::LDY, mode: AddressType::Absolute, cycles: 4, extra_cycles: 0 }),
            0xAD => Some(InstructionInfo { instruction: Instruct::LDA, mode: AddressType::Absolute, cycles: 4, extra_cycles: 0 }),
            0xAE => Some(InstructionInfo { instruction: Instruct::LDX, mode: AddressType::Absolute, cycles: 4, extra_cycles: 0 }),
            0xB0 => Some(InstructionInfo { instruction: Instruct::BCS, mode: AddressType::Relative, cycles: 2, extra_cycles: 2 }),
            0xB1 => Some(InstructionInfo { instruction: Instruct::LDA, mode: AddressType::IndirectY, cycles: 5, extra_cycles: 1 }),
            0xB4 => Some(InstructionInfo { instruction: Instruct::LDY, mode: AddressType::ZeroPageX, cycles: 4, extra_cycles: 0 }),
            0xB5 => Some(InstructionInfo { instruction: Instruct::LDA, mode: AddressType::ZeroPageX, cycles: 4, extra_cycles: 0 }),
            0xB6 => Some(InstructionInfo { instruction: Instruct::LDX, mode: AddressType::ZeroPageY, cycles: 4, extra_cycles: 0 }),
            0xB8 => Some(InstructionInfo { instruction: Instruct::CLV, mode: AddressType::Impl, cycles: 2, extra_cycles: 0 }),
            0xB9 => Some(InstructionInfo { instruction: Instruct::LDA, mode: AddressType::AbsoluteY, cycles: 4, extra_cycles: 1 }),
            0xBA => Some(InstructionInfo { instruction: Instruct::TSX, mode: AddressType::Impl, cycles: 2, extra_cycles: 0 }),
            0xBC => Some(InstructionInfo { instruction: Instruct::LDY, mode: AddressType::AbsoluteX, cycles: 4, extra_cycles: 1 }),
            0xBD => Some(InstructionInfo { instruction: Instruct::LDA, mode: AddressType::AbsoluteX, cycles: 4, extra_cycles: 1 }),
            0xBE => Some(InstructionInfo { instruction: Instruct::LDX, mode: AddressType::AbsoluteY, cycles: 4, extra_cycles: 1 }),
            0xC0 => Some(InstructionInfo { instruction: Instruct::CPY, mode: AddressType::Immediate, cycles: 2, extra_cycles: 0 }),
            0xC1 => Some(InstructionInfo { instruction: Instruct::CMP, mode: AddressType::IndirectX, cycles: 6, extra_cycles: 0 }),
            0xC4 => Some(InstructionInfo { instruction: Instruct::CPY, mode: AddressType::ZeroPage, cycles: 3, extra_cycles: 0 }),
            0xC5 => Some(InstructionInfo { instruction: Instruct::CMP, mode: AddressType::ZeroPage, cycles: 3, extra_cycles: 0 }),
            0xC6 => Some(InstructionInfo { instruction: Instruct::DEC, mode: AddressType::ZeroPage, cycles: 5, extra_cycles: 0 }),
            0xC8 => Some(InstructionInfo { instruction: Instruct::INY, mode: AddressType::Impl, cycles: 2, extra_cycles: 0 }),
            0xC9 => Some(InstructionInfo { instruction: Instruct::CMP, mode: AddressType::Immediate, cycles: 2, extra_cycles: 0 }),
            0xCA => Some(InstructionInfo { instruction: Instruct::DEX, mode: AddressType::Impl, cycles: 2, extra_cycles: 0 }),
            0xCC => Some(InstructionInfo { instruction: Instruct::CPY, mode: AddressType::Absolute, cycles: 4, extra_cycles: 0 }),
            0xCD => Some(InstructionInfo { instruction: Instruct::CMP, mode: AddressType::Absolute, cycles: 4, extra_cycles: 0 }),
            0xCE => Some(InstructionInfo { instruction: Instruct::DEC, mode: AddressType::Absolute, cycles: 6, extra_cycles: 0 }),
            0xD0 => Some(InstructionInfo { instruction: Instruct::BNE, mode: AddressType::Relative, cycles: 2, extra_cycles: 2 }),
            0xD1 => Some(InstructionInfo { instruction: Instruct::CMP, mode: AddressType::IndirectY, cycles: 5, extra_cycles: 1 }),
            0xD5 => Some(InstructionInfo { instruction: Instruct::CMP, mode: AddressType::ZeroPageX, cycles: 4, extra_cycles: 0 }),
            0xD6 => Some(InstructionInfo { instruction: Instruct::DEC, mode: AddressType::ZeroPageX, cycles: 6, extra_cycles: 0 }),
            0xD8 => Some(InstructionInfo { instruction: Instruct::CLD, mode: AddressType::Impl, cycles: 2, extra_cycles: 0 }),
            0xD9 => Some(InstructionInfo { instruction: Instruct::CMP, mode: AddressType::AbsoluteY, cycles: 4, extra_cycles: 1 }),
            0xDD => Some(InstructionInfo { instruction: Instruct::CMP, mode: AddressType::AbsoluteX, cycles: 4, extra_cycles: 1 }),
            0xDE => Some(InstructionInfo { instruction: Instruct::DEC, mode: AddressType::AbsoluteX, cycles: 7, extra_cycles: 0 }),
            0xE0 => Some(InstructionInfo { instruction: Instruct::CPX, mode: AddressType::Immediate, cycles: 2, extra_cycles: 0 }),
            0xE1 => Some(InstructionInfo { instruction: Instruct::SBC, mode: AddressType::IndirectX, cycles: 6, extra_cycles: 0 }),
            0xE4 => Some(InstructionInfo { instruction: Instruct::CPX, mode: AddressType::ZeroPage, cycles: 3, extra_cycles: 0 }),
            0xE5 => Some(InstructionInfo { instruction: Instruct::SBC, mode: AddressType::ZeroPage, cycles: 3, extra_cycles: 0 }),
            0xE6 => Some(InstructionInfo { instruction: Instruct::INC, mode: AddressType::ZeroPage, cycles: 5, extra_cycles: 0 }),
            0xE8 => Some(InstructionInfo { instruction: Instruct::INX, mode: AddressType::Impl, cycles: 2, extra_cycles: 0 }),
            0xE9 => Some(InstructionInfo { instruction: Instruct::SBC, mode: AddressType::Immediate, cycles: 2, extra_cycles: 0 }),
            0xEA => Some(InstructionInfo { instruction: Instruct::NOP, mode: AddressType::Impl, cycles: 2, extra_cycles: 0 }),
            0xEC => Some(InstructionInfo { instruction: Instruct::CPX, mode: AddressType::Absolute, cycles: 4, extra_cycles: 0 }),
            0xED => Some(InstructionInfo { instruction: Instruct::SBC, mode: AddressType::Absolute, cycles: 4, extra_cycles: 0 }),
            0xEE => Some(InstructionInfo { instruction: Instruct::INC, mode: AddressType::Absolute, cycles: 6, extra_cycles: 0 }),
            0xF0 => Some(InstructionInfo { instruction: Instruct::BEQ, mode: AddressType::Relative, cycles: 2, extra_cycles: 2 }),
            0xF1 => Some(InstructionInfo { instruction: Instruct::SBC, mode: AddressType::IndirectY, cycles: 5, extra_cycles: 1 }),
            0xF5 => Some(InstructionInfo { instruction: Instruct::SBC, mode: AddressType::ZeroPageX, cycles: 4, extra_cycles: 0 }),
            0xF6 => Some(InstructionInfo { instruction: Instruct::INC, mode: AddressType::ZeroPageX, cycles: 6, extra_cycles: 0 }),
            0xF8 => Some(InstructionInfo { instruction: Instruct::SED, mode: AddressType::Impl, cycles: 2, extra_cycles: 0 }),
            0xF9 => Some(InstructionInfo { instruction: Instruct::SBC, mode: AddressType::AbsoluteY, cycles: 4, extra_cycles: 1 }),
            0xFD => Some(InstructionInfo { instruction: Instruct::SBC, mode: AddressType::AbsoluteX, cycles: 4, extra_cycles: 1 }),
            0xFE => Some(InstructionInfo { instruction: Instruct::INC, mode: AddressType::AbsoluteX, cycles: 7, extra_cycles: 0 }),
            _ => None,
        }
    }
}

} // verus!
