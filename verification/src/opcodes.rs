//! The instruction table: for each of the 256 opcode bytes, the operation,
//! the addressing mode and the base cycle count.
use vstd::prelude::*;
use crate::cpu::AddressingMode;

verus! {

/// The operations of the processor.
#[derive(Clone, Copy, PartialEq, Eq, Structural, Debug)]
pub enum Opcode {
    /// Add with Carry.
    ADC,
    /// Logical AND.
    AND,
    /// Arithmetic Shift Left.
    ASL,
    /// Branch if Carry Clear.
    BCC,
    /// Branch if Carry Set.
    BCS,
    /// Branch if Equal.
    BEQ,
    /// Bit Test.
    BIT,
    /// Branch if Minus.
    BMI,
    /// Branch if Not Equal.
    BNE,
    /// Branch if Positive.
    BPL,
    /// Force Interrupt.
    BRK,
    /// Branch if Overflow Clear.
    BVC,
    /// Branch if Overflow Set.
    BVS,
    /// Clear Carry Flag.
    CLC,
    /// Clear Decimal Mode.
    CLD,
    /// Clear Interrupt Disable.
    CLI,
    /// Clear Overflow Flag.
    CLV,
    /// Compare.
    CMP,
    /// Compare X Register.
    CPX,
    /// Compare Y Register.
    CPY,
    /// Decrement Memory.
    DEC,
    /// Decrement X Register.
    DEX,
    /// Decrement Y Register.
    DEY,
    /// Exclusive OR.
    EOR,
    /// Increment Memory.
    INC,
    /// Increment X Register.
    INX,
    /// Increment Y Register.
    INY,
    /// Jump.
    JMP,
    /// Jump to Subroutine.
    JSR,
    /// Load Accumulator.
    LDA,
    /// Load X Register.
    LDX,
    /// Load Y Register.
    LDY,
    /// Logical Shift Right.
    LSR,
    /// No Operation.
    NOP,
    /// Logical Inclusive OR.
    ORA,
    /// Push Accumulator.
    PHA,
    /// Push Processor Status.
    PHP,
    /// Pull Accumulator.
    PLA,
    /// Pull Processor Status.
    PLP,
    /// Rotate Left.
    ROL,
    /// Rotate Right.
    ROR,
    /// Return from Interrupt.
    RTI,
    /// Return from Subroutine.
    RTS,
    /// Subtract with Carry.
    SBC,
    /// Set Carry Flag.
    SEC,
    /// Set Decimal Flag.
    SED,
    /// Set Interrupt Disable.
    SEI,
    /// Store Accumulator.
    STA,
    /// Store X Register.
    STX,
    /// Store Y Register.
    STY,
    /// Transfer Accumulator to X.
    TAX,
    /// Transfer Accumulator to Y.
    TAY,
    /// Transfer Stack Pointer to X.
    TSX,
    /// Transfer X to Accumulator.
    TXA,
    /// Transfer X to Stack Pointer.
    TXS,
    /// Transfer Y to Accumulator.
    TYA,
    /// No official operation: the byte is an illegal opcode.
    XXX,
}

/// One entry of the instruction table.
#[derive(Clone, Copy, Debug)]
pub struct Instruction {
    pub hexcode: u8,
    pub operate: Opcode,
    pub addrmode: AddressingMode,
    pub cycles: u8,
}

/// The operation behind each opcode byte, four to a row.
pub const OPERATIONS: [Opcode; 256] = [
    Opcode::BRK, Opcode::ORA, Opcode::XXX, Opcode::XXX,
    Opcode::XXX, Opcode::ORA, Opcode::ASL, Opcode::XXX,
    Opcode::PHP, Opcode::ORA, Opcode::ASL, Opcode::XXX,
    Opcode::XXX, Opcode::ORA, Opcode::ASL, Opcode::XXX,
    Opcode::BPL, Opcode::ORA, Opcode::XXX, Opcode::XXX,
    Opcode::XXX, Opcode::ORA, Opcode::ASL, Opcode::XXX,
    Opcode::CLC, Opcode::ORA, Opcode::XXX, Opcode::XXX,
    Opcode::XXX, Opcode::ORA, Opcode::ASL, Opcode::XXX,
    Opcode::JSR, Opcode::AND, Opcode::XXX, Opcode::XXX,
    Opcode::BIT, Opcode::AND, Opcode::ROL, Opcode::XXX,
    Opcode::PLP, Opcode::AND, Opcode::ROL, Opcode::XXX,
    Opcode::BIT, Opcode::AND, Opcode::ROL, Opcode::XXX,
    Opcode::BMI, Opcode::AND, Opcode::XXX, Opcode::XXX,
    Opcode::XXX, Opcode::AND, Opcode::ROL, Opcode::XXX,
    Opcode::SEC, Opcode::AND, Opcode::XXX, Opcode::XXX,
    Opcode::XXX, Opcode::AND, Opcode::ROL, Opcode::XXX,
    Opcode::RTI, Opcode::EOR, Opcode::XXX, Opcode::XXX,
    Opcode::XXX, Opcode::EOR, Opcode::LSR, Opcode::XXX,
    Opcode::PHA, Opcode::EOR, Opcode::LSR, Opcode::XXX,
    Opcode::JMP, Opcode::EOR, Opcode::LSR, Opcode::XXX,
    Opcode::BVC, Opcode::EOR, Opcode::XXX, Opcode::XXX,
    Opcode::XXX, Opcode::EOR, Opcode::LSR, Opcode::XXX,
    Opcode::CLI, Opcode::EOR, Opcode::XXX, Opcode::XXX,
    Opcode::XXX, Opcode::EOR, Opcode::LSR, Opcode::XXX,
    Opcode::RTS, Opcode::ADC, Opcode::XXX, Opcode::XXX,
    Opcode::XXX, Opcode::ADC, Opcode::ROR, Opcode::XXX,
    Opcode::PLA, Opcode::ADC, Opcode::ROR, Opcode::XXX,
    Opcode::JMP, Opcode::ADC, Opcode::ROR, Opcode::XXX,
    Opcode::BVS, Opcode::ADC, Opcode::XXX, Opcode::XXX,
    Opcode::XXX, Opcode::ADC, Opcode::ROR, Opcode::XXX,
    Opcode::SEI, Opcode::ADC, Opcode::XXX, Opcode::XXX,
    Opcode::XXX, Opcode::ADC, Opcode::ROR, Opcode::XXX,
    Opcode::XXX, Opcode::STA, Opcode::XXX, Opcode::XXX,
    Opcode::STY, Opcode::STA, Opcode::STX, Opcode::XXX,
    Opcode::DEY, Opcode::XXX, Opcode::TXA, Opcode::XXX,
    Opcode::STY, Opcode::STA, Opcode::STX, Opcode::XXX,
    Opcode::BCC, Opcode::STA, Opcode::XXX, Opcode::XXX,
    Opcode::STY, Opcode::STA, Opcode::STX, Opcode::XXX,
    Opcode::TYA, Opcode::STA, Opcode::TXS, Opcode::XXX,
    Opcode::XXX, Opcode::STA, Opcode::XXX, Opcode::XXX,
    Opcode::LDY, Opcode::LDA, Opcode::LDX, Opcode::XXX,
    Opcode::LDY, Opcode::LDA, Opcode::LDX, Opcode::XXX,
    Opcode::TAY, Opcode::LDA, Opcode::TAX, Opcode::XXX,
    Opcode::LDY, Opcode::LDA, Opcode::LDX, Opcode::XXX,
    Opcode::BCS, Opcode::LDA, Opcode::XXX, Opcode::XXX,
    Opcode::LDY, Opcode::LDA, Opcode::LDX, Opcode::XXX,
    Opcode::CLV, Opcode::LDA, Opcode::TSX, Opcode::XXX,
    Opcode::LDY, Opcode::LDA, Opcode::LDX, Opcode::XXX,
    Opcode::CPY, Opcode::CMP, Opcode::XXX, Opcode::XXX,
    Opcode::CPY, Opcode::CMP, Opcode::DEC, Opcode::XXX,
    Opcode::INY, Opcode::CMP, Opcode::DEX, Opcode::XXX,
    Opcode::CPY, Opcode::CMP, Opcode::DEC, Opcode::XXX,
    Opcode::BNE, Opcode::CMP, Opcode::XXX, Opcode::XXX,
    Opcode::XXX, Opcode::CMP, Opcode::DEC, Opcode::XXX,
    Opcode::CLD, Opcode::CMP, Opcode::XXX, Opcode::XXX,
    Opcode::XXX, Opcode::CMP, Opcode::DEC, Opcode::XXX,
    Opcode::CPX, Opcode::SBC, Opcode::XXX, Opcode::XXX,
    Opcode::CPX, Opcode::SBC, Opcode::INC, Opcode::XXX,
    Opcode::INX, Opcode::SBC, Opcode::NOP, Opcode::XXX,
    Opcode::CPX, Opcode::SBC, Opcode::INC, Opcode::XXX,
    Opcode::BEQ, Opcode::SBC, Opcode::XXX, Opcode::XXX,
    Opcode::XXX, Opcode::SBC, Opcode::INC, Opcode::XXX,
    Opcode::SED, Opcode::SBC, Opcode::XXX, Opcode::XXX,
    Opcode::XXX, Opcode::SBC, Opcode::INC, Opcode::XXX,
];

/// The addressing mode of each opcode byte.
pub const MODES: [AddressingMode; 256] = [
    AddressingMode::IMP, AddressingMode::IZX, AddressingMode::IMP, AddressingMode::IMP,
    AddressingMode::IMP, AddressingMode::ZP0, AddressingMode::ZP0, AddressingMode::IMP,
    AddressingMode::IMP, AddressingMode::IMM, AddressingMode::IMP, AddressingMode::IMP,
    AddressingMode::IMP, AddressingMode::ABS, AddressingMode::ABS, AddressingMode::IMP,
    AddressingMode::REL, AddressingMode::IZY, AddressingMode::IMP, AddressingMode::IMP,
    AddressingMode::IMP, AddressingMode::ZPX, AddressingMode::ZPX, AddressingMode::IMP,
    AddressingMode::IMP, AddressingMode::ABY, AddressingMode::IMP, AddressingMode::IMP,
    AddressingMode::IMP, AddressingMode::ABX, AddressingMode::ABX, AddressingMode::IMP,
    AddressingMode::ABS, AddressingMode::IZX, AddressingMode::IMP, AddressingMode::IMP,
    AddressingMode::ZP0, AddressingMode::ZP0, AddressingMode::ZP0, AddressingMode::IMP,
    AddressingMode::IMP, AddressingMode::IMM, AddressingMode::IMP, AddressingMode::IMP,
    AddressingMode::ABS, AddressingMode::ABS, AddressingMode::ABS, AddressingMode::IMP,
    AddressingMode::REL, AddressingMode::IZY, AddressingMode::IMP, AddressingMode::IMP,
    AddressingMode::IMP, AddressingMode::ZPX, AddressingMode::ZPX, AddressingMode::IMP,
    AddressingMode::IMP, AddressingMode::ABY, AddressingMode::IMP, AddressingMode::IMP,
    AddressingMode::IMP, AddressingMode::ABX, AddressingMode::ABX, AddressingMode::IMP,
    AddressingMode::IMP, AddressingMode::IZX, AddressingMode::IMP, AddressingMode::IMP,
    AddressingMode::IMP, AddressingMode::ZP0, AddressingMode::ZP0, AddressingMode::IMP,
    AddressingMode::IMP, AddressingMode::IMM, AddressingMode::IMP, AddressingMode::IMP,
    AddressingMode::ABS, AddressingMode::ABS, AddressingMode::ABS, AddressingMode::IMP,
    AddressingMode::REL, AddressingMode::IZY, AddressingMode::IMP, AddressingMode::IMP,
    AddressingMode::IMP, AddressingMode::ZPX, AddressingMode::ZPX, AddressingMode::IMP,
    AddressingMode::IMP, AddressingMode::ABY, AddressingMode::IMP, AddressingMode::IMP,
    AddressingMode::IMP, AddressingMode::ABX, AddressingMode::ABX, AddressingMode::IMP,
    AddressingMode::IMP, AddressingMode::IZX, AddressingMode::IMP, AddressingMode::IMP,
    AddressingMode::IMP, AddressingMode::ZP0, AddressingMode::ZP0, AddressingMode::IMP,
    AddressingMode::IMP, AddressingMode::IMM, AddressingMode::IMP, AddressingMode::IMP,
    AddressingMode::IND, AddressingMode::ABS, AddressingMode::ABS, AddressingMode::IMP,
    AddressingMode::REL, AddressingMode::IZY, AddressingMode::IMP, AddressingMode::IMP,
    AddressingMode::IMP, AddressingMode::ZPX, AddressingMode::ZPX, AddressingMode::IMP,
    AddressingMode::IMP, AddressingMode::ABY, AddressingMode::IMP, AddressingMode::IMP,
    AddressingMode::IMP, AddressingMode::ABX, AddressingMode::ABX, AddressingMode::IMP,
    AddressingMode::IMP, AddressingMode::IZX, AddressingMode::IMP, AddressingMode::IMP,
    AddressingMode::ZP0, AddressingMode::ZP0, AddressingMode::ZP0, AddressingMode::IMP,
    AddressingMode::IMP, AddressingMode::IMP, AddressingMode::IMP, AddressingMode::IMP,
    AddressingMode::ABS, AddressingMode::ABS, AddressingMode::ABS, AddressingMode::IMP,
    AddressingMode::REL, AddressingMode::IZY, AddressingMode::IMP, AddressingMode::IMP,
    AddressingMode::ZPX, AddressingMode::ZPX, AddressingMode::ZPY, AddressingMode::IMP,
    AddressingMode::IMP, AddressingMode::ABY, AddressingMode::IMP, AddressingMode::IMP,
    AddressingMode::IMP, AddressingMode::ABX, AddressingMode::IMP, AddressingMode::IMP,
    AddressingMode::IMM, AddressingMode::IZX, AddressingMode::IMM, AddressingMode::IMP,
    AddressingMode::ZP0, AddressingMode::ZP0, AddressingMode::ZP0, AddressingMode::IMP,
    AddressingMode::IMP, AddressingMode::IMM, AddressingMode::IMP, AddressingMode::IMP,
    AddressingMode::ABS, AddressingMode::ABS, AddressingMode::ABS, AddressingMode::IMP,
    AddressingMode::REL, AddressingMode::IZY, AddressingMode::IMP, AddressingMode::IMP,
    AddressingMode::ZPX, AddressingMode::ZPX, AddressingMode::ZPY, AddressingMode::IMP,
    AddressingMode::IMP, AddressingMode::ABY, AddressingMode::IMP, AddressingMode::IMP,
    AddressingMode::ABX, AddressingMode::ABX, AddressingMode::ABY, AddressingMode::IMP,
    AddressingMode::IMM, AddressingMode::IZX, AddressingMode::IMP, AddressingMode::IMP,
    AddressingMode::ZP0, AddressingMode::ZP0, AddressingMode::ZP0, AddressingMode::IMP,
    AddressingMode::IMP, AddressingMode::IMM, AddressingMode::IMP, AddressingMode::IMP,
    AddressingMode::ABS, AddressingMode::ABS, AddressingMode::ABS, AddressingMode::IMP,
    AddressingMode::REL, AddressingMode::IZY, AddressingMode::IMP, AddressingMode::IMP,
    AddressingMode::IMP, AddressingMode::ZPX, AddressingMode::ZPX, AddressingMode::IMP,
    AddressingMode::IMP, AddressingMode::ABY, AddressingMode::IMP, AddressingMode::IMP,
    AddressingMode::IMP, AddressingMode::ABX, AddressingMode::ABX, AddressingMode::IMP,
    AddressingMode::IMM, AddressingMode::IZX, AddressingMode::IMP, AddressingMode::IMP,
    AddressingMode::ZP0, AddressingMode::ZP0, AddressingMode::ZP0, AddressingMode::IMP,
    AddressingMode::IMP, AddressingMode::IMM, AddressingMode::IMP, AddressingMode::IMP,
    AddressingMode::ABS, AddressingMode::ABS, AddressingMode::ABS, AddressingMode::IMP,
    AddressingMode::REL, AddressingMode::IZY, AddressingMode::IMP, AddressingMode::IMP,
    AddressingMode::IMP, AddressingMode::ZPX, AddressingMode::ZPX, AddressingMode::IMP,
    AddressingMode::IMP, AddressingMode::ABY, AddressingMode::IMP, AddressingMode::IMP,
    AddressingMode::IMP, AddressingMode::ABX, AddressingMode::ABX, AddressingMode::IMP,
];

/// The base cycle count of each opcode byte, sixteen to a row.
pub const CYCLES: [u8; 256] = [
    7, 6, 2, 8, 3, 3, 5, 5, 3, 2, 2, 2, 4, 4, 6, 6,
    2, 5, 2, 8, 4, 4, 6, 6, 2, 4, 2, 7, 4, 4, 7, 7,
    6, 6, 2, 8, 3, 3, 5, 5, 4, 2, 2, 2, 4, 4, 6, 6,
    2, 5, 2, 8, 4, 4, 6, 6, 2, 4, 2, 7, 4, 4, 7, 7,
    6, 6, 2, 8, 3, 3, 5, 5, 3, 2, 2, 2, 3, 4, 6, 6,
    2, 5, 2, 8, 4, 4, 6, 6, 2, 4, 2, 7, 7, 4, 7, 7,
    6, 6, 2, 8, 3, 3, 5, 5, 4, 2, 2, 2, 5, 4, 6, 6,
    2, 5, 2, 8, 4, 4, 6, 6, 2, 4, 2, 7, 4, 4, 7, 7,
    2, 6, 2, 6, 3, 3, 3, 3, 2, 2, 2, 2, 4, 4, 4, 4,
    2, 6, 2, 6, 4, 4, 4, 4, 2, 5, 2, 5, 5, 5, 5, 5,
    2, 6, 2, 6, 3, 3, 3, 3, 2, 2, 2, 2, 4, 4, 4, 4,
    2, 5, 2, 5, 4, 4, 4, 4, 2, 4, 2, 4, 4, 4, 4, 4,
    2, 6, 2, 8, 3, 3, 5, 5, 2, 2, 2, 2, 4, 4, 6, 6,
    2, 5, 2, 8, 4, 4, 6, 6, 2, 4, 2, 7, 4, 4, 7, 7,
    2, 6, 2, 8, 3, 3, 5, 5, 2, 2, 2, 2, 4, 4, 6, 6,
    2, 5, 2, 8, 4, 4, 6, 6, 2, 4, 2, 7, 4, 4, 7, 7,
];

/// The entry of the instruction table for an opcode byte.
#[verifier::opaque]
pub open spec fn instruction(hexcode: u8) -> Instruction {
    Instruction {
        hexcode,
        operate: OPERATIONS[hexcode as int],
        addrmode: MODES[hexcode as int],
        cycles: CYCLES[hexcode as int],
    }
}

impl Instruction {
    /// Decodes an opcode byte. Every byte has an entry; the bytes without an
    /// official operation are tagged `XXX`.
    pub fn lookup(hexcode: u8) -> (entry: Instruction)
        ensures
            entry == instruction(hexcode),
            entry.hexcode == hexcode,
    {
        proof {
            reveal(instruction);
        }
        Instruction {
            hexcode,
            operate: OPERATIONS[hexcode as usize],
            addrmode: MODES[hexcode as usize],
            cycles: CYCLES[hexcode as usize],
        }
    }
}

/// Every entry costs between two and eight cycles, and the bytes without
/// an official operation are tagged with the implied mode.
pub proof fn lemma_table_bounds(hexcode: u8)
    ensures
        2 <= instruction(hexcode).cycles <= 8,
        instruction(hexcode).operate == Opcode::XXX ==> instruction(hexcode).addrmode
            == AddressingMode::IMP,
{
    reveal(instruction);
}

} // verus!
