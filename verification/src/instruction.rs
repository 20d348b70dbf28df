//! Instruction table and decoder.
//!
//! Each instruction of the processor is defined by a descriptor: a fixed-bit
//! pattern (`code`) and a significance mask (`mask`). A raw word matches a
//! descriptor when `word & mask == code`. The descriptors form an ordered
//! table, and decoding scans that table in declared order, returning the
//! first match; the order is a design invariant, because the masks of two
//! descriptors may in principle both accept the same word.

use vstd::prelude::*;

use crate::bitfield::bits;
use crate::bitfield::extract_bits;
use crate::bitfield::span_width;
use crate::bitfield::spec_extract;
use crate::bitfield::BitRange;

verus! {

/// Error produced when a raw word matches no descriptor of the table. It
/// carries the offending word for diagnostics.
#[derive(Clone, Copy, Debug, PartialEq, Eq, Structural)]
pub struct InvalidInstruction {
    /// The raw word that could not be classified.
    pub code: u16,
}

/// One entry of the instruction table: an instruction together with the
/// fixed-bit pattern and the significance mask that define its encoding.
#[derive(Clone, Copy, Debug, PartialEq, Eq, Structural)]
pub struct Descriptor {
    /// The instruction this descriptor stands for.
    pub instr: Instruction,
    /// The fixed-bit pattern of the encoding.
    pub code: u16,
    /// The mask marking which bits of a raw word are significant when
    /// matching against `code`.
    pub mask: u16,
}

/// Number of entries in the descriptor table.
pub const INSTRUCTION_COUNT: usize = 71;

/// The bit positions of the 6-bit opcode field that selects an instruction's
/// family: bits 10 through 15 of a word.
pub open spec fn opcode_range() -> BitRange {
    BitRange { start: 10, end: 15 }
}

/// The descriptor of instruction `x`.
pub open spec fn desc_of(x: Instruction) -> Descriptor {
    Descriptor { instr: x, code: spec_code(x), mask: spec_mask(x) }
}

/// The descriptor table in its declared order. The order is semantically
/// significant: it is the match priority of [`spec_decode`].
pub open spec fn spec_table() -> Seq<Descriptor> {
    Seq::new(INSTRUCTION_COUNT as nat, |k: int| desc_of(spec_instruction_at(k)))
}

/// Whether the raw word `v` matches descriptor `d`: every bit that `d`'s
/// mask marks as significant agrees with `d`'s fixed-bit pattern.
pub open spec fn matches_desc(v: u16, d: Descriptor) -> bool {
    v & d.mask == d.code
}

/// Position of the first descriptor at or after position `i` of `t` that the
/// word `v` matches, if any.
pub open spec fn first_match_from(v: u16, t: Seq<Descriptor>, i: int) -> Option<int>
    decreases t.len() - i,
{
    if i < 0 || i >= t.len() {
        None
    } else if matches_desc(v, t[i]) {
        Some(i)
    } else {
        first_match_from(v, t, i + 1)
    }
}

/// The classification of the raw word `v`: the instruction of the first
/// descriptor of the table that `v` matches, or an error carrying `v` when no
/// descriptor matches.
pub open spec fn spec_decode(v: u16) -> Result<Instruction, InvalidInstruction> {
    match first_match_from(v, spec_table(), 0) {
        Some(k) => Ok(spec_table()[k].instr),
        None => Err(InvalidInstruction { code: v }),
    }
}

/// The 6-bit family selector of instruction `x`: bits 10 through 15 of its
/// defining code.
pub open spec fn spec_opcode(x: Instruction) -> u16 {
    spec_extract(spec_code(x), opcode_range())
}

/// The closed set of instructions of the processor's architecture.
///
/// The declaration order of the variants is the declaration order of the
/// descriptor table: it decides match priority when the masks of two
/// descriptors could both accept the same raw word.
#[derive(Clone, Copy, Debug, PartialEq, Eq, Structural)]
pub enum Instruction {
    /// Load into `Rx` the memory value at address `END`.
    LOAD,
    /// Load the literal value `NR` into `Rx`.
    LOADN,
    /// Load into `Rx` the memory value at the address held in `Ry`.
    LOADI,
    /// Store the value of `Rx` at memory address `END`.
    STORE,
    /// Store the literal value `NR` at memory address `END`.
    STOREN,
    /// Store the value of `Ry` at the memory address held in `Rx`.
    STOREI,
    /// Move a value between two registers, or between a register and `SP`.
    MOV,
    /// Read from a peripheral into a register.
    INPUT,
    /// Write a register's value to a peripheral.
    OUTPUT,
    /// Draw the character coded in `Rx` at the video position held in `Ry`.
    OUTCHAR,
    /// Read a character from the keyboard into `Rx`.
    INCHAR,
    /// Play a sound through the audio peripheral.
    SOUND,
    /// `Rx <- Ry + Rz`.
    ADD,
    /// `Rx <- Ry + Rz + C`: add with carry, told apart from `ADD` by bit 0 alone.
    ADDC,
    /// `Rx <- Ry - Rz`.
    SUB,
    /// `Rx <- Ry - Rz + C`: subtract with carry, told apart from `SUB` by bit 0 alone.
    SUBC,
    /// `Rx <- Ry * Rz`.
    MUL,
    /// `Rx <- Ry / Rz`.
    DIV,
    /// `Rx <- Rx + 1`.
    INC,
    /// `Rx <- Rx - 1`: told apart from `INC` by bit 6 alone.
    DEC,
    /// `Rx <- Ry % Rz`.
    MOD,
    /// `Rx <- Ry & Rz`.
    AND,
    /// `Rx <- Ry | Rz`.
    OR,
    /// `Rx <- Ry ^ Rz`.
    XOR,
    /// `Rx <- !Ry`.
    NOT,
    /// Shift `Rx` left `N` times, filling with zeros.
    SHIFTL0,
    /// Shift `Rx` left `N` times, filling with ones.
    SHIFTL1,
    /// Shift `Rx` right `N` times, filling with zeros.
    SHIFTR0,
    /// Shift `Rx` right `N` times, filling with ones.
    SHIFTR1,
    /// Rotate `Rx` left `N` times.
    ROTL,
    /// Rotate `Rx` right `N` times.
    ROTR,
    /// Compare `Rx` and `Ry` and update the flag register.
    CMP,
    /// Jump to address `END`.
    JMP,
    /// Jump if the equal flag is set.
    JEQ,
    /// Jump if the equal flag is clear.
    JNE,
    /// Jump if the zero flag is set.
    JZ,
    /// Jump if the zero flag is clear.
    JNZ,
    /// Jump if the carry flag is set.
    JC,
    /// Jump if the carry flag is clear.
    JNC,
    /// Jump if the greater flag is set.
    JGR,
    /// Jump if the lesser flag is set.
    JLE,
    /// Jump if the equal or the greater flag is set.
    JEG,
    /// Jump if the equal or the lesser flag is set.
    JEL,
    /// Jump if the arithmetic-overflow flag is set.
    JOV,
    /// Jump if the arithmetic-overflow flag is clear.
    JNO,
    /// Jump if the divide-by-zero flag is set.
    JDZ,
    /// Jump if the negative flag is set.
    JN,
    /// Push `PC` and jump to the procedure at address `END`.
    CALL,
    /// Call if the equal flag is set.
    CEQ,
    /// Call if the equal flag is clear.
    CNE,
    /// Call if the zero flag is set.
    CZ,
    /// Call if the zero flag is clear.
    CNZ,
    /// Call if the carry flag is set.
    CC,
    /// Call if the carry flag is clear.
    CNC,
    /// Call if the greater flag is set.
    CGR,
    /// Call if the lesser flag is set.
    CLE,
    /// Call if the equal or the greater flag is set.
    CEG,
    /// Call if the equal or the lesser flag is set.
    CEL,
    /// Call if the arithmetic-overflow flag is set.
    COV,
    /// Call if the arithmetic-overflow flag is clear.
    CNO,
    /// Call if the divide-by-zero flag is set.
    CDZ,
    /// Call if the negative flag is set.
    CN,
    /// Return from a procedure, adding 1 to the restored `PC`.
    RTS,
    /// Return with `PC` exactly as saved, told apart from `RTS` by bit 0 alone.
    RTI,
    /// Push a register or the flag register onto the stack.
    PUSH,
    /// Pop from the stack into a register or the flag register.
    POP,
    /// No operation.
    NOP,
    /// Stop the processor.
    HALT,
    /// Clear the carry flag.
    CLEARC,
    /// Set the carry flag.
    SETC,
    /// Breakpoint: drop the simulator into debug mode.
    BREAKP,
}

/// The fixed-bit pattern that defines an instruction's encoding.
pub open spec fn spec_code(x: Instruction) -> u16 {
    match x {
        Instruction::LOAD => 0b110000_000_000_000_0u16,
        Instruction::LOADN => 0b111000_000_000_000_0u16,
        Instruction::LOADI => 0b111100_000_000_000_0u16,
        Instruction::STORE => 0b110001_000_000_000_0u16,
        Instruction::STOREN => 0b111001_000_000_000_0u16,
        Instruction::STOREI => 0b111101_000_000_000_0u16,
        Instruction::MOV => 0b110011_000_000_000_0u16,
        Instruction::INPUT => 0b111110_000_000_000_0u16,
        Instruction::OUTPUT => 0b111111_000_000_000_0u16,
        Instruction::OUTCHAR => 0b110010_000_000_000_0u16,
        Instruction::INCHAR => 0b110101_000_000_000_0u16,
        Instruction::SOUND => 0b110100_000_000_000_0u16,
        Instruction::ADD => 0b100000_000_000_000_0u16,
        Instruction::ADDC => 0b100000_000_000_000_1u16,
        Instruction::SUB => 0b100001_000_000_000_0u16,
        Instruction::SUBC => 0b100001_000_000_000_1u16,
        Instruction::MUL => 0b100010_000_000_000_0u16,
        Instruction::DIV => 0b100011_000_000_000_0u16,
        Instruction::INC => 0b100100_000_000_000_0u16,
        Instruction::DEC => 0b100100_000_100_000_0u16,
        Instruction::MOD => 0b100101_000_000_000_0u16,
        Instruction::AND => 0b010010_000_000_000_0u16,
        Instruction::OR => 0b010011_000_000_000_0u16,
        Instruction::XOR => 0b010100_000_000_000_0u16,
        Instruction::NOT => 0b010101_000_000_000_0u16,
        Instruction::SHIFTL0 => 0b010000_000_000_000_0u16,
        Instruction::SHIFTL1 => 0b010000_000_001_000_0u16,
        Instruction::SHIFTR0 => 0b010000_000_010_000_0u16,
        Instruction::SHIFTR1 => 0b010000_000_011_000_0u16,
        Instruction::ROTL => 0b010000_000_100_000_0u16,
        Instruction::ROTR => 0b010000_000_110_000_0u16,
        Instruction::CMP => 0b010110_000_000_000_0u16,
        Instruction::JMP => 0b000010_000_000_000_0u16,
        Instruction::JEQ => 0b000010_000_100_000_0u16,
        Instruction::JNE => 0b000010_001_000_000_0u16,
        Instruction::JZ => 0b000010_001_100_000_0u16,
        Instruction::JNZ => 0b000010_010_000_000_0u16,
        Instruction::JC => 0b000010_010_100_000_0u16,
        Instruction::JNC => 0b000010_011_000_000_0u16,
        Instruction::JGR => 0b000010_011_100_000_0u16,
        Instruction::JLE => 0b000010_100_000_000_0u16,
        Instruction::JEG => 0b000010_100_100_000_0u16,
        Instruction::JEL => 0b000010_101_000_000_0u16,
        Instruction::JOV => 0b000010_101_100_000_0u16,
        Instruction::JNO => 0b000010_110_000_000_0u16,
        Instruction::JDZ => 0b000010_110_100_000_0u16,
        Instruction::JN => 0b000010_111_000_000_0u16,
        Instruction::CALL => 0b000011_000_000_000_0u16,
        Instruction::CEQ => 0b000011_000_100_000_0u16,
        Instruction::CNE => 0b000011_001_000_000_0u16,
        Instruction::CZ => 0b000011_001_100_000_0u16,
        Instruction::CNZ => 0b000011_010_000_000_0u16,
        Instruction::CC => 0b000011_010_100_000_0u16,
        Instruction::CNC => 0b000011_011_000_000_0u16,
        Instruction::CGR => 0b000011_011_100_000_0u16,
        Instruction::CLE => 0b000011_100_000_000_0u16,
        Instruction::CEG => 0b000011_100_100_000_0u16,
        Instruction::CEL => 0b000011_101_000_000_0u16,
        Instruction::COV => 0b000011_101_100_000_0u16,
        Instruction::CNO => 0b000011_110_000_000_0u16,
        Instruction::CDZ => 0b000011_110_100_000_0u16,
        Instruction::CN => 0b000011_111_000_000_0u16,
        Instruction::RTS => 0b000100_000_000_000_0u16,
        Instruction::RTI => 0b000100_000_000_000_1u16,
        Instruction::PUSH => 0b000101_000_000_000_0u16,
        Instruction::POP => 0b000110_000_000_000_0u16,
        Instruction::NOP => 0b000000_000_000_000_0u16,
        Instruction::HALT => 0b001111_000_000_000_0u16,
        Instruction::CLEARC => 0b001000_000_000_000_0u16,
        Instruction::SETC => 0b001000_100_000_000_0u16,
        Instruction::BREAKP => 0b001110_000_000_000_0u16,
    }
}

/// The mask marking which bits of a raw word an instruction's descriptor
/// considers significant when matching.
pub open spec fn spec_mask(x: Instruction) -> u16 {
    match x {
        Instruction::LOAD => 0b111111_000_000_000_0u16,
        Instruction::LOADN => 0b111111_000_000_000_0u16,
        Instruction::LOADI => 0b111111_000_000_000_0u16,
        Instruction::STORE => 0b111111_000_000_000_0u16,
        Instruction::STOREN => 0b111111_000_000_000_0u16,
        Instruction::STOREI => 0b111111_000_000_000_0u16,
        Instruction::MOV => 0b111111_000_000_000_0u16,
        Instruction::INPUT => 0b111111_000_000_000_0u16,
        Instruction::OUTPUT => 0b111111_000_000_000_0u16,
        Instruction::OUTCHAR => 0b111111_000_000_000_0u16,
        Instruction::INCHAR => 0b111111_000_000_000_0u16,
        Instruction::SOUND => 0b111111_000_000_000_0u16,
        Instruction::ADD => 0b111111_000_000_000_1u16,
        Instruction::ADDC => 0b111111_000_000_000_1u16,
        Instruction::SUB => 0b111111_000_000_000_1u16,
        Instruction::SUBC => 0b111111_000_000_000_1u16,
        Instruction::MUL => 0b111111_000_000_000_1u16,
        Instruction::DIV => 0b111111_000_000_000_1u16,
        Instruction::INC => 0b111111_000_100_000_0u16,
        Instruction::DEC => 0b111111_000_100_000_0u16,
        Instruction::MOD => 0b111111_000_000_000_0u16,
        Instruction::AND => 0b111111_000_000_000_0u16,
        Instruction::OR => 0b111111_000_000_000_0u16,
        Instruction::XOR => 0b111111_000_000_000_0u16,
        Instruction::NOT => 0b111111_000_000_000_0u16,
        Instruction::SHIFTL0 => 0b111111_000_111_000_0u16,
        Instruction::SHIFTL1 => 0b111111_000_111_000_0u16,
        Instruction::SHIFTR0 => 0b111111_000_111_000_0u16,
        Instruction::SHIFTR1 => 0b111111_000_111_000_0u16,
        Instruction::ROTL => 0b111111_000_110_000_0u16,
        Instruction::ROTR => 0b111111_000_110_000_0u16,
        Instruction::CMP => 0b111111_000_000_000_0u16,
        Instruction::JMP => 0b111111_111_100_000_0u16,
        Instruction::JEQ => 0b111111_111_100_000_0u16,
        Instruction::JNE => 0b111111_111_100_000_0u16,
        Instruction::JZ => 0b111111_111_100_000_0u16,
        Instruction::JNZ => 0b111111_111_100_000_0u16,
        Instruction::JC => 0b111111_111_100_000_0u16,
        Instruction::JNC => 0b111111_111_100_000_0u16,
        Instruction::JGR => 0b111111_111_100_000_0u16,
        Instruction::JLE => 0b111111_111_100_000_0u16,
        Instruction::JEG => 0b111111_111_100_000_0u16,
        Instruction::JEL => 0b111111_111_100_000_0u16,
        Instruction::JOV => 0b111111_111_100_000_0u16,
        Instruction::JNO => 0b111111_111_100_000_0u16,
        Instruction::JDZ => 0b111111_111_100_000_0u16,
        Instruction::JN => 0b111111_111_100_000_0u16,
        Instruction::CALL => 0b111111_111_100_000_0u16,
        Instruction::CEQ => 0b111111_111_100_000_0u16,
        Instruction::CNE => 0b111111_111_100_000_0u16,
        Instruction::CZ => 0b111111_111_100_000_0u16,
        Instruction::CNZ => 0b111111_111_100_000_0u16,
        Instruction::CC => 0b111111_111_100_000_0u16,
        Instruction::CNC => 0b111111_111_100_000_0u16,
        Instruction::CGR => 0b111111_111_100_000_0u16,
        Instruction::CLE => 0b111111_111_100_000_0u16,
        Instruction::CEG => 0b111111_111_100_000_0u16,
        Instruction::CEL => 0b111111_111_100_000_0u16,
        Instruction::COV => 0b111111_111_100_000_0u16,
        Instruction::CNO => 0b111111_111_100_000_0u16,
        Instruction::CDZ => 0b111111_111_100_000_0u16,
        Instruction::CN => 0b111111_111_100_000_0u16,
        Instruction::RTS => 0b111111_000_000_000_1u16,
        Instruction::RTI => 0b111111_000_000_000_1u16,
        Instruction::PUSH => 0b111111_000_000_000_0u16,
        Instruction::POP => 0b111111_000_000_000_0u16,
        Instruction::NOP => 0b111111_000_000_000_0u16,
        Instruction::HALT => 0b111111_000_000_000_0u16,
        Instruction::CLEARC => 0b111111_100_000_000_0u16,
        Instruction::SETC => 0b111111_100_000_000_0u16,
        Instruction::BREAKP => 0b111111_000_000_000_0u16,
    }
}

/// The symbolic (assembly) name of an instruction.
pub open spec fn spec_name(x: Instruction) -> Seq<char> {
    match x {
        Instruction::LOAD => "LOAD"@,
        Instruction::LOADN => "LOADN"@,
        Instruction::LOADI => "LOADI"@,
        Instruction::STORE => "STORE"@,
        Instruction::STOREN => "STOREN"@,
        Instruction::STOREI => "STOREI"@,
        Instruction::MOV => "MOV"@,
        Instruction::INPUT => "INPUT"@,
        Instruction::OUTPUT => "OUTPUT"@,
        Instruction::OUTCHAR => "OUTCHAR"@,
        Instruction::INCHAR => "INCHAR"@,
        Instruction::SOUND => "SOUND"@,
        Instruction::ADD => "ADD"@,
        Instruction::ADDC => "ADDC"@,
        Instruction::SUB => "SUB"@,
        Instruction::SUBC => "SUBC"@,
        Instruction::MUL => "MUL"@,
        Instruction::DIV => "DIV"@,
        Instruction::INC => "INC"@,
        Instruction::DEC => "DEC"@,
        Instruction::MOD => "MOD"@,
        Instruction::AND => "AND"@,
        Instruction::OR => "OR"@,
        Instruction::XOR => "XOR"@,
        Instruction::NOT => "NOT"@,
        Instruction::SHIFTL0 => "SHIFTL0"@,
        Instruction::SHIFTL1 => "SHIFTL1"@,
        Instruction::SHIFTR0 => "SHIFTR0"@,
        Instruction::SHIFTR1 => "SHIFTR1"@,
        Instruction::ROTL => "ROTL"@,
        Instruction::ROTR => "ROTR"@,
        Instruction::CMP => "CMP"@,
        Instruction::JMP => "JMP"@,
        Instruction::JEQ => "JEQ"@,
        Instruction::JNE => "JNE"@,
        Instruction::JZ => "JZ"@,
        Instruction::JNZ => "JNZ"@,
        Instruction::JC => "JC"@,
        Instruction::JNC => "JNC"@,
        Instruction::JGR => "JGR"@,
        Instruction::JLE => "JLE"@,
        Instruction::JEG => "JEG"@,
        Instruction::JEL => "JEL"@,
        Instruction::JOV => "JOV"@,
        Instruction::JNO => "JNO"@,
        Instruction::JDZ => "JDZ"@,
        Instruction::JN => "JN"@,
        Instruction::CALL => "CALL"@,
        Instruction::CEQ => "CEQ"@,
        Instruction::CNE => "CNE"@,
        Instruction::CZ => "CZ"@,
        Instruction::CNZ => "CNZ"@,
        Instruction::CC => "CC"@,
        Instruction::CNC => "CNC"@,
        Instruction::CGR => "CGR"@,
        Instruction::CLE => "CLE"@,
        Instruction::CEG => "CEG"@,
        Instruction::CEL => "CEL"@,
        Instruction::COV => "COV"@,
        Instruction::CNO => "CNO"@,
        Instruction::CDZ => "CDZ"@,
        Instruction::CN => "CN"@,
        Instruction::RTS => "RTS"@,
        Instruction::RTI => "RTI"@,
        Instruction::PUSH => "PUSH"@,
        Instruction::POP => "POP"@,
        Instruction::NOP => "NOP"@,
        Instruction::HALT => "HALT"@,
        Instruction::CLEARC => "CLEARC"@,
        Instruction::SETC => "SETC"@,
        Instruction::BREAKP => "BREAKP"@,
    }
}

/// The instruction at position `k` of the descriptor table's declared order.
pub open spec fn spec_instruction_at(k: int) -> Instruction {
    if k == 0 {
        Instruction::LOAD
    } else if k == 1 {
        Instruction::LOADN
    } else if k == 2 {
        Instruction::LOADI
    } else if k == 3 {
        Instruction::STORE
    } else if k == 4 {
        Instruction::STOREN
    } else if k == 5 {
        Instruction::STOREI
    } else if k == 6 {
        Instruction::MOV
    } else if k == 7 {
        Instruction::INPUT
    } else if k == 8 {
        Instruction::OUTPUT
    } else if k == 9 {
        Instruction::OUTCHAR
    } else if k == 10 {
        Instruction::INCHAR
    } else if k == 11 {
        Instruction::SOUND
    } else if k == 12 {
        Instruction::ADD
    } else if k == 13 {
        Instruction::ADDC
    } else if k == 14 {
        Instruction::SUB
    } else if k == 15 {
        Instruction::SUBC
    } else if k == 16 {
        Instruction::MUL
    } else if k == 17 {
        Instruction::DIV
    } else if k == 18 {
        Instruction::INC
    } else if k == 19 {
        Instruction::DEC
    } else if k == 20 {
        Instruction::MOD
    } else if k == 21 {
        Instruction::AND
    } else if k == 22 {
        Instruction::OR
    } else if k == 23 {
        Instruction::XOR
    } else if k == 24 {
        Instruction::NOT
    } else if k == 25 {
        Instruction::SHIFTL0
    } else if k == 26 {
        Instruction::SHIFTL1
    } else if k == 27 {
        Instruction::SHIFTR0
    } else if k == 28 {
        Instruction::SHIFTR1
    } else if k == 29 {
        Instruction::ROTL
    } else if k == 30 {
        Instruction::ROTR
    } else if k == 31 {
        Instruction::CMP
    } else if k == 32 {
        Instruction::JMP
    } else if k == 33 {
        Instruction::JEQ
    } else if k == 34 {
        Instruction::JNE
    } else if k == 35 {
        Instruction::JZ
    } else if k == 36 {
        Instruction::JNZ
    } else if k == 37 {
        Instruction::JC
    } else if k == 38 {
        Instruction::JNC
    } else if k == 39 {
        Instruction::JGR
    } else if k == 40 {
        Instruction::JLE
    } else if k == 41 {
        Instruction::JEG
    } else if k == 42 {
        Instruction::JEL
    } else if k == 43 {
        Instruction::JOV
    } else if k == 44 {
        Instruction::JNO
    } else if k == 45 {
        Instruction::JDZ
    } else if k == 46 {
        Instruction::JN
    } else if k == 47 {
        Instruction::CALL
    } else if k == 48 {
        Instruction::CEQ
    } else if k == 49 {
        Instruction::CNE
    } else if k == 50 {
        Instruction::CZ
    } else if k == 51 {
        Instruction::CNZ
    } else if k == 52 {
        Instruction::CC
    } else if k == 53 {
        Instruction::CNC
    } else if k == 54 {
        Instruction::CGR
    } else if k == 55 {
        Instruction::CLE
    } else if k == 56 {
        Instruction::CEG
    } else if k == 57 {
        Instruction::CEL
    } else if k == 58 {
        Instruction::COV
    } else if k == 59 {
        Instruction::CNO
    } else if k == 60 {
        Instruction::CDZ
    } else if k == 61 {
        Instruction::CN
    } else if k == 62 {
        Instruction::RTS
    } else if k == 63 {
        Instruction::RTI
    } else if k == 64 {
        Instruction::PUSH
    } else if k == 65 {
        Instruction::POP
    } else if k == 66 {
        Instruction::NOP
    } else if k == 67 {
        Instruction::HALT
    } else if k == 68 {
        Instruction::CLEARC
    } else if k == 69 {
        Instruction::SETC
    } else {
        Instruction::BREAKP
    }
}

/// The instruction at position `k` of the descriptor table's declared order.
pub fn instruction_at(k: usize) -> (x: Instruction)
    requires
        k < INSTRUCTION_COUNT,
    ensures
        x == spec_instruction_at(k as int),
{
    match k {
        0 => Instruction::LOAD,
        1 => Instruction::LOADN,
        2 => Instruction::LOADI,
        3 => Instruction::STORE,
        4 => Instruction::STOREN,
        5 => Instruction::STOREI,
        6 => Instruction::MOV,
        7 => Instruction::INPUT,
        8 => Instruction::OUTPUT,
        9 => Instruction::OUTCHAR,
        10 => Instruction::INCHAR,
        11 => Instruction::SOUND,
        12 => Instruction::ADD,
        13 => Instruction::ADDC,
        14 => Instruction::SUB,
        15 => Instruction::SUBC,
        16 => Instruction::MUL,
        17 => Instruction::DIV,
        18 => Instruction::INC,
        19 => Instruction::DEC,
        20 => Instruction::MOD,
        21 => Instruction::AND,
        22 => Instruction::OR,
        23 => Instruction::XOR,
        24 => Instruction::NOT,
        25 => Instruction::SHIFTL0,
        26 => Instruction::SHIFTL1,
        27 => Instruction::SHIFTR0,
        28 => Instruction::SHIFTR1,
        29 => Instruction::ROTL,
        30 => Instruction::ROTR,
        31 => Instruction::CMP,
        32 => Instruction::JMP,
        33 => Instruction::JEQ,
        34 => Instruction::JNE,
        35 => Instruction::JZ,
        36 => Instruction::JNZ,
        37 => Instruction::JC,
        38 => Instruction::JNC,
        39 => Instruction::JGR,
        40 => Instruction::JLE,
        41 => Instruction::JEG,
        42 => Instruction::JEL,
        43 => Instruction::JOV,
        44 => Instruction::JNO,
        45 => Instruction::JDZ,
        46 => Instruction::JN,
        47 => Instruction::CALL,
        48 => Instruction::CEQ,
        49 => Instruction::CNE,
        50 => Instruction::CZ,
        51 => Instruction::CNZ,
        52 => Instruction::CC,
        53 => Instruction::CNC,
        54 => Instruction::CGR,
        55 => Instruction::CLE,
        56 => Instruction::CEG,
        57 => Instruction::CEL,
        58 => Instruction::COV,
        59 => Instruction::CNO,
        60 => Instruction::CDZ,
        61 => Instruction::CN,
        62 => Instruction::RTS,
        63 => Instruction::RTI,
        64 => Instruction::PUSH,
        65 => Instruction::POP,
        66 => Instruction::NOP,
        67 => Instruction::HALT,
        68 => Instruction::CLEARC,
        69 => Instruction::SETC,
        70 => Instruction::BREAKP,
        _ => Instruction::BREAKP,
    }
}

impl Instruction {
    /// The descriptor defining this instruction's encoding: its fixed-bit
    /// pattern and its significance mask.
    pub fn descriptor(&self) -> (d: Descriptor)
        ensures
            d == desc_of(*self),
    {
        match self {
            Instruction::LOAD => Descriptor { instr: Instruction::LOAD, code: 0b110000_000_000_000_0, mask: 0b111111_000_000_000_0 },
            Instruction::LOADN => Descriptor { instr: Instruction::LOADN, code: 0b111000_000_000_000_0, mask: 0b111111_000_000_000_0 },
            Instruction::LOADI => Descriptor { instr: Instruction::LOADI, code: 0b111100_000_000_000_0, mask: 0b111111_000_000_000_0 },
            Instruction::STORE => Descriptor { instr: Instruction::STORE, code: 0b110001_000_000_000_0, mask: 0b111111_000_000_000_0 },
            Instruction::STOREN => Descriptor { instr: Instruction::STOREN, code: 0b111001_000_000_000_0, mask: 0b111111_000_000_000_0 },
            Instruction::STOREI => Descriptor { instr: Instruction::STOREI, code: 0b111101_000_000_000_0, mask: 0b111111_000_000_000_0 },
            Instruction::MOV => Descriptor { instr: Instruction::MOV, code: 0b110011_000_000_000_0, mask: 0b111111_000_000_000_0 },
            Instruction::INPUT => Descriptor { instr: Instruction::INPUT, code: 0b111110_000_000_000_0, mask: 0b111111_000_000_000_0 },
            Instruction::OUTPUT => Descriptor { instr: Instruction::OUTPUT, code: 0b111111_000_000_000_0, mask: 0b111111_000_000_000_0 },
            Instruction::OUTCHAR => Descriptor { instr: Instruction::OUTCHAR, code: 0b110010_000_000_000_0, mask: 0b111111_000_000_000_0 },
            Instruction::INCHAR => Descriptor { instr: Instruction::INCHAR, code: 0b110101_000_000_000_0, mask: 0b111111_000_000_000_0 },
            Instruction::SOUND => Descriptor { instr: Instruction::SOUND, code: 0b110100_000_000_000_0, mask: 0b111111_000_000_000_0 },
            Instruction::ADD => Descriptor { instr: Instruction::ADD, code: 0b100000_000_000_000_0, mask: 0b111111_000_000_000_1 },
            Instruction::ADDC => Descriptor { instr: Instruction::ADDC, code: 0b100000_000_000_000_1, mask: 0b111111_000_000_000_1 },
            Instruction::SUB => Descriptor { instr: Instruction::SUB, code: 0b100001_000_000_000_0, mask: 0b111111_000_000_000_1 },
            Instruction::SUBC => Descriptor { instr: Instruction::SUBC, code: 0b100001_000_000_000_1, mask: 0b111111_000_000_000_1 },
            Instruction::MUL => Descriptor { instr: Instruction::MUL, code: 0b100010_000_000_000_0, mask: 0b111111_000_000_000_1 },
            Instruction::DIV => Descriptor { instr: Instruction::DIV, code: 0b100011_000_000_000_0, mask: 0b111111_000_000_000_1 },
            Instruction::INC => Descriptor { instr: Instruction::INC, code: 0b100100_000_000_000_0, mask: 0b111111_000_100_000_0 },
            Instruction::DEC => Descriptor { instr: Instruction::DEC, code: 0b100100_000_100_000_0, mask: 0b111111_000_100_000_0 },
            Instruction::MOD => Descriptor { instr: Instruction::MOD, code: 0b100101_000_000_000_0, mask: 0b111111_000_000_000_0 },
            Instruction::AND => Descriptor { instr: Instruction::AND, code: 0b010010_000_000_000_0, mask: 0b111111_000_000_000_0 },
            Instruction::OR => Descriptor { instr: Instruction::OR, code: 0b010011_000_000_000_0, mask: 0b111111_000_000_000_0 },
            Instruction::XOR => Descriptor { instr: Instruction::XOR, code: 0b010100_000_000_000_0, mask: 0b111111_000_000_000_0 },
            Instruction::NOT => Descriptor { instr: Instruction::NOT, code: 0b010101_000_000_000_0, mask: 0b111111_000_000_000_0 },
            Instruction::SHIFTL0 => Descriptor { instr: Instruction::SHIFTL0, code: 0b010000_000_000_000_0, mask: 0b111111_000_111_000_0 },
            Instruction::SHIFTL1 => Descriptor { instr: Instruction::SHIFTL1, code: 0b010000_000_001_000_0, mask: 0b111111_000_111_000_0 },
            Instruction::SHIFTR0 => Descriptor { instr: Instruction::SHIFTR0, code: 0b010000_000_010_000_0, mask: 0b111111_000_111_000_0 },
            Instruction::SHIFTR1 => Descriptor { instr: Instruction::SHIFTR1, code: 0b010000_000_011_000_0, mask: 0b111111_000_111_000_0 },
            Instruction::ROTL => Descriptor { instr: Instruction::ROTL, code: 0b010000_000_100_000_0, mask: 0b111111_000_110_000_0 },
            Instruction::ROTR => Descriptor { instr: Instruction::ROTR, code: 0b010000_000_110_000_0, mask: 0b111111_000_110_000_0 },
            Instruction::CMP => Descriptor { instr: Instruction::CMP, code: 0b010110_000_000_000_0, mask: 0b111111_000_000_000_0 },
            Instruction::JMP => Descriptor { instr: Instruction::JMP, code: 0b000010_000_000_000_0, mask: 0b111111_111_100_000_0 },
            Instruction::JEQ => Descriptor { instr: Instruction::JEQ, code: 0b000010_000_100_000_0, mask: 0b111111_111_100_000_0 },
            Instruction::JNE => Descriptor { instr: Instruction::JNE, code: 0b000010_001_000_000_0, mask: 0b111111_111_100_000_0 },
            Instruction::JZ => Descriptor { instr: Instruction::JZ, code: 0b000010_001_100_000_0, mask: 0b111111_111_100_000_0 },
            Instruction::JNZ => Descriptor { instr: Instruction::JNZ, code: 0b000010_010_000_000_0, mask: 0b111111_111_100_000_0 },
            Instruction::JC => Descriptor { instr: Instruction::JC, code: 0b000010_010_100_000_0, mask: 0b111111_111_100_000_0 },
            Instruction::JNC => Descriptor { instr: Instruction::JNC, code: 0b000010_011_000_000_0, mask: 0b111111_111_100_000_0 },
            Instruction::JGR => Descriptor { instr: Instruction::JGR, code: 0b000010_011_100_000_0, mask: 0b111111_111_100_000_0 },
            Instruction::JLE => Descriptor { instr: Instruction::JLE, code: 0b000010_100_000_000_0, mask: 0b111111_111_100_000_0 },
            Instruction::JEG => Descriptor { instr: Instruction::JEG, code: 0b000010_100_100_000_0, mask: 0b111111_111_100_000_0 },
            Instruction::JEL => Descriptor { instr: Instruction::JEL, code: 0b000010_101_000_000_0, mask: 0b111111_111_100_000_0 },
            Instruction::JOV => Descriptor { instr: Instruction::JOV, code: 0b000010_101_100_000_0, mask: 0b111111_111_100_000_0 },
            Instruction::JNO => Descriptor { instr: Instruction::JNO, code: 0b000010_110_000_000_0, mask: 0b111111_111_100_000_0 },
            Instruction::JDZ => Descriptor { instr: Instruction::JDZ, code: 0b000010_110_100_000_0, mask: 0b111111_111_100_000_0 },
            Instruction::JN => Descriptor { instr: Instruction::JN, code: 0b000010_111_000_000_0, mask: 0b111111_111_100_000_0 },
            Instruction::CALL => Descriptor { instr: Instruction::CALL, code: 0b000011_000_000_000_0, mask: 0b111111_111_100_000_0 },
            Instruction::CEQ => Descriptor { instr: Instruction::CEQ, code: 0b000011_000_100_000_0, mask: 0b111111_111_100_000_0 },
            Instruction::CNE => Descriptor { instr: Instruction::CNE, code: 0b000011_001_000_000_0, mask: 0b111111_111_100_000_0 },
            Instruction::CZ => Descriptor { instr: Instruction::CZ, code: 0b000011_001_100_000_0, mask: 0b111111_111_100_000_0 },
            Instruction::CNZ => Descriptor { instr: Instruction::CNZ, code: 0b000011_010_000_000_0, mask: 0b111111_111_100_000_0 },
            Instruction::CC => Descriptor { instr: Instruction::CC, code: 0b000011_010_100_000_0, mask: 0b111111_111_100_000_0 },
            Instruction::CNC => Descriptor { instr: Instruction::CNC, code: 0b000011_011_000_000_0, mask: 0b111111_111_100_000_0 },
            Instruction::CGR => Descriptor { instr: Instruction::CGR, code: 0b000011_011_100_000_0, mask: 0b111111_111_100_000_0 },
            Instruction::CLE => Descriptor { instr: Instruction::CLE, code: 0b000011_100_000_000_0, mask: 0b111111_111_100_000_0 },
            Instruction::CEG => Descriptor { instr: Instruction::CEG, code: 0b000011_100_100_000_0, mask: 0b111111_111_100_000_0 },
            Instruction::CEL => Descriptor { instr: Instruction::CEL, code: 0b000011_101_000_000_0, mask: 0b111111_111_100_000_0 },
            Instruction::COV => Descriptor { instr: Instruction::COV, code: 0b000011_101_100_000_0, mask: 0b111111_111_100_000_0 },
            Instruction::CNO => Descriptor { instr: Instruction::CNO, code: 0b000011_110_000_000_0, mask: 0b111111_111_100_000_0 },
            Instruction::CDZ => Descriptor { instr: Instruction::CDZ, code: 0b000011_110_100_000_0, mask: 0b111111_111_100_000_0 },
            Instruction::CN => Descriptor { instr: Instruction::CN, code: 0b000011_111_000_000_0, mask: 0b111111_111_100_000_0 },
            Instruction::RTS => Descriptor { instr: Instruction::RTS, code: 0b000100_000_000_000_0, mask: 0b111111_000_000_000_1 },
            Instruction::RTI => Descriptor { instr: Instruction::RTI, code: 0b000100_000_000_000_1, mask: 0b111111_000_000_000_1 },
            Instruction::PUSH => Descriptor { instr: Instruction::PUSH, code: 0b000101_000_000_000_0, mask: 0b111111_000_000_000_0 },
            Instruction::POP => Descriptor { instr: Instruction::POP, code: 0b000110_000_000_000_0, mask: 0b111111_000_000_000_0 },
            Instruction::NOP => Descriptor { instr: Instruction::NOP, code: 0b000000_000_000_000_0, mask: 0b111111_000_000_000_0 },
            Instruction::HALT => Descriptor { instr: Instruction::HALT, code: 0b001111_000_000_000_0, mask: 0b111111_000_000_000_0 },
            Instruction::CLEARC => Descriptor { instr: Instruction::CLEARC, code: 0b001000_000_000_000_0, mask: 0b111111_100_000_000_0 },
            Instruction::SETC => Descriptor { instr: Instruction::SETC, code: 0b001000_100_000_000_0, mask: 0b111111_100_000_000_0 },
            Instruction::BREAKP => Descriptor { instr: Instruction::BREAKP, code: 0b001110_000_000_000_0, mask: 0b111111_000_000_000_0 },
        }
    }

    /// The symbolic (assembly) name of this instruction.
    pub fn name(&self) -> (s: &'static str)
        ensures
            s@ == spec_name(*self),
    {
        match self {
            Instruction::LOAD => "LOAD",
            Instruction::LOADN => "LOADN",
            Instruction::LOADI => "LOADI",
            Instruction::STORE => "STORE",
            Instruction::STOREN => "STOREN",
            Instruction::STOREI => "STOREI",
            Instruction::MOV => "MOV",
            Instruction::INPUT => "INPUT",
            Instruction::OUTPUT => "OUTPUT",
            Instruction::OUTCHAR => "OUTCHAR",
            Instruction::INCHAR => "INCHAR",
            Instruction::SOUND => "SOUND",
            Instruction::ADD => "ADD",
            Instruction::ADDC => "ADDC",
            Instruction::SUB => "SUB",
            Instruction::SUBC => "SUBC",
            Instruction::MUL => "MUL",
            Instruction::DIV => "DIV",
            Instruction::INC => "INC",
            Instruction::DEC => "DEC",
            Instruction::MOD => "MOD",
            Instruction::AND => "AND",
            Instruction::OR => "OR",
            Instruction::XOR => "XOR",
            Instruction::NOT => "NOT",
            Instruction::SHIFTL0 => "SHIFTL0",
            Instruction::SHIFTL1 => "SHIFTL1",
            Instruction::SHIFTR0 => "SHIFTR0",
            Instruction::SHIFTR1 => "SHIFTR1",
            Instruction::ROTL => "ROTL",
            Instruction::ROTR => "ROTR",
            Instruction::CMP => "CMP",
            Instruction::JMP => "JMP",
            Instruction::JEQ => "JEQ",
            Instruction::JNE => "JNE",
            Instruction::JZ => "JZ",
            Instruction::JNZ => "JNZ",
            Instruction::JC => "JC",
            Instruction::JNC => "JNC",
            Instruction::JGR => "JGR",
            Instruction::JLE => "JLE",
            Instruction::JEG => "JEG",
            Instruction::JEL => "JEL",
            Instruction::JOV => "JOV",
            Instruction::JNO => "JNO",
            Instruction::JDZ => "JDZ",
            Instruction::JN => "JN",
            Instruction::CALL => "CALL",
            Instruction::CEQ => "CEQ",
            Instruction::CNE => "CNE",
            Instruction::CZ => "CZ",
            Instruction::CNZ => "CNZ",
            Instruction::CC => "CC",
            Instruction::CNC => "CNC",
            Instruction::CGR => "CGR",
            Instruction::CLE => "CLE",
            Instruction::CEG => "CEG",
            Instruction::CEL => "CEL",
            Instruction::COV => "COV",
            Instruction::CNO => "CNO",
            Instruction::CDZ => "CDZ",
            Instruction::CN => "CN",
            Instruction::RTS => "RTS",
            Instruction::RTI => "RTI",
            Instruction::PUSH => "PUSH",
            Instruction::POP => "POP",
            Instruction::NOP => "NOP",
            Instruction::HALT => "HALT",
            Instruction::CLEARC => "CLEARC",
            Instruction::SETC => "SETC",
            Instruction::BREAKP => "BREAKP",
        }
    }
}

/// Every descriptor keeps the table's structural invariant: each bit the
/// code fixes is covered by the mask, `code & mask == code`.
pub proof fn lemma_code_within_mask(x: Instruction)
    ensures
        spec_code(x) & spec_mask(x) == spec_code(x),
{
    assert({
        &&& 0b110000_000_000_000_0u16 & 0b111111_000_000_000_0u16 == 0b110000_000_000_000_0u16
        &&& 0b111000_000_000_000_0u16 & 0b111111_000_000_000_0u16 == 0b111000_000_000_000_0u16
        &&& 0b111100_000_000_000_0u16 & 0b111111_000_000_000_0u16 == 0b111100_000_000_000_0u16
        &&& 0b110001_000_000_000_0u16 & 0b111111_000_000_000_0u16 == 0b110001_000_000_000_0u16
        &&& 0b111001_000_000_000_0u16 & 0b111111_000_000_000_0u16 == 0b111001_000_000_000_0u16
        &&& 0b111101_000_000_000_0u16 & 0b111111_000_000_000_0u16 == 0b111101_000_000_000_0u16
        &&& 0b110011_000_000_000_0u16 & 0b111111_000_000_000_0u16 == 0b110011_000_000_000_0u16
        &&& 0b111110_000_000_000_0u16 & 0b111111_000_000_000_0u16 == 0b111110_000_000_000_0u16
        &&& 0b111111_000_000_000_0u16 & 0b111111_000_000_000_0u16 == 0b111111_000_000_000_0u16
        &&& 0b110010_000_000_000_0u16 & 0b111111_000_000_000_0u16 == 0b110010_000_000_000_0u16
        &&& 0b110101_000_000_000_0u16 & 0b111111_000_000_000_0u16 == 0b110101_000_000_000_0u16
        &&& 0b110100_000_000_000_0u16 & 0b111111_000_000_000_0u16 == 0b110100_000_000_000_0u16
        &&& 0b100000_000_000_000_0u16 & 0b111111_000_000_000_1u16 == 0b100000_000_000_000_0u16
        &&& 0b100000_000_000_000_1u16 & 0b111111_000_000_000_1u16 == 0b100000_000_000_000_1u16
        &&& 0b100001_000_000_000_0u16 & 0b111111_000_000_000_1u16 == 0b100001_000_000_000_0u16
        &&& 0b100001_000_000_000_1u16 & 0b111111_000_000_000_1u16 == 0b100001_000_000_000_1u16
        &&& 0b100010_000_000_000_0u16 & 0b111111_000_000_000_1u16 == 0b100010_000_000_000_0u16
        &&& 0b100011_000_000_000_0u16 & 0b111111_000_000_000_1u16 == 0b100011_000_000_000_0u16
        &&& 0b100100_000_000_000_0u16 & 0b111111_000_100_000_0u16 == 0b100100_000_000_000_0u16
        &&& 0b100100_000_100_000_0u16 & 0b111111_000_100_000_0u16 == 0b100100_000_100_000_0u16
        &&& 0b100101_000_000_000_0u16 & 0b111111_000_000_000_0u16 == 0b100101_000_000_000_0u16
        &&& 0b010010_000_000_000_0u16 & 0b111111_000_000_000_0u16 == 0b010010_000_000_000_0u16
        &&& 0b010011_000_000_000_0u16 & 0b111111_000_000_000_0u16 == 0b010011_000_000_000_0u16
        &&& 0b010100_000_000_000_0u16 & 0b111111_000_000_000_0u16 == 0b010100_000_000_000_0u16
        &&& 0b010101_000_000_000_0u16 & 0b111111_000_000_000_0u16 == 0b010101_000_000_000_0u16
        &&& 0b010000_000_000_000_0u16 & 0b111111_000_111_000_0u16 == 0b010000_000_000_000_0u16
        &&& 0b010000_000_001_000_0u16 & 0b111111_000_111_000_0u16 == 0b010000_000_001_000_0u16
        &&& 0b010000_000_010_000_0u16 & 0b111111_000_111_000_0u16 == 0b010000_000_010_000_0u16
        &&& 0b010000_000_011_000_0u16 & 0b111111_000_111_000_0u16 == 0b010000_000_011_000_0u16
        &&& 0b010000_000_100_000_0u16 & 0b111111_000_110_000_0u16 == 0b010000_000_100_000_0u16
        &&& 0b010000_000_110_000_0u16 & 0b111111_000_110_000_0u16 == 0b010000_000_110_000_0u16
        &&& 0b010110_000_000_000_0u16 & 0b111111_000_000_000_0u16 == 0b010110_000_000_000_0u16
        &&& 0b000010_000_000_000_0u16 & 0b111111_111_100_000_0u16 == 0b000010_000_000_000_0u16
        &&& 0b000010_000_100_000_0u16 & 0b111111_111_100_000_0u16 == 0b000010_000_100_000_0u16
        &&& 0b000010_001_000_000_0u16 & 0b111111_111_100_000_0u16 == 0b000010_001_000_000_0u16
        &&& 0b000010_001_100_000_0u16 & 0b111111_111_100_000_0u16 == 0b000010_001_100_000_0u16
        &&& 0b000010_010_000_000_0u16 & 0b111111_111_100_000_0u16 == 0b000010_010_000_000_0u16
        &&& 0b000010_010_100_000_0u16 & 0b111111_111_100_000_0u16 == 0b000010_010_100_000_0u16
        &&& 0b000010_011_000_000_0u16 & 0b111111_111_100_000_0u16 == 0b000010_011_000_000_0u16
        &&& 0b000010_011_100_000_0u16 & 0b111111_111_100_000_0u16 == 0b000010_011_100_000_0u16
        &&& 0b000010_100_000_000_0u16 & 0b111111_111_100_000_0u16 == 0b000010_100_000_000_0u16
        &&& 0b000010_100_100_000_0u16 & 0b111111_111_100_000_0u16 == 0b000010_100_100_000_0u16
        &&& 0b000010_101_000_000_0u16 & 0b111111_111_100_000_0u16 == 0b000010_101_000_000_0u16
        &&& 0b000010_101_100_000_0u16 & 0b111111_111_100_000_0u16 == 0b000010_101_100_000_0u16
        &&& 0b000010_110_000_000_0u16 & 0b111111_111_100_000_0u16 == 0b000010_110_000_000_0u16
        &&& 0b000010_110_100_000_0u16 & 0b111111_111_100_000_0u16 == 0b000010_110_100_000_0u16
        &&& 0b000010_111_000_000_0u16 & 0b111111_111_100_000_0u16 == 0b000010_111_000_000_0u16
        &&& 0b000011_000_000_000_0u16 & 0b111111_111_100_000_0u16 == 0b000011_000_000_000_0u16
        &&& 0b000011_000_100_000_0u16 & 0b111111_111_100_000_0u16 == 0b000011_000_100_000_0u16
        &&& 0b000011_001_000_000_0u16 & 0b111111_111_100_000_0u16 == 0b000011_001_000_000_0u16
        &&& 0b000011_001_100_000_0u16 & 0b111111_111_100_000_0u16 == 0b000011_001_100_000_0u16
        &&& 0b000011_010_000_000_0u16 & 0b111111_111_100_000_0u16 == 0b000011_010_000_000_0u16
        &&& 0b000011_010_100_000_0u16 & 0b111111_111_100_000_0u16 == 0b000011_010_100_000_0u16
        &&& 0b000011_011_000_000_0u16 & 0b111111_111_100_000_0u16 == 0b000011_011_000_000_0u16
        &&& 0b000011_011_100_000_0u16 & 0b111111_111_100_000_0u16 == 0b000011_011_100_000_0u16
        &&& 0b000011_100_000_000_0u16 & 0b111111_111_100_000_0u16 == 0b000011_100_000_000_0u16
        &&& 0b000011_100_100_000_0u16 & 0b111111_111_100_000_0u16 == 0b000011_100_100_000_0u16
        &&& 0b000011_101_000_000_0u16 & 0b111111_111_100_000_0u16 == 0b000011_101_000_000_0u16
        &&& 0b000011_101_100_000_0u16 & 0b111111_111_100_000_0u16 == 0b000011_101_100_000_0u16
        &&& 0b000011_110_000_000_0u16 & 0b111111_111_100_000_0u16 == 0b000011_110_000_000_0u16
        &&& 0b000011_110_100_000_0u16 & 0b111111_111_100_000_0u16 == 0b000011_110_100_000_0u16
        &&& 0b000011_111_000_000_0u16 & 0b111111_111_100_000_0u16 == 0b000011_111_000_000_0u16
        &&& 0b000100_000_000_000_0u16 & 0b111111_000_000_000_1u16 == 0b000100_000_000_000_0u16
        &&& 0b000100_000_000_000_1u16 & 0b111111_000_000_000_1u16 == 0b000100_000_000_000_1u16
        &&& 0b000101_000_000_000_0u16 & 0b111111_000_000_000_0u16 == 0b000101_000_000_000_0u16
        &&& 0b000110_000_000_000_0u16 & 0b111111_000_000_000_0u16 == 0b000110_000_000_000_0u16
        &&& 0b000000_000_000_000_0u16 & 0b111111_000_000_000_0u16 == 0b000000_000_000_000_0u16
        &&& 0b001111_000_000_000_0u16 & 0b111111_000_000_000_0u16 == 0b001111_000_000_000_0u16
        &&& 0b001000_000_000_000_0u16 & 0b111111_100_000_000_0u16 == 0b001000_000_000_000_0u16
        &&& 0b001000_100_000_000_0u16 & 0b111111_100_000_000_0u16 == 0b001000_100_000_000_0u16
        &&& 0b001110_000_000_000_0u16 & 0b111111_000_000_000_0u16 == 0b001110_000_000_000_0u16
    }) by (bit_vector);
}

impl Instruction {
    /// The fixed-bit pattern that defines this instruction's encoding.
    pub fn code(&self) -> (c: u16)
        ensures
            c == spec_code(*self),
    {
        self.descriptor().code
    }

    /// The significance mask of this instruction's descriptor.
    pub fn mask(&self) -> (m: u16)
        ensures
            m == spec_mask(*self),
    {
        self.descriptor().mask
    }

    /// The opcode of the instruction: the fixed 6-bit family selector in bits
    /// 10 through 15 of the defining code. It is the same for every
    /// instruction of a family, however wide that instruction's own mask is.
    pub fn opcode(&self) -> (c: u16)
        ensures
            c == spec_opcode(*self),
            c < 64,
    {
        let d = self.descriptor();
        let r = BitRange::new(10, 15);
        let c = bits(d.code, r);
        proof {
            assert((1u32 << span_width(10u16, 15u16)) == 64u32) by (bit_vector);
        }
        c
    }

    /// Classifies the raw word `v`: scans the descriptor table in declared
    /// order and returns the instruction of the first descriptor whose masked
    /// comparison succeeds. When none does, reports the word as invalid,
    /// carrying the word itself.
    pub fn get_instruction(v: u16) -> (r: Result<Instruction, InvalidInstruction>)
        ensures
            r == spec_decode(v),
    {
        let table = descriptor_table();
        let n: usize = table.len();
        let mut k: usize = 0;
        while k < n
            invariant
                table@ == spec_table(),
                n == table@.len(),
                k <= n,
                first_match_from(v, spec_table(), 0) == first_match_from(v, spec_table(), k as int),
            decreases n - k,
        {
            let d = table[k];
            if v & d.mask == d.code {
                proof {
                    assert(matches_desc(v, spec_table()[k as int]));
                    assert(first_match_from(v, spec_table(), k as int) == Some(k as int));
                }
                return Ok(d.instr);
            }
            proof {
                assert(first_match_from(v, spec_table(), k as int) == first_match_from(
                    v,
                    spec_table(),
                    k as int + 1,
                ));
            }
            k = k + 1;
        }
        proof {
            assert(first_match_from(v, spec_table(), k as int) is None);
        }
        Err(InvalidInstruction { code: v })
    }
}

impl Default for Instruction {
    /// The default instruction is `NOP`.
    fn default() -> (r: Self)
        ensures
            r == Instruction::NOP,
    {
        Instruction::NOP
    }
}

/// The instruction table as an ordered array of descriptor records, in the
/// declared order that decides match priority.
pub fn descriptor_table() -> (t: Vec<Descriptor>)
    ensures
        t@ == spec_table(),
{
    let mut t: Vec<Descriptor> = Vec::new();
    let mut k: usize = 0;
    while k < INSTRUCTION_COUNT
        invariant
            t@.len() == k,
            k <= INSTRUCTION_COUNT,
            forall|j: int| 0 <= j < k ==> t@[j] == spec_table()[j],
        decreases INSTRUCTION_COUNT - k,
    {
        let x = instruction_at(k);
        let d = x.descriptor();
        t.push(d);
        k = k + 1;
    }
    proof {
        assert(t@ =~= spec_table());
    }
    t
}

/// The table keeps its structural invariant at every position: each bit an
/// entry's code fixes is covered by that entry's mask.
pub proof fn lemma_table_invariant()
    ensures
        forall|k: int|
            0 <= k < spec_table().len() ==> (#[trigger] spec_table()[k]).code & spec_table()[
                k
            ].mask == spec_table()[k].code,
{
    assert forall|k: int|
        0 <= k < spec_table().len() implies (#[trigger] spec_table()[k]).code & spec_table()[
        k
    ].mask == spec_table()[k].code by {
        lemma_code_within_mask(spec_instruction_at(k));
    }
}

/// Decoding is deterministic: the classification is a function of the raw
/// word alone, so identical raw words always classify identically.
pub proof fn lemma_decode_deterministic(v1: u16, v2: u16)
    requires
        v1 == v2,
    ensures
        spec_decode(v1) == spec_decode(v2),
{
}

proof fn lemma_first_match_earliest(v: u16, t: Seq<Descriptor>, i: int, j: int)
    requires
        0 <= i <= j < t.len(),
        matches_desc(v, t[j]),
    ensures
        first_match_from(v, t, i) matches Some(m) && i <= m <= j && matches_desc(v, t[m]) && (
        forall|k: int| i <= k < m ==> !matches_desc(v, t[k])),
    decreases j - i,
{
    if !matches_desc(v, t[i]) {
        lemma_first_match_earliest(v, t, i + 1, j);
    }
}

/// Decode honors declared priority: whenever position `j` of the table
/// matches the word, decoding succeeds with the instruction of the earliest
/// matching position, which lies no later than `j`; every position before it
/// fails to match.
pub proof fn lemma_decode_priority(v: u16, j: int)
    requires
        0 <= j < spec_table().len(),
        matches_desc(v, spec_table()[j]),
    ensures
        first_match_from(v, spec_table(), 0) matches Some(m) && 0 <= m <= j && matches_desc(
            v,
            spec_table()[m],
        ) && spec_decode(v) == Ok::<Instruction, InvalidInstruction>(spec_table()[m].instr) && (
        forall|k: int| 0 <= k < m ==> !matches_desc(v, spec_table()[k])),
{
    lemma_first_match_earliest(v, spec_table(), 0, j);
}

proof fn lemma_first_match_none(v: u16, t: Seq<Descriptor>, i: int)
    requires
        0 <= i <= t.len(),
        forall|k: int| i <= k < t.len() ==> !matches_desc(v, t[k]),
    ensures
        first_match_from(v, t, i) is None,
    decreases t.len() - i,
{
    if i < t.len() {
        lemma_first_match_none(v, t, i + 1);
    }
}

/// A word matching no descriptor of the table decodes to the error carrying
/// exactly that word.
pub proof fn lemma_decode_no_match(v: u16)
    requires
        forall|k: int| 0 <= k < spec_table().len() ==> !matches_desc(v, spec_table()[k]),
    ensures
        spec_decode(v) == Err::<Instruction, InvalidInstruction>((InvalidInstruction { code: v })),
{
    lemma_first_match_none(v, spec_table(), 0);
}

/// Instructions of one family share their opcode: when two defining codes
/// agree on bits 10 through 15, the extracted opcodes are equal, however the
/// two instructions' own masks differ below those bits.
pub proof fn lemma_opcode_family(a: Instruction, b: Instruction)
    requires
        spec_code(a) >> 10 == spec_code(b) >> 10,
    ensures
        spec_opcode(a) == spec_opcode(b),
{
    let ca: u16 = spec_code(a);
    let cb: u16 = spec_code(b);
    assert(extract_bits(ca, 10, 15) == extract_bits(cb, 10, 15)) by (bit_vector)
        requires
            ca >> 10 == cb >> 10,
    ;
}

} // verus!
