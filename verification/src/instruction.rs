//! The instruction set: which byte selects which operation, and how many
//! operand bytes follow it.

use vstd::prelude::*;
use vstd::std_specs::convert::FromSpecImpl;

verus! {

/// The operation selected by the first byte of an instruction.
#[derive(Debug, PartialEq, Eq, Clone, Copy, Structural)]
pub enum Opcode {
    /// Stop the machine.
    HLT,
    /// Load a 16-bit immediate into a register.
    LOAD,
    /// Add two registers into a third.
    ADD,
    /// Multiply two registers into a third.
    MUL,
    /// Divide one register by another into a third, keeping the remainder.
    DIV,
    /// Jump to an absolute offset.
    JMP,
    /// Jump forward by a relative offset.
    JMPF,
    /// Jump backward by a relative offset.
    JMPB,
    /// Compare two registers for equality.
    EQ,
    /// Jump to an absolute offset if the last comparison was equal.
    JEQ,
    /// Jump to an absolute offset if the last comparison was not equal.
    JNE,
    /// Do nothing.
    NOP,
    /// Any byte that selects no operation.
    IGL,
}

/// An instruction, identified by its opcode.
#[derive(Debug, PartialEq, Eq, Clone, Copy, Structural)]
pub struct Instruction {
    pub opcode: Opcode,
}

/// The opcode that a byte of the program stands for. Bytes 0 to 11 are
/// assigned; every other byte is illegal.
pub open spec fn decode(byte: u8) -> Opcode {
    if byte == 0 {
        Opcode::HLT
    } else if byte == 1 {
        Opcode::LOAD
    } else if byte == 2 {
        Opcode::ADD
    } else if byte == 3 {
        Opcode::MUL
    } else if byte == 4 {
        Opcode::DIV
    } else if byte == 5 {
        Opcode::JMP
    } else if byte == 6 {
        Opcode::JMPF
    } else if byte == 7 {
        Opcode::JMPB
    } else if byte == 8 {
        Opcode::EQ
    } else if byte == 9 {
        Opcode::JEQ
    } else if byte == 10 {
        Opcode::JNE
    } else if byte == 11 {
        Opcode::NOP
    } else {
        Opcode::IGL
    }
}

/// The number of operand bytes that follow an opcode byte.
pub open spec fn operand_len(opcode: Opcode) -> nat {
    match opcode {
        Opcode::LOAD | Opcode::ADD | Opcode::MUL | Opcode::DIV => 3,
        Opcode::EQ => 2,
        Opcode::JMP | Opcode::JMPF | Opcode::JMPB | Opcode::JEQ | Opcode::JNE => 1,
        Opcode::HLT | Opcode::NOP | Opcode::IGL => 0,
    }
}

impl Instruction {
    /// Wraps an opcode.
    pub fn new(opcode: Opcode) -> (instruction: Instruction)
        ensures
            instruction.opcode == opcode,
    {
        Instruction { opcode }
    }
}

impl From<u8> for Opcode {
    /// Decodes one byte of a program.
    fn from(v: u8) -> (opcode: Self) {
        match v {
            0 => Opcode::HLT,
            1 => Opcode::LOAD,
            2 => Opcode::ADD,
            3 => Opcode::MUL,
            4 => Opcode::DIV,
            5 => Opcode::JMP,
            6 => Opcode::JMPF,
            7 => Opcode::JMPB,
            8 => Opcode::EQ,
            9 => Opcode::JEQ,
            10 => Opcode::JNE,
            11 => Opcode::NOP,
            _ => Opcode::IGL,
        }
    }
}

impl FromSpecImpl<u8> for Opcode {
    open spec fn obeys_from_spec() -> bool {
        true
    }

    open spec fn from_spec(v: u8) -> Self {
        decode(v)
    }
}

/// Decoding is total, and only the bytes 12 to 255 are illegal.
pub proof fn law_decode_illegal(byte: u8)
    ensures
        decode(byte) == Opcode::IGL <==> byte >= 12,
{
}

} // verus!
