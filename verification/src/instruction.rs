//! The opcode table: a total map from a byte to the operation it names.
use vstd::prelude::*;
use vstd::std_specs::convert::FromSpecImpl;

verus! {

/// The operations of the machine. `IGL` stands for every byte that names none.
#[derive(Clone, Copy, Debug, PartialEq, Eq, Structural)]
pub enum Opcode {
    HLT,
    LOAD,
    ADD,
    SUB,
    MUL,
    DIV,
    JMP,
    JMPF,
    JMPB,
    EQ,
    NEQ,
    GT,
    LT,
    GTQ,
    LTQ,
    JEQ,
    IGL,
}

impl Opcode {
    /// The operation that `byte` names: the bytes 0 to 15 name one each, in the order of
    /// the enumeration, and every other byte is illegal.
    pub open spec fn of_byte(byte: u8) -> Opcode {
        match byte {
            0 => Opcode::HLT,
            1 => Opcode::LOAD,
            2 => Opcode::ADD,
            3 => Opcode::SUB,
            4 => Opcode::MUL,
            5 => Opcode::DIV,
            6 => Opcode::JMP,
            7 => Opcode::JMPF,
            8 => Opcode::JMPB,
            9 => Opcode::EQ,
            10 => Opcode::NEQ,
            11 => Opcode::GT,
            12 => Opcode::LT,
            13 => Opcode::GTQ,
            14 => Opcode::LTQ,
            15 => Opcode::JEQ,
            _ => Opcode::IGL,
        }
    }

    /// How many operand bytes follow the opcode byte in the encoding.
    ///
    /// The comparisons take three although they read two registers: their last byte is
    /// padding. An illegal byte stands alone.
    pub open spec fn operand_bytes(self) -> nat {
        match self {
            Opcode::HLT | Opcode::IGL => 0,
            Opcode::JMP | Opcode::JMPF | Opcode::JMPB | Opcode::JEQ => 1,
            _ => 3,
        }
    }

    /// The number of operand bytes that follow this opcode.
    pub fn operand_width(self) -> (width: usize)
        ensures
            width == self.operand_bytes(),
    {
        match self {
            Opcode::HLT | Opcode::IGL => 0,
            Opcode::JMP | Opcode::JMPF | Opcode::JMPB | Opcode::JEQ => 1,
            _ => 3,
        }
    }
}

impl From<u8> for Opcode {
    fn from(v: u8) -> (opcode: Opcode)
        ensures
            opcode == Opcode::of_byte(v),
    {
        match v {
            0 => Opcode::HLT,
            1 => Opcode::LOAD,
            2 => Opcode::ADD,
            3 => Opcode::SUB,
            4 => Opcode::MUL,
            5 => Opcode::DIV,
            6 => Opcode::JMP,
            7 => Opcode::JMPF,
            8 => Opcode::JMPB,
            9 => Opcode::EQ,
            10 => Opcode::NEQ,
            11 => Opcode::GT,
            12 => Opcode::LT,
            13 => Opcode::GTQ,
            14 => Opcode::LTQ,
            15 => Opcode::JEQ,
            _ => Opcode::IGL,
        }
    }
}

impl FromSpecImpl<u8> for Opcode {
    open spec fn obeys_from_spec() -> bool {
        true
    }

    open spec fn from_spec(v: u8) -> Opcode {
        Opcode::of_byte(v)
    }
}

} // verus!
